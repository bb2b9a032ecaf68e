//! Wire framing of versioned values: one version byte, then the encoded body.
use vstd::prelude::*;

verus! {

/// The one version that every versioned type currently has.
pub const CURRENT_VERSION: u8 = 1;

/// Why a versioned frame could not be read.
#[derive(Debug, Clone, Copy, PartialEq, Eq, Structural)]
pub enum VersionError {
    /// The input holds no version byte.
    Empty,
    /// The version byte names a version that is not supported.
    UnsupportedVersion(u8),
}

/// The frame of `body` under `version`.
pub open spec fn framed(version: u8, body: Seq<u8>) -> Seq<u8> {
    seq![version] + body
}

/// The body of a frame, when its version is `supported`.
pub open spec fn unframed(bytes: Seq<u8>, supported: u8) -> Result<Seq<u8>, VersionError> {
    if bytes.len() == 0 {
        Err(VersionError::Empty)
    } else if bytes[0] != supported {
        Err(VersionError::UnsupportedVersion(bytes[0]))
    } else {
        Ok(bytes.drop_first())
    }
}

/// Writes the version byte followed by the body.
pub fn encode_versioned(version: u8, body: &[u8]) -> (r: Vec<u8>)
    ensures
        r@ == framed(version, body@),
{
    let mut r: Vec<u8> = Vec::new();
    r.push(version);
    let mut i: usize = 0;
    while i < body.len()
        invariant
            i <= body@.len(),
            r@ == framed(version, body@.subrange(0, i as int)),
        decreases body@.len() - i,
    {
        r.push(body[i]);
        i = i + 1;
        assert(r@ =~= framed(version, body@.subrange(0, i as int)));
    }
    assert(body@.subrange(0, i as int) =~= body@);
    r
}

/// Reads the version byte and returns the body when the version is
/// `supported`.
pub fn decode_versioned(bytes: &[u8], supported: u8) -> (r: Result<Vec<u8>, VersionError>)
    ensures
        match r {
            Ok(body) => unframed(bytes@, supported) == Ok::<Seq<u8>, VersionError>(body@),
            Err(e) => unframed(bytes@, supported) == Err::<Seq<u8>, VersionError>(e),
        },
{
    if bytes.len() == 0 {
        return Err(VersionError::Empty);
    }
    if bytes[0] != supported {
        return Err(VersionError::UnsupportedVersion(bytes[0]));
    }
    let mut body: Vec<u8> = Vec::new();
    let mut i: usize = 1;
    while i < bytes.len()
        invariant
            1 <= i <= bytes@.len(),
            body@ == bytes@.subrange(1, i as int),
        decreases bytes@.len() - i,
    {
        body.push(bytes[i]);
        i = i + 1;
        assert(body@ =~= bytes@.subrange(1, i as int));
    }
    assert(body@ =~= bytes@.drop_first());
    Ok(body)
}

/// Reading a frame written under the supported version gives the body back;
/// under any other version it fails, naming that version.
pub proof fn lemma_frame_round_trip(version: u8, body: Seq<u8>, supported: u8)
    ensures
        version == supported ==> unframed(framed(version, body), supported) == Ok::<
            Seq<u8>,
            VersionError,
        >(body),
        version != supported ==> unframed(framed(version, body), supported) == Err::<
            Seq<u8>,
            VersionError,
        >(VersionError::UnsupportedVersion(version)),
{
    assert(framed(version, body).drop_first() =~= body);
}

} // verus!
