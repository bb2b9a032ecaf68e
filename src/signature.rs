//! Signatures over a payload and the ordered set that holds them.
use vstd::prelude::*;
use core::cmp::Ordering;

verus! {

/// Whether two byte strings are equal.
pub fn bytes_equal(a: &Vec<u8>, b: &Vec<u8>) -> (r: bool)
    ensures
        r == (a@ == b@),
{
    if a.len() != b.len() {
        return false;
    }
    let mut i: usize = 0;
    while i < a.len()
        invariant
            i <= a@.len(),
            a@.len() == b@.len(),
            forall|j: int| 0 <= j < i ==> a@[j] == b@[j],
        decreases a@.len() - i,
    {
        if a[i] != b[i] {
            return false;
        }
        i = i + 1;
    }
    assert(a@ =~= b@);
    true
}

/// `k` is where `a` and `b` part: they agree before it, and at `k` one of
/// them ends or their bytes differ.
pub open spec fn parts_at(a: Seq<u8>, b: Seq<u8>, k: int) -> bool {
    &&& 0 <= k <= a.len()
    &&& k <= b.len()
    &&& forall|i: int| 0 <= i < k ==> a[i] == b[i]
    &&& (k == a.len() || k == b.len() || a[k] != b[k])
}

/// Lexicographic order on byte strings: at the place where they part, `a`
/// has ended or holds the smaller byte, and `b` goes on.
pub open spec fn bytes_lt(a: Seq<u8>, b: Seq<u8>) -> bool {
    exists|k: int| parts_at(a, b, k) && k < b.len() && (k == a.len() || a[k] < b[k])
}

/// Two byte strings part at one place only.
proof fn lemma_parting_unique(a: Seq<u8>, b: Seq<u8>, k1: int, k2: int)
    requires
        parts_at(a, b, k1),
        parts_at(a, b, k2),
    ensures
        k1 == k2,
{
    if k1 < k2 {
        assert(a[k1] == b[k1]);
    } else if k2 < k1 {
        assert(a[k2] == b[k2]);
    }
}

/// Two byte strings part somewhere at or after `from`, when they agree before it.
proof fn lemma_parting_exists(a: Seq<u8>, b: Seq<u8>, from: int) -> (k: int)
    requires
        0 <= from <= a.len(),
        from <= b.len(),
        forall|i: int| 0 <= i < from ==> a[i] == b[i],
    ensures
        parts_at(a, b, k),
    decreases a.len() - from,
{
    if from == a.len() || from == b.len() || a[from] != b[from] {
        from
    } else {
        lemma_parting_exists(a, b, from + 1)
    }
}

/// Exactly one of `a < b`, `a == b`, `b < a` holds.
proof fn lemma_bytes_trichotomy(a: Seq<u8>, b: Seq<u8>)
    ensures
        bytes_lt(a, b) || a == b || bytes_lt(b, a),
        !(bytes_lt(a, b) && a == b),
        !(bytes_lt(b, a) && a == b),
        !(bytes_lt(a, b) && bytes_lt(b, a)),
{
    let k = lemma_parting_exists(a, b, 0);
    assert(parts_at(b, a, k));
    if k == a.len() && k == b.len() {
        assert(a =~= b);
    } else if k == a.len() {
        assert(bytes_lt(a, b));
    } else if k == b.len() {
        assert(bytes_lt(b, a));
    } else if a[k] < b[k] {
        assert(bytes_lt(a, b));
    } else {
        assert(bytes_lt(b, a));
    }
    if bytes_lt(a, b) {
        let k1 = choose|k1: int| parts_at(a, b, k1) && k1 < b.len() && (k1 == a.len() || a[k1] < b[k1]);
        lemma_parting_unique(a, b, k, k1);
    }
    if bytes_lt(b, a) {
        let k2 = choose|k2: int| parts_at(b, a, k2) && k2 < a.len() && (k2 == b.len() || b[k2] < a[k2]);
        assert(parts_at(a, b, k2));
        lemma_parting_unique(a, b, k, k2);
    }
}

/// The order on byte strings is transitive.
proof fn lemma_bytes_transitive(a: Seq<u8>, b: Seq<u8>, c: Seq<u8>)
    requires
        bytes_lt(a, b),
        bytes_lt(b, c),
    ensures
        bytes_lt(a, c),
{
    let k1 = choose|k: int| parts_at(a, b, k) && k < b.len() && (k == a.len() || a[k] < b[k]);
    let k2 = choose|k: int| parts_at(b, c, k) && k < c.len() && (k == b.len() || b[k] < c[k]);
    let k = if k1 < k2 { k1 } else { k2 };
    assert(parts_at(a, c, k) && k < c.len() && (k == a.len() || a[k] < c[k]));
}

/// Compares two byte strings in lexicographic order.
pub fn compare_bytes(a: &Vec<u8>, b: &Vec<u8>) -> (r: Ordering)
    ensures
        (r == Ordering::Less) == bytes_lt(a@, b@),
        (r == Ordering::Equal) == (a@ == b@),
        (r == Ordering::Greater) == bytes_lt(b@, a@),
{
    let mut i: usize = 0;
    while i < a.len() && i < b.len() && a[i] == b[i]
        invariant
            i <= a@.len(),
            i <= b@.len(),
            forall|j: int| 0 <= j < i ==> a@[j] == b@[j],
        decreases a@.len() - i,
    {
        i = i + 1;
    }
    proof {
        lemma_bytes_trichotomy(a@, b@);
        assert(parts_at(a@, b@, i as int));
        assert(parts_at(b@, a@, i as int));
    }
    if i == a.len() && i == b.len() {
        proof {
            assert(a@ =~= b@);
        }
        Ordering::Equal
    } else if i == a.len() {
        Ordering::Less
    } else if i == b.len() {
        Ordering::Greater
    } else if a[i] < b[i] {
        Ordering::Less
    } else {
        Ordering::Greater
    }
}

/// A signature over a payload, with the public key that checks it.
#[derive(Debug, Clone, PartialEq, Eq)]
pub struct Signature {
    /// Public key of the signer.
    pub public_key: Vec<u8>,
    /// Signature bytes.
    pub payload: Vec<u8>,
}

/// Mathematical value of a [`Signature`].
pub struct SignatureModel {
    pub public_key: Seq<u8>,
    pub payload: Seq<u8>,
}

impl View for Signature {
    type V = SignatureModel;

    open spec fn view(&self) -> SignatureModel {
        SignatureModel { public_key: self.public_key@, payload: self.payload@ }
    }
}

/// Order of signatures: by public key, then by signature bytes.
pub open spec fn signature_lt(x: SignatureModel, y: SignatureModel) -> bool {
    bytes_lt(x.public_key, y.public_key) || (x.public_key == y.public_key && bytes_lt(
        x.payload,
        y.payload,
    ))
}

/// Exactly one of `x < y`, `x == y`, `y < x` holds.
pub proof fn lemma_signature_trichotomy(x: SignatureModel, y: SignatureModel)
    ensures
        signature_lt(x, y) || x == y || signature_lt(y, x),
        !(signature_lt(x, y) && x == y),
        !(signature_lt(x, y) && signature_lt(y, x)),
{
    lemma_bytes_trichotomy(x.public_key, y.public_key);
    lemma_bytes_trichotomy(x.payload, y.payload);
}

/// The order of signatures is transitive.
pub proof fn lemma_signature_transitive(x: SignatureModel, y: SignatureModel, z: SignatureModel)
    requires
        signature_lt(x, y),
        signature_lt(y, z),
    ensures
        signature_lt(x, z),
{
    if bytes_lt(x.public_key, y.public_key) && bytes_lt(y.public_key, z.public_key) {
        lemma_bytes_transitive(x.public_key, y.public_key, z.public_key);
    } else if x.public_key == y.public_key && y.public_key == z.public_key {
        lemma_bytes_transitive(x.payload, y.payload, z.payload);
    }
}

impl Signature {
    /// Compares two signatures: by public key, then by signature bytes.
    pub fn compare(&self, other: &Signature) -> (r: Ordering)
        ensures
            (r == Ordering::Less) == signature_lt(self@, other@),
            (r == Ordering::Equal) == (self@ == other@),
            (r == Ordering::Greater) == signature_lt(other@, self@),
    {
        proof {
            lemma_bytes_trichotomy(self.public_key@, other.public_key@);
        }
        match compare_bytes(&self.public_key, &other.public_key) {
            Ordering::Equal => compare_bytes(&self.payload, &other.payload),
            o => o,
        }
    }
}

/// Signatures over one payload, each held once, in ascending order.
#[derive(Debug, Clone, PartialEq, Eq)]
pub struct SignatureSet {
    signatures: Vec<Signature>,
}

impl View for SignatureSet {
    type V = Seq<SignatureModel>;

    closed spec fn view(&self) -> Seq<SignatureModel> {
        self.signatures@.map_values(|s: Signature| s@)
    }
}

impl SignatureSet {
    /// The signatures stand in strictly ascending order, so none is held twice.
    pub open spec fn wf(&self) -> bool {
        forall|i: int, j: int| 0 <= i < j < self@.len() ==> signature_lt(self@[i], self@[j])
    }

    /// The set without signatures.
    pub fn new() -> (r: SignatureSet)
        ensures
            r.wf(),
            r@ == Seq::<SignatureModel>::empty(),
    {
        let r = SignatureSet { signatures: Vec::new() };
        assert(r@ =~= Seq::<SignatureModel>::empty());
        r
    }

    /// The signatures, in ascending order.
    pub fn signatures(&self) -> (r: &Vec<Signature>)
        ensures
            r@.map_values(|s: Signature| s@) == self@,
    {
        &self.signatures
    }

    /// Number of signatures.
    pub fn len(&self) -> (r: usize)
        ensures
            r == self@.len(),
    {
        self.signatures.len()
    }

    /// Whether `s` is held.
    pub fn contains(&self, s: &Signature) -> (r: bool)
        ensures
            r == self@.contains(s@),
    {
        let mut i: usize = 0;
        while i < self.signatures.len()
            invariant
                i <= self.signatures@.len(),
                forall|j: int| 0 <= j < i ==> self@[j] != s@,
            decreases self.signatures@.len() - i,
        {
            assert(self@[i as int] == self.signatures@[i as int]@);
            if matches!(self.signatures[i].compare(s), Ordering::Equal) {
                return true;
            }
            i = i + 1;
        }
        false
    }

    /// Adds `s` at its place in the order, unless it is already held.
    pub fn insert(&mut self, s: Signature)
        requires
            old(self).wf(),
        ensures
            final(self).wf(),
            final(self)@.to_set() == old(self)@.to_set().insert(s@),
            old(self)@.contains(s@) ==> final(self)@ == old(self)@,
            !old(self)@.contains(s@) ==> final(self)@.len() == old(self)@.len() + 1,
    {
        let ghost x = s@;
        let n = self.signatures.len();
        let mut p: usize = 0;
        let mut ahead = true;
        while ahead && p < n
            invariant
                x == s@,
                n == self@.len(),
                p <= n,
                forall|i: int| 0 <= i < p ==> signature_lt(#[trigger] self@[i], x),
                !ahead ==> p < n && !signature_lt(self@[p as int], x),
            decreases n - p + if ahead { 1int } else { 0int },
        {
            proof {
                assert(self@[p as int] == self.signatures@[p as int]@);
            }
            let c = self.signatures[p].compare(&s);
            if matches!(c, Ordering::Less) {
                p = p + 1;
            } else {
                ahead = false;
            }
        }
        proof {
            if p < n {
                assert(self@[p as int] == self.signatures@[p as int]@);
            }
        }
        if p < n && matches!(self.signatures[p].compare(&s), Ordering::Equal) {
            assert(self@[p as int] == x);
            assert(self@.contains(x));
            assert(self@.to_set() =~= self@.to_set().insert(x));
            return;
        }
        let ghost before = self@;
        proof {
            if p < n {
                lemma_signature_trichotomy(before[p as int], x);
            }
            assert forall|j: int| p <= j < n implies signature_lt(x, #[trigger] before[j]) by {
                lemma_signature_trichotomy(before[p as int], x);
                if j > p {
                    lemma_signature_transitive(x, before[p as int], before[j]);
                }
            }
            assert(!before.contains(x)) by {
                if before.contains(x) {
                    let j = choose|j: int| 0 <= j < before.len() && before[j] == x;
                    lemma_signature_trichotomy(x, x);
                }
            }
        }
        self.signatures.insert(p, s);
        assert(self@ =~= before.insert(p as int, x));
        assert forall|y: SignatureModel| self@.contains(y) <==> before.contains(y) || y == x by {
            if before.contains(y) {
                let j = choose|j: int| 0 <= j < before.len() && before[j] == y;
                if j < p {
                    assert(self@[j] == y);
                } else {
                    assert(self@[j + 1] == y);
                }
            }
            if y == x {
                assert(self@[p as int] == x);
            }
        }
        assert(self@.to_set() =~= before.to_set().insert(x));
    }
}

} // verus!
