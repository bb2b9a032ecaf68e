//! Account identifiers: `name@domain`, each part a valid name.
use vstd::prelude::*;
use crate::text::{
    after, before, find_single, joined, lemma_joined_splits, single_index, slice, ParseError,
};

verus! {

/// Whitespace that a name may not hold.
pub open spec fn is_space(c: char) -> bool {
    c == ' ' || c == '\t' || c == '\n' || c == '\r' || c == '\x0b' || c == '\x0c'
}

/// Characters that a name may not hold.
pub open spec fn is_forbidden_in_name(c: char) -> bool {
    c == '@' || c == '#' || c == '$' || is_space(c)
}

/// A name is non-empty and holds no whitespace, `@`, `#` or `$`.
pub open spec fn valid_name(s: Seq<char>) -> bool {
    &&& s.len() > 0
    &&& forall|i: int| 0 <= i < s.len() ==> !is_forbidden_in_name(#[trigger] s[i])
}

/// The error that the name grammar gives for `s`, if any.
pub open spec fn name_check(s: Seq<char>) -> Result<(), ParseError> {
    if s.len() == 0 {
        Err(ParseError { reason: "`Name` cannot be empty" })
    } else if !valid_name(s) {
        Err(ParseError { reason: "`Name` holds whitespace or a reserved character" })
    } else {
        Ok(())
    }
}

/// Checks the name grammar.
pub fn validate_name(s: &str) -> (r: Result<(), ParseError>)
    ensures
        r == name_check(s@),
        r is Ok <==> valid_name(s@),
{
    let n = s.unicode_len();
    if n == 0 {
        return Err(ParseError { reason: "`Name` cannot be empty" });
    }
    let mut i: usize = 0;
    while i < n
        invariant
            n == s@.len(),
            i <= n,
            forall|j: int| 0 <= j < i ==> !is_forbidden_in_name(#[trigger] s@[j]),
        decreases n - i,
    {
        let c = s.get_char(i);
        if c == '@' || c == '#' || c == '$' || c == ' ' || c == '\t' || c == '\n' || c == '\r'
            || c == '\x0b' || c == '\x0c' {
            return Err(ParseError { reason: "`Name` holds whitespace or a reserved character" });
        }
        i = i + 1;
    }
    Ok(())
}

/// Identification of an account: its name and the domain it lives in.
#[derive(Debug, Clone, PartialEq, Eq)]
pub struct AccountId {
    /// Name of the account inside its domain.
    pub name: String,
    /// Name of the domain.
    pub domain_id: String,
}

/// Mathematical value of an [`AccountId`].
pub struct AccountIdModel {
    pub name: Seq<char>,
    pub domain_id: Seq<char>,
}

impl View for AccountId {
    type V = AccountIdModel;

    open spec fn view(&self) -> AccountIdModel {
        AccountIdModel { name: self.name@, domain_id: self.domain_id@ }
    }
}

/// Both parts of the account id follow the name grammar.
pub open spec fn valid_account_id(a: AccountIdModel) -> bool {
    valid_name(a.name) && valid_name(a.domain_id)
}

/// Text form `name@domain`.
pub open spec fn account_id_text(a: AccountIdModel) -> Seq<char> {
    joined(a.name, '@', a.domain_id)
}

/// The account id that a text denotes when it follows `name@domain`, else
/// the error that parsing gives: the format's, or that of the first part
/// that breaks the name grammar.
pub open spec fn account_id_from_text(s: Seq<char>) -> Result<AccountIdModel, ParseError> {
    match single_index(s, '@') {
        Some(i) => match name_check(before(s, i)) {
            Err(e) => Err(e),
            Ok(_) => match name_check(after(s, i)) {
                Err(e) => Err(e),
                Ok(_) => Ok(AccountIdModel { name: before(s, i), domain_id: after(s, i) }),
            },
        },
        None => Err(ParseError { reason: "`AccountId` should have format `name@domain`" }),
    }
}

impl AccountId {
    /// Parses `name@domain`.
    pub fn parse(s: &str) -> (r: Result<AccountId, ParseError>)
        ensures
            match r {
                Ok(a) => account_id_from_text(s@) == Ok::<AccountIdModel, ParseError>(a@),
                Err(e) => account_id_from_text(s@) == Err::<AccountIdModel, ParseError>(e),
            },
    {
        let n = s.unicode_len();
        match find_single(s, '@') {
            None => Err(ParseError { reason: "`AccountId` should have format `name@domain`" }),
            Some(i) => {
                let name = slice(s, 0, i);
                let domain_id = slice(s, i + 1, n);
                match validate_name(name.as_str()) {
                    Err(e) => Err(e),
                    Ok(()) => match validate_name(domain_id.as_str()) {
                        Err(e) => Err(e),
                        Ok(()) => Ok(AccountId { name, domain_id }),
                    },
                }
            },
        }
    }

    /// The text form `name@domain`.
    pub fn to_string(&self) -> (r: String)
        ensures
            r@ == account_id_text(self@),
    {
        let mut r = self.name.clone();
        r.append("@");
        r.append(self.domain_id.as_str());
        proof {
            reveal_strlit("@");
            assert(r@ =~= account_id_text(self@));
        }
        r
    }

    /// A copy with the same value.
    pub fn duplicate(&self) -> (r: AccountId)
        ensures
            r@ == self@,
    {
        AccountId { name: self.name.clone(), domain_id: self.domain_id.clone() }
    }

    /// Structural equality.
    pub fn same_as(&self, other: &AccountId) -> (r: bool)
        ensures
            r == (self@ == other@),
    {
        self.name == other.name && self.domain_id == other.domain_id
    }
}

/// Formatting a valid account id and parsing the text gives it back.
pub proof fn lemma_account_id_round_trip(a: AccountIdModel)
    requires
        valid_account_id(a),
    ensures
        account_id_from_text(account_id_text(a)) == Ok::<AccountIdModel, ParseError>(a),
{
    assert(!a.name.contains('@'));
    assert(!a.domain_id.contains('@'));
    lemma_joined_splits(a.name, '@', a.domain_id);
}

} // verus!
