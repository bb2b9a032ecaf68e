//! Runtime permission validators: their identity, the operation kinds they
//! inspect, and the verdict algebra that chains their decisions.
use vstd::prelude::*;
use crate::account::{
    account_id_from_text, account_id_text, lemma_account_id_round_trip, name_check,
    valid_account_id, valid_name, validate_name, AccountId, AccountIdModel,
};
use crate::isi::{Expression, Instruction, QueryBox};
use crate::transaction::VersionedTransaction;
use crate::text::{after, before, find_single, joined, lemma_joined_splits, single_index, slice, ParseError};

verus! {

/// Identification of a validator: its name and the account that owns it.
#[derive(Debug, Clone, PartialEq, Eq)]
pub struct ValidatorId {
    /// Name given to the validator by its creator.
    pub name: String,
    /// Account that owns the validator.
    pub owned_by: AccountId,
}

/// Mathematical value of a [`ValidatorId`].
pub struct ValidatorIdModel {
    pub name: Seq<char>,
    pub owned_by: AccountIdModel,
}

impl View for ValidatorId {
    type V = ValidatorIdModel;

    open spec fn view(&self) -> ValidatorIdModel {
        ValidatorIdModel { name: self.name@, owned_by: self.owned_by@ }
    }
}

/// Text form `name%account_id`.
pub open spec fn validator_id_text(v: ValidatorIdModel) -> Seq<char> {
    joined(v.name, '%', account_id_text(v.owned_by))
}

/// The validator id that a text denotes: non-empty, exactly one `%`, a valid
/// name before it and a valid account id after it. Otherwise the error that
/// parsing gives, a part's own error where that part fails.
pub open spec fn validator_id_from_text(s: Seq<char>) -> Result<ValidatorIdModel, ParseError> {
    if s.len() == 0 {
        Err(ParseError { reason: "`ValidatorId` cannot be empty" })
    } else {
        match single_index(s, '%') {
            Some(i) => match name_check(before(s, i)) {
                Err(e) => Err(e),
                Ok(_) => match account_id_from_text(after(s, i)) {
                    Err(e) => Err(e),
                    Ok(a) => Ok(ValidatorIdModel { name: before(s, i), owned_by: a }),
                },
            },
            None => Err(
                ParseError { reason: "Validator ID should have format `validator%account_id`" },
            ),
        }
    }
}

/// A validator id that its text form denotes: a valid name and a valid
/// account id.
pub open spec fn valid_validator_id(v: ValidatorIdModel) -> bool {
    valid_name(v.name) && valid_account_id(v.owned_by)
}

impl ValidatorId {
    /// Builds an id from a valid name and a valid account id.
    pub fn new(name: String, owned_by: AccountId) -> (r: ValidatorId)
        requires
            valid_name(name@),
            valid_account_id(owned_by@),
        ensures
            valid_validator_id(r@),
            r@ == (ValidatorIdModel { name: name@, owned_by: owned_by@ }),
    {
        ValidatorId { name, owned_by }
    }

    /// Name given to the validator.
    pub fn name(&self) -> (r: &String)
        ensures
            r@ == self.name@,
    {
        &self.name
    }

    /// Account that owns the validator.
    pub fn owned_by(&self) -> (r: &AccountId)
        ensures
            r@ == self.owned_by@,
    {
        &self.owned_by
    }

    /// Parses `name%account_id`; fails on empty text, on any count of `%`
    /// other than one, and where either part breaks its own grammar.
    pub fn from_str(s: &str) -> (r: Result<ValidatorId, ParseError>)
        ensures
            match r {
                Ok(v) => validator_id_from_text(s@) == Ok::<ValidatorIdModel, ParseError>(v@)
                    && valid_validator_id(v@),
                Err(e) => validator_id_from_text(s@) == Err::<ValidatorIdModel, ParseError>(e),
            },
            s@.len() == 0 ==> r is Err,
    {
        let n = s.unicode_len();
        if n == 0 {
            return Err(ParseError { reason: "`ValidatorId` cannot be empty" });
        }
        match find_single(s, '%') {
            None => Err(
                ParseError { reason: "Validator ID should have format `validator%account_id`" },
            ),
            Some(i) => {
                let name = slice(s, 0, i);
                let account_text = slice(s, i + 1, n);
                match validate_name(name.as_str()) {
                    Err(e) => Err(e),
                    Ok(()) => match AccountId::parse(account_text.as_str()) {
                        Err(e) => Err(e),
                        Ok(owned_by) => Ok(ValidatorId { name, owned_by }),
                    },
                }
            },
        }
    }

    /// The text form `name%account_id`.
    pub fn to_string(&self) -> (r: String)
        ensures
            r@ == validator_id_text(self@),
    {
        let account_text = self.owned_by.to_string();
        let mut r = self.name.clone();
        r.append("%");
        r.append(account_text.as_str());
        proof {
            reveal_strlit("%");
            assert(r@ =~= validator_id_text(self@));
        }
        r
    }
}

/// Formatting a valid validator id and parsing the text gives it back,
/// provided that no part of it holds `%`.
pub proof fn lemma_validator_id_round_trip(v: ValidatorIdModel)
    requires
        valid_validator_id(v),
        !v.name.contains('%'),
        !v.owned_by.name.contains('%'),
        !v.owned_by.domain_id.contains('%'),
    ensures
        validator_id_from_text(validator_id_text(v)) == Ok::<ValidatorIdModel, ParseError>(v),
{
    let t = account_id_text(v.owned_by);
    assert(!t.contains('%')) by {
        if t.contains('%') {
            let j = choose|j: int| 0 <= j < t.len() && t[j] == '%';
            let k = v.owned_by.name.len() as int;
            if j < k {
                assert(v.owned_by.name[j] == t[j]);
            } else if j > k {
                assert(v.owned_by.domain_id[j - k - 1] == t[j]);
            }
        }
    }
    lemma_joined_splits(v.name, '%', t);
    assert(validator_id_text(v).len() > 0);
    lemma_account_id_round_trip(v.owned_by);
}

/// The kind of operation that a validator inspects.
#[derive(Debug, Clone, Copy, PartialEq, Eq, Structural)]
pub enum ValidatorType {
    /// Validator checking transactions.
    Transaction,
    /// Validator checking instructions.
    Instruction,
    /// Validator checking queries.
    Query,
    /// Validator checking expressions.
    Expression,
}

/// Name of each validator type.
pub open spec fn validator_type_name(t: ValidatorType) -> Seq<char> {
    match t {
        ValidatorType::Transaction => "Transaction"@,
        ValidatorType::Instruction => "Instruction"@,
        ValidatorType::Query => "Query"@,
        ValidatorType::Expression => "Expression"@,
    }
}

impl ValidatorType {
    /// Name of the validator type.
    pub fn message(&self) -> (r: &'static str)
        ensures
            r@ == validator_type_name(*self),
    {
        match self {
            ValidatorType::Transaction => "Transaction",
            ValidatorType::Instruction => "Instruction",
            ValidatorType::Query => "Query",
            ValidatorType::Expression => "Expression",
        }
    }
}

/// Permission validator: a WebAssembly program that checks whether an
/// operation of its type satisfies some conditions.
#[derive(Debug, Clone, PartialEq, Eq)]
pub struct Validator {
    /// Identification of this validator.
    pub id: ValidatorId,
    /// Kind of operation the validator checks.
    pub validator_type: ValidatorType,
    /// WebAssembly code of the validator.
    pub wasm: Vec<u8>,
}

impl Validator {
    /// Builds a validator from its parts.
    pub fn new(id: ValidatorId, validator_type: ValidatorType, wasm: Vec<u8>) -> (r: Validator)
        ensures
            r.id@ == id@,
            r.validator_type == validator_type,
            r.wasm@ == wasm@,
    {
        Validator { id, validator_type, wasm }
    }

    /// Text form of the validator: its id, `name%account_id`.
    pub fn message(&self) -> (r: String)
        ensures
            r@ == validator_id_text(self.id@),
    {
        self.id.to_string()
    }

    /// Identification of the validator.
    pub fn id(&self) -> (r: &ValidatorId)
        ensures
            r@ == self.id@,
    {
        &self.id
    }

    /// Kind of operation the validator checks.
    pub fn validator_type(&self) -> (r: ValidatorType)
        ensures
            r == self.validator_type,
    {
        self.validator_type
    }

    /// WebAssembly code of the validator.
    pub fn wasm(&self) -> (r: &Vec<u8>)
        ensures
            r@ == self.wasm@,
    {
        &self.wasm
    }
}

/// Operation whose permission must be checked.
pub trait NeedsPermission {
    /// The kind of validator that checks the operation.
    spec fn validator_type_spec(&self) -> ValidatorType;

    /// The kind of validator that checks the operation.
    fn required_validator_type(&self) -> (r: ValidatorType)
        ensures
            r == self.validator_type_spec(),
    ;
}

impl NeedsPermission for Instruction {
    open spec fn validator_type_spec(&self) -> ValidatorType {
        ValidatorType::Instruction
    }

    fn required_validator_type(&self) -> (r: ValidatorType) {
        ValidatorType::Instruction
    }
}

impl NeedsPermission for QueryBox {
    open spec fn validator_type_spec(&self) -> ValidatorType {
        ValidatorType::Query
    }

    fn required_validator_type(&self) -> (r: ValidatorType) {
        ValidatorType::Query
    }
}

// An expression may embed a query, so it is checked too.
impl NeedsPermission for Expression {
    open spec fn validator_type_spec(&self) -> ValidatorType {
        ValidatorType::Expression
    }

    fn required_validator_type(&self) -> (r: ValidatorType) {
        ValidatorType::Expression
    }
}

impl NeedsPermission for VersionedTransaction {
    open spec fn validator_type_spec(&self) -> ValidatorType {
        ValidatorType::Transaction
    }

    fn required_validator_type(&self) -> (r: ValidatorType) {
        ValidatorType::Transaction
    }
}

/// Any operation whose permission must be checked.
#[derive(Debug, Clone, PartialEq, Eq)]
pub enum NeedsPermissionBox {
    /// Applying a transaction.
    Transaction(VersionedTransaction),
    /// Executing an instruction.
    Instruction(Instruction),
    /// Executing a query.
    Query(QueryBox),
    /// Evaluating an expression.
    Expression(Expression),
}

impl NeedsPermission for NeedsPermissionBox {
    open spec fn validator_type_spec(&self) -> ValidatorType {
        match self {
            NeedsPermissionBox::Transaction(t) => t.validator_type_spec(),
            NeedsPermissionBox::Instruction(i) => i.validator_type_spec(),
            NeedsPermissionBox::Query(q) => q.validator_type_spec(),
            NeedsPermissionBox::Expression(e) => e.validator_type_spec(),
        }
    }

    fn required_validator_type(&self) -> (r: ValidatorType) {
        match self {
            NeedsPermissionBox::Transaction(t) => t.required_validator_type(),
            NeedsPermissionBox::Instruction(i) => i.required_validator_type(),
            NeedsPermissionBox::Query(q) => q.required_validator_type(),
            NeedsPermissionBox::Expression(e) => e.required_validator_type(),
        }
    }
}

/// Each kind of operation is routed to its own kind of validator, and a boxed
/// operation is routed as the operation it holds.
pub proof fn lemma_routing(b: NeedsPermissionBox)
    ensures
        match b {
            NeedsPermissionBox::Transaction(t) => b.validator_type_spec() == t.validator_type_spec()
                && t.validator_type_spec() == ValidatorType::Transaction,
            NeedsPermissionBox::Instruction(i) => b.validator_type_spec() == i.validator_type_spec()
                && i.validator_type_spec() == ValidatorType::Instruction,
            NeedsPermissionBox::Query(q) => b.validator_type_spec() == q.validator_type_spec()
                && q.validator_type_spec() == ValidatorType::Query,
            NeedsPermissionBox::Expression(e) => b.validator_type_spec() == e.validator_type_spec()
                && e.validator_type_spec() == ValidatorType::Expression,
        },
{
}

/// Reason for denying the execution of a particular operation.
pub type DenialReason = String;

/// Validation verdict returned by every validator.
///
/// Operations are allowed by default: validators look for incorrectness,
/// so there is no `Allow` variant, only `Pass` on to the next validator.
#[derive(Debug, Clone, PartialEq, Eq)]
pub enum Verdict {
    /// The operation goes on to the next validator, or is executed.
    Pass,
    /// The operation is denied.
    Deny(DenialReason),
}

impl Verdict {
    /// Eager conjunction: a denial on the left wins, otherwise `other`.
    #[must_use]
    pub fn and(self, other: Verdict) -> (r: Verdict)
        ensures
            self is Pass ==> r == other,
            self is Deny ==> r == self,
    {
        match self {
            Verdict::Pass => other,
            Verdict::Deny(_) => self,
        }
    }

    /// Lazy conjunction: a denial on the left wins and `f` is not called;
    /// otherwise `f` is called and its verdict returned.
    #[must_use]
    pub fn and_then<F>(self, f: F) -> (r: Verdict)
        where
            F: FnOnce() -> Verdict,
        requires
            self is Pass ==> f.requires(()),
        ensures
            self is Pass ==> f.ensures((), r),
            self is Deny ==> r == self,
    {
        match self {
            Verdict::Pass => f(),
            Verdict::Deny(_) => self,
        }
    }
}

/// Conventional outcome: `Pass` is success, `Deny` fails with its reason.
impl From<Verdict> for Result<(), DenialReason> {
    fn from(verdict: Verdict) -> (r: Result<(), DenialReason>) {
        match verdict {
            Verdict::Pass => Ok(()),
            Verdict::Deny(reason) => Err(reason),
        }
    }
}

impl vstd::std_specs::convert::FromSpecImpl<Verdict> for Result<(), DenialReason> {
    open spec fn obeys_from_spec() -> bool {
        true
    }

    open spec fn from_spec(v: Verdict) -> Result<(), DenialReason> {
        match v {
            Verdict::Pass => Ok(()),
            Verdict::Deny(reason) => Err(reason),
        }
    }
}

} // verus!
