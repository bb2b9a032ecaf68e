//! Transactions: their payload, the signatures over it, the versioned
//! envelopes, and the states a transaction moves through.
use vstd::prelude::*;
use crate::account::{AccountId, AccountIdModel};
use crate::isi::{
    all_same, duplicate_all, models_of, seq_weight, seq_weight_within, Instruction,
    InstructionModel, ValueModel,
};
use crate::signature::{bytes_equal, Signature, SignatureSet};
use crate::metadata::UnlimitedMetadata;
use crate::version::{VersionError, CURRENT_VERSION};
use crate::rejection::{NotPermittedFail, TransactionRejectionReason};
use crate::validator::Verdict;

verus! {

/// Default maximum weight of the instructions of one transaction.
pub const DEFAULT_MAX_INSTRUCTION_NUMBER: u64 = 4096;

/// Error which indicates that the instruction weight of a payload exceeds
/// the maximum.
#[derive(Debug, Clone, Copy, PartialEq, Eq)]
pub struct MaxInstructionCount;

impl MaxInstructionCount {
    /// Human-readable description.
    pub fn message(&self) -> (r: &'static str)
        ensures
            r@ == "Too many instructions in payload"@,
    {
        "Too many instructions in payload"
    }
}

/// Body of a transaction: either instructions or a WebAssembly smart contract.
#[derive(Debug, Clone, PartialEq, Eq)]
pub enum Executable {
    /// Ordered sequence of instructions.
    Instructions(Vec<Instruction>),
    /// WebAssembly smart contract.
    Wasm(Vec<u8>),
}

/// Mathematical value of an [`Executable`].
pub enum ExecutableModel {
    Instructions(Seq<InstructionModel>),
    Wasm(Seq<u8>),
}

impl View for Executable {
    type V = ExecutableModel;

    open spec fn view(&self) -> ExecutableModel {
        match self {
            Executable::Instructions(v) => ExecutableModel::Instructions(models_of(v@)),
            Executable::Wasm(b) => ExecutableModel::Wasm(b@),
        }
    }
}

impl Executable {
    /// A copy with the same value.
    pub fn duplicate(&self) -> (r: Executable)
        ensures
            r@ == self@,
    {
        match self {
            Executable::Instructions(v) => Executable::Instructions(duplicate_all(v)),
            Executable::Wasm(b) => Executable::Wasm(b.clone()),
        }
    }

    /// Structural equality.
    pub fn same_as(&self, other: &Executable) -> (r: bool)
        ensures
            r == (self@ == other@),
    {
        match (self, other) {
            (Executable::Instructions(a), Executable::Instructions(b)) => all_same(a, b),
            (Executable::Wasm(a), Executable::Wasm(b)) => bytes_equal(a, b),
            _ => false,
        }
    }
}

/// Content of a transaction, the part that signatures cover.
#[derive(Debug, Clone, PartialEq, Eq)]
pub struct Payload {
    /// Account id of the transaction's creator.
    pub account_id: AccountId,
    /// Instructions or WebAssembly smart contract.
    pub instructions: Executable,
    /// Time of creation (unix time, in milliseconds).
    pub creation_time: u64,
    /// The transaction is dropped after this time if it is still queued.
    pub time_to_live_ms: u64,
    /// Random value that tells apart transactions repeated at the same time.
    pub nonce: Option<u32>,
    /// Metadata.
    pub metadata: UnlimitedMetadata,
}

/// Mathematical value of a [`Payload`].
pub struct PayloadModel {
    pub account_id: AccountIdModel,
    pub instructions: ExecutableModel,
    pub creation_time: u64,
    pub time_to_live_ms: u64,
    pub nonce: Option<u32>,
    pub metadata: Map<Seq<char>, ValueModel>,
}

impl View for Payload {
    type V = PayloadModel;

    open spec fn view(&self) -> PayloadModel {
        PayloadModel {
            account_id: self.account_id@,
            instructions: self.instructions@,
            creation_time: self.creation_time,
            time_to_live_ms: self.time_to_live_ms,
            nonce: self.nonce,
            metadata: self.metadata@,
        }
    }
}

/// Equality of two payloads on everything but the creation time: creator,
/// body, time to live, nonce and metadata.
pub open spec fn same_content(a: PayloadModel, b: PayloadModel) -> bool {
    &&& a.account_id == b.account_id
    &&& a.instructions == b.instructions
    &&& a.time_to_live_ms == b.time_to_live_ms
    &&& a.nonce == b.nonce
    &&& a.metadata == b.metadata
}

/// Total instruction weight of a body; a smart contract weighs nothing here.
pub open spec fn instruction_weight(e: ExecutableModel) -> nat {
    match e {
        ExecutableModel::Instructions(s) => seq_weight(s),
        ExecutableModel::Wasm(_) => 0,
    }
}

/// Whether the payload's lifetime ended before `now_ms`.
pub open spec fn expired_at(p: PayloadModel, now_ms: u64) -> bool {
    p.creation_time + p.time_to_live_ms < now_ms
}

impl Payload {
    /// A copy with the same value.
    pub fn duplicate(&self) -> (r: Payload)
        ensures
            r@ == self@,
    {
        Payload {
            account_id: self.account_id.duplicate(),
            instructions: self.instructions.duplicate(),
            creation_time: self.creation_time,
            time_to_live_ms: self.time_to_live_ms,
            nonce: self.nonce,
            metadata: self.metadata.duplicate(),
        }
    }

    /// Compares the contents of two payloads regardless of when they were
    /// created.
    pub fn equals_excluding_creation_time(&self, other: &Payload) -> (r: bool)
        ensures
            r == same_content(self@, other@),
    {
        self.account_id.same_as(&other.account_id) && self.instructions.same_as(
            &other.instructions,
        ) && self.time_to_live_ms == other.time_to_live_ms && self.nonce == other.nonce
            && self.metadata.same_as(&other.metadata)
    }

    /// Fails when the weight of the payload's instructions exceeds
    /// `max_instruction_number`.
    pub fn check_instruction_len(&self, max_instruction_number: u64) -> (r: Result<
        (),
        MaxInstructionCount,
    >)
        ensures
            r is Err <==> instruction_weight(self@.instructions) > max_instruction_number,
    {
        if let Executable::Instructions(instructions) = &self.instructions {
            if seq_weight_within(instructions, max_instruction_number).is_none() {
                return Err(MaxInstructionCount);
            }
        }
        Ok(())
    }

    /// Whether the payload's lifetime ended before `now_ms`.
    pub fn is_expired(&self, now_ms: u64) -> (r: bool)
        ensures
            r == expired_at(self@, now_ms),
    {
        (self.creation_time as u128) + (self.time_to_live_ms as u128) < (now_ms as u128)
    }
}

/// Payloads that differ in creation time alone compare equal.
pub proof fn lemma_creation_time_ignored(p: PayloadModel, t: u64)
    ensures
        same_content(p, PayloadModel { creation_time: t, ..p }),
{
}

/// Payloads that differ in creator, body, time to live, nonce or metadata
/// compare unequal.
pub proof fn lemma_content_compared(p: PayloadModel, q: PayloadModel)
    requires
        p.account_id != q.account_id || p.instructions != q.instructions || p.time_to_live_ms
            != q.time_to_live_ms || p.nonce != q.nonce || p.metadata != q.metadata,
    ensures
        !same_content(p, q),
{
}

/// Transaction in the untrusted form in which clients send it.
#[derive(Debug, Clone, PartialEq, Eq)]
pub struct Transaction {
    /// The transaction's payload.
    pub payload: Payload,
    /// Signatures over the payload.
    pub signatures: SignatureSet,
}

/// Transaction whose size and signatures were checked.
#[derive(Debug, Clone, PartialEq, Eq)]
pub struct ValidTransaction {
    /// The transaction's payload.
    pub payload: Payload,
    /// Signatures over the payload.
    pub signatures: SignatureSet,
}

/// Relies on `SystemTime::elapsed` of the unix epoch: the time now, as
/// milliseconds since the epoch, or zero where the clock stands before it.
#[verifier::external_body]
fn current_time_ms() -> (r: u64) {
    std::time::UNIX_EPOCH.elapsed().map(|d| d.as_millis() as u64).unwrap_or(0)
}

impl Transaction {
    /// A transaction created now, unsigned, without nonce or metadata.
    pub fn new(account_id: AccountId, instructions: Executable, proposed_ttl_ms: u64) -> (r:
        Transaction)
        ensures
            r.signatures.wf(),
            r.signatures@.len() == 0,
            r.payload@.account_id == account_id@,
            r.payload@.instructions == instructions@,
            r.payload@.time_to_live_ms == proposed_ttl_ms,
            r.payload@.nonce is None,
            r.payload@.metadata == Map::<Seq<char>, ValueModel>::empty(),
    {
        let creation_time = current_time_ms();
        Transaction::new_at(account_id, instructions, proposed_ttl_ms, creation_time)
    }

    /// A transaction created at `creation_time`, unsigned, without nonce or
    /// metadata.
    pub fn new_at(
        account_id: AccountId,
        instructions: Executable,
        proposed_ttl_ms: u64,
        creation_time: u64,
    ) -> (r: Transaction)
        ensures
            r.signatures.wf(),
            r.signatures@.len() == 0,
            r.payload@ == (PayloadModel {
                account_id: account_id@,
                instructions: instructions@,
                creation_time,
                time_to_live_ms: proposed_ttl_ms,
                nonce: None,
                metadata: Map::empty(),
            }),
    {
        Transaction {
            payload: Payload {
                account_id,
                instructions,
                creation_time,
                time_to_live_ms: proposed_ttl_ms,
                nonce: None,
                metadata: UnlimitedMetadata::new(),
            },
            signatures: SignatureSet::new(),
        }
    }

    /// The same transaction with `metadata` in place of its metadata.
    pub fn with_metadata(self, metadata: UnlimitedMetadata) -> (r: Transaction)
        ensures
            r.payload@ == (PayloadModel { metadata: metadata@, ..self.payload@ }),
            r.signatures == self.signatures,
    {
        let mut r = self;
        r.payload.metadata = metadata;
        r
    }

    /// The same transaction with nonce `nonce`.
    pub fn with_nonce(self, nonce: u32) -> (r: Transaction)
        ensures
            r.payload@ == (PayloadModel { nonce: Some(nonce), ..self.payload@ }),
            r.signatures == self.signatures,
    {
        let mut r = self;
        r.payload.nonce = Some(nonce);
        r
    }

    /// The same transaction with `signature` added to its signatures, where
    /// it is not held yet; the signatures stay in ascending order.
    pub fn sign(self, signature: Signature) -> (r: Transaction)
        requires
            self.signatures.wf(),
        ensures
            r.payload == self.payload,
            r.signatures.wf(),
            r.signatures@.to_set() == self.signatures@.to_set().insert(signature@),
            self.signatures@.contains(signature@) ==> r.signatures@ == self.signatures@,
            !self.signatures@.contains(signature@) ==> r.signatures@.len()
                == self.signatures@.len() + 1,
    {
        let mut r = self;
        r.signatures.insert(signature);
        r
    }
}

/// Transaction rejected at some stage of the pipeline.
#[derive(Debug, Clone, PartialEq, Eq)]
pub struct RejectedTransaction {
    /// The transaction's payload.
    pub payload: Payload,
    /// Signatures over the payload.
    pub signatures: SignatureSet,
    /// Why the transaction was rejected.
    pub rejection_reason: TransactionRejectionReason,
}

/// Access to the payload that every form of a transaction carries.
pub trait Txn {
    /// The payload.
    spec fn payload_spec(&self) -> Payload;

    /// The payload.
    fn payload(&self) -> (r: &Payload)
        ensures
            *r == self.payload_spec(),
    ;

    /// Fails when the weight of the payload's instructions exceeds
    /// `max_instruction_len`.
    fn check_instruction_len(&self, max_instruction_len: u64) -> (r: Result<
        (),
        MaxInstructionCount,
    >)
        ensures
            r is Err <==> instruction_weight(self.payload_spec()@.instructions)
                > max_instruction_len,
    {
        self.payload().check_instruction_len(max_instruction_len)
    }
}

impl Txn for Transaction {
    open spec fn payload_spec(&self) -> Payload {
        self.payload
    }

    fn payload(&self) -> (r: &Payload) {
        &self.payload
    }
}

impl Txn for ValidTransaction {
    open spec fn payload_spec(&self) -> Payload {
        self.payload
    }

    fn payload(&self) -> (r: &Payload) {
        &self.payload
    }
}

impl Txn for RejectedTransaction {
    open spec fn payload_spec(&self) -> Payload {
        self.payload
    }

    fn payload(&self) -> (r: &Payload) {
        &self.payload
    }
}

/// Versioned form of [`Transaction`].
#[derive(Debug, Clone, PartialEq, Eq)]
pub enum VersionedTransaction {
    V1(Transaction),
}

/// Versioned form of [`ValidTransaction`].
#[derive(Debug, Clone, PartialEq, Eq)]
pub enum VersionedValidTransaction {
    V1(ValidTransaction),
}

/// Versioned form of [`RejectedTransaction`].
#[derive(Debug, Clone, PartialEq, Eq)]
pub enum VersionedRejectedTransaction {
    V1(RejectedTransaction),
}

impl VersionedTransaction {
    /// Version tag of the value.
    pub fn version(&self) -> (r: u8)
        ensures
            r == CURRENT_VERSION,
    {
        match self {
            VersionedTransaction::V1(_) => CURRENT_VERSION,
        }
    }

    /// The version 1 transaction; any other version is unsupported.
    pub fn as_v1(&self) -> (r: Result<&Transaction, VersionError>)
        ensures
            r is Ok,
            r matches Ok(t) && *t == self->V1_0,
    {
        match self {
            VersionedTransaction::V1(v1) => Ok(v1),
        }
    }

    /// The version 1 transaction, for change in place; any other version is
    /// unsupported.
    pub fn as_mut_v1(&mut self) -> (r: Result<&mut Transaction, VersionError>)
        ensures
            r is Ok,
            r matches Ok(t) && *t == old(self)->V1_0 && *final(self) == VersionedTransaction::V1(*final(t)),
    {
        match self {
            VersionedTransaction::V1(v1) => Ok(v1),
        }
    }

    /// The version 1 transaction; any other version is unsupported.
    pub fn into_v1(self) -> (r: Result<Transaction, VersionError>)
        ensures
            r == Ok::<Transaction, VersionError>(self->V1_0),
    {
        match self {
            VersionedTransaction::V1(v1) => Ok(v1),
        }
    }
}

impl VersionedValidTransaction {
    /// Version tag of the value.
    pub fn version(&self) -> (r: u8)
        ensures
            r == CURRENT_VERSION,
    {
        match self {
            VersionedValidTransaction::V1(_) => CURRENT_VERSION,
        }
    }

    /// The version 1 transaction; any other version is unsupported.
    pub fn as_v1(&self) -> (r: Result<&ValidTransaction, VersionError>)
        ensures
            r is Ok,
            r matches Ok(t) && *t == self->V1_0,
    {
        match self {
            VersionedValidTransaction::V1(v1) => Ok(v1),
        }
    }

    /// The version 1 transaction, for change in place; any other version is
    /// unsupported.
    pub fn as_mut_v1(&mut self) -> (r: Result<&mut ValidTransaction, VersionError>)
        ensures
            r is Ok,
            r matches Ok(t) && *t == old(self)->V1_0 && *final(self) == VersionedValidTransaction::V1(*final(t)),
    {
        match self {
            VersionedValidTransaction::V1(v1) => Ok(v1),
        }
    }

    /// The version 1 transaction; any other version is unsupported.
    pub fn into_v1(self) -> (r: Result<ValidTransaction, VersionError>)
        ensures
            r == Ok::<ValidTransaction, VersionError>(self->V1_0),
    {
        match self {
            VersionedValidTransaction::V1(v1) => Ok(v1),
        }
    }
}

impl VersionedRejectedTransaction {
    /// Version tag of the value.
    pub fn version(&self) -> (r: u8)
        ensures
            r == CURRENT_VERSION,
    {
        match self {
            VersionedRejectedTransaction::V1(_) => CURRENT_VERSION,
        }
    }

    /// The version 1 transaction; any other version is unsupported.
    pub fn as_v1(&self) -> (r: Result<&RejectedTransaction, VersionError>)
        ensures
            r is Ok,
            r matches Ok(t) && *t == self->V1_0,
    {
        match self {
            VersionedRejectedTransaction::V1(v1) => Ok(v1),
        }
    }

    /// The version 1 transaction, for change in place; any other version is
    /// unsupported.
    pub fn as_mut_v1(&mut self) -> (r: Result<&mut RejectedTransaction, VersionError>)
        ensures
            r is Ok,
            r matches Ok(t) && *t == old(self)->V1_0 && *final(self) == VersionedRejectedTransaction::V1(*final(t)),
    {
        match self {
            VersionedRejectedTransaction::V1(v1) => Ok(v1),
        }
    }

    /// The version 1 transaction; any other version is unsupported.
    pub fn into_v1(self) -> (r: Result<RejectedTransaction, VersionError>)
        ensures
            r == Ok::<RejectedTransaction, VersionError>(self->V1_0),
    {
        match self {
            VersionedRejectedTransaction::V1(v1) => Ok(v1),
        }
    }
}

impl Txn for VersionedTransaction {
    open spec fn payload_spec(&self) -> Payload {
        self->V1_0.payload
    }

    fn payload(&self) -> (r: &Payload) {
        match self {
            VersionedTransaction::V1(v1) => &v1.payload,
        }
    }
}

impl Txn for VersionedValidTransaction {
    open spec fn payload_spec(&self) -> Payload {
        self->V1_0.payload
    }

    fn payload(&self) -> (r: &Payload) {
        match self {
            VersionedValidTransaction::V1(v1) => &v1.payload,
        }
    }
}

impl Txn for VersionedRejectedTransaction {
    open spec fn payload_spec(&self) -> Payload {
        self->V1_0.payload
    }

    fn payload(&self) -> (r: &Payload) {
        match self {
            VersionedRejectedTransaction::V1(v1) => &v1.payload,
        }
    }
}

impl From<VersionedValidTransaction> for VersionedTransaction {
    fn from(transaction: VersionedValidTransaction) -> (r: VersionedTransaction) {
        match transaction {
            VersionedValidTransaction::V1(t) => VersionedTransaction::V1(
                Transaction { payload: t.payload, signatures: t.signatures },
            ),
        }
    }
}

impl vstd::std_specs::convert::FromSpecImpl<VersionedValidTransaction> for VersionedTransaction {
    open spec fn obeys_from_spec() -> bool {
        true
    }

    open spec fn from_spec(v: VersionedValidTransaction) -> VersionedTransaction {
        VersionedTransaction::V1(
            Transaction { payload: v->V1_0.payload, signatures: v->V1_0.signatures },
        )
    }
}

/// Transactions that a peer holds pending in its queue.
#[derive(Debug, Clone, PartialEq, Eq)]
pub struct PendingTransactions(pub Vec<Transaction>);

impl PendingTransactions {
    /// The collection of `transactions`, in order.
    pub fn from_transactions(transactions: Vec<Transaction>) -> (r: PendingTransactions)
        ensures
            r.0@ == transactions@,
    {
        PendingTransactions(transactions)
    }

    /// The transactions, in order.
    pub fn into_transactions(self) -> (r: Vec<Transaction>)
        ensures
            r@ == self.0@,
    {
        self.0
    }
}

/// Versioned form of [`PendingTransactions`].
#[derive(Debug, Clone, PartialEq, Eq)]
pub enum VersionedPendingTransactions {
    V1(PendingTransactions),
}

impl VersionedPendingTransactions {
    /// The version 1 collection of `transactions`, in order.
    pub fn from_transactions(transactions: Vec<Transaction>) -> (r: VersionedPendingTransactions)
        ensures
            r->V1_0.0@ == transactions@,
    {
        VersionedPendingTransactions::V1(PendingTransactions(transactions))
    }

    /// Version tag of the value.
    pub fn version(&self) -> (r: u8)
        ensures
            r == CURRENT_VERSION,
    {
        match self {
            VersionedPendingTransactions::V1(_) => CURRENT_VERSION,
        }
    }

    /// The version 1 collection; any other version is unsupported.
    pub fn as_v1(&self) -> (r: Result<&PendingTransactions, VersionError>)
        ensures
            r is Ok,
            r matches Ok(t) && *t == self->V1_0,
    {
        match self {
            VersionedPendingTransactions::V1(v1) => Ok(v1),
        }
    }

    /// The version 1 collection, for change in place; any other version is
    /// unsupported.
    pub fn as_mut_v1(&mut self) -> (r: Result<&mut PendingTransactions, VersionError>)
        ensures
            r is Ok,
            r matches Ok(t) && *t == old(self)->V1_0 && *final(self) == VersionedPendingTransactions::V1(*final(t)),
    {
        match self {
            VersionedPendingTransactions::V1(v1) => Ok(v1),
        }
    }

    /// The version 1 collection; any other version is unsupported.
    pub fn into_v1(self) -> (r: Result<PendingTransactions, VersionError>)
        ensures
            r == Ok::<PendingTransactions, VersionError>(self->V1_0),
    {
        match self {
            VersionedPendingTransactions::V1(v1) => Ok(v1),
        }
    }
}

/// Outcome of a transaction as the ledger stores it.
#[derive(Debug, Clone, PartialEq, Eq)]
pub enum TransactionValue {
    /// Committed transaction.
    Transaction(Box<VersionedTransaction>),
    /// Rejected transaction, with the reason.
    RejectedTransaction(Box<VersionedRejectedTransaction>),
}

impl TransactionValue {
    /// The payload of the stored transaction.
    pub open spec fn payload_spec(&self) -> Payload {
        match self {
            TransactionValue::Transaction(t) => t.payload_spec(),
            TransactionValue::RejectedTransaction(t) => t.payload_spec(),
        }
    }

    /// The payload of the stored transaction.
    pub fn payload(&self) -> (r: &Payload)
        ensures
            *r == self.payload_spec(),
    {
        match self {
            TransactionValue::Transaction(t) => (**t).payload(),
            TransactionValue::RejectedTransaction(t) => (**t).payload(),
        }
    }

    /// Orders stored transactions by creation time alone.
    pub fn cmp(&self, other: &TransactionValue) -> (r: core::cmp::Ordering)
        ensures
            r == creation_order(self, other),
    {
        let a = self.payload().creation_time;
        let b = other.payload().creation_time;
        if a < b {
            core::cmp::Ordering::Less
        } else if a == b {
            core::cmp::Ordering::Equal
        } else {
            core::cmp::Ordering::Greater
        }
    }
}

/// Creation time of the stored transaction.
pub open spec fn stored_creation_time(v: &TransactionValue) -> u64 {
    v.payload_spec().creation_time
}

/// Order of stored transactions by creation time alone.
pub open spec fn creation_order(a: &TransactionValue, b: &TransactionValue) -> core::cmp::Ordering {
    if stored_creation_time(a) < stored_creation_time(b) {
        core::cmp::Ordering::Less
    } else if stored_creation_time(a) == stored_creation_time(b) {
        core::cmp::Ordering::Equal
    } else {
        core::cmp::Ordering::Greater
    }
}

impl PartialOrd for TransactionValue {
    fn partial_cmp(&self, other: &TransactionValue) -> (r: Option<core::cmp::Ordering>) {
        Some(self.cmp(other))
    }
}

impl vstd::std_specs::cmp::PartialOrdSpecImpl for TransactionValue {
    open spec fn obeys_partial_cmp_spec() -> bool {
        true
    }

    open spec fn partial_cmp_spec(&self, other: &TransactionValue) -> Option<core::cmp::Ordering> {
        Some(creation_order(self, other))
    }
}

/// Why a transaction was not promoted to a valid one.
#[derive(Debug, Clone, PartialEq, Eq)]
pub enum AcceptTransactionFail {
    /// The instruction weight exceeds the maximum.
    MaxInstructionCount(MaxInstructionCount),
    /// The lifetime of the transaction ended before the check; the
    /// transaction is handed back unchanged.
    Expired(Transaction),
    /// The signatures were not accepted; the transaction is rejected.
    Rejected(VersionedRejectedTransaction),
}

impl Transaction {
    /// Promotes the transaction to a valid one, given the outcome of its
    /// signature checks, at time `now_ms`.
    ///
    /// The size check comes first, then the lifetime, then the signatures; a
    /// failed signature check yields the rejected transaction with its reason.
    pub fn accept(
        self,
        max_instruction_number: u64,
        now_ms: u64,
        signature_check: Result<(), TransactionRejectionReason>,
    ) -> (r: Result<VersionedValidTransaction, AcceptTransactionFail>)
        ensures
            instruction_weight(self.payload@.instructions) > max_instruction_number ==> r
                == Err::<VersionedValidTransaction, AcceptTransactionFail>(
                AcceptTransactionFail::MaxInstructionCount(MaxInstructionCount),
            ),
            instruction_weight(self.payload@.instructions) <= max_instruction_number
                && expired_at(self.payload@, now_ms) ==> r == Err::<
                VersionedValidTransaction,
                AcceptTransactionFail,
            >(AcceptTransactionFail::Expired(self)),
            instruction_weight(self.payload@.instructions) <= max_instruction_number
                && !expired_at(self.payload@, now_ms) ==> match signature_check {
                Ok(_) => r == Ok::<VersionedValidTransaction, AcceptTransactionFail>(
                    VersionedValidTransaction::V1(
                        ValidTransaction { payload: self.payload, signatures: self.signatures },
                    ),
                ),
                Err(reason) => r == Err::<VersionedValidTransaction, AcceptTransactionFail>(
                    AcceptTransactionFail::Rejected(
                        VersionedRejectedTransaction::V1(
                            RejectedTransaction {
                                payload: self.payload,
                                signatures: self.signatures,
                                rejection_reason: reason,
                            },
                        ),
                    ),
                ),
            },
    {
        if let Err(e) = self.payload.check_instruction_len(max_instruction_number) {
            return Err(AcceptTransactionFail::MaxInstructionCount(e));
        }
        if self.payload.is_expired(now_ms) {
            return Err(AcceptTransactionFail::Expired(self));
        }
        match signature_check {
            Ok(()) => Ok(
                VersionedValidTransaction::V1(
                    ValidTransaction { payload: self.payload, signatures: self.signatures },
                ),
            ),
            Err(reason) => Err(
                AcceptTransactionFail::Rejected(
                    VersionedRejectedTransaction::V1(
                        RejectedTransaction {
                            payload: self.payload,
                            signatures: self.signatures,
                            rejection_reason: reason,
                        },
                    ),
                ),
            ),
        }
    }
}

impl ValidTransaction {
    /// Rejects the transaction for `reason`, keeping payload and signatures.
    pub fn reject(self, reason: TransactionRejectionReason) -> (r: RejectedTransaction)
        ensures
            r == (RejectedTransaction {
                payload: self.payload,
                signatures: self.signatures,
                rejection_reason: reason,
            }),
    {
        RejectedTransaction {
            payload: self.payload,
            signatures: self.signatures,
            rejection_reason: reason,
        }
    }

    /// Applies the verdict of the validators: a pass keeps the transaction
    /// valid, a denial rejects it as not permitted, with the denial's reason.
    pub fn apply_verdict(self, verdict: Verdict) -> (r: Result<ValidTransaction, RejectedTransaction>)
        ensures
            verdict is Pass ==> r == Ok::<ValidTransaction, RejectedTransaction>(self),
            verdict is Deny ==> r == Err::<ValidTransaction, RejectedTransaction>(
                RejectedTransaction {
                    payload: self.payload,
                    signatures: self.signatures,
                    rejection_reason: TransactionRejectionReason::NotPermitted(
                        NotPermittedFail { reason: verdict->Deny_0 },
                    ),
                },
            ),
    {
        match verdict {
            Verdict::Pass => Ok(self),
            Verdict::Deny(reason) => Err(
                self.reject(TransactionRejectionReason::NotPermitted(NotPermittedFail { reason })),
            ),
        }
    }
}

} // verus!
