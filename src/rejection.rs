//! Why a transaction or a block was rejected.
use vstd::prelude::*;
use crate::isi::{kind_name, Instruction};
use crate::signature::Signature;

verus! {

/// `prefix` followed by `reason`.
fn prefixed(prefix: &str, reason: &String) -> (r: String)
    ensures
        r@ == prefix@ + reason@,
{
    let mut r = String::from_str(prefix);
    r.append(reason.as_str());
    r
}

/// The signature condition of the creator's account was not met.
#[derive(Debug, Clone, PartialEq, Eq)]
pub struct UnsatisfiedSignatureConditionFail {
    /// Why the condition failed.
    pub reason: String,
}

impl UnsatisfiedSignatureConditionFail {
    /// Human-readable description.
    pub fn message(&self) -> (r: String)
        ensures
            r@ == "Failed to verify signature condition specified in the account: "@
                + self.reason@,
    {
        prefixed("Failed to verify signature condition specified in the account: ", &self.reason)
    }
}

/// One of the transaction's instructions failed.
#[derive(Debug, Clone, PartialEq, Eq)]
pub struct InstructionExecutionFail {
    /// The instruction whose execution failed.
    pub instruction: Instruction,
    /// The error raised by the execution.
    pub reason: String,
}

impl InstructionExecutionFail {
    /// Human-readable description, naming the kind of the instruction.
    pub fn message(&self) -> (r: String)
        ensures
            r@ == "Failed to execute instruction of type "@ + kind_name(self.instruction@) + ": "@
                + self.reason@,
    {
        let mut r = String::from_str("Failed to execute instruction of type ");
        r.append(self.instruction.kind());
        r.append(": ");
        r.append(self.reason.as_str());
        r
    }
}

/// Execution of the WebAssembly smart contract failed.
#[derive(Debug, Clone, PartialEq, Eq)]
pub struct WasmExecutionFail {
    /// The error raised by the execution.
    pub reason: String,
}

impl WasmExecutionFail {
    /// Human-readable description.
    pub fn message(&self) -> (r: String)
        ensures
            r@ == "Failed to execute wasm binary: "@ + self.reason@,
    {
        prefixed("Failed to execute wasm binary: ", &self.reason)
    }
}

/// A validator denied the transaction.
#[derive(Debug, Clone, PartialEq, Eq)]
pub struct NotPermittedFail {
    /// The cause of the denial.
    pub reason: String,
}

impl NotPermittedFail {
    /// Human-readable description.
    pub fn message(&self) -> (r: String)
        ensures
            r@ == "Action not permitted: "@ + self.reason@,
    {
        prefixed("Action not permitted: ", &self.reason)
    }
}

/// A signature failed cryptographic verification.
#[derive(Debug, Clone, PartialEq, Eq)]
pub struct SignatureVerificationFail {
    /// The signature that failed.
    pub signature: Signature,
    /// Why it failed.
    pub reason: String,
}

/// The reason for rejecting a transaction because of a new block.
#[derive(Debug, Clone, Copy, PartialEq, Eq)]
pub enum BlockRejectionReason {
    /// The block was rejected during consensus.
    ConsensusBlockRejection,
}

impl BlockRejectionReason {
    /// Human-readable description.
    pub fn message(&self) -> (r: &'static str)
        ensures
            r@ == "Block was rejected during consensus"@,
    {
        "Block was rejected during consensus"
    }
}

/// The reason for rejecting a transaction, found in the transaction itself.
#[derive(Debug, Clone, PartialEq, Eq)]
pub enum TransactionRejectionReason {
    /// Insufficient authorisation.
    NotPermitted(NotPermittedFail),
    /// The signature condition of the account was not met.
    UnsatisfiedSignatureCondition(UnsatisfiedSignatureConditionFail),
    /// An instruction failed.
    InstructionExecution(InstructionExecutionFail),
    /// The WebAssembly smart contract failed.
    WasmExecution(WasmExecutionFail),
    /// A signature failed verification.
    SignatureVerification(SignatureVerificationFail),
    /// The genesis account signed a transaction outside the genesis block.
    UnexpectedGenesisAccountSignature,
}

/// Description of each transaction rejection reason.
pub open spec fn transaction_rejection_message(r: TransactionRejectionReason) -> Seq<char> {
    match r {
        TransactionRejectionReason::NotPermitted(_) =>
            "Transaction rejected due to insufficient authorisation"@,
        TransactionRejectionReason::UnsatisfiedSignatureCondition(_) =>
            "Transaction rejected due to an unsatisfied signature condition"@,
        TransactionRejectionReason::InstructionExecution(_) =>
            "Transaction rejected due to failure in instruction execution"@,
        TransactionRejectionReason::WasmExecution(_) =>
            "Transaction rejected due to failure in WebAssembly execution"@,
        TransactionRejectionReason::SignatureVerification(_) =>
            "Transaction rejected due to failed signature verification"@,
        TransactionRejectionReason::UnexpectedGenesisAccountSignature =>
            "The genesis account can only sign transactions in the genesis block."@,
    }
}

impl TransactionRejectionReason {
    /// Human-readable description.
    pub fn message(&self) -> (r: &'static str)
        ensures
            r@ == transaction_rejection_message(*self),
    {
        match self {
            TransactionRejectionReason::NotPermitted(_) =>
                "Transaction rejected due to insufficient authorisation",
            TransactionRejectionReason::UnsatisfiedSignatureCondition(_) =>
                "Transaction rejected due to an unsatisfied signature condition",
            TransactionRejectionReason::InstructionExecution(_) =>
                "Transaction rejected due to failure in instruction execution",
            TransactionRejectionReason::WasmExecution(_) =>
                "Transaction rejected due to failure in WebAssembly execution",
            TransactionRejectionReason::SignatureVerification(_) =>
                "Transaction rejected due to failed signature verification",
            TransactionRejectionReason::UnexpectedGenesisAccountSignature =>
                "The genesis account can only sign transactions in the genesis block.",
        }
    }
}

/// The reason for rejecting a pipeline entity: a block or a transaction.
#[derive(Debug, Clone, PartialEq, Eq)]
pub enum RejectionReason {
    /// The block was rejected.
    Block(BlockRejectionReason),
    /// The transaction was rejected.
    Transaction(TransactionRejectionReason),
}

impl RejectionReason {
    /// Human-readable description.
    pub fn message(&self) -> (r: &'static str)
        ensures
            self is Block ==> r@ == "Block was rejected"@,
            self is Transaction ==> r@ == "Transaction was rejected"@,
    {
        match self {
            RejectionReason::Block(_) => "Block was rejected",
            RejectionReason::Transaction(_) => "Transaction was rejected",
        }
    }
}

} // verus!
