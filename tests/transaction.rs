use iroha_data_model::account::AccountId;
use iroha_data_model::isi::{Expression, Instruction, Value};
use iroha_data_model::rejection::{
    BlockRejectionReason, InstructionExecutionFail, NotPermittedFail, RejectionReason,
    TransactionRejectionReason, UnsatisfiedSignatureConditionFail, WasmExecutionFail,
};
use iroha_data_model::transaction::{
    AcceptTransactionFail, Executable, MaxInstructionCount, Payload, PendingTransactions,
    Transaction, TransactionValue, Txn, ValidTransaction,
    VersionedPendingTransactions, VersionedRejectedTransaction, VersionedTransaction,
    VersionedValidTransaction, DEFAULT_MAX_INSTRUCTION_NUMBER,
};
use iroha_data_model::signature::{compare_bytes, Signature, SignatureSet};
use iroha_data_model::metadata::UnlimitedMetadata;
use iroha_data_model::validator::Verdict;
use iroha_data_model::version::{decode_versioned, encode_versioned, VersionError, CURRENT_VERSION};
use std::cmp::Ordering;

fn alice() -> AccountId {
    AccountId { name: "alice".to_string(), domain_id: "wonderland".to_string() }
}

fn bob() -> AccountId {
    AccountId { name: "bob".to_string(), domain_id: "wonderland".to_string() }
}

fn fails(n: usize) -> Executable {
    Executable::Instructions((0..n).map(|i| Instruction::Fail(format!("f{i}"))).collect())
}

fn payload_with(instructions: Executable) -> Payload {
    Transaction::new_at(alice(), instructions, 1_000, 10).payload
}

fn signature(key: u8) -> Signature {
    Signature { public_key: vec![key; 4], payload: vec![key, 1, 2] }
}

#[test]
fn creation_time_is_ignored_by_content_comparison() {
    let a = payload_with(fails(2));
    let mut b = a.clone();
    b.creation_time = 999_999;
    assert!(a.equals_excluding_creation_time(&b));
    assert!(b.equals_excluding_creation_time(&a));
}

#[test]
fn content_comparison_sees_each_other_field() {
    let a = payload_with(fails(2));

    let mut b = a.clone();
    b.account_id = bob();
    assert!(!a.equals_excluding_creation_time(&b));

    let mut b = a.clone();
    b.instructions = fails(3);
    assert!(!a.equals_excluding_creation_time(&b));

    let mut b = a.clone();
    b.instructions = Executable::Wasm(vec![1]);
    assert!(!a.equals_excluding_creation_time(&b));

    let mut b = a.clone();
    b.time_to_live_ms = 1;
    assert!(!a.equals_excluding_creation_time(&b));

    let mut b = a.clone();
    let mut meta = UnlimitedMetadata::new();
    meta.insert("k".to_string(), Value::Bool(true));
    b.metadata = meta;
    assert!(!a.equals_excluding_creation_time(&b));
}

#[test]
fn nonce_is_seen_by_content_comparison() {
    let a = payload_with(fails(1));
    let mut b = a.clone();
    b.nonce = Some(7);
    assert!(!a.equals_excluding_creation_time(&b));
    let mut c = b.clone();
    c.creation_time = 1;
    assert!(b.equals_excluding_creation_time(&c));
}

#[test]
fn weight_equal_to_maximum_passes() {
    let p = payload_with(fails(10));
    assert_eq!(p.check_instruction_len(10), Ok(()));
}

#[test]
fn weight_one_over_maximum_fails() {
    let p = payload_with(fails(11));
    assert_eq!(p.check_instruction_len(10), Err(MaxInstructionCount));
}

#[test]
fn five_thousand_instructions_exceed_default_maximum() {
    assert_eq!(DEFAULT_MAX_INSTRUCTION_NUMBER, 4096);
    let tx = Transaction::new_at(alice(), fails(5000), 1_000, 10);
    assert_eq!(tx.check_instruction_len(DEFAULT_MAX_INSTRUCTION_NUMBER), Err(MaxInstructionCount));
    let tx = Transaction::new_at(alice(), fails(4096), 1_000, 10);
    assert_eq!(tx.check_instruction_len(DEFAULT_MAX_INSTRUCTION_NUMBER), Ok(()));
}

#[test]
fn smart_contract_is_exempt_from_instruction_limit() {
    let p = payload_with(Executable::Wasm(vec![0; 100]));
    assert_eq!(p.check_instruction_len(0), Ok(()));
}

#[test]
fn composite_instructions_count_their_parts() {
    let raw = || Expression::Raw(Value::U32(1));
    let mint = Instruction::Mint(raw(), raw());
    assert_eq!(mint.weight_within(10), Some(3));
    let pair = Instruction::Pair(
        Box::new(Instruction::Fail("a".to_string())),
        Box::new(Instruction::Fail("b".to_string())),
    );
    assert_eq!(pair.weight_within(10), Some(3));
    let seq = Instruction::Sequence(vec![mint, pair]);
    assert_eq!(seq.weight_within(10), Some(7));
    assert_eq!(seq.weight_within(6), None);
    let nested = Expression::Add(Box::new(raw()), Box::new(Expression::Not(Box::new(raw()))));
    assert_eq!(nested.weight_within(4), Some(4));
    let cond = Instruction::If(nested, Box::new(Instruction::Register(raw())), None);
    assert_eq!(cond.weight_within(100), Some(7));
    let p = payload_with(Executable::Instructions(vec![cond]));
    assert_eq!(p.check_instruction_len(7), Ok(()));
    assert_eq!(p.check_instruction_len(6), Err(MaxInstructionCount));
}

#[test]
fn new_transaction_reads_the_clock() {
    let tx = Transaction::new(alice(), fails(1), 500);
    assert!(tx.payload.creation_time > 1_500_000_000_000);
    assert_eq!(tx.payload.time_to_live_ms, 500);
    assert_eq!(tx.payload.nonce, None);
    assert!(tx.payload.metadata.entries().is_empty());
    assert_eq!(tx.signatures.len(), 0);
}

#[test]
fn builders_set_nonce_and_metadata() {
    let tx = Transaction::new_at(alice(), fails(1), 500, 3).with_nonce(42);
    assert_eq!(tx.payload.nonce, Some(42));
    let mut meta = UnlimitedMetadata::new();
    meta.insert("k".to_string(), Value::U32(1));
    let tx = tx.with_metadata(meta);
    assert_eq!(tx.payload.metadata.entries().len(), 1);
    assert_eq!(tx.payload.metadata.entries()[0].0, "k");
    assert_eq!(tx.payload.creation_time, 3);
}

#[test]
fn signing_adds_each_signature_once() {
    let tx = Transaction::new_at(alice(), fails(1), 500, 3);
    let tx = tx.sign(signature(1));
    assert_eq!(tx.signatures.len(), 1);
    let tx = tx.sign(signature(2));
    assert_eq!(tx.signatures.len(), 2);
    let tx = tx.sign(signature(1));
    assert_eq!(tx.signatures.len(), 2);
    assert!(tx.signatures.contains(&signature(2)));
    assert!(!tx.signatures.contains(&signature(3)));
}

#[test]
fn expired_transaction_is_not_accepted() {
    let tx = Transaction::new_at(alice(), fails(1), 1_000, 10_000);
    assert!(tx.payload.is_expired(11_001));
    assert!(!tx.payload.is_expired(11_000));
    let r = tx.accept(DEFAULT_MAX_INSTRUCTION_NUMBER, 11_001, Ok(()));
    match r {
        Err(AcceptTransactionFail::Expired(back)) => assert_eq!(back.payload.creation_time, 10_000),
        _ => panic!("transaction should be expired"),
    }
}

#[test]
fn oversized_transaction_is_not_accepted() {
    let tx = Transaction::new_at(alice(), fails(3), 1_000, 10_000);
    let r = tx.accept(2, 10_000, Ok(()));
    assert!(matches!(r, Err(AcceptTransactionFail::MaxInstructionCount(MaxInstructionCount))));
}

#[test]
fn live_transaction_with_good_signatures_is_accepted() {
    let tx = Transaction::new_at(alice(), fails(1), 1_000, 10_000).sign(signature(1));
    let r = tx.accept(DEFAULT_MAX_INSTRUCTION_NUMBER, 11_000, Ok(()));
    match r {
        Ok(valid) => {
            assert_eq!(valid.payload().creation_time, 10_000);
            assert_eq!(valid.as_v1().unwrap().signatures.len(), 1);
        }
        Err(_) => panic!("transaction should be accepted"),
    }
}

#[test]
fn failed_signature_check_rejects_with_its_reason() {
    let tx = Transaction::new_at(alice(), fails(1), 1_000, 10_000);
    let reason = TransactionRejectionReason::UnexpectedGenesisAccountSignature;
    let r = tx.accept(DEFAULT_MAX_INSTRUCTION_NUMBER, 10_500, Err(reason));
    match r {
        Err(AcceptTransactionFail::Rejected(rejected)) => {
            assert!(matches!(
                rejected.as_v1().unwrap().rejection_reason,
                TransactionRejectionReason::UnexpectedGenesisAccountSignature
            ));
            assert_eq!(rejected.payload().creation_time, 10_000);
        }
        _ => panic!("transaction should be rejected"),
    }
}

#[test]
fn denial_rejects_a_valid_transaction() {
    let valid = ValidTransaction {
        payload: payload_with(fails(1)),
        signatures: Transaction::new_at(alice(), fails(1), 1, 1).signatures,
    };
    let kept = valid.clone().apply_verdict(Verdict::Pass);
    assert!(kept.is_ok());
    match valid.apply_verdict(Verdict::Deny("no mint".to_string())) {
        Err(rejected) => match rejected.rejection_reason {
            TransactionRejectionReason::NotPermitted(f) => assert_eq!(f.reason, "no mint"),
            _ => panic!("wrong reason"),
        },
        Ok(_) => panic!("transaction should be rejected"),
    }
}

#[test]
fn valid_transaction_converts_back_to_transaction() {
    let tx = Transaction::new_at(alice(), fails(2), 1_000, 77).sign(signature(9));
    let valid = tx.accept(10, 100, Ok(())).ok().unwrap();
    let back = VersionedTransaction::from(valid);
    assert_eq!(back.payload().creation_time, 77);
    assert_eq!(back.as_v1().unwrap().signatures.len(), 1);
    assert_eq!(back.into_v1().unwrap().payload.time_to_live_ms, 1_000);
}

#[test]
fn versioned_accessors_reach_version_one() {
    let mut v = VersionedTransaction::V1(Transaction::new_at(alice(), fails(1), 5, 6));
    v.as_mut_v1().unwrap().payload.time_to_live_ms = 9;
    assert_eq!(v.as_v1().unwrap().payload.time_to_live_ms, 9);

    let mut p = VersionedPendingTransactions::from_transactions(vec![
        Transaction::new_at(alice(), fails(1), 5, 6),
        Transaction::new_at(bob(), fails(1), 5, 7),
    ]);
    assert_eq!(p.as_v1().unwrap().0.len(), 2);
    p.as_mut_v1().unwrap().0.pop();
    let txs = p.into_v1().unwrap().into_transactions();
    assert_eq!(txs.len(), 1);
    assert_eq!(txs[0].payload.creation_time, 6);
    let pending = PendingTransactions::from_transactions(txs);
    assert_eq!(pending.0.len(), 1);
}

#[test]
fn transaction_values_order_by_creation_time() {
    let early = TransactionValue::Transaction(Box::new(VersionedTransaction::V1(
        Transaction::new_at(alice(), fails(1), 5, 100),
    )));
    let tx = Transaction::new_at(bob(), fails(1), 5, 200);
    let rejected = iroha_data_model::transaction::RejectedTransaction {
        payload: tx.payload,
        signatures: tx.signatures,
        rejection_reason: TransactionRejectionReason::WasmExecution(WasmExecutionFail {
            reason: "trap".to_string(),
        }),
    };
    let late = TransactionValue::RejectedTransaction(Box::new(VersionedRejectedTransaction::V1(
        rejected,
    )));
    assert_eq!(early.cmp(&late), Ordering::Less);
    assert_eq!(late.cmp(&early), Ordering::Greater);
    assert_eq!(early.cmp(&early), Ordering::Equal);
    assert_eq!(late.partial_cmp(&early), Some(Ordering::Greater));
    assert!(early < late);
    assert!(!(late <= early));
    assert_eq!(late.payload().creation_time, 200);
}

#[test]
fn valid_versioned_payload() {
    let tx = Transaction::new_at(alice(), fails(1), 5, 123);
    let valid = VersionedValidTransaction::V1(ValidTransaction {
        payload: tx.payload,
        signatures: tx.signatures,
    });
    assert_eq!(valid.payload().creation_time, 123);
    assert_eq!(valid.check_instruction_len(0), Err(MaxInstructionCount));
    assert_eq!(valid.into_v1().unwrap().payload.creation_time, 123);
}

#[test]
fn rejection_messages() {
    let f = InstructionExecutionFail {
        instruction: Instruction::SetKeyValue(
            Expression::Raw(Value::Text("a".to_string())),
            Expression::Raw(Value::Text("k".to_string())),
            Expression::Raw(Value::U32(1)),
        ),
        reason: "missing".to_string(),
    };
    assert_eq!(f.message(), "Failed to execute instruction of type set key-value pair: missing");
    let u = Instruction::Unregister(Expression::Raw(Value::Bool(true)));
    assert_eq!(u.kind(), "un-register");
    assert_eq!(
        WasmExecutionFail { reason: "trap".to_string() }.message(),
        "Failed to execute wasm binary: trap"
    );
    assert_eq!(
        NotPermittedFail { reason: "no".to_string() }.message(),
        "Action not permitted: no"
    );
    assert_eq!(
        UnsatisfiedSignatureConditionFail { reason: "quorum".to_string() }.message(),
        "Failed to verify signature condition specified in the account: quorum"
    );
    assert_eq!(
        BlockRejectionReason::ConsensusBlockRejection.message(),
        "Block was rejected during consensus"
    );
    let t = TransactionRejectionReason::NotPermitted(NotPermittedFail { reason: "x".to_string() });
    assert_eq!(t.message(), "Transaction rejected due to insufficient authorisation");
    assert_eq!(RejectionReason::Transaction(t).message(), "Transaction was rejected");
    assert_eq!(
        RejectionReason::Block(BlockRejectionReason::ConsensusBlockRejection).message(),
        "Block was rejected"
    );
}

#[test]
fn versioned_frame_round_trip() {
    let body = vec![3u8, 0, 255, 7];
    let framed = encode_versioned(CURRENT_VERSION, &body);
    assert_eq!(framed, vec![1, 3, 0, 255, 7]);
    assert_eq!(decode_versioned(&framed, CURRENT_VERSION), Ok(body));
}

#[test]
fn versioned_frame_errors() {
    assert_eq!(decode_versioned(&[], CURRENT_VERSION), Err(VersionError::Empty));
    assert_eq!(
        decode_versioned(&[2, 9, 9], CURRENT_VERSION),
        Err(VersionError::UnsupportedVersion(2))
    );
    assert_eq!(decode_versioned(&[1], CURRENT_VERSION), Ok(vec![]));
}

#[test]
fn signatures_do_not_depend_on_signing_order() {
    let base = Transaction::new_at(alice(), fails(1), 500, 3);
    let ab = base.clone().sign(signature(5)).sign(signature(2));
    let ba = base.sign(signature(2)).sign(signature(5));
    assert_eq!(ab.signatures, ba.signatures);
    assert_eq!(ab, ba);
    let keys: Vec<Vec<u8>> = ab.signatures.signatures().iter().map(|s| s.public_key.clone()).collect();
    assert_eq!(keys, vec![vec![2; 4], vec![5; 4]]);
}

#[test]
fn signature_set_keeps_ascending_order() {
    let mut set = SignatureSet::new();
    for key in [9u8, 1, 4, 1, 7] {
        set.insert(signature(key));
    }
    assert_eq!(set.len(), 4);
    let keys: Vec<u8> = set.signatures().iter().map(|s| s.public_key[0]).collect();
    assert_eq!(keys, vec![1, 4, 7, 9]);
    let same_key = Signature { public_key: vec![4; 4], payload: vec![0] };
    set.insert(same_key.clone());
    assert_eq!(set.signatures()[1], same_key);
}

#[test]
fn byte_strings_compare_lexicographically() {
    assert_eq!(compare_bytes(&vec![1, 2], &vec![1, 3]), Ordering::Less);
    assert_eq!(compare_bytes(&vec![1, 2], &vec![1, 2, 0]), Ordering::Less);
    assert_eq!(compare_bytes(&vec![2], &vec![1, 9, 9]), Ordering::Greater);
    assert_eq!(compare_bytes(&vec![], &vec![]), Ordering::Equal);
}

#[test]
fn metadata_is_a_map() {
    let mut a = UnlimitedMetadata::new();
    a.insert("zeta".to_string(), Value::U32(1));
    a.insert("alpha".to_string(), Value::Bool(false));
    let mut b = UnlimitedMetadata::new();
    b.insert("alpha".to_string(), Value::Bool(false));
    b.insert("zeta".to_string(), Value::U32(1));
    assert!(a.same_as(&b));
    assert_eq!(a, b);
    let keys: Vec<&str> = a.entries().iter().map(|e| e.0.as_str()).collect();
    assert_eq!(keys, vec!["alpha", "zeta"]);
    a.insert("zeta".to_string(), Value::U32(2));
    assert_eq!(a.entries().len(), 2);
    assert_eq!(a.get("zeta"), Some(&Value::U32(2)));
    assert_eq!(a.get("beta"), None);
    assert!(!a.same_as(&b));
}

#[test]
fn metadata_order_of_insertion_does_not_matter_for_content() {
    let mut p = payload_with(fails(1));
    let mut q = p.clone();
    let mut m1 = UnlimitedMetadata::new();
    m1.insert("b".to_string(), Value::Text("x".to_string()));
    m1.insert("a".to_string(), Value::U32(3));
    let mut m2 = UnlimitedMetadata::new();
    m2.insert("a".to_string(), Value::U32(3));
    m2.insert("b".to_string(), Value::Text("x".to_string()));
    p.metadata = m1;
    q.metadata = m2;
    q.creation_time = 12345;
    assert!(p.equals_excluding_creation_time(&q));
}

#[test]
fn versions_and_size_message() {
    let v = VersionedTransaction::V1(Transaction::new_at(alice(), fails(1), 5, 6));
    assert_eq!(v.version(), CURRENT_VERSION);
    assert!(v.as_v1().is_ok());
    assert_eq!(MaxInstructionCount.message(), "Too many instructions in payload");
}
