use std::cell::Cell;

use iroha_data_model::account::AccountId;
use iroha_data_model::isi::{Expression, Instruction, QueryBox, Value};
use iroha_data_model::transaction::{Executable, Transaction, VersionedTransaction};
use iroha_data_model::validator::{
    NeedsPermission, NeedsPermissionBox, Validator, ValidatorId, ValidatorType, Verdict,
};

fn is_pass(v: &Verdict) -> bool {
    matches!(v, Verdict::Pass)
}

fn deny_reason(v: &Verdict) -> Option<String> {
    match v {
        Verdict::Pass => None,
        Verdict::Deny(r) => Some(r.clone()),
    }
}

fn alice() -> AccountId {
    AccountId { name: "alice".to_string(), domain_id: "wonderland".to_string() }
}

#[test]
fn verdict_and_table() {
    assert!(is_pass(&Verdict::Pass.and(Verdict::Pass)));
    let r = Verdict::Deny("x".to_string()).and(Verdict::Pass);
    assert_eq!(deny_reason(&r), Some("x".to_string()));
    let r = Verdict::Pass.and(Verdict::Deny("y".to_string()));
    assert_eq!(deny_reason(&r), Some("y".to_string()));
    let r = Verdict::Deny("x".to_string()).and(Verdict::Deny("y".to_string()));
    assert_eq!(deny_reason(&r), Some("x".to_string()));
}

#[test]
fn and_then_calls_closure_after_pass() {
    let called = Cell::new(false);
    let r = Verdict::Pass.and_then(|| {
        called.set(true);
        Verdict::Deny("later".to_string())
    });
    assert!(called.get());
    assert_eq!(deny_reason(&r), Some("later".to_string()));
}

#[test]
fn and_then_skips_closure_after_deny() {
    let called = Cell::new(false);
    let r = Verdict::Deny("a".to_string()).and_then(|| {
        called.set(true);
        Verdict::Pass
    });
    assert!(!called.get());
    assert_eq!(deny_reason(&r), Some("a".to_string()));
}

#[test]
fn verdict_converts_to_result() {
    assert_eq!(Result::<(), String>::from(Verdict::Pass), Ok(()));
    let denied: Result<(), String> = Verdict::Deny("no".to_string()).into();
    assert_eq!(denied, Err("no".to_string()));
}

#[test]
fn validator_id_parses_name_and_account() {
    let id = ValidatorId::from_str("transfer%alice@wonderland").unwrap();
    assert_eq!(id.name(), "transfer");
    assert_eq!(id.owned_by().name, "alice");
    assert_eq!(id.owned_by().domain_id, "wonderland");
}

#[test]
fn validator_id_empty_fails() {
    assert!(ValidatorId::from_str("").is_err());
}

#[test]
fn validator_id_needs_exactly_one_percent() {
    assert!(ValidatorId::from_str("a%b%c").is_err());
    assert!(ValidatorId::from_str("transfer%alice@wonderland%x").is_err());
    assert!(ValidatorId::from_str("alice@wonderland").is_err());
}

#[test]
fn validator_id_parts_follow_their_grammar() {
    assert!(ValidatorId::from_str("%alice@wonderland").is_err());
    assert!(ValidatorId::from_str("my validator%alice@wonderland").is_err());
    assert!(ValidatorId::from_str("transfer%alice").is_err());
    assert!(ValidatorId::from_str("transfer%alice@").is_err());
    assert!(ValidatorId::from_str("transfer%a@b@c").is_err());
}

#[test]
fn validator_id_round_trip() {
    let id = ValidatorId::new("mint_guard".to_string(), alice());
    let text = id.to_string();
    assert_eq!(text, "mint_guard%alice@wonderland");
    let back = ValidatorId::from_str(&text).unwrap();
    assert_eq!(back.name(), "mint_guard");
    assert_eq!(back.owned_by().name, "alice");
    assert_eq!(back.owned_by().domain_id, "wonderland");
}

#[test]
fn account_id_text_forms() {
    let a = AccountId::parse("bob@garden").unwrap();
    assert_eq!(a.name, "bob");
    assert_eq!(a.domain_id, "garden");
    assert_eq!(a.to_string(), "bob@garden");
    assert!(AccountId::parse("bob").is_err());
    assert!(AccountId::parse("b#b@garden").is_err());
}

#[test]
fn routing_by_operation_kind() {
    let instruction = Instruction::Fail("stop".to_string());
    let query = QueryBox::FindAllAccounts;
    let expression = Expression::Raw(Value::U32(7));
    let tx = VersionedTransaction::V1(Transaction::new_at(
        alice(),
        Executable::Wasm(vec![0, 1]),
        100,
        5,
    ));
    assert_eq!(instruction.required_validator_type(), ValidatorType::Instruction);
    assert_eq!(query.required_validator_type(), ValidatorType::Query);
    assert_eq!(expression.required_validator_type(), ValidatorType::Expression);
    assert_eq!(tx.required_validator_type(), ValidatorType::Transaction);

    assert_eq!(
        NeedsPermissionBox::Instruction(instruction).required_validator_type(),
        ValidatorType::Instruction
    );
    assert_eq!(NeedsPermissionBox::Query(query).required_validator_type(), ValidatorType::Query);
    assert_eq!(
        NeedsPermissionBox::Expression(expression).required_validator_type(),
        ValidatorType::Expression
    );
    assert_eq!(
        NeedsPermissionBox::Transaction(tx).required_validator_type(),
        ValidatorType::Transaction
    );
}

#[test]
fn validator_accessors() {
    let id = ValidatorId::new("guard".to_string(), alice());
    let v = Validator::new(id, ValidatorType::Query, vec![0, 97, 115, 109]);
    assert_eq!(v.id().name(), "guard");
    assert_eq!(v.validator_type(), ValidatorType::Query);
    assert_eq!(v.wasm(), &vec![0, 97, 115, 109]);
}

#[test]
fn validator_id_reports_the_failing_part() {
    assert_eq!(ValidatorId::from_str("").unwrap_err().reason, "`ValidatorId` cannot be empty");
    assert_eq!(
        ValidatorId::from_str("a%b%c").unwrap_err().reason,
        "Validator ID should have format `validator%account_id`"
    );
    assert_eq!(
        ValidatorId::from_str("%alice@wonderland").unwrap_err().reason,
        "`Name` cannot be empty"
    );
    assert_eq!(
        ValidatorId::from_str("a b%alice@wonderland").unwrap_err().reason,
        "`Name` holds whitespace or a reserved character"
    );
    assert_eq!(
        ValidatorId::from_str("guard%alice").unwrap_err().reason,
        "`AccountId` should have format `name@domain`"
    );
    assert_eq!(ValidatorId::from_str("guard%alice@").unwrap_err().reason, "`Name` cannot be empty");
}

#[test]
fn validator_and_type_messages() {
    assert_eq!(ValidatorType::Expression.message(), "Expression");
    assert_eq!(ValidatorType::Transaction.message(), "Transaction");
    let v = Validator::new(ValidatorId::new("guard".to_string(), alice()), ValidatorType::Query, vec![]);
    assert_eq!(v.message(), "guard%alice@wonderland");
}
