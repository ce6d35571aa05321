use aws_sdk_dynamodb::types::{AttributeValue, Put, TransactWriteItem};
use dynarust::{
    condition_check_exists, condition_check_with_seed, transact_condition_check,
    ConditionCheckInfo, ConditionValue, DynamoOperator, DynarustError,
};
use std::collections::HashMap;

fn key(pk: &str, sk: &str) -> HashMap<String, AttributeValue> {
    HashMap::from([
        ("PK".to_string(), AttributeValue::S(pk.to_string())),
        ("SK".to_string(), AttributeValue::S(sk.to_string())),
    ])
}

fn put_entry(pk: &str, sk: &str) -> TransactWriteItem {
    let put = Put::builder()
        .table_name("resources")
        .item("PK", AttributeValue::S(pk.to_string()))
        .item("SK", AttributeValue::S(sk.to_string()))
        .build()
        .unwrap();
    TransactWriteItem::builder().put(put).build()
}

#[test]
fn a_standalone_check_is_appended_to_the_transaction() {
    let mut context: Vec<TransactWriteItem> = Vec::new();
    let result = transact_condition_check(
        "resources",
        ("non".to_string(), "existing".to_string()),
        condition_check_exists(),
        &mut context,
    );
    assert!(result.is_ok());
    assert_eq!(context.len(), 1);
    let entry = &context[0];
    assert!(entry.put().is_none());
    assert!(entry.update().is_none());
    assert!(entry.delete().is_none());
    let check = entry.condition_check().unwrap();
    assert_eq!(check.table_name(), "resources");
    assert_eq!(check.key(), &key("non", "existing"));
    assert_eq!(
        check.condition_expression(),
        "attribute_exists(#pk) and attribute_exists(#sk)"
    );
    assert_eq!(
        check.expression_attribute_names(),
        Some(&HashMap::from([
            ("#pk".to_string(), "PK".to_string()),
            ("#sk".to_string(), "SK".to_string()),
        ]))
    );
    assert_eq!(check.expression_attribute_values(), None);
    assert_eq!(check.return_values_on_condition_check_failure(), None);
}

#[test]
fn a_standalone_check_follows_the_entries_that_are_there() {
    let mut context = vec![put_entry("A", "1")];
    let before = context.clone();
    transact_condition_check(
        "resources",
        ("non".to_string(), "existing".to_string()),
        condition_check_exists(),
        &mut context,
    )
    .unwrap();
    transact_condition_check(
        "others",
        ("B".to_string(), "2".to_string()),
        condition_check_with_seed("k", "age", DynamoOperator::Gt, ConditionValue::number(18)),
        &mut context,
    )
    .unwrap();
    assert_eq!(context.len(), 3);
    assert_eq!(context[0], before[0]);
    assert!(context[0].condition_check().is_none());
    let second = context[1].condition_check().unwrap();
    assert_eq!(second.table_name(), "resources");
    assert_eq!(second.key(), &key("non", "existing"));
    let third = context[2].condition_check().unwrap();
    assert_eq!(third.table_name(), "others");
    assert_eq!(third.key(), &key("B", "2"));
    assert_eq!(third.condition_expression(), "#k > :k");
    assert_eq!(
        third.expression_attribute_names(),
        Some(&HashMap::from([("#k".to_string(), "age".to_string())]))
    );
    assert_eq!(
        third.expression_attribute_values(),
        Some(&HashMap::from([(":k".to_string(), AttributeValue::N("18".to_string()))]))
    );
}

#[test]
fn a_condition_without_expression_cannot_be_a_standalone_check() {
    let mut context = vec![put_entry("A", "1")];
    let before = context.clone();
    let info = ConditionCheckInfo::new().expression_attribute_names("#a", "age");
    let result = transact_condition_check(
        "resources",
        ("A".to_string(), "1".to_string()),
        info,
        &mut context,
    );
    match result {
        Err(DynarustError::BuildError(_)) => {}
        other => panic!("expected a build error, got {:?}", other),
    }
    assert_eq!(context, before);
}

#[test]
fn the_build_error_names_the_missing_expression() {
    let mut context: Vec<TransactWriteItem> = Vec::new();
    let error = transact_condition_check(
        "resources",
        ("A".to_string(), "1".to_string()),
        ConditionCheckInfo::new(),
        &mut context,
    )
    .unwrap_err();
    let message = error.message();
    assert!(message.starts_with("Erorr while building something: "), "{}", message);
    assert!(message.contains("condition_expression"), "{}", message);
    assert!(context.is_empty());
}
