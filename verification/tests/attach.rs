use aws_sdk_dynamodb::config::retry::RetryConfig;
use aws_sdk_dynamodb::config::timeout::TimeoutConfig;
use aws_sdk_dynamodb::config::{
    BehaviorVersion, IdentityCache, Region, StalledStreamProtectionConfig,
};
use aws_sdk_dynamodb::types::{AttributeValue, ConditionCheck, Delete, Put, Update};
use aws_sdk_dynamodb::{Client, Config};
use dynarust::{condition_check_with_seed, ConditionCheckInfo, ConditionValue, DynamoOperator};
use std::collections::HashMap;

fn client() -> Client {
    Client::from_conf(
        Config::builder()
            .behavior_version(BehaviorVersion::latest())
            .region(Region::new("eu-west-1"))
            .retry_config(RetryConfig::disabled())
            .timeout_config(TimeoutConfig::disabled())
            .stalled_stream_protection(StalledStreamProtectionConfig::disabled())
            .identity_cache(IdentityCache::no_cache())
            .build(),
    )
}

fn empty() -> ConditionCheckInfo {
    ConditionCheckInfo::new()
        .expression_attribute_names("#unused", "unused")
        .expression_attribute_values(":unused", ConditionValue::number(1))
}

fn sample() -> ConditionCheckInfo {
    ConditionCheckInfo::new()
        .condition_expression("#a > :a and #b = :b")
        .expression_attribute_names("#a", "age")
        .expression_attribute_names("#b", "name")
        .expression_attribute_values(":a", ConditionValue::number(18))
        .expression_attribute_values(":b", ConditionValue::string("bob"))
}

fn sample_names() -> HashMap<String, String> {
    HashMap::from([
        ("#a".to_string(), "age".to_string()),
        ("#b".to_string(), "name".to_string()),
    ])
}

fn sample_values() -> HashMap<String, AttributeValue> {
    HashMap::from([
        (":a".to_string(), AttributeValue::N("18".to_string())),
        (":b".to_string(), AttributeValue::S("bob".to_string())),
    ])
}

#[test]
fn an_empty_condition_leaves_a_condition_check_untouched() {
    let builder = ConditionCheck::builder().table_name("t");
    let out = empty().dump_in_condition_check(builder.clone());
    assert_eq!(out, builder);
    assert_eq!(out.get_condition_expression(), &None);
    assert_eq!(out.get_expression_attribute_names(), &None);
    assert_eq!(out.get_expression_attribute_values(), &None);
}

#[test]
fn an_empty_condition_leaves_transaction_writes_untouched() {
    let put = Put::builder().table_name("t");
    assert_eq!(empty().dump_in_put(put.clone()), put);
    let update = Update::builder().table_name("t").update_expression("SET #x = :x");
    assert_eq!(empty().dump_in_update(update.clone()), update);
    let delete = Delete::builder().table_name("t");
    assert_eq!(empty().dump_in_delete(delete.clone()), delete);
}

#[test]
fn an_empty_condition_leaves_single_item_requests_untouched() {
    let client = client();
    let put = empty().dump_in_put_item(client.put_item().table_name("t"));
    assert_eq!(put.get_table_name(), &Some("t".to_string()));
    assert_eq!(put.get_condition_expression(), &None);
    assert_eq!(put.get_expression_attribute_names(), &None);
    assert_eq!(put.get_expression_attribute_values(), &None);
    let update = empty().dump_in_update_item(client.update_item().table_name("t"));
    assert_eq!(update.get_table_name(), &Some("t".to_string()));
    assert_eq!(update.get_condition_expression(), &None);
    assert_eq!(update.get_expression_attribute_names(), &None);
    assert_eq!(update.get_expression_attribute_values(), &None);
    let delete = empty().dump_in_delete_item(client.delete_item().table_name("t"));
    assert_eq!(delete.get_table_name(), &Some("t".to_string()));
    assert_eq!(delete.get_condition_expression(), &None);
    assert_eq!(delete.get_expression_attribute_names(), &None);
    assert_eq!(delete.get_expression_attribute_values(), &None);
}

#[test]
fn a_condition_is_attached_to_a_condition_check() {
    let out = sample().dump_in_condition_check(ConditionCheck::builder().table_name("t"));
    assert_eq!(out.get_table_name(), &Some("t".to_string()));
    assert_eq!(out.get_condition_expression(), &Some("#a > :a and #b = :b".to_string()));
    assert_eq!(out.get_expression_attribute_names(), &Some(sample_names()));
    assert_eq!(out.get_expression_attribute_values(), &Some(sample_values()));
}

#[test]
fn a_condition_is_attached_to_a_put() {
    let out = sample().dump_in_put(Put::builder().table_name("t"));
    assert_eq!(out.get_table_name(), &Some("t".to_string()));
    assert_eq!(out.get_condition_expression(), &Some("#a > :a and #b = :b".to_string()));
    assert_eq!(out.get_expression_attribute_names(), &Some(sample_names()));
    assert_eq!(out.get_expression_attribute_values(), &Some(sample_values()));
}

#[test]
fn a_condition_is_attached_to_an_update() {
    let out = sample().dump_in_update(Update::builder().update_expression("SET #x = :x"));
    assert_eq!(out.get_update_expression(), &Some("SET #x = :x".to_string()));
    assert_eq!(out.get_condition_expression(), &Some("#a > :a and #b = :b".to_string()));
    assert_eq!(out.get_expression_attribute_names(), &Some(sample_names()));
    assert_eq!(out.get_expression_attribute_values(), &Some(sample_values()));
}

#[test]
fn a_condition_is_attached_to_a_delete() {
    let out = sample().dump_in_delete(Delete::builder().table_name("t"));
    assert_eq!(out.get_table_name(), &Some("t".to_string()));
    assert_eq!(out.get_condition_expression(), &Some("#a > :a and #b = :b".to_string()));
    assert_eq!(out.get_expression_attribute_names(), &Some(sample_names()));
    assert_eq!(out.get_expression_attribute_values(), &Some(sample_values()));
}

#[test]
fn a_condition_is_attached_to_a_put_item_request() {
    let out = sample().dump_in_put_item(client().put_item().table_name("t"));
    assert_eq!(out.get_table_name(), &Some("t".to_string()));
    assert_eq!(out.get_condition_expression(), &Some("#a > :a and #b = :b".to_string()));
    assert_eq!(out.get_expression_attribute_names(), &Some(sample_names()));
    assert_eq!(out.get_expression_attribute_values(), &Some(sample_values()));
}

#[test]
fn a_condition_is_attached_to_an_update_item_request() {
    let out = sample().dump_in_update_item(client().update_item().table_name("t"));
    assert_eq!(out.get_table_name(), &Some("t".to_string()));
    assert_eq!(out.get_condition_expression(), &Some("#a > :a and #b = :b".to_string()));
    assert_eq!(out.get_expression_attribute_names(), &Some(sample_names()));
    assert_eq!(out.get_expression_attribute_values(), &Some(sample_values()));
}

#[test]
fn a_condition_is_attached_to_a_delete_item_request() {
    let out = sample().dump_in_delete_item(client().delete_item().table_name("t"));
    assert_eq!(out.get_table_name(), &Some("t".to_string()));
    assert_eq!(out.get_condition_expression(), &Some("#a > :a and #b = :b".to_string()));
    assert_eq!(out.get_expression_attribute_names(), &Some(sample_names()));
    assert_eq!(out.get_expression_attribute_values(), &Some(sample_values()));
}

#[test]
fn what_the_target_holds_already_stays_unless_an_alias_is_the_same() {
    let builder = Update::builder()
        .condition_expression("old")
        .expression_attribute_names("#x", "x")
        .expression_attribute_names("#a", "old age")
        .expression_attribute_values(":x", AttributeValue::Bool(true))
        .expression_attribute_values(":a", AttributeValue::N("1".to_string()));
    let out = sample().dump_in_update(builder);
    assert_eq!(out.get_condition_expression(), &Some("#a > :a and #b = :b".to_string()));
    let mut names = sample_names();
    names.insert("#x".to_string(), "x".to_string());
    assert_eq!(out.get_expression_attribute_names(), &Some(names));
    let mut values = sample_values();
    values.insert(":x".to_string(), AttributeValue::Bool(true));
    assert_eq!(out.get_expression_attribute_values(), &Some(values));
}

#[test]
fn a_condition_without_names_or_values_sets_the_expression_alone() {
    let info = ConditionCheckInfo::new().condition_expression("attribute_exists(Id)");
    let out = info.dump_in_put(Put::builder());
    assert_eq!(out.get_condition_expression(), &Some("attribute_exists(Id)".to_string()));
    assert_eq!(out.get_expression_attribute_names(), &None);
    assert_eq!(out.get_expression_attribute_values(), &None);
}

#[test]
fn a_comparison_registers_one_name_and_one_value() {
    let info = condition_check_with_seed("k", "n", DynamoOperator::Ls, ConditionValue::number(-3));
    let out = info.dump_in_delete(Delete::builder());
    assert_eq!(out.get_condition_expression(), &Some("#k < :k".to_string()));
    assert_eq!(
        out.get_expression_attribute_names(),
        &Some(HashMap::from([("#k".to_string(), "n".to_string())]))
    );
    assert_eq!(
        out.get_expression_attribute_values(),
        &Some(HashMap::from([(":k".to_string(), AttributeValue::N("-3".to_string()))]))
    );
}

#[test]
fn attaching_changes_the_condition_and_nothing_else() {
    let check = ConditionCheck::builder()
        .table_name("t")
        .key("PK", AttributeValue::S("a".to_string()))
        .return_values_on_condition_check_failure(
            aws_sdk_dynamodb::types::ReturnValuesOnConditionCheckFailure::AllOld,
        );
    let out = sample().dump_in_condition_check(check.clone());
    assert_ne!(out, check);
    let cleared = out
        .set_condition_expression(None)
        .set_expression_attribute_names(None)
        .set_expression_attribute_values(None);
    assert_eq!(cleared, check);

    let put = Put::builder().table_name("t").item("PK", AttributeValue::S("a".to_string()));
    let cleared = sample()
        .dump_in_put(put.clone())
        .set_condition_expression(None)
        .set_expression_attribute_names(None)
        .set_expression_attribute_values(None);
    assert_eq!(cleared, put);

    let update = Update::builder().table_name("t").update_expression("SET #x = :x");
    let cleared = sample()
        .dump_in_update(update.clone())
        .set_condition_expression(None)
        .set_expression_attribute_names(None)
        .set_expression_attribute_values(None);
    assert_eq!(cleared, update);

    let delete = Delete::builder().table_name("t").key("PK", AttributeValue::S("a".to_string()));
    let cleared = sample()
        .dump_in_delete(delete.clone())
        .set_condition_expression(None)
        .set_expression_attribute_names(None)
        .set_expression_attribute_values(None);
    assert_eq!(cleared, delete);

    let request = client()
        .update_item()
        .table_name("t")
        .key("PK", AttributeValue::S("a".to_string()))
        .update_expression("SET #x = :x");
    let out = sample().dump_in_update_item(request);
    assert_eq!(out.get_table_name(), &Some("t".to_string()));
    assert_eq!(out.get_update_expression(), &Some("SET #x = :x".to_string()));
    assert_eq!(
        out.get_key(),
        &Some(HashMap::from([("PK".to_string(), AttributeValue::S("a".to_string()))]))
    );
}
