use dynarust::text::decimal_string;
use dynarust::{
    condition_check_exists, condition_check_not_exists, condition_check_number,
    condition_check_string, condition_check_with_seed, seed, ConditionCheckInfo, ConditionValue,
    DynamoOperator, PK, SK,
};

fn only_alias(info: &ConditionCheckInfo) -> String {
    assert_eq!(info.names().len(), 1);
    info.names().key_at(0).clone()
}

fn is_seed(text: &str) -> bool {
    text.chars().count() == 7 && text.chars().all(|c| c.is_ascii_alphanumeric())
}

#[test]
fn exists_refers_to_the_two_key_aliases_and_no_value() {
    let info = condition_check_exists();
    assert_eq!(info.expression(), "attribute_exists(#pk) and attribute_exists(#sk)");
    assert_eq!(info.names().len(), 2);
    assert_eq!(info.names().get("#pk"), Some(&PK.to_string()));
    assert_eq!(info.names().get("#sk"), Some(&SK.to_string()));
    assert_eq!(info.values().len(), 0);
}

#[test]
fn not_exists_refers_to_the_two_key_aliases_and_no_value() {
    let info = condition_check_not_exists();
    assert_eq!(info.expression(), "attribute_not_exists(#pk) and attribute_not_exists(#sk)");
    assert_eq!(info.names().len(), 2);
    assert_eq!(info.names().get("#pk"), Some(&PK.to_string()));
    assert_eq!(info.names().get("#sk"), Some(&SK.to_string()));
    assert_eq!(info.values().len(), 0);
}

#[test]
fn the_key_attributes_are_fixed() {
    assert_eq!(PK, "PK");
    assert_eq!(SK, "SK");
}

#[test]
fn a_seed_has_seven_letters_or_digits() {
    for _ in 0..200 {
        let text = seed();
        assert!(is_seed(&text), "{}", text);
    }
}

#[test]
fn a_comparison_with_a_given_seed() {
    let info = condition_check_with_seed(
        "abc1234",
        "age",
        DynamoOperator::Gt,
        ConditionValue::number(18),
    );
    assert_eq!(info.expression(), "#abc1234 > :abc1234");
    assert_eq!(info.names().len(), 1);
    assert_eq!(info.names().get("#abc1234"), Some(&"age".to_string()));
    assert_eq!(info.values().len(), 1);
    assert_eq!(info.values().get(":abc1234"), Some(&ConditionValue::N("18".to_string())));
}

#[test]
fn each_operator_is_written_as_its_symbol() {
    let cases = [
        (DynamoOperator::Eq, "#k = :k"),
        (DynamoOperator::NEq, "#k <> :k"),
        (DynamoOperator::Gt, "#k > :k"),
        (DynamoOperator::GtEq, "#k >= :k"),
        (DynamoOperator::Ls, "#k < :k"),
        (DynamoOperator::LsEq, "#k <= :k"),
    ];
    for (operator, expected) in cases {
        let info = condition_check_with_seed("k", "a", operator, ConditionValue::string("v"));
        assert_eq!(info.expression(), expected);
    }
    assert_eq!(DynamoOperator::Eq.symbol(), "=");
    assert_eq!(DynamoOperator::NEq.symbol(), "<>");
    assert_eq!(DynamoOperator::Gt.symbol(), ">");
    assert_eq!(DynamoOperator::GtEq.symbol(), ">=");
    assert_eq!(DynamoOperator::Ls.symbol(), "<");
    assert_eq!(DynamoOperator::LsEq.symbol(), "<=");
}

#[test]
fn a_number_comparison_uses_one_fresh_seed() {
    let info = condition_check_number("age", DynamoOperator::GtEq, -42);
    let alias = only_alias(&info);
    assert!(alias.starts_with('#'));
    let key = &alias[1..];
    assert!(is_seed(key), "{}", key);
    assert_eq!(info.expression(), format!("#{} >= :{}", key, key));
    assert_eq!(info.names().get(&alias), Some(&"age".to_string()));
    assert_eq!(info.values().len(), 1);
    assert_eq!(
        info.values().get(&format!(":{}", key)),
        Some(&ConditionValue::N("-42".to_string()))
    );
}

#[test]
fn a_string_comparison_uses_one_fresh_seed() {
    let info = condition_check_string("name", DynamoOperator::NEq, "bob");
    let alias = only_alias(&info);
    assert!(alias.starts_with('#'));
    let key = &alias[1..];
    assert!(is_seed(key), "{}", key);
    assert_eq!(info.expression(), format!("#{} <> :{}", key, key));
    assert_eq!(info.names().get(&alias), Some(&"name".to_string()));
    assert_eq!(info.values().len(), 1);
    assert_eq!(
        info.values().get(&format!(":{}", key)),
        Some(&ConditionValue::S("bob".to_string()))
    );
}

#[test]
fn independent_comparisons_do_not_share_aliases() {
    let mut fragments = Vec::new();
    for i in 0..50 {
        fragments.push(condition_check_number("n", DynamoOperator::Eq, i));
        fragments.push(condition_check_string("s", DynamoOperator::Eq, "x"));
    }
    let merged = ConditionCheckInfo::new().merge(fragments);
    assert_eq!(merged.names().len(), 100);
    assert_eq!(merged.values().len(), 100);
}

#[test]
fn a_number_comparison_merged_with_not_exists() {
    let merged = condition_check_number("age", DynamoOperator::Gt, 18)
        .merge(vec![condition_check_not_exists()]);
    assert_eq!(merged.names().len(), 3);
    assert_eq!(merged.values().len(), 1);
    assert_eq!(merged.names().len() + merged.values().len(), 4);
    let placeholder = merged.values().key_at(0).clone();
    let key = &placeholder[1..];
    assert!(is_seed(key), "{}", key);
    assert_eq!(
        merged.expression(),
        format!(
            "(#{} > :{}) and (attribute_not_exists(#pk) and attribute_not_exists(#sk))",
            key, key
        )
    );
    assert_eq!(merged.names().get(&format!("#{}", key)), Some(&"age".to_string()));
    assert_eq!(merged.names().get("#pk"), Some(&"PK".to_string()));
    assert_eq!(merged.names().get("#sk"), Some(&"SK".to_string()));
    assert_eq!(merged.values().get(&placeholder), Some(&ConditionValue::N("18".to_string())));

    let into_empty = ConditionCheckInfo::new().merge(vec![
        condition_check_with_seed("seed123", "age", DynamoOperator::Gt, ConditionValue::number(18)),
        condition_check_not_exists(),
    ]);
    assert_eq!(
        into_empty.expression(),
        "(#seed123 > :seed123) and (attribute_not_exists(#pk) and attribute_not_exists(#sk))"
    );
}

#[test]
fn numbers_are_written_in_decimal() {
    assert_eq!(decimal_string(0), "0");
    assert_eq!(decimal_string(7), "7");
    assert_eq!(decimal_string(10), "10");
    assert_eq!(decimal_string(18), "18");
    assert_eq!(decimal_string(-1), "-1");
    assert_eq!(decimal_string(-120), "-120");
    assert_eq!(decimal_string(1234567890), "1234567890");
    assert_eq!(decimal_string(i64::MAX), "9223372036854775807");
    assert_eq!(decimal_string(i64::MIN), "-9223372036854775808");
    for value in [-1000i64, -99, -10, -9, 9, 99, 100, 101, 999_999] {
        assert_eq!(decimal_string(value), value.to_string());
    }
    assert_eq!(ConditionValue::number(-5), ConditionValue::N("-5".to_string()));
    assert_eq!(ConditionValue::string("a b"), ConditionValue::S("a b".to_string()));
}
