use dynarust::{AliasMap, ConditionValue};

#[test]
fn a_new_map_has_no_keys() {
    let map: AliasMap<String> = AliasMap::new();
    assert_eq!(map.len(), 0);
    assert_eq!(map.get("#a"), None);
}

#[test]
fn insert_adds_or_replaces() {
    let map = AliasMap::new()
        .insert("#a".to_string(), "one".to_string())
        .insert("#b".to_string(), "two".to_string());
    assert_eq!(map.len(), 2);
    assert_eq!(map.key_at(0), "#a");
    assert_eq!(map.value_at(0), "one");
    assert_eq!(map.key_at(1), "#b");
    assert_eq!(map.value_at(1), "two");
    let map = map.insert("#a".to_string(), "three".to_string());
    assert_eq!(map.len(), 2);
    assert_eq!(map.get("#a"), Some(&"three".to_string()));
    assert_eq!(map.get("#b"), Some(&"two".to_string()));
    assert_eq!(map.get("#"), None);
    assert_eq!(map.get("#ab"), None);
}

#[test]
fn extend_prefers_the_entries_that_come_in() {
    let left = AliasMap::new()
        .insert(":a".to_string(), ConditionValue::number(1))
        .insert(":b".to_string(), ConditionValue::number(2));
    let right = AliasMap::new()
        .insert(":b".to_string(), ConditionValue::string("two"))
        .insert(":c".to_string(), ConditionValue::string("three"));
    let all = left.extend(right);
    assert_eq!(all.len(), 3);
    assert_eq!(all.get(":a"), Some(&ConditionValue::N("1".to_string())));
    assert_eq!(all.get(":b"), Some(&ConditionValue::S("two".to_string())));
    assert_eq!(all.get(":c"), Some(&ConditionValue::S("three".to_string())));
}

#[test]
fn extend_with_or_of_an_empty_map() {
    let some = AliasMap::new().insert("#a".to_string(), "one".to_string());
    let all = some.extend(AliasMap::new());
    assert_eq!(all.len(), 1);
    assert_eq!(all.get("#a"), Some(&"one".to_string()));
    let all = AliasMap::new().extend(all);
    assert_eq!(all.len(), 1);
    assert_eq!(all.get("#a"), Some(&"one".to_string()));
}

#[test]
fn a_value_can_be_copied() {
    let value = ConditionValue::string("text");
    assert_eq!(value.clone(), value);
    let number = ConditionValue::number(i64::MIN);
    assert_eq!(number.clone(), ConditionValue::N("-9223372036854775808".to_string()));
}
