//! The standalone condition check of a transaction.

use vstd::prelude::*;
use vstd::string::*;
use aws_sdk_dynamodb::error::BuildError;
use aws_sdk_dynamodb::types::builders::ConditionCheckBuilder;
use aws_sdk_dynamodb::types::{AttributeValue, ConditionCheck};
use crate::alias_map::{entry_map, lemma_entry_map_step};
use crate::condition::ConditionCheckInfo;
use crate::target::{attached, no_condition, TargetCondition};
use crate::value::{ConditionValue, ConditionValueView};

verus! {

#[verifier::external_type_specification]
#[verifier::external_body]
pub struct ExConditionCheckBuilder(ConditionCheckBuilder);

#[verifier::external_type_specification]
#[verifier::external_body]
pub struct ExConditionCheck(ConditionCheck);

/// The condition expression that the builder holds, if one was set.
pub uninterp spec fn condition_check_expression(builder: ConditionCheckBuilder) -> Option<Seq<char>>;

/// The name aliases registered on the builder; none where it has no such map.
pub uninterp spec fn condition_check_names(builder: ConditionCheckBuilder) -> Map<Seq<char>, Seq<char>>;

/// The value placeholders registered on the builder that stand for a string
/// or a number; none where it has no such map.
pub uninterp spec fn condition_check_values(builder: ConditionCheckBuilder) -> Map<
    Seq<char>,
    ConditionValueView,
>;

/// The table name that the builder holds, if one was set.
pub uninterp spec fn condition_check_table(builder: ConditionCheckBuilder) -> Option<Seq<char>>;

/// The string and number attributes of the key that the builder holds, if it
/// holds a key.
pub uninterp spec fn condition_check_key(builder: ConditionCheckBuilder) -> Option<
    Map<Seq<char>, ConditionValueView>,
>;

/// The builder asks for the item's attributes to be returned where the
/// condition fails.
pub uninterp spec fn condition_check_returns_item(builder: ConditionCheckBuilder) -> bool;

/// The builder with its condition expression, names and values taken out:
/// what of the builder has nothing to do with a condition.
pub uninterp spec fn condition_check_rest(builder: ConditionCheckBuilder) -> ConditionCheckBuilder;

/// What the builder holds of a condition.
pub open spec fn condition_check_condition(builder: ConditionCheckBuilder) -> TargetCondition {
    TargetCondition {
        expression: condition_check_expression(builder),
        names: condition_check_names(builder),
        values: condition_check_values(builder),
    }
}

/// `ConditionCheckBuilder::condition_expression`: sets the expression and
/// leaves the builder's other fields as they are.
#[verifier::external_body]
fn set_expression(builder: ConditionCheckBuilder, text: &str) -> (out: ConditionCheckBuilder)
    ensures
        condition_check_returns_item(out) == condition_check_returns_item(builder),
        condition_check_rest(out) == condition_check_rest(builder),
        condition_check_expression(out) == Some(text@),
        condition_check_names(out) == condition_check_names(builder),
        condition_check_values(out) == condition_check_values(builder),
        condition_check_table(out) == condition_check_table(builder),
        condition_check_key(out) == condition_check_key(builder),
{
    builder.condition_expression(text)
}

/// `ConditionCheckBuilder::expression_attribute_names`: inserts the alias
/// into the builder's map of names, in place of an entry with the same alias,
/// and leaves the builder's other fields as they are.
#[verifier::external_body]
fn add_name(builder: ConditionCheckBuilder, alias: &str, name: &str) -> (out: ConditionCheckBuilder)
    ensures
        condition_check_returns_item(out) == condition_check_returns_item(builder),
        condition_check_rest(out) == condition_check_rest(builder),
        condition_check_names(out) == condition_check_names(builder).insert(alias@, name@),
        condition_check_expression(out) == condition_check_expression(builder),
        condition_check_values(out) == condition_check_values(builder),
        condition_check_table(out) == condition_check_table(builder),
        condition_check_key(out) == condition_check_key(builder),
{
    builder.expression_attribute_names(alias, name)
}

/// `ConditionCheckBuilder::expression_attribute_values`: inserts the
/// placeholder into the builder's map of values, in place of an entry with
/// the same placeholder, and leaves the builder's other fields as they are.
#[verifier::external_body]
fn add_value(builder: ConditionCheckBuilder, placeholder: &str, value: &ConditionValue) -> (out:
    ConditionCheckBuilder)
    ensures
        condition_check_returns_item(out) == condition_check_returns_item(builder),
        condition_check_rest(out) == condition_check_rest(builder),
        condition_check_values(out) == condition_check_values(builder).insert(
            placeholder@,
            value@,
        ),
        condition_check_expression(out) == condition_check_expression(builder),
        condition_check_names(out) == condition_check_names(builder),
        condition_check_table(out) == condition_check_table(builder),
        condition_check_key(out) == condition_check_key(builder),
{
    builder.expression_attribute_values(
        placeholder,
        match value {
            ConditionValue::S(text) => AttributeValue::S(text.clone()),
            ConditionValue::N(text) => AttributeValue::N(text.clone()),
        },
    )
}

/// The table name of a built condition check.
pub uninterp spec fn built_check_table(check: ConditionCheck) -> Seq<char>;

/// The string and number attributes of the key of a built condition check.
pub uninterp spec fn built_check_key(check: ConditionCheck) -> Map<Seq<char>, ConditionValueView>;

/// The condition expression of a built condition check.
pub uninterp spec fn built_check_expression(check: ConditionCheck) -> Seq<char>;

/// The name aliases of a built condition check; none where it has no such map.
pub uninterp spec fn built_check_names(check: ConditionCheck) -> Map<Seq<char>, Seq<char>>;

/// The value placeholders of a built condition check that stand for a string
/// or a number; none where it has no such map.
pub uninterp spec fn built_check_values(check: ConditionCheck) -> Map<Seq<char>, ConditionValueView>;

/// A built condition check asks for the item's attributes to be returned
/// where the condition fails.
pub uninterp spec fn built_check_returns_item(check: ConditionCheck) -> bool;

/// `ConditionCheck::builder`: a builder with no field set.
#[verifier::external_body]
pub(crate) fn new_builder() -> (out: ConditionCheckBuilder)
    ensures
        condition_check_condition(out) == no_condition(),
        !condition_check_returns_item(out),
        condition_check_table(out) is None,
        condition_check_key(out) is None,
{
    ConditionCheck::builder()
}

/// `ConditionCheckBuilder::table_name`: sets the table name and leaves the
/// builder's other fields as they are.
#[verifier::external_body]
pub(crate) fn set_table(builder: ConditionCheckBuilder, table: &str) -> (out: ConditionCheckBuilder)
    ensures
        condition_check_returns_item(out) == condition_check_returns_item(builder),
        condition_check_table(out) == Some(table@),
        condition_check_expression(out) == condition_check_expression(builder),
        condition_check_names(out) == condition_check_names(builder),
        condition_check_values(out) == condition_check_values(builder),
        condition_check_key(out) == condition_check_key(builder),
{
    builder.table_name(table)
}

/// The key `before`, or the empty key where there is none, with `attribute`
/// set to `value`.
pub open spec fn key_with(
    before: Option<Map<Seq<char>, ConditionValueView>>,
    attribute: Seq<char>,
    value: ConditionValueView,
) -> Map<Seq<char>, ConditionValueView> {
    match before {
        Some(key) => key.insert(attribute, value),
        None => Map::empty().insert(attribute, value),
    }
}

/// `ConditionCheckBuilder::key`: inserts the attribute into the builder's
/// key, which is made first where the builder has none, in place of an entry
/// for the same attribute, and leaves the builder's other fields as they are.
#[verifier::external_body]
pub(crate) fn add_key(builder: ConditionCheckBuilder, attribute: &str, value: &ConditionValue) -> (out:
    ConditionCheckBuilder)
    ensures
        condition_check_returns_item(out) == condition_check_returns_item(builder),
        condition_check_key(out) == Some(key_with(condition_check_key(builder), attribute@, value@)),
        condition_check_expression(out) == condition_check_expression(builder),
        condition_check_names(out) == condition_check_names(builder),
        condition_check_values(out) == condition_check_values(builder),
        condition_check_table(out) == condition_check_table(builder),
{
    builder.key(
        attribute,
        match value {
            ConditionValue::S(text) => AttributeValue::S(text.clone()),
            ConditionValue::N(text) => AttributeValue::N(text.clone()),
        },
    )
}

/// The builder holds what a condition check cannot be without: a key, a table
/// name and a condition expression.
pub open spec fn is_complete(builder: ConditionCheckBuilder) -> bool {
    &&& condition_check_key(builder) is Some
    &&& condition_check_table(builder) is Some
    &&& condition_check_expression(builder) is Some
}

/// `ConditionCheckBuilder::build`: succeeds if and only if the builder holds
/// a key, a table name and a condition expression. The condition check that
/// it then gives holds what the builder held.
#[verifier::external_body]
pub(crate) fn build(builder: ConditionCheckBuilder) -> (built: Result<ConditionCheck, BuildError>)
    ensures
        built is Ok <==> is_complete(builder),
        built matches Ok(check) ==> condition_check_key(builder) == Some(built_check_key(check)),
        built matches Ok(check) ==> condition_check_table(builder) == Some(built_check_table(check)),
        built matches Ok(check) ==> condition_check_expression(builder) == Some(
            built_check_expression(check),
        ),
        built matches Ok(check) ==> condition_check_names(builder) == built_check_names(check),
        built matches Ok(check) ==> condition_check_values(builder) == built_check_values(check),
        built matches Ok(check) ==> condition_check_returns_item(builder)
            == built_check_returns_item(check),
{
    builder.build()
}

impl ConditionCheckInfo {
    /// Attaches this condition to a standalone condition check.
    pub fn dump_in_condition_check(self, builder: ConditionCheckBuilder) -> (out:
        ConditionCheckBuilder)
        ensures
            self@.expression.len() == 0 ==> out == builder,
            condition_check_condition(out) == attached(condition_check_condition(builder), self@),
            condition_check_rest(out) == condition_check_rest(builder),
            condition_check_returns_item(out) == condition_check_returns_item(builder),
            condition_check_table(out) == condition_check_table(builder),
            condition_check_key(out) == condition_check_key(builder),
    {
        if self.expression().is_empty() {
            return builder;
        }
        let mut out = set_expression(builder, self.expression());
        let names = self.names();
        let values = self.values();
        let name_count = names.len();
        let value_count = values.len();
        assert(names.entries().take(0) =~= Seq::empty());
        assert(condition_check_names(out) =~= condition_check_names(builder).union_prefer_right(
            entry_map(names.entries().take(0)),
        ));
        let mut i: usize = 0;
        while i < name_count
            invariant
                condition_check_returns_item(out) == condition_check_returns_item(builder),
                condition_check_rest(out) == condition_check_rest(builder),
                i <= name_count == names.entries().len(),
                condition_check_names(out) == condition_check_names(builder).union_prefer_right(
                    entry_map(names.entries().take(i as int)),
                ),
                condition_check_expression(out) == Some(self@.expression),
                condition_check_values(out) == condition_check_values(builder),
                condition_check_table(out) == condition_check_table(builder),
                condition_check_key(out) == condition_check_key(builder),
            decreases name_count - i,
        {
            proof {
                lemma_entry_map_step(condition_check_names(builder), names.entries(), i as int);
            }
            out = add_name(out, names.key_at(i).as_str(), names.value_at(i).as_str());
            i += 1;
        }
        assert(names.entries().take(name_count as int) =~= names.entries());
        assert(values.entries().take(0) =~= Seq::empty());
        assert(condition_check_values(out) =~= condition_check_values(builder).union_prefer_right(
            entry_map(values.entries().take(0)),
        ));
        let mut j: usize = 0;
        while j < value_count
            invariant
                condition_check_returns_item(out) == condition_check_returns_item(builder),
                condition_check_rest(out) == condition_check_rest(builder),
                j <= value_count == values.entries().len(),
                condition_check_values(out) == condition_check_values(builder).union_prefer_right(
                    entry_map(values.entries().take(j as int)),
                ),
                condition_check_expression(out) == Some(self@.expression),
                condition_check_names(out) == condition_check_names(builder).union_prefer_right(
                    self@.names,
                ),
                condition_check_table(out) == condition_check_table(builder),
                condition_check_key(out) == condition_check_key(builder),
            decreases value_count - j,
        {
            proof {
                lemma_entry_map_step(condition_check_values(builder), values.entries(), j as int);
            }
            out = add_value(out, values.key_at(j).as_str(), values.value_at(j));
            j += 1;
        }
        assert(values.entries().take(value_count as int) =~= values.entries());
        out
    }
}

} // verus!
