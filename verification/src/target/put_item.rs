//! The request that puts a single item.

use vstd::prelude::*;
use vstd::string::*;
use aws_sdk_dynamodb::operation::put_item::builders::PutItemFluentBuilder;
use aws_sdk_dynamodb::types::AttributeValue;
use crate::alias_map::{entry_map, lemma_entry_map_step};
use crate::condition::ConditionCheckInfo;
use crate::target::{attached, TargetCondition};
use crate::value::{ConditionValue, ConditionValueView};

verus! {

#[verifier::external_type_specification]
#[verifier::external_body]
pub struct ExPutItemFluentBuilder(PutItemFluentBuilder);

/// The condition expression that the builder holds, if one was set.
pub uninterp spec fn put_item_expression(builder: PutItemFluentBuilder) -> Option<Seq<char>>;

/// The name aliases registered on the builder; none where it has no such map.
pub uninterp spec fn put_item_names(builder: PutItemFluentBuilder) -> Map<Seq<char>, Seq<char>>;

/// The value placeholders registered on the builder that stand for a string
/// or a number; none where it has no such map.
pub uninterp spec fn put_item_values(builder: PutItemFluentBuilder) -> Map<Seq<char>, ConditionValueView>;

/// The builder with its condition expression, names and values taken out:
/// what of the builder has nothing to do with a condition.
pub uninterp spec fn put_item_rest(builder: PutItemFluentBuilder) -> PutItemFluentBuilder;

/// What the builder holds of a condition.
pub open spec fn put_item_condition(builder: PutItemFluentBuilder) -> TargetCondition {
    TargetCondition {
        expression: put_item_expression(builder),
        names: put_item_names(builder),
        values: put_item_values(builder),
    }
}

/// `PutItemFluentBuilder::condition_expression`: sets the expression and leaves
/// the registered names and values as they are.
#[verifier::external_body]
fn set_expression(builder: PutItemFluentBuilder, text: &str) -> (out: PutItemFluentBuilder)
    ensures
        put_item_rest(out) == put_item_rest(builder),
        put_item_expression(out) == Some(text@),
        put_item_names(out) == put_item_names(builder),
        put_item_values(out) == put_item_values(builder),
{
    builder.condition_expression(text)
}

/// `PutItemFluentBuilder::expression_attribute_names`: inserts the alias into
/// the builder's map of names, in place of an entry with the same alias, and
/// leaves the expression and the values as they are.
#[verifier::external_body]
fn add_name(builder: PutItemFluentBuilder, alias: &str, name: &str) -> (out: PutItemFluentBuilder)
    ensures
        put_item_rest(out) == put_item_rest(builder),
        put_item_names(out) == put_item_names(builder).insert(alias@, name@),
        put_item_expression(out) == put_item_expression(builder),
        put_item_values(out) == put_item_values(builder),
{
    builder.expression_attribute_names(alias, name)
}

/// `PutItemFluentBuilder::expression_attribute_values`: inserts the placeholder
/// into the builder's map of values, in place of an entry with the same
/// placeholder, and leaves the expression and the names as they are.
#[verifier::external_body]
fn add_value(builder: PutItemFluentBuilder, placeholder: &str, value: &ConditionValue) -> (out: PutItemFluentBuilder)
    ensures
        put_item_rest(out) == put_item_rest(builder),
        put_item_values(out) == put_item_values(builder).insert(placeholder@, value@),
        put_item_expression(out) == put_item_expression(builder),
        put_item_names(out) == put_item_names(builder),
{
    builder.expression_attribute_values(
        placeholder,
        match value {
            ConditionValue::S(text) => AttributeValue::S(text.clone()),
            ConditionValue::N(text) => AttributeValue::N(text.clone()),
        },
    )
}

impl ConditionCheckInfo {
    /// Attaches this condition to a request that puts a single item.
    pub fn dump_in_put_item(self, builder: PutItemFluentBuilder) -> (out: PutItemFluentBuilder)
        ensures
            self@.expression.len() == 0 ==> out == builder,
            put_item_condition(out) == attached(put_item_condition(builder), self@),
            put_item_rest(out) == put_item_rest(builder),
    {
        if self.expression().is_empty() {
            return builder;
        }
        let mut out = set_expression(builder, self.expression());
        let names = self.names();
        let values = self.values();
        let name_count = names.len();
        let value_count = values.len();
        assert(names.entries().take(0) =~= Seq::empty());
        assert(put_item_names(out) =~= put_item_names(builder).union_prefer_right(
            entry_map(names.entries().take(0)),
        ));
        let mut i: usize = 0;
        while i < name_count
            invariant
                put_item_rest(out) == put_item_rest(builder),
                i <= name_count == names.entries().len(),
                put_item_names(out) == put_item_names(builder).union_prefer_right(
                    entry_map(names.entries().take(i as int)),
                ),
                put_item_expression(out) == Some(self@.expression),
                put_item_values(out) == put_item_values(builder),
            decreases name_count - i,
        {
            proof {
                lemma_entry_map_step(put_item_names(builder), names.entries(), i as int);
            }
            out = add_name(out, names.key_at(i).as_str(), names.value_at(i).as_str());
            i += 1;
        }
        assert(names.entries().take(name_count as int) =~= names.entries());
        assert(values.entries().take(0) =~= Seq::empty());
        assert(put_item_values(out) =~= put_item_values(builder).union_prefer_right(
            entry_map(values.entries().take(0)),
        ));
        let mut j: usize = 0;
        while j < value_count
            invariant
                put_item_rest(out) == put_item_rest(builder),
                j <= value_count == values.entries().len(),
                put_item_values(out) == put_item_values(builder).union_prefer_right(
                    entry_map(values.entries().take(j as int)),
                ),
                put_item_expression(out) == Some(self@.expression),
                put_item_names(out) == put_item_names(builder).union_prefer_right(self@.names),
            decreases value_count - j,
        {
            proof {
                lemma_entry_map_step(put_item_values(builder), values.entries(), j as int);
            }
            out = add_value(out, values.key_at(j).as_str(), values.value_at(j));
            j += 1;
        }
        assert(values.entries().take(value_count as int) =~= values.entries());
        out
    }
}

} // verus!
