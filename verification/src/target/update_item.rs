//! The request that updates a single item.

use vstd::prelude::*;
use vstd::string::*;
use aws_sdk_dynamodb::operation::update_item::builders::UpdateItemFluentBuilder;
use aws_sdk_dynamodb::types::AttributeValue;
use crate::alias_map::{entry_map, lemma_entry_map_step};
use crate::condition::ConditionCheckInfo;
use crate::target::{attached, TargetCondition};
use crate::value::{ConditionValue, ConditionValueView};

verus! {

#[verifier::external_type_specification]
#[verifier::external_body]
pub struct ExUpdateItemFluentBuilder(UpdateItemFluentBuilder);

/// The condition expression that the builder holds, if one was set.
pub uninterp spec fn update_item_expression(builder: UpdateItemFluentBuilder) -> Option<Seq<char>>;

/// The name aliases registered on the builder; none where it has no such map.
pub uninterp spec fn update_item_names(builder: UpdateItemFluentBuilder) -> Map<Seq<char>, Seq<char>>;

/// The value placeholders registered on the builder that stand for a string
/// or a number; none where it has no such map.
pub uninterp spec fn update_item_values(builder: UpdateItemFluentBuilder) -> Map<Seq<char>, ConditionValueView>;

/// The builder with its condition expression, names and values taken out:
/// what of the builder has nothing to do with a condition.
pub uninterp spec fn update_item_rest(builder: UpdateItemFluentBuilder) -> UpdateItemFluentBuilder;

/// What the builder holds of a condition.
pub open spec fn update_item_condition(builder: UpdateItemFluentBuilder) -> TargetCondition {
    TargetCondition {
        expression: update_item_expression(builder),
        names: update_item_names(builder),
        values: update_item_values(builder),
    }
}

/// `UpdateItemFluentBuilder::condition_expression`: sets the expression and leaves
/// the registered names and values as they are.
#[verifier::external_body]
fn set_expression(builder: UpdateItemFluentBuilder, text: &str) -> (out: UpdateItemFluentBuilder)
    ensures
        update_item_rest(out) == update_item_rest(builder),
        update_item_expression(out) == Some(text@),
        update_item_names(out) == update_item_names(builder),
        update_item_values(out) == update_item_values(builder),
{
    builder.condition_expression(text)
}

/// `UpdateItemFluentBuilder::expression_attribute_names`: inserts the alias into
/// the builder's map of names, in place of an entry with the same alias, and
/// leaves the expression and the values as they are.
#[verifier::external_body]
fn add_name(builder: UpdateItemFluentBuilder, alias: &str, name: &str) -> (out: UpdateItemFluentBuilder)
    ensures
        update_item_rest(out) == update_item_rest(builder),
        update_item_names(out) == update_item_names(builder).insert(alias@, name@),
        update_item_expression(out) == update_item_expression(builder),
        update_item_values(out) == update_item_values(builder),
{
    builder.expression_attribute_names(alias, name)
}

/// `UpdateItemFluentBuilder::expression_attribute_values`: inserts the placeholder
/// into the builder's map of values, in place of an entry with the same
/// placeholder, and leaves the expression and the names as they are.
#[verifier::external_body]
fn add_value(builder: UpdateItemFluentBuilder, placeholder: &str, value: &ConditionValue) -> (out: UpdateItemFluentBuilder)
    ensures
        update_item_rest(out) == update_item_rest(builder),
        update_item_values(out) == update_item_values(builder).insert(placeholder@, value@),
        update_item_expression(out) == update_item_expression(builder),
        update_item_names(out) == update_item_names(builder),
{
    builder.expression_attribute_values(
        placeholder,
        match value {
            ConditionValue::S(text) => AttributeValue::S(text.clone()),
            ConditionValue::N(text) => AttributeValue::N(text.clone()),
        },
    )
}

impl ConditionCheckInfo {
    /// Attaches this condition to a request that updates a single item.
    pub fn dump_in_update_item(self, builder: UpdateItemFluentBuilder) -> (out: UpdateItemFluentBuilder)
        ensures
            self@.expression.len() == 0 ==> out == builder,
            update_item_condition(out) == attached(update_item_condition(builder), self@),
            update_item_rest(out) == update_item_rest(builder),
    {
        if self.expression().is_empty() {
            return builder;
        }
        let mut out = set_expression(builder, self.expression());
        let names = self.names();
        let values = self.values();
        let name_count = names.len();
        let value_count = values.len();
        assert(names.entries().take(0) =~= Seq::empty());
        assert(update_item_names(out) =~= update_item_names(builder).union_prefer_right(
            entry_map(names.entries().take(0)),
        ));
        let mut i: usize = 0;
        while i < name_count
            invariant
                update_item_rest(out) == update_item_rest(builder),
                i <= name_count == names.entries().len(),
                update_item_names(out) == update_item_names(builder).union_prefer_right(
                    entry_map(names.entries().take(i as int)),
                ),
                update_item_expression(out) == Some(self@.expression),
                update_item_values(out) == update_item_values(builder),
            decreases name_count - i,
        {
            proof {
                lemma_entry_map_step(update_item_names(builder), names.entries(), i as int);
            }
            out = add_name(out, names.key_at(i).as_str(), names.value_at(i).as_str());
            i += 1;
        }
        assert(names.entries().take(name_count as int) =~= names.entries());
        assert(values.entries().take(0) =~= Seq::empty());
        assert(update_item_values(out) =~= update_item_values(builder).union_prefer_right(
            entry_map(values.entries().take(0)),
        ));
        let mut j: usize = 0;
        while j < value_count
            invariant
                update_item_rest(out) == update_item_rest(builder),
                j <= value_count == values.entries().len(),
                update_item_values(out) == update_item_values(builder).union_prefer_right(
                    entry_map(values.entries().take(j as int)),
                ),
                update_item_expression(out) == Some(self@.expression),
                update_item_names(out) == update_item_names(builder).union_prefer_right(self@.names),
            decreases value_count - j,
        {
            proof {
                lemma_entry_map_step(update_item_values(builder), values.entries(), j as int);
            }
            out = add_value(out, values.key_at(j).as_str(), values.value_at(j));
            j += 1;
        }
        assert(values.entries().take(value_count as int) =~= values.entries());
        out
    }
}

} // verus!
