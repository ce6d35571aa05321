//! The update of a transaction.

use vstd::prelude::*;
use vstd::string::*;
use aws_sdk_dynamodb::types::builders::UpdateBuilder;
use aws_sdk_dynamodb::types::AttributeValue;
use crate::alias_map::{entry_map, lemma_entry_map_step};
use crate::condition::ConditionCheckInfo;
use crate::target::{attached, TargetCondition};
use crate::value::{ConditionValue, ConditionValueView};

verus! {

#[verifier::external_type_specification]
#[verifier::external_body]
pub struct ExUpdateBuilder(UpdateBuilder);

/// The condition expression that the builder holds, if one was set.
pub uninterp spec fn update_expression(builder: UpdateBuilder) -> Option<Seq<char>>;

/// The name aliases registered on the builder; none where it has no such map.
pub uninterp spec fn update_names(builder: UpdateBuilder) -> Map<Seq<char>, Seq<char>>;

/// The value placeholders registered on the builder that stand for a string
/// or a number; none where it has no such map.
pub uninterp spec fn update_values(builder: UpdateBuilder) -> Map<Seq<char>, ConditionValueView>;

/// The builder with its condition expression, names and values taken out:
/// what of the builder has nothing to do with a condition.
pub uninterp spec fn update_rest(builder: UpdateBuilder) -> UpdateBuilder;

/// What the builder holds of a condition.
pub open spec fn update_condition(builder: UpdateBuilder) -> TargetCondition {
    TargetCondition {
        expression: update_expression(builder),
        names: update_names(builder),
        values: update_values(builder),
    }
}

/// `UpdateBuilder::condition_expression`: sets the expression and leaves
/// the registered names and values as they are.
#[verifier::external_body]
fn set_expression(builder: UpdateBuilder, text: &str) -> (out: UpdateBuilder)
    ensures
        update_rest(out) == update_rest(builder),
        update_expression(out) == Some(text@),
        update_names(out) == update_names(builder),
        update_values(out) == update_values(builder),
{
    builder.condition_expression(text)
}

/// `UpdateBuilder::expression_attribute_names`: inserts the alias into
/// the builder's map of names, in place of an entry with the same alias, and
/// leaves the expression and the values as they are.
#[verifier::external_body]
fn add_name(builder: UpdateBuilder, alias: &str, name: &str) -> (out: UpdateBuilder)
    ensures
        update_rest(out) == update_rest(builder),
        update_names(out) == update_names(builder).insert(alias@, name@),
        update_expression(out) == update_expression(builder),
        update_values(out) == update_values(builder),
{
    builder.expression_attribute_names(alias, name)
}

/// `UpdateBuilder::expression_attribute_values`: inserts the placeholder
/// into the builder's map of values, in place of an entry with the same
/// placeholder, and leaves the expression and the names as they are.
#[verifier::external_body]
fn add_value(builder: UpdateBuilder, placeholder: &str, value: &ConditionValue) -> (out: UpdateBuilder)
    ensures
        update_rest(out) == update_rest(builder),
        update_values(out) == update_values(builder).insert(placeholder@, value@),
        update_expression(out) == update_expression(builder),
        update_names(out) == update_names(builder),
{
    builder.expression_attribute_values(
        placeholder,
        match value {
            ConditionValue::S(text) => AttributeValue::S(text.clone()),
            ConditionValue::N(text) => AttributeValue::N(text.clone()),
        },
    )
}

impl ConditionCheckInfo {
    /// Attaches this condition to the update of a transaction.
    pub fn dump_in_update(self, builder: UpdateBuilder) -> (out: UpdateBuilder)
        ensures
            self@.expression.len() == 0 ==> out == builder,
            update_condition(out) == attached(update_condition(builder), self@),
            update_rest(out) == update_rest(builder),
    {
        if self.expression().is_empty() {
            return builder;
        }
        let mut out = set_expression(builder, self.expression());
        let names = self.names();
        let values = self.values();
        let name_count = names.len();
        let value_count = values.len();
        assert(names.entries().take(0) =~= Seq::empty());
        assert(update_names(out) =~= update_names(builder).union_prefer_right(
            entry_map(names.entries().take(0)),
        ));
        let mut i: usize = 0;
        while i < name_count
            invariant
                update_rest(out) == update_rest(builder),
                i <= name_count == names.entries().len(),
                update_names(out) == update_names(builder).union_prefer_right(
                    entry_map(names.entries().take(i as int)),
                ),
                update_expression(out) == Some(self@.expression),
                update_values(out) == update_values(builder),
            decreases name_count - i,
        {
            proof {
                lemma_entry_map_step(update_names(builder), names.entries(), i as int);
            }
            out = add_name(out, names.key_at(i).as_str(), names.value_at(i).as_str());
            i += 1;
        }
        assert(names.entries().take(name_count as int) =~= names.entries());
        assert(values.entries().take(0) =~= Seq::empty());
        assert(update_values(out) =~= update_values(builder).union_prefer_right(
            entry_map(values.entries().take(0)),
        ));
        let mut j: usize = 0;
        while j < value_count
            invariant
                update_rest(out) == update_rest(builder),
                j <= value_count == values.entries().len(),
                update_values(out) == update_values(builder).union_prefer_right(
                    entry_map(values.entries().take(j as int)),
                ),
                update_expression(out) == Some(self@.expression),
                update_names(out) == update_names(builder).union_prefer_right(self@.names),
            decreases value_count - j,
        {
            proof {
                lemma_entry_map_step(update_values(builder), values.entries(), j as int);
            }
            out = add_value(out, values.key_at(j).as_str(), values.value_at(j));
            j += 1;
        }
        assert(values.entries().take(value_count as int) =~= values.entries());
        out
    }
}

} // verus!
