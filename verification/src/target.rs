//! Attaching a condition to the request builders of the database client.
//!
//! Every builder that can carry a condition holds the same three things: an
//! optional expression, name aliases and value placeholders. The client gives
//! its builders no common interface, so each has a module of its own here;
//! what attaching means is stated once, in [`attached`].

use vstd::prelude::*;
use vstd::map_lib::lemma_disjoint_union_size;
use crate::condition::ConditionView;
use crate::value::ConditionValueView;

pub mod condition_check;
pub mod delete;
pub mod delete_item;
pub mod put;
pub mod put_item;
pub mod update;
pub mod update_item;

verus! {

/// What a request builder holds of a condition.
pub struct TargetCondition {
    /// The condition expression, if one was set.
    pub expression: Option<Seq<char>>,
    /// The registered name aliases.
    pub names: Map<Seq<char>, Seq<char>>,
    /// The registered value placeholders that stand for a string or a number.
    pub values: Map<Seq<char>, ConditionValueView>,
}

/// What a builder holds of a condition when none was attached to it.
pub open spec fn no_condition() -> TargetCondition {
    TargetCondition { expression: None, names: Map::empty(), values: Map::empty() }
}

/// What a builder holds after `info` was attached to it. A condition with an
/// empty expression is none: the builder keeps what it held. Else the
/// expression is set, and each name and value of `info` is registered, in
/// place of what its alias stood for on the builder before.
pub open spec fn attached(before: TargetCondition, info: ConditionView) -> TargetCondition {
    if info.expression.len() == 0 {
        before
    } else {
        TargetCondition {
            expression: Some(info.expression),
            names: before.names.union_prefer_right(info.names),
            values: before.values.union_prefer_right(info.values),
        }
    }
}

/// Attaching a condition with an empty expression leaves what the builder
/// holds of a condition untouched.
pub proof fn lemma_attach_nothing(before: TargetCondition, info: ConditionView)
    requires
        info.expression.len() == 0,
    ensures
        attached(before, info) == before,
{
}

/// Attaching a condition with an expression sets the builder's expression to
/// it and registers each name and each value of the condition under its
/// alias. Where the builder held none of these aliases before, it holds as
/// many more names as the condition has names, and as many more values as the
/// condition has values.
pub proof fn lemma_attach_registers(before: TargetCondition, info: ConditionView)
    requires
        info.expression.len() > 0,
        before.names.dom().finite(),
        before.values.dom().finite(),
        info.names.dom().finite(),
        info.values.dom().finite(),
        before.names.dom().disjoint(info.names.dom()),
        before.values.dom().disjoint(info.values.dom()),
    ensures
        attached(before, info).expression == Some(info.expression),
        forall|k: Seq<char>| #[trigger]
            info.names.contains_key(k) ==> attached(before, info).names.contains_key(k)
                && attached(before, info).names[k] == info.names[k],
        forall|k: Seq<char>| #[trigger]
            info.values.contains_key(k) ==> attached(before, info).values.contains_key(k)
                && attached(before, info).values[k] == info.values[k],
        attached(before, info).names.len() == before.names.len() + info.names.len(),
        attached(before, info).values.len() == before.values.len() + info.values.len(),
{
    lemma_disjoint_union_size(before.names, info.names);
    lemma_disjoint_union_size(before.values, info.values);
}

} // verus!
