//! Typed values that a condition expression compares an attribute with.

use vstd::prelude::*;
use vstd::string::*;
use crate::text::{decimal_string, decimal_text};

verus! {

/// A value bound to a placeholder of a condition expression.
#[derive(Debug, PartialEq, Eq)]
pub enum ConditionValue {
    /// A string.
    S(String),
    /// A number, written in decimal.
    N(String),
}

/// The mathematical content of a [`ConditionValue`].
pub enum ConditionValueView {
    /// A string with the given characters.
    S(Seq<char>),
    /// A number with the given decimal text.
    N(Seq<char>),
}

impl View for ConditionValue {
    type V = ConditionValueView;

    open spec fn view(&self) -> ConditionValueView {
        match self {
            ConditionValue::S(s) => ConditionValueView::S(s@),
            ConditionValue::N(n) => ConditionValueView::N(n@),
        }
    }
}

impl Clone for ConditionValue {
    fn clone(&self) -> (copy: Self)
        ensures
            copy@ == self@,
    {
        match self {
            ConditionValue::S(s) => ConditionValue::S(s.clone()),
            ConditionValue::N(n) => ConditionValue::N(n.clone()),
        }
    }
}

impl ConditionValue {
    /// The string value with the characters of `text`.
    pub fn string(text: &str) -> (value: Self)
        ensures
            value@ == ConditionValueView::S(text@),
    {
        ConditionValue::S(String::from_str(text))
    }

    /// The number value that stands for `number`.
    pub fn number(number: i64) -> (value: Self)
        ensures
            value@ == ConditionValueView::N(decimal_text(number as int)),
    {
        ConditionValue::N(decimal_string(number))
    }
}

} // verus!
