//! Comparison operators of the condition-expression grammar.

use vstd::prelude::*;

verus! {

/// A comparison between an attribute and a value.
#[derive(Clone, Copy, Debug, PartialEq, Eq, Structural)]
pub enum DynamoOperator {
    /// The attribute equals the value.
    Eq,
    /// The attribute differs from the value.
    NEq,
    /// The attribute is greater than the value.
    Gt,
    /// The attribute is greater than or equal to the value.
    GtEq,
    /// The attribute is less than the value.
    Ls,
    /// The attribute is less than or equal to the value.
    LsEq,
}

impl DynamoOperator {
    /// The operator as it is written in a condition expression.
    pub open spec fn spec_symbol(self) -> Seq<char> {
        match self {
            DynamoOperator::Eq => seq!['='],
            DynamoOperator::NEq => seq!['<', '>'],
            DynamoOperator::Gt => seq!['>'],
            DynamoOperator::GtEq => seq!['>', '='],
            DynamoOperator::Ls => seq!['<'],
            DynamoOperator::LsEq => seq!['<', '='],
        }
    }

    /// Returns the operator's textual symbol.
    pub fn symbol(&self) -> (s: &'static str)
        ensures
            s@ == self.spec_symbol(),
    {
        match self {
            DynamoOperator::Eq => {
                proof { reveal_strlit("="); }
                assert("="@ =~= seq!['=']);
                "="
            },
            DynamoOperator::NEq => {
                proof { reveal_strlit("<>"); }
                assert("<>"@ =~= seq!['<', '>']);
                "<>"
            },
            DynamoOperator::Gt => {
                proof { reveal_strlit(">"); }
                assert(">"@ =~= seq!['>']);
                ">"
            },
            DynamoOperator::GtEq => {
                proof { reveal_strlit(">="); }
                assert(">="@ =~= seq!['>', '=']);
                ">="
            },
            DynamoOperator::Ls => {
                proof { reveal_strlit("<"); }
                assert("<"@ =~= seq!['<']);
                "<"
            },
            DynamoOperator::LsEq => {
                proof { reveal_strlit("<="); }
                assert("<="@ =~= seq!['<', '=']);
                "<="
            },
        }
    }
}

} // verus!
