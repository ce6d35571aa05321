//! Condition expressions for conditional writes and transactions on a
//! DynamoDB table whose items are addressed by a partition key and a sort key.
//!
//! A [`ConditionCheckInfo`] holds an expression with the name aliases and value
//! placeholders that it refers to. The functions of [`predicate`] make the
//! conditions to start from, [`ConditionCheckInfo::merge`] joins several into
//! one, and the modules under [`target`] attach a condition to a request
//! builder of the database client.

pub mod alias_map;
pub mod condition;
pub mod errors;
pub mod failure;
pub mod operator;
pub mod predicate;
pub mod target;
pub mod text;
pub mod transaction;
pub mod value;

pub use alias_map::AliasMap;
pub use condition::ConditionCheckInfo;
pub use errors::DynarustError;
pub use operator::DynamoOperator;
pub use predicate::{
    condition_check_exists, condition_check_not_exists, condition_check_number,
    condition_check_string, condition_check_with_seed, seed, PK, SK,
};
pub use transaction::transact_condition_check;
pub use value::ConditionValue;
