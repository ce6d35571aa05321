//! Entries of a transaction that only check a condition.

use vstd::prelude::*;
use vstd::string::*;
use aws_sdk_dynamodb::types::{ConditionCheck, TransactWriteItem};
use crate::condition::{ConditionCheckInfo, ConditionView};
use crate::errors::DynarustError;
use crate::predicate::{PK, SK};
use crate::target::condition_check::{
    add_key, build, built_check_expression, built_check_key, built_check_names,
    built_check_returns_item, built_check_table, built_check_values, new_builder, set_table,
};
use crate::value::{ConditionValue, ConditionValueView};

verus! {

#[verifier::external_type_specification]
#[verifier::external_body]
pub struct ExTransactWriteItem(TransactWriteItem);

/// The condition check that an entry of a transaction holds, if it holds one.
pub uninterp spec fn transact_item_check(item: TransactWriteItem) -> Option<ConditionCheck>;

/// The entry holds a put, a delete or an update.
pub uninterp spec fn transact_item_writes(item: TransactWriteItem) -> bool;

/// `TransactWriteItem::builder`, `TransactWriteItemBuilder::condition_check`
/// and `TransactWriteItemBuilder::build`, one after the other: the entry that
/// holds the given condition check and nothing else.
#[verifier::external_body]
fn condition_check_item(check: ConditionCheck) -> (item: TransactWriteItem)
    ensures
        transact_item_check(item) == Some(check),
        !transact_item_writes(item),
{
    TransactWriteItem::builder().condition_check(check).build()
}

/// The key that addresses the item with partition key `pk` and sort key `sk`.
pub open spec fn item_key(pk: Seq<char>, sk: Seq<char>) -> Map<Seq<char>, ConditionValueView> {
    Map::empty().insert(PK@, ConditionValueView::S(pk)).insert(SK@, ConditionValueView::S(sk))
}

/// `item` is a standalone condition check, and nothing else: it checks
/// `condition` on the item of `table` that `pk` and `sk` address.
pub open spec fn is_condition_check(
    item: TransactWriteItem,
    table: Seq<char>,
    pk: Seq<char>,
    sk: Seq<char>,
    condition: ConditionView,
) -> bool {
    &&& !transact_item_writes(item)
    &&& transact_item_check(item) matches Some(check)
    &&& built_check_table(check) == table
    &&& built_check_key(check) == item_key(pk, sk)
    &&& built_check_expression(check) == condition.expression
    &&& built_check_names(check) == condition.names
    &&& built_check_values(check) == condition.values
    &&& !built_check_returns_item(check)
}

/// Adds a condition as a standalone check to a transaction: the transaction
/// commits only if the condition holds of the item that `pk_sk` addresses in
/// `table`. This is for a condition on an item that no other entry of the
/// transaction touches.
///
/// The check is appended after the entries that the transaction holds. A
/// condition without expression is no check: the request cannot be built,
/// the error says so, and the transaction stays as it is.
pub fn transact_condition_check(
    table: &str,
    pk_sk: (String, String),
    info: ConditionCheckInfo,
    transaction_context: &mut Vec<TransactWriteItem>,
) -> (result: Result<(), DynarustError>)
    ensures
        match result {
            Ok(_) => {
                &&& info@.expression.len() > 0
                &&& final(transaction_context)@.len() == old(transaction_context)@.len() + 1
                &&& final(transaction_context)@.drop_last() == old(transaction_context)@
                &&& is_condition_check(
                    final(transaction_context)@.last(),
                    table@,
                    pk_sk.0@,
                    pk_sk.1@,
                    info@,
                )
            },
            Err(error) => {
                &&& info@.expression.len() == 0
                &&& error is BuildError
                &&& final(transaction_context)@ == old(transaction_context)@
            },
        },
{
    let pk = ConditionValue::S(pk_sk.0);
    let sk = ConditionValue::S(pk_sk.1);
    let builder = add_key(add_key(set_table(new_builder(), table), PK, &pk), SK, &sk);
    match build(info.dump_in_condition_check(builder)) {
        Ok(check) => {
            assert(built_check_names(check) =~= info@.names);
            assert(built_check_values(check) =~= info@.values);
            transaction_context.push(condition_check_item(check));
            assert(final(transaction_context)@.drop_last() =~= old(transaction_context)@);
            Ok(())
        },
        Err(error) => Err(DynarustError::BuildError(error)),
    }
}

} // verus!
