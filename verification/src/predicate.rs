//! The conditions that callers start from: that an item exists or does not,
//! and that one of its attributes compares to a value in a given way.

use vstd::prelude::*;
use vstd::string::*;
use rand::distributions::Alphanumeric;
use rand::Rng;
use crate::condition::{merge_all, merge_one, ConditionCheckInfo, ConditionView};
use crate::operator::DynamoOperator;
use crate::text::{decimal_text, push_char};
use crate::value::{ConditionValue, ConditionValueView};

verus! {

/// The attribute that holds an item's partition key.
pub const PK: &'static str = "PK";

/// The attribute that holds an item's sort key.
pub const SK: &'static str = "SK";

/// The number of characters of a seed.
pub const SEED_LENGTH: usize = 7;

/// `byte` is an ASCII letter or digit.
pub open spec fn is_alphanumeric(byte: u8) -> bool {
    (48 <= byte <= 57) || (65 <= byte <= 90) || (97 <= byte <= 122)
}

/// `c` is an ASCII letter or digit.
pub open spec fn is_alphanumeric_char(c: char) -> bool {
    (48 <= c as u32 <= 57) || (65 <= c as u32 <= 90) || (97 <= c as u32 <= 122)
}

/// `text` is a seed: seven characters, each an ASCII letter or digit.
pub open spec fn is_seed(text: Seq<char>) -> bool {
    &&& text.len() == SEED_LENGTH
    &&& forall|i: int| 0 <= i < text.len() ==> is_alphanumeric_char(#[trigger] text[i])
}

/// `Rng::sample` with the distribution `Alphanumeric`, on the generator of the
/// current thread: the byte drawn is an ASCII letter or digit. Which one is
/// left open, and two calls may differ.
#[verifier::external_body]
fn sample_alphanumeric() -> (byte: u8)
    ensures
        is_alphanumeric(byte),
{
    rand::thread_rng().sample(Alphanumeric)
}

/// Draws a fresh seed at random.
pub fn seed() -> (text: String)
    ensures
        is_seed(text@),
{
    let mut text = String::new();
    let mut drawn: usize = 0;
    while drawn < SEED_LENGTH
        invariant
            drawn <= SEED_LENGTH,
            text@.len() == drawn,
            forall|i: int| 0 <= i < text@.len() ==> is_alphanumeric_char(#[trigger] text@[i]),
        decreases SEED_LENGTH - drawn,
    {
        let byte = sample_alphanumeric();
        let c = byte as char;
        assert(is_alphanumeric_char(c));
        push_char(&mut text, c);
        drawn += 1;
    }
    text
}

/// The names of a condition on the item itself: one alias for each of the two
/// key attributes.
pub open spec fn key_names() -> Map<Seq<char>, Seq<char>> {
    Map::empty().insert("#pk"@, PK@).insert("#sk"@, SK@)
}

/// The condition that the item exists: both key attributes are there.
pub open spec fn exists_condition() -> ConditionView {
    ConditionView {
        expression: "attribute_exists(#pk) and attribute_exists(#sk)"@,
        names: key_names(),
        values: Map::empty(),
    }
}

/// The condition that the item does not exist: neither key attribute is there.
pub open spec fn not_exists_condition() -> ConditionView {
    ConditionView {
        expression: "attribute_not_exists(#pk) and attribute_not_exists(#sk)"@,
        names: key_names(),
        values: Map::empty(),
    }
}

/// The condition that the attribute `attr` compares to `value` as `operator`
/// says, written with the aliases that `key` gives: `#` and `key` for the
/// attribute, `:` and `key` for the value.
pub open spec fn comparison(
    key: Seq<char>,
    attr: Seq<char>,
    operator: DynamoOperator,
    value: ConditionValueView,
) -> ConditionView {
    ConditionView {
        expression: "#"@ + key + " "@ + operator.spec_symbol() + " :"@ + key,
        names: Map::empty().insert("#"@ + key, attr),
        values: Map::empty().insert(":"@ + key, value),
    }
}

/// Creates a condition that holds if the referenced item exists.
pub fn condition_check_exists() -> (info: ConditionCheckInfo)
    ensures
        info@ == exists_condition(),
{
    ConditionCheckInfo::new().condition_expression(
        "attribute_exists(#pk) and attribute_exists(#sk)",
    ).expression_attribute_names("#pk", PK).expression_attribute_names("#sk", SK)
}

/// Creates a condition that holds if the referenced item does not exist.
pub fn condition_check_not_exists() -> (info: ConditionCheckInfo)
    ensures
        info@ == not_exists_condition(),
{
    ConditionCheckInfo::new().condition_expression(
        "attribute_not_exists(#pk) and attribute_not_exists(#sk)",
    ).expression_attribute_names("#pk", PK).expression_attribute_names("#sk", SK)
}

/// Creates the condition that the attribute `attr` compares to `value` as
/// `operator` says, with the aliases that `seed` gives.
pub fn condition_check_with_seed(
    seed: &str,
    attr: &str,
    operator: DynamoOperator,
    value: ConditionValue,
) -> (info: ConditionCheckInfo)
    ensures
        info@ == comparison(seed@, attr@, operator, value@),
{
    let mut alias = String::from_str("#");
    alias.append(seed);
    let mut placeholder = String::from_str(":");
    placeholder.append(seed);
    let mut expression = String::from_str("#");
    expression.append(seed);
    expression.append(" ");
    expression.append(operator.symbol());
    expression.append(" :");
    expression.append(seed);
    ConditionCheckInfo::new().condition_expression(expression.as_str()).expression_attribute_names(
        alias.as_str(),
        attr,
    ).expression_attribute_values(placeholder.as_str(), value)
}

/// Creates a condition on a number: the attribute `attr` compares to `value`
/// as `operator` says. The aliases come from a fresh seed.
pub fn condition_check_number(attr: &str, operator: DynamoOperator, value: i64) -> (info:
    ConditionCheckInfo)
    ensures
        exists|key: Seq<char>|
            is_seed(key) && info@ == #[trigger] comparison(
                key,
                attr@,
                operator,
                ConditionValueView::N(decimal_text(value as int)),
            ),
{
    let key = seed();
    condition_check_with_seed(key.as_str(), attr, operator, ConditionValue::number(value))
}

/// Creates a condition on a string: the attribute `attr` compares to `value`
/// as `operator` says. The aliases come from a fresh seed.
pub fn condition_check_string(attr: &str, operator: DynamoOperator, value: &str) -> (info:
    ConditionCheckInfo)
    ensures
        exists|key: Seq<char>|
            is_seed(key) && info@ == #[trigger] comparison(
                key,
                attr@,
                operator,
                ConditionValueView::S(value@),
            ),
{
    let key = seed();
    condition_check_with_seed(key.as_str(), attr, operator, ConditionValue::string(value))
}

/// The conditions on the item itself refer to exactly two aliases, `#pk` for
/// the partition key and `#sk` for the sort key, and to no value.
pub proof fn lemma_key_conditions_aliases()
    ensures
        exists_condition().names.dom() == set!["#pk"@, "#sk"@],
        exists_condition().names.len() == 2,
        exists_condition().names["#pk"@] == PK@,
        exists_condition().names["#sk"@] == SK@,
        exists_condition().values.len() == 0,
        not_exists_condition().names == exists_condition().names,
        not_exists_condition().values == exists_condition().values,
{
    reveal_strlit("#pk");
    reveal_strlit("#sk");
    assert("#pk"@[1] != "#sk"@[1]);
    assert(key_names().dom() =~= set!["#pk"@, "#sk"@]);
    assert(Map::<Seq<char>, Seq<char>>::empty().insert("#pk"@, PK@).dom() =~= set!["#pk"@]);
}

/// Two comparisons made with different seeds have no alias and no placeholder
/// in common.
pub proof fn lemma_distinct_seeds(
    first: Seq<char>,
    second: Seq<char>,
    first_attr: Seq<char>,
    second_attr: Seq<char>,
    first_operator: DynamoOperator,
    second_operator: DynamoOperator,
    first_value: ConditionValueView,
    second_value: ConditionValueView,
)
    requires
        first != second,
    ensures
        comparison(first, first_attr, first_operator, first_value).names.dom().disjoint(
            comparison(second, second_attr, second_operator, second_value).names.dom(),
        ),
        comparison(first, first_attr, first_operator, first_value).values.dom().disjoint(
            comparison(second, second_attr, second_operator, second_value).values.dom(),
        ),
{
    assert(("#"@ + first).skip("#"@.len() as int) =~= first);
    assert(("#"@ + second).skip("#"@.len() as int) =~= second);
    assert((":"@ + first).skip(":"@.len() as int) =~= first);
    assert((":"@ + second).skip(":"@.len() as int) =~= second);
}

/// A comparison made with a seed shares no alias with the conditions on the
/// item itself.
pub proof fn lemma_seed_avoids_key_aliases(
    key: Seq<char>,
    attr: Seq<char>,
    operator: DynamoOperator,
    value: ConditionValueView,
)
    requires
        is_seed(key),
    ensures
        comparison(key, attr, operator, value).names.dom().disjoint(key_names().dom()),
{
    reveal_strlit("#");
    reveal_strlit("#pk");
    reveal_strlit("#sk");
    assert(("#"@ + key).len() == 8);
}

/// Merging the condition that the item does not exist into a comparison made
/// with a seed: the comparison is put in parentheses, the other condition
/// follows in parentheses after ` and `, and the result has three names and
/// one value.
pub proof fn lemma_comparison_and_not_exists(
    key: Seq<char>,
    attr: Seq<char>,
    operator: DynamoOperator,
    value: ConditionValueView,
)
    requires
        is_seed(key),
    ensures
        ({
            let first = comparison(key, attr, operator, value);
            let merged = merge_all(first, seq![not_exists_condition()]);
            &&& merged.expression == seq!['('] + first.expression + seq![')', ' ', 'a', 'n', 'd', ' ', '(']
                + not_exists_condition().expression + seq![')']
            &&& merged.names.len() == 3
            &&& merged.values.len() == 1
        }),
{
    let first = comparison(key, attr, operator, value);
    let second = not_exists_condition();
    let merged = merge_one(first, second);
    assert(seq![second].drop_first() =~= Seq::empty());
    assert(merge_all(merged, Seq::empty()) == merged);
    assert(merge_all(first, seq![second]) == merged);
    reveal_strlit("#");
    reveal_strlit("(");
    reveal_strlit(")");
    reveal_strlit(" and (");
    assert(first.expression[0] == '#');
    assert(merged.expression =~= seq!['('] + first.expression + seq![')', ' ', 'a', 'n', 'd', ' ', '(']
        + second.expression + seq![')']);
    lemma_key_conditions_aliases();
    lemma_seed_avoids_key_aliases(key, attr, operator, value);
    assert(first.names.dom() =~= set!["#"@ + key]);
    assert(first.values.dom() =~= set![":"@ + key]);
    vstd::map_lib::lemma_disjoint_union_size(first.names, second.names);
    assert(merged.values =~= first.values);
}

} // verus!
