//! The condition expression builder: an expression text with the aliases that
//! it refers to, and the merge of several such fragments into one.

use vstd::prelude::*;
use vstd::string::*;
use crate::alias_map::AliasMap;
use crate::value::{ConditionValue, ConditionValueView};

verus! {

/// A condition on an item: an expression over name aliases and value
/// placeholders, with the attribute names and values that they stand for.
///
/// An empty expression means that there is no condition.
pub struct ConditionCheckInfo {
    expression: String,
    names: AliasMap<String>,
    values: AliasMap<ConditionValue>,
}

/// The mathematical content of a [`ConditionCheckInfo`].
pub struct ConditionView {
    /// The expression text.
    pub expression: Seq<char>,
    /// From each name alias to the attribute name that it stands for.
    pub names: Map<Seq<char>, Seq<char>>,
    /// From each value placeholder to the value that it stands for.
    pub values: Map<Seq<char>, ConditionValueView>,
}

impl View for ConditionCheckInfo {
    type V = ConditionView;

    closed spec fn view(&self) -> ConditionView {
        ConditionView {
            expression: self.expression@,
            names: self.names@,
            values: self.values@,
        }
    }
}

/// The condition without expression, names or values.
pub open spec fn empty_condition() -> ConditionView {
    ConditionView { expression: Seq::empty(), names: Map::empty(), values: Map::empty() }
}

/// The text starts with an opening and ends with a closing parenthesis.
pub open spec fn is_wrapped(text: Seq<char>) -> bool {
    text.len() > 0 && text.first() == '(' && text.last() == ')'
}

/// The text itself where it is wrapped already, else the text in parentheses.
pub open spec fn wrapped(text: Seq<char>) -> Seq<char> {
    if is_wrapped(text) {
        text
    } else {
        "("@ + text + ")"@
    }
}

/// The expression that holds when both `acc` and `other` hold. An empty
/// `acc` is no condition, so the result is `other` as it stands.
pub open spec fn conjunction(acc: Seq<char>, other: Seq<char>) -> Seq<char> {
    if acc.len() == 0 {
        other
    } else {
        wrapped(acc) + " and ("@ + other + ")"@
    }
}

/// `acc` after one fragment was merged into it: the aliases of both, those of
/// `other` winning where both have one, and the conjunction of the expressions.
pub open spec fn merge_one(acc: ConditionView, other: ConditionView) -> ConditionView {
    ConditionView {
        expression: conjunction(acc.expression, other.expression),
        names: acc.names.union_prefer_right(other.names),
        values: acc.values.union_prefer_right(other.values),
    }
}

/// `acc` after the fragments were merged into it one by one, first to last.
pub open spec fn merge_all(acc: ConditionView, others: Seq<ConditionView>) -> ConditionView
    decreases others.len(),
{
    if others.len() == 0 {
        acc
    } else {
        merge_all(merge_one(acc, others.first()), others.drop_first())
    }
}

/// The contents of each fragment of a list.
pub open spec fn fragment_views(fragments: Seq<ConditionCheckInfo>) -> Seq<ConditionView> {
    fragments.map_values(|f: ConditionCheckInfo| f@)
}

/// Puts `text` in parentheses unless it starts and ends with one already.
fn wrap(text: String) -> (out: String)
    ensures
        out@ == wrapped(text@),
{
    let length = text.as_str().unicode_len();
    if length > 0 && text.as_str().get_char(0) == '(' && text.as_str().get_char(length - 1) == ')' {
        text
    } else {
        let mut out = String::from_str("(");
        out.append(text.as_str());
        out.append(")");
        out
    }
}

impl ConditionCheckInfo {
    /// The condition without expression, names or values.
    pub fn new() -> (info: Self)
        ensures
            info@ == empty_condition(),
    {
        ConditionCheckInfo {
            expression: String::new(),
            names: AliasMap::new(),
            values: AliasMap::new(),
        }
    }

    /// The expression text.
    pub fn expression(&self) -> (text: &str)
        ensures
            text@ == self@.expression,
    {
        self.expression.as_str()
    }

    /// The name aliases with the attribute names that they stand for.
    pub fn names(&self) -> (names: &AliasMap<String>)
        ensures
            names@ == self@.names,
    {
        &self.names
    }

    /// The value placeholders with the values that they stand for.
    pub fn values(&self) -> (values: &AliasMap<ConditionValue>)
        ensures
            values@ == self@.values,
    {
        &self.values
    }

    /// Replaces the expression text.
    pub fn condition_expression(self, input: &str) -> (info: Self)
        ensures
            info@ == (ConditionView { expression: input@, ..self@ }),
    {
        ConditionCheckInfo {
            expression: String::from_str(input),
            names: self.names,
            values: self.values,
        }
    }

    /// Lets the alias `k` stand for the attribute name `v`; an attribute name
    /// that `k` stood for before is replaced.
    pub fn expression_attribute_names(self, k: &str, v: &str) -> (info: Self)
        ensures
            info@ == (ConditionView { names: self@.names.insert(k@, v@), ..self@ }),
    {
        ConditionCheckInfo {
            expression: self.expression,
            names: self.names.insert(String::from_str(k), String::from_str(v)),
            values: self.values,
        }
    }

    /// Lets the placeholder `k` stand for the value `v`; a value that `k`
    /// stood for before is replaced.
    pub fn expression_attribute_values(self, k: &str, v: ConditionValue) -> (info: Self)
        ensures
            info@ == (ConditionView { values: self@.values.insert(k@, v@), ..self@ }),
    {
        ConditionCheckInfo {
            expression: self.expression,
            names: self.names,
            values: self.values.insert(String::from_str(k), v),
        }
    }

    /// Merges one fragment into this condition.
    fn absorb(self, other: ConditionCheckInfo) -> (info: Self)
        ensures
            info@ == merge_one(self@, other@),
    {
        let names = self.names.extend(other.names);
        let values = self.values.extend(other.values);
        let expression = if self.expression.as_str().is_empty() {
            other.expression
        } else {
            let mut text = wrap(self.expression);
            text.append(" and (");
            text.append(other.expression.as_str());
            text.append(")");
            text
        };
        ConditionCheckInfo { expression, names, values }
    }

    /// Merges the fragments into this condition, first to last.
    ///
    /// Each fragment adds its names and values, replacing what an alias of
    /// this condition stood for where it brings the same alias. Its expression
    /// is taken as it stands where this condition has none so far; else this
    /// condition's expression is put in parentheses, unless it starts and ends
    /// with one already, and the fragment's expression follows in parentheses
    /// after ` and `.
    pub fn merge(self, others: Vec<ConditionCheckInfo>) -> (merged: Self)
        ensures
            merged@ == merge_all(self@, fragment_views(others@)),
    {
        let ghost target = merge_all(self@, fragment_views(others@));
        let ghost all = fragment_views(others@);
        let mut acc = self;
        assert(all.skip(0) =~= all);
        for other in iter: others
            invariant
                iter.seq() == others@,
                all == fragment_views(others@),
                merge_all(acc@, all.skip(iter.index())) == target,
        {
            assert(all.skip(iter.index()).first() == other@);
            assert(all.skip(iter.index()).drop_first() =~= all.skip(iter.index() + 1));
            acc = acc.absorb(other);
        }
        assert(all.skip(all.len() as int) =~= Seq::empty());
        acc
    }
}

impl Default for ConditionCheckInfo {
    fn default() -> (info: Self)
        ensures
            info@ == empty_condition(),
    {
        ConditionCheckInfo::new()
    }
}

/// Merging no fragment leaves a condition as it is.
pub proof fn lemma_merge_nothing(acc: ConditionView)
    ensures
        merge_all(acc, Seq::empty()) == acc,
{
}

/// Merging a single fragment into the empty condition gives that fragment:
/// its expression, its names and its values.
pub proof fn lemma_merge_single(fragment: ConditionView)
    ensures
        merge_all(empty_condition(), seq![fragment]) == fragment,
{
    let merged = merge_one(empty_condition(), fragment);
    assert(merged.names =~= fragment.names);
    assert(merged.values =~= fragment.values);
    assert(merged == fragment);
    assert(seq![fragment].drop_first() =~= Seq::empty());
    assert(merge_all(merged, Seq::empty()) == merged);
}

/// Merging two fragments into the empty condition, the first of them with an
/// expression: the result's expression is the first one's, put in parentheses
/// unless it starts and ends with one already, then ` and (`, the second
/// one's, and `)`. Its names are those of both fragments, and so are its
/// values: an alias of the second stands for what it stood for there, and an
/// alias of the first alone for what it stood for in the first. So where the
/// two have no alias in common, each alias keeps its meaning.
pub proof fn lemma_merge_pair(first: ConditionView, second: ConditionView)
    requires
        first.expression.len() > 0,
    ensures
        ({
            let merged = merge_all(empty_condition(), seq![first, second]);
            let head = if is_wrapped(first.expression) {
                first.expression
            } else {
                seq!['('] + first.expression + seq![')']
            };
            &&& merged.expression == head + seq![' ', 'a', 'n', 'd', ' ', '('] + second.expression
                + seq![')']
            &&& merged.names == first.names.union_prefer_right(second.names)
            &&& merged.values == first.values.union_prefer_right(second.values)
            &&& merged.names.dom() == first.names.dom().union(second.names.dom())
            &&& merged.values.dom() == first.values.dom().union(second.values.dom())
            &&& forall|k: Seq<char>| #[trigger]
                second.names.contains_key(k) ==> merged.names[k] == second.names[k]
            &&& forall|k: Seq<char>| #[trigger]
                second.values.contains_key(k) ==> merged.values[k] == second.values[k]
            &&& forall|k: Seq<char>|
                #[trigger] first.names.contains_key(k) && !second.names.contains_key(k)
                    ==> merged.names[k] == first.names[k]
            &&& forall|k: Seq<char>|
                #[trigger] first.values.contains_key(k) && !second.values.contains_key(k)
                    ==> merged.values[k] == first.values[k]
        }),
{
    reveal_strlit("(");
    reveal_strlit(")");
    reveal_strlit(" and (");
    assert("("@ =~= seq!['(']);
    assert(")"@ =~= seq![')']);
    assert(" and ("@ =~= seq![' ', 'a', 'n', 'd', ' ', '(']);
    lemma_merge_single(first);
    let fragments = seq![first, second];
    let after_first = merge_one(empty_condition(), first);
    assert(after_first.names =~= first.names);
    assert(after_first.values =~= first.values);
    assert(after_first == first);
    assert(fragments.drop_first() =~= seq![second]);
    assert(seq![second].drop_first() =~= Seq::empty());
    let merged = merge_one(first, second);
    assert(merge_all(merged, Seq::empty()) == merged);
    assert(merge_all(after_first, seq![second]) == merged);
    assert(merge_all(empty_condition(), fragments) == merged);
    assert(merged.names.dom() =~= first.names.dom().union(second.names.dom()));
    assert(merged.values.dom() =~= first.values.dom().union(second.values.dom()));
}

/// Merging two fragments into the empty condition, the first of them without
/// expression: the result's expression is the second one's as it stands.
pub proof fn lemma_merge_pair_without_first_expression(first: ConditionView, second: ConditionView)
    requires
        first.expression.len() == 0,
    ensures
        merge_all(empty_condition(), seq![first, second]).expression == second.expression,
{
    let fragments = seq![first, second];
    let after_first = merge_one(empty_condition(), first);
    assert(fragments.drop_first() =~= seq![second]);
    assert(seq![second].drop_first() =~= Seq::empty());
    let merged = merge_one(after_first, second);
    assert(merge_all(merged, Seq::empty()) == merged);
    assert(merge_all(after_first, seq![second]) == merged);
}

/// Merging a list of fragments is merging a first part of it and then the
/// rest: one call of `merge` with all fragments gives what two calls give.
pub proof fn lemma_merge_in_steps(
    acc: ConditionView,
    first: Seq<ConditionView>,
    rest: Seq<ConditionView>,
)
    ensures
        merge_all(acc, first + rest) == merge_all(merge_all(acc, first), rest),
    decreases first.len(),
{
    if first.len() == 0 {
        assert(first + rest =~= rest);
    } else {
        assert((first + rest).first() == first.first());
        assert((first + rest).drop_first() =~= first.drop_first() + rest);
        lemma_merge_in_steps(merge_one(acc, first.first()), first.drop_first(), rest);
    }
}

} // verus!
