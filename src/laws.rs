//! Properties of the rule engine and the cycle that hold for all inputs.
use vstd::prelude::*;

use crate::api::Entry;
use crate::filter::{matched_ids, matched_ids_upto, planned, planned_upto, qualifies};
use crate::pattern::regex_compiles;
use crate::rules::{
    condition_holds, condition_valid, field_text, matching_rules, matching_rules_upto, rule_holds,
    rule_set_enabled, rule_set_valid, rule_valid, Condition, Field, Operator, RuleSet,
};
use crate::text::{is_infix, lower_of};

verus! {

broadcast use vstd::seq_lib::group_filter_ensures;

/// A `Contains` condition holds exactly when the lowercase text of its field
/// contains the lowercase value (for tags, the text is the tags joined by
/// single spaces).
pub proof fn law_contains_is_lowercase_substring(c: Condition, e: Entry)
    requires
        c.operator == Operator::Contains,
    ensures
        condition_holds(c, e) <==> is_infix(lower_of(c.value@), lower_of(field_text(c.field, e))),
{
}

/// For any field, value and entry, `Equals` holds exactly when `NotEquals`
/// does not.
pub proof fn law_equals_complements_not_equals(field: Field, value: String, e: Entry)
    ensures
        condition_holds((Condition { field, operator: Operator::Equals, value }), e)
            == !condition_holds((Condition { field, operator: Operator::NotEquals, value }), e),
{
}

proof fn lemma_matching_rules_upto_members(rs: RuleSet, e: Entry, k: int, i: int)
    requires
        0 <= i < k <= rs.rules@.len(),
    ensures
        matching_rules_upto(rs, e, k).contains(i as usize) <==> rule_holds(rs.rules@[i], e),
    decreases k,
{
    assert(rs.rules@.len() == rs.rules.len());
    let before = matching_rules_upto(rs, e, k - 1);
    assert forall|j: int| 0 <= j < before.len() implies before[j] < k - 1 by {
        lemma_matching_rules_upto_bound(rs, e, k - 1);
    }
    if i < k - 1 {
        lemma_matching_rules_upto_members(rs, e, k - 1, i);
        if rule_holds(rs.rules@[k - 1], e) {
            assert(before.push((k - 1) as usize)[before.len() as int] == (k - 1) as usize);
            let after = before.push((k - 1) as usize);
            if after.contains(i as usize) {
                let j = choose|j: int| 0 <= j < after.len() && after[j] == i as usize;
                assert(j < before.len() && before[j] == after[j]);
            }
            if before.contains(i as usize) {
                let j = choose|j: int| 0 <= j < before.len() && before[j] == i as usize;
                assert(after[j] == before[j]);
            }
        }
    } else {
        if rule_holds(rs.rules@[k - 1], e) {
            assert(before.push((k - 1) as usize)[before.len() as int] == (k - 1) as usize);
        }
    }
}

proof fn lemma_matching_rules_upto_bound(rs: RuleSet, e: Entry, k: int)
    requires
        0 <= k <= rs.rules@.len(),
    ensures
        forall|j: int| 0 <= j < matching_rules_upto(rs, e, k).len() ==> #[trigger] matching_rules_upto(rs, e, k)[j] < k,
    decreases k,
{
    assert(rs.rules@.len() == rs.rules.len());
    if k > 0 {
        lemma_matching_rules_upto_bound(rs, e, k - 1);
        let before = matching_rules_upto(rs, e, k - 1);
        let now = matching_rules_upto(rs, e, k);
        assert forall|j: int| 0 <= j < now.len() implies #[trigger] now[j] < k by {
            if j < before.len() {
                assert(now[j] == before[j]);
            }
        }
    }
}

/// Rule `i` of an enabled rule set is among the matches for `e` exactly when
/// every one of its conditions holds of `e`.
pub proof fn law_rule_matches_iff_all_conditions(rs: RuleSet, i: int, e: Entry)
    requires
        0 <= i < rs.rules@.len(),
        rule_set_enabled(rs),
    ensures
        matching_rules(rs, e).contains(i as usize) <==> forall|j: int|
            0 <= j < rs.rules@[i].conditions@.len() ==> condition_holds(
                #[trigger] rs.rules@[i].conditions@[j],
                e,
            ),
{
    lemma_matching_rules_upto_members(rs, e, rs.rules@.len() as int, i);
}

/// A rule set that holds a rule without conditions does not validate.
pub proof fn law_rule_without_conditions_is_rejected(rs: RuleSet, i: int)
    requires
        0 <= i < rs.rules@.len(),
        rs.rules@[i].conditions@.len() == 0,
    ensures
        !rule_set_valid(rs),
{
    assert(!rule_valid(rs.rules@[i]));
}

/// A disabled rule set matches no entry.
pub proof fn law_disabled_rule_set_matches_nothing(rs: RuleSet, e: Entry)
    requires
        !rule_set_enabled(rs),
    ensures
        matching_rules(rs, e) == Seq::<usize>::empty(),
{
}

proof fn lemma_planned_upto_excludes(s: Seq<RuleSet>, n: int, i: int)
    requires
        0 <= i < s.len(),
        0 <= n <= s.len(),
        s.len() <= usize::MAX,
        !rule_set_enabled(s[i]),
    ensures
        !planned_upto(s, n).contains(i as usize),
    decreases n,
{
    if n > 0 {
        lemma_planned_upto_excludes(s, n - 1, i);
        let before = planned_upto(s, n - 1);
        if is_planned_at(s, n - 1) {
            let after = before.push((n - 1) as usize);
            if after.contains(i as usize) {
                let j = choose|j: int| 0 <= j < after.len() && after[j] == i as usize;
                assert(j < before.len() && before[j] == after[j]);
            }
        }
    }
}

spec fn is_planned_at(s: Seq<RuleSet>, k: int) -> bool {
    crate::filter::is_last_for_feed(s, k) && rule_set_enabled(s[k])
}

/// A cycle never runs a disabled rule set, so its feed is not fetched for
/// it.
pub proof fn law_disabled_rule_set_is_not_run(rule_sets: Vec<RuleSet>, i: int)
    requires
        0 <= i < rule_sets@.len(),
        !rule_set_enabled(rule_sets@[i]),
    ensures
        !planned(rule_sets@).contains(i as usize),
{
    assert(rule_sets@.len() == rule_sets.len());
    lemma_planned_upto_excludes(rule_sets@, rule_sets@.len() as int, i);
}

/// A `Matches` condition whose pattern does not compile holds of no entry.
pub proof fn law_invalid_pattern_matches_nothing(c: Condition, e: Entry)
    requires
        c.operator == Operator::Matches,
        !regex_compiles(c.value@),
    ensures
        !condition_holds(c, e),
{
}

/// A rule set holding a `Matches` condition whose pattern does not compile
/// does not validate.
pub proof fn law_invalid_pattern_is_rejected(rs: RuleSet, i: int, j: int)
    requires
        0 <= i < rs.rules@.len(),
        0 <= j < rs.rules@[i].conditions@.len(),
        rs.rules@[i].conditions@[j].operator == Operator::Matches,
        !regex_compiles(rs.rules@[i].conditions@[j].value@),
    ensures
        !rule_set_valid(rs),
{
    assert(!condition_valid(rs.rules@[i].conditions@[j]));
    assert(!rule_valid(rs.rules@[i]));
}

/// The entries of `entries` whose ids are not among `marked`.
pub open spec fn still_unread(entries: Seq<Entry>, marked: Seq<u64>) -> Seq<Entry> {
    entries.filter(|e: Entry| !marked.contains(e.id))
}

proof fn lemma_qualifying_ids_collected(rs: RuleSet, entries: Seq<Entry>, k: int, i: int)
    requires
        0 <= i < k <= entries.len(),
        qualifies(rs, entries[i]),
    ensures
        matched_ids_upto(rs, entries, k).contains(entries[i].id),
    decreases k,
{
    let before = matched_ids_upto(rs, entries, k - 1);
    if i < k - 1 {
        lemma_qualifying_ids_collected(rs, entries, k - 1, i);
        let j = choose|j: int| 0 <= j < before.len() && before[j] == entries[i].id;
        if qualifies(rs, entries[k - 1]) {
            assert(before.push(entries[k - 1].id)[j] == entries[i].id);
        }
    } else {
        assert(before.push(entries[i].id)[before.len() as int] == entries[i].id);
    }
}

proof fn lemma_no_qualifying_no_ids(rs: RuleSet, entries: Seq<Entry>, k: int)
    requires
        0 <= k <= entries.len(),
        forall|i: int| 0 <= i < entries.len() ==> !qualifies(rs, #[trigger] entries[i]),
    ensures
        matched_ids_upto(rs, entries, k).len() == 0,
    decreases k,
{
    if k > 0 {
        lemma_no_qualifying_no_ids(rs, entries, k - 1);
    }
}

/// Once the entries that a rule set selects are marked read, the entries
/// still unread select nothing: running the same rule set again marks none.
pub proof fn law_second_pass_marks_nothing(rs: RuleSet, entries: Seq<Entry>)
    ensures
        matched_ids(rs, still_unread(entries, matched_ids(rs, entries))).len() == 0,
{
    let ids = matched_ids(rs, entries);
    let pred = |e: Entry| !ids.contains(e.id);
    let rest = entries.filter(pred);
    assert forall|i: int| 0 <= i < rest.len() implies !qualifies(rs, #[trigger] rest[i]) by {
        assert(pred(rest[i]));
        assert(rest.contains(rest[i]));
        entries.lemma_filter_contains_rev(pred, rest[i]);
        let m = choose|m: int| 0 <= m < entries.len() && entries[m] == rest[i];
        if qualifies(rs, rest[i]) {
            lemma_qualifying_ids_collected(rs, entries, entries.len() as int, m);
        }
    }
    lemma_no_qualifying_no_ids(rs, rest, rest.len() as int);
}

} // verus!
