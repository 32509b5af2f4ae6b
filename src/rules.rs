//! Rule sets, rules and conditions, and how they are matched against an
//! entry.
use vstd::prelude::*;
use vstd::string::StrSliceExecFns;

use crate::api::Entry;
use crate::pattern::{regex_compiles, regex_finds, Pattern};
use crate::text::{
    contains_str, ends_with_str, eq_ignore_ascii_case_str, is_infix, join_with_spaces,
    joined_with_spaces, lower_of, same_ignoring_ascii_case, starts_with_str, to_lower, trim_str, views,
    is_blank,
};

verus! {

/// The rules of one feed.
#[derive(Debug, Clone)]
pub struct RuleSet {
    pub feed_id: u64,
    pub feed_name: Option<String>,
    /// Absent means enabled.
    pub enabled: Option<bool>,
    pub rules: Vec<Rule>,
}

/// An action together with the conditions that must all hold for it.
#[derive(Debug, Clone)]
pub struct Rule {
    pub action: Action,
    pub conditions: Vec<Condition>,
}

/// What a matching rule asks for.
#[derive(Debug, Clone, Copy, PartialEq, Eq, Structural)]
pub enum Action {
    MarkRead,
}

/// A test of one field of an entry against a value.
#[derive(Debug, Clone)]
pub struct Condition {
    pub field: Field,
    pub operator: Operator,
    pub value: String,
}

/// The part of an entry a condition looks at.
#[derive(Debug, Clone, Copy, PartialEq, Eq, Structural)]
pub enum Field {
    Title,
    Content,
    Author,
    Url,
    Tag,
}

/// How a condition compares.
#[derive(Debug, Clone, Copy, PartialEq, Eq, Structural)]
pub enum Operator {
    Contains,
    NotContains,
    Equals,
    NotEquals,
    StartsWith,
    EndsWith,
    /// The value is a regular expression, searched case-sensitively.
    Matches,
}

/// Why a rule set was rejected. Positions count from 1.
#[derive(Debug, Clone, PartialEq, Eq)]
pub enum ValidationError {
    /// The rule has no conditions.
    NoConditions { rule: usize },
    /// The condition's value is empty once white space is trimmed.
    EmptyValue { rule: usize, condition: usize },
    /// The condition uses `Matches` and its value does not compile.
    InvalidPattern { rule: usize, condition: usize, pattern: String },
}

/// A condition is valid when its value is not blank and, for `Matches`, the
/// value compiles as a regular expression.
pub open spec fn condition_valid(c: Condition) -> bool {
    &&& !is_blank(c.value@)
    &&& c.operator == Operator::Matches ==> regex_compiles(c.value@)
}

/// The first `n` conditions of `rule` are valid.
pub open spec fn conditions_valid_upto(rule: Rule, n: int) -> bool {
    forall|j: int| 0 <= j < n ==> condition_valid(#[trigger] rule.conditions@[j])
}

/// A rule is valid when it has at least one condition and all are valid.
pub open spec fn rule_valid(rule: Rule) -> bool {
    rule.conditions@.len() > 0 && conditions_valid_upto(rule, rule.conditions@.len() as int)
}

/// The first `n` rules of `rs` are valid.
pub open spec fn rules_valid_upto(rs: RuleSet, n: int) -> bool {
    forall|i: int| 0 <= i < n ==> rule_valid(#[trigger] rs.rules@[i])
}

/// Every rule of `rs` is valid.
pub open spec fn rule_set_valid(rs: RuleSet) -> bool {
    rules_valid_upto(rs, rs.rules@.len() as int)
}

/// `rule` (1-based) is the first rule of `rs` that is not valid.
pub open spec fn first_invalid_rule(rs: RuleSet, rule: int) -> bool {
    &&& 1 <= rule <= rs.rules@.len()
    &&& rules_valid_upto(rs, rule - 1)
    &&& !rule_valid(rs.rules@[rule - 1])
}

/// `condition` (1-based) is the first condition of `rule` that is not valid.
pub open spec fn first_invalid_condition(rule: Rule, condition: int) -> bool {
    &&& 1 <= condition <= rule.conditions@.len()
    &&& conditions_valid_upto(rule, condition - 1)
    &&& !condition_valid(rule.conditions@[condition - 1])
}

/// What `validate` reports of `rs`: the first invalid rule and, within it,
/// the first invalid condition, with the first fault found there (a blank
/// value is checked before the pattern).
pub open spec fn reports(rs: RuleSet, err: ValidationError) -> bool {
    match err {
        ValidationError::NoConditions { rule } => {
            &&& first_invalid_rule(rs, rule as int)
            &&& rs.rules@[rule - 1].conditions@.len() == 0
        },
        ValidationError::EmptyValue { rule, condition } => {
            &&& first_invalid_rule(rs, rule as int)
            &&& first_invalid_condition(rs.rules@[rule - 1], condition as int)
            &&& is_blank(rs.rules@[rule - 1].conditions@[condition - 1].value@)
        },
        ValidationError::InvalidPattern { rule, condition, pattern } => {
            let c = rs.rules@[rule - 1].conditions@[condition - 1];
            &&& first_invalid_rule(rs, rule as int)
            &&& first_invalid_condition(rs.rules@[rule - 1], condition as int)
            &&& !is_blank(c.value@)
            &&& c.operator == Operator::Matches
            &&& pattern@ == c.value@
        },
    }
}

/// Whether `text` satisfies `op` with `value`: substring tests compare
/// lowercase forms, equality ignores ASCII case, and a pattern that does not
/// compile matches nothing.
pub open spec fn text_satisfies(op: Operator, value: Seq<char>, text: Seq<char>) -> bool {
    match op {
        Operator::Contains => is_infix(lower_of(value), lower_of(text)),
        Operator::NotContains => !is_infix(lower_of(value), lower_of(text)),
        Operator::Equals => same_ignoring_ascii_case(text, value),
        Operator::NotEquals => !same_ignoring_ascii_case(text, value),
        Operator::StartsWith => lower_of(value).is_prefix_of(lower_of(text)),
        Operator::EndsWith => lower_of(value).is_suffix_of(lower_of(text)),
        Operator::Matches => regex_compiles(value) && regex_finds(value, text),
    }
}

/// Some tag satisfies `op` with `value`.
pub open spec fn some_tag_satisfies(op: Operator, value: Seq<char>, tags: Seq<Seq<char>>) -> bool {
    exists|i: int| 0 <= i < tags.len() && text_satisfies(op, value, #[trigger] tags[i])
}

/// The tag list satisfies `op` with `value`: the substring tests look at the
/// tags joined by single spaces, `NotEquals` holds when no tag equals the
/// value, and the other operators hold when some tag satisfies them.
pub open spec fn tags_satisfy(op: Operator, value: Seq<char>, tags: Seq<Seq<char>>) -> bool {
    match op {
        Operator::Contains => text_satisfies(op, value, joined_with_spaces(tags)),
        Operator::NotContains => text_satisfies(op, value, joined_with_spaces(tags)),
        Operator::NotEquals => !some_tag_satisfies(Operator::Equals, value, tags),
        _ => some_tag_satisfies(op, value, tags),
    }
}

/// The text of a scalar field of `e`.
pub open spec fn scalar_field(field: Field, e: Entry) -> Seq<char> {
    match field {
        Field::Title => e.title@,
        Field::Content => e.content@,
        Field::Author => e.author@,
        Field::Url => e.url@,
        Field::Tag => Seq::empty(),
    }
}

/// The text a condition on `field` reads: the field itself, or for tags
/// the tags joined by single spaces.
pub open spec fn field_text(field: Field, e: Entry) -> Seq<char> {
    if field == Field::Tag {
        joined_with_spaces(views(e.tags@))
    } else {
        scalar_field(field, e)
    }
}

/// Condition `c` holds of entry `e`.
pub open spec fn condition_holds(c: Condition, e: Entry) -> bool {
    if c.field == Field::Tag {
        tags_satisfy(c.operator, c.value@, views(e.tags@))
    } else {
        text_satisfies(c.operator, c.value@, scalar_field(c.field, e))
    }
}

/// Every condition of `rule` holds of `e`.
pub open spec fn rule_holds(rule: Rule, e: Entry) -> bool {
    forall|j: int| 0 <= j < rule.conditions@.len() ==> condition_holds(#[trigger] rule.conditions@[j], e)
}

/// A rule set is enabled unless it says otherwise.
pub open spec fn rule_set_enabled(rs: RuleSet) -> bool {
    match rs.enabled {
        Some(b) => b,
        None => true,
    }
}

/// The indices, in ascending order, of the first `k` rules of `rs` that hold
/// of `e`.
pub open spec fn matching_rules_upto(rs: RuleSet, e: Entry, k: int) -> Seq<usize>
    decreases k,
{
    if k <= 0 {
        Seq::empty()
    } else {
        let before = matching_rules_upto(rs, e, k - 1);
        if rule_holds(rs.rules@[k - 1], e) {
            before.push((k - 1) as usize)
        } else {
            before
        }
    }
}

/// The indices, in ascending order, of the rules of `rs` that hold of `e`;
/// none when `rs` is disabled.
pub open spec fn matching_rules(rs: RuleSet, e: Entry) -> Seq<usize> {
    if rule_set_enabled(rs) {
        matching_rules_upto(rs, e, rs.rules@.len() as int)
    } else {
        Seq::empty()
    }
}

/// Tests `text` against `op` and `value`.
fn text_matches(op: Operator, value: &str, text: &str) -> (r: bool)
    ensures
        r == text_satisfies(op, value@, text@),
{
    match op {
        Operator::Contains => contains_str(to_lower(text).as_str(), to_lower(value).as_str()),
        Operator::NotContains => !contains_str(to_lower(text).as_str(), to_lower(value).as_str()),
        Operator::Equals => eq_ignore_ascii_case_str(text, value),
        Operator::NotEquals => !eq_ignore_ascii_case_str(text, value),
        Operator::StartsWith => starts_with_str(to_lower(text).as_str(), to_lower(value).as_str()),
        Operator::EndsWith => ends_with_str(to_lower(text).as_str(), to_lower(value).as_str()),
        Operator::Matches => match Pattern::compile(value) {
            Ok(p) => p.is_match(text),
            Err(_) => false,
        },
    }
}

/// Whether some tag satisfies `op` with `value`, for an operator other than
/// `Matches`.
fn any_tag_matches(op: Operator, value: &str, tags: &Vec<String>) -> (r: bool)
    ensures
        r == some_tag_satisfies(op, value@, views(tags@)),
{
    let mut i: usize = 0;
    while i < tags.len()
        invariant
            i <= tags.len(),
            forall|k: int| 0 <= k < i ==> !text_satisfies(op, value@, #[trigger] tags@[k]@),
        decreases tags.len() - i,
    {
        if text_matches(op, value, tags[i].as_str()) {
            assert(views(tags@)[i as int] == tags@[i as int]@);
            return true;
        }
        i = i + 1;
    }
    assert forall|k: int| 0 <= k < views(tags@).len() implies !text_satisfies(
        op,
        value@,
        #[trigger] views(tags@)[k],
    ) by {
        assert(views(tags@)[k] == tags@[k]@);
    }
    false
}

/// Whether the compiled pattern matches some tag.
fn any_tag_matches_pattern(p: &Pattern, tags: &Vec<String>) -> (r: bool)
    ensures
        r == exists|i: int| 0 <= i < tags@.len() && regex_finds(p.source(), #[trigger] tags@[i]@),
{
    let mut i: usize = 0;
    while i < tags.len()
        invariant
            i <= tags.len(),
            forall|k: int| 0 <= k < i ==> !regex_finds(p.source(), #[trigger] tags@[k]@),
        decreases tags.len() - i,
    {
        if p.is_match(tags[i].as_str()) {
            return true;
        }
        i = i + 1;
    }
    false
}

/// Tests the tag list of an entry against `op` and `value`.
fn tags_match(op: Operator, value: &str, tags: &Vec<String>) -> (r: bool)
    ensures
        r == tags_satisfy(op, value@, views(tags@)),
{
    match op {
        Operator::Contains | Operator::NotContains => {
            let joined = join_with_spaces(tags);
            text_matches(op, value, joined.as_str())
        },
        Operator::NotEquals => !any_tag_matches(Operator::Equals, value, tags),
        Operator::Matches => match Pattern::compile(value) {
            Ok(p) => {
                let r = any_tag_matches_pattern(&p, tags);
                proof {
                    if r {
                        let i = choose|i: int| 0 <= i < tags@.len() && regex_finds(p.source(), #[trigger] tags@[i]@);
                        assert(views(tags@)[i] == tags@[i]@);
                    } else {
                        assert forall|k: int| 0 <= k < views(tags@).len() implies !text_satisfies(
                            op,
                            value@,
                            #[trigger] views(tags@)[k],
                        ) by {
                            assert(views(tags@)[k] == tags@[k]@);
                        }
                    }
                }
                r
            },
            Err(_) => false,
        },
        _ => any_tag_matches(op, value, tags),
    }
}

/// A directory entry named `name` holds a rule set: its extension is
/// `toml`, after a non-empty stem.
pub open spec fn is_rule_file(name: Seq<char>) -> bool {
    ".toml"@.is_suffix_of(name) && name.len() > 5
}

/// Whether a directory entry named `name` holds a rule set.
pub fn is_rule_file_name(name: &str) -> (r: bool)
    ensures
        r == is_rule_file(name@),
{
    proof {
        reveal_strlit(".toml");
    }
    ends_with_str(name, ".toml") && name.unicode_len() > 5
}

impl RuleSet {
    /// Checks that every rule has a condition, that no condition value is
    /// blank, and that every `Matches` value compiles; reports the first
    /// fault by its 1-based rule and condition position.
    pub fn validate(&self) -> (r: Result<(), ValidationError>)
        ensures
            r is Ok <==> rule_set_valid(*self),
            r matches Err(e) ==> reports(*self, e),
    {
        let mut i: usize = 0;
        while i < self.rules.len()
            invariant
                i <= self.rules.len(),
                rules_valid_upto(*self, i as int),
            decreases self.rules.len() - i,
        {
            let rule = &self.rules[i];
            if rule.conditions.len() == 0 {
                return Err(ValidationError::NoConditions { rule: i + 1 });
            }
            let mut j: usize = 0;
            while j < rule.conditions.len()
                invariant
                    i < self.rules.len(),
                    *rule == self.rules@[i as int],
                    j <= rule.conditions.len(),
                    rules_valid_upto(*self, i as int),
                    conditions_valid_upto(*rule, j as int),
                decreases rule.conditions.len() - j,
            {
                let condition = &rule.conditions[j];
                if trim_str(condition.value.as_str()).is_empty() {
                    return Err(ValidationError::EmptyValue { rule: i + 1, condition: j + 1 });
                }
                if condition.operator == Operator::Matches {
                    if Pattern::compile(condition.value.as_str()).is_err() {
                        return Err(
                            ValidationError::InvalidPattern {
                                rule: i + 1,
                                condition: j + 1,
                                pattern: condition.value.clone(),
                            },
                        );
                    }
                }
                j = j + 1;
            }
            i = i + 1;
        }
        Ok(())
    }

    /// Whether the rule set is enabled (it is unless it says otherwise).
    pub fn is_enabled(&self) -> (r: bool)
        ensures
            r == rule_set_enabled(*self),
    {
        match self.enabled {
            Some(b) => b,
            None => true,
        }
    }

    /// Evaluates one condition against an entry.
    pub fn evaluate_condition(&self, condition: &Condition, entry: &Entry) -> (r: bool)
        ensures
            r == condition_holds(*condition, *entry),
    {
        let text: &str = match condition.field {
            Field::Title => entry.title.as_str(),
            Field::Content => entry.content.as_str(),
            Field::Author => entry.author.as_str(),
            Field::Url => entry.url.as_str(),
            Field::Tag => {
                return tags_match(condition.operator, condition.value.as_str(), &entry.tags);
            },
        };
        text_matches(condition.operator, condition.value.as_str(), text)
    }

    /// Evaluates one rule against an entry: all of its conditions must hold.
    pub fn evaluate_rule(&self, rule: &Rule, entry: &Entry) -> (r: bool)
        ensures
            r == rule_holds(*rule, *entry),
    {
        let mut j: usize = 0;
        while j < rule.conditions.len()
            invariant
                j <= rule.conditions.len(),
                forall|k: int| 0 <= k < j ==> condition_holds(#[trigger] rule.conditions@[k], *entry),
            decreases rule.conditions.len() - j,
        {
            if !self.evaluate_condition(&rule.conditions[j], entry) {
                return false;
            }
            j = j + 1;
        }
        true
    }

    /// The indices, in ascending order, of the rules that match `entry`;
    /// empty when the rule set is disabled.
    pub fn evaluate(&self, entry: &Entry) -> (r: Vec<usize>)
        ensures
            r@ == matching_rules(*self, *entry),
    {
        let mut matching: Vec<usize> = Vec::new();
        if !self.is_enabled() {
            return matching;
        }
        let mut i: usize = 0;
        while i < self.rules.len()
            invariant
                i <= self.rules.len(),
                rule_set_enabled(*self),
                matching@ == matching_rules_upto(*self, *entry, i as int),
            decreases self.rules.len() - i,
        {
            if self.evaluate_rule(&self.rules[i], entry) {
                matching.push(i);
            }
            i = i + 1;
        }
        matching
    }
}

} // verus!
