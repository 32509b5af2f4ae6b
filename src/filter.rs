//! The decisions of a filtering cycle: which rule sets run, which entries
//! are marked read, and how the per-feed results add up. The caller performs
//! the fetches and marks that a `FilterCycle` asks for and reports back.
use vstd::prelude::*;

use crate::api::Entry;
use crate::rules::{matching_rules, rule_set_enabled, Action, Condition, Field, Operator, Rule, RuleSet};

verus! {

/// Some rule of `rs` matches `e` (never so when `rs` is disabled).
pub open spec fn qualifies(rs: RuleSet, e: Entry) -> bool {
    matching_rules(rs, e).len() > 0
}

/// The ids, in order, of the first `k` entries that `rs` qualifies.
pub open spec fn matched_ids_upto(rs: RuleSet, entries: Seq<Entry>, k: int) -> Seq<u64>
    decreases k,
{
    if k <= 0 {
        Seq::empty()
    } else {
        let before = matched_ids_upto(rs, entries, k - 1);
        if qualifies(rs, entries[k - 1]) {
            before.push(entries[k - 1].id)
        } else {
            before
        }
    }
}

/// The ids, in order, of the entries that `rs` qualifies.
pub open spec fn matched_ids(rs: RuleSet, entries: Seq<Entry>) -> Seq<u64> {
    matched_ids_upto(rs, entries, entries.len() as int)
}

/// The ids, in order, of the entries that some rule of `rule_set` matches.
pub fn select_matching_entries(rule_set: &RuleSet, entries: &Vec<Entry>) -> (r: Vec<u64>)
    ensures
        r@ == matched_ids(*rule_set, entries@),
{
    let mut ids: Vec<u64> = Vec::new();
    let mut i: usize = 0;
    while i < entries.len()
        invariant
            i <= entries.len(),
            ids@ == matched_ids_upto(*rule_set, entries@, i as int),
        decreases entries.len() - i,
    {
        let matching = rule_set.evaluate(&entries[i]);
        if matching.len() > 0 {
            ids.push(entries[i].id);
        }
        i = i + 1;
    }
    ids
}

/// No later rule set of `s` has the feed of the one at `i`.
pub open spec fn is_last_for_feed(s: Seq<RuleSet>, i: int) -> bool {
    forall|k: int| i < k < s.len() ==> #[trigger] s[k].feed_id != s[i].feed_id
}

/// The positions among the first `n` of `s` whose rule set runs: the last
/// one for each feed, when it is enabled.
pub open spec fn planned_upto(s: Seq<RuleSet>, n: int) -> Seq<usize>
    decreases n,
{
    if n <= 0 {
        Seq::empty()
    } else {
        let before = planned_upto(s, n - 1);
        if is_last_for_feed(s, n - 1) && rule_set_enabled(s[n - 1]) {
            before.push((n - 1) as usize)
        } else {
            before
        }
    }
}

/// The positions, in ascending order, of the rule sets of `s` that a cycle
/// runs.
pub open spec fn planned(s: Seq<RuleSet>) -> Seq<usize> {
    planned_upto(s, s.len() as int)
}

proof fn lemma_planned_upto_bounds(s: Seq<RuleSet>, n: int)
    requires
        0 <= n <= s.len(),
    ensures
        planned_upto(s, n).len() <= n,
        forall|j: int| 0 <= j < planned_upto(s, n).len() ==> #[trigger] planned_upto(s, n)[j] < n,
    decreases n,
{
    if n > 0 {
        lemma_planned_upto_bounds(s, n - 1);
    }
}

/// The positions of the rule sets that a cycle runs: for each feed only the
/// last rule set given for it, and only when that one is enabled.
pub fn plan_cycle(rule_sets: &Vec<RuleSet>) -> (r: Vec<usize>)
    ensures
        r@ == planned(rule_sets@),
{
    let mut plan: Vec<usize> = Vec::new();
    let mut i: usize = 0;
    while i < rule_sets.len()
        invariant
            i <= rule_sets.len(),
            plan@ == planned_upto(rule_sets@, i as int),
        decreases rule_sets.len() - i,
    {
        let feed_id = rule_sets[i].feed_id;
        let mut last = true;
        let mut k: usize = i + 1;
        while k < rule_sets.len()
            invariant
                i < k <= rule_sets.len(),
                feed_id == rule_sets@[i as int].feed_id,
                last == forall|m: int| i < m < k ==> #[trigger] rule_sets@[m].feed_id != feed_id,
            decreases rule_sets.len() - k,
        {
            if rule_sets[k].feed_id == feed_id {
                last = false;
            }
            k = k + 1;
        }
        if last && rule_sets[i].is_enabled() {
            plan.push(i);
        }
        i = i + 1;
    }
    plan
}

/// `total + n`, held at `usize::MAX` when it would exceed it.
pub open spec fn add_capped(total: usize, n: int) -> usize {
    if total + n > usize::MAX {
        usize::MAX
    } else {
        (total + n) as usize
    }
}

/// What a cycle asks its caller to do next.
#[derive(Debug)]
pub enum CycleStep {
    /// Fetch the unread entries of the feed.
    Fetch { feed_id: u64 },
    /// Mark these entries of the feed as read, in one call.
    MarkRead { feed_id: u64, entry_ids: Vec<u64> },
    /// The cycle is over.
    Finished,
}

/// What the caller reports after doing the step asked for.
#[derive(Debug)]
pub enum CycleEvent {
    /// The feed's unread entries.
    Fetched { entries: Vec<Entry> },
    /// The fetch failed.
    FetchFailed,
    /// The entries were marked read.
    Marked,
    /// Marking the entries failed.
    MarkFailed,
}

/// One filtering cycle. Each feed in the plan is fetched once; when some of
/// its entries match, they are marked read in a single call. A failure of
/// one feed is recorded and the cycle goes on with the next.
pub struct FilterCycle {
    rule_sets: Vec<RuleSet>,
    plan: Vec<usize>,
    position: usize,
    pending: Option<(usize, Vec<u64>)>,
    processed: usize,
    filtered: usize,
    failed_feeds: Vec<u64>,
}

impl FilterCycle {
    /// The rule sets the cycle was made from.
    pub closed spec fn rule_sets(&self) -> Seq<RuleSet> {
        self.rule_sets@
    }

    /// The positions of the rule sets that run, in order.
    pub closed spec fn plan(&self) -> Seq<usize> {
        self.plan@
    }

    /// How many feeds of the plan are done.
    pub closed spec fn position(&self) -> int {
        self.position as int
    }

    /// After a fetch with matches: how many entries were fetched and the ids
    /// that await marking.
    pub closed spec fn pending(&self) -> Option<(usize, Seq<u64>)> {
        match self.pending {
            Some((n, ids)) => Some((n, ids@)),
            None => None,
        }
    }

    /// Entries fetched by the feeds that completed.
    pub closed spec fn processed_total(&self) -> usize {
        self.processed
    }

    /// Entries marked read by the feeds that completed.
    pub closed spec fn filtered_total(&self) -> usize {
        self.filtered
    }

    /// The feeds whose fetch or mark failed, in order.
    pub closed spec fn failed(&self) -> Seq<u64> {
        self.failed_feeds@
    }

    /// The ids that await marking (empty when none do).
    pub open spec fn pending_ids(&self) -> Seq<u64> {
        match self.pending() {
            Some((_, ids)) => ids,
            None => Seq::empty(),
        }
    }

    /// How many entries the feed awaiting marking fetched.
    pub open spec fn pending_count(&self) -> usize {
        match self.pending() {
            Some((n, _)) => n,
            None => 0,
        }
    }

    pub open spec fn finished(&self) -> bool {
        self.position() >= self.plan().len()
    }

    /// The rule set of the feed being worked on.
    pub open spec fn current(&self) -> RuleSet {
        self.rule_sets()[self.plan()[self.position()] as int]
    }

    pub closed spec fn wf(&self) -> bool {
        &&& self.plan@ == planned(self.rule_sets@)
        &&& self.position <= self.plan@.len()
        &&& forall|j: int| 0 <= j < self.plan@.len() ==> #[trigger] self.plan@[j] < self.rule_sets@.len()
        &&& self.position == self.plan@.len() ==> self.pending is None
    }

    /// A cycle over `rule_sets`, with nothing done yet.
    pub fn new(rule_sets: Vec<RuleSet>) -> (r: FilterCycle)
        ensures
            r.wf(),
            r.rule_sets() == rule_sets@,
            r.plan() == planned(rule_sets@),
            r.position() == 0,
            r.pending() is None,
            r.processed_total() == 0,
            r.filtered_total() == 0,
            r.failed() == Seq::<u64>::empty(),
    {
        let plan = plan_cycle(&rule_sets);
        proof {
            lemma_planned_upto_bounds(rule_sets@, rule_sets@.len() as int);
        }
        FilterCycle {
            rule_sets,
            plan,
            position: 0,
            pending: None,
            processed: 0,
            filtered: 0,
            failed_feeds: Vec::new(),
        }
    }

    /// The step the caller is to perform next.
    pub fn step(&self) -> (r: CycleStep)
        requires
            self.wf(),
        ensures
            self.finished() ==> r is Finished,
            !self.finished() && self.pending() is None ==> r == (CycleStep::Fetch {
                feed_id: self.current().feed_id,
            }),
            !self.finished() && self.pending() is Some ==> (r matches CycleStep::MarkRead {
                feed_id,
                entry_ids,
            } && feed_id == self.current().feed_id && entry_ids@ == self.pending_ids()),
    {
        if self.position >= self.plan.len() {
            return CycleStep::Finished;
        }
        let feed_id = self.rule_sets[self.plan[self.position]].feed_id;
        match &self.pending {
            None => CycleStep::Fetch { feed_id },
            Some((_, ids)) => {
                let mut entry_ids: Vec<u64> = Vec::new();
                let mut i: usize = 0;
                while i < ids.len()
                    invariant
                        i <= ids.len(),
                        entry_ids@ == ids@.take(i as int),
                    decreases ids.len() - i,
                {
                    entry_ids.push(ids[i]);
                    proof {
                        assert(ids@.take(i as int + 1) =~= ids@.take(i as int).push(ids@[i as int]));
                    }
                    i = i + 1;
                }
                proof {
                    assert(ids@.take(ids@.len() as int) =~= ids@);
                }
                CycleStep::MarkRead { feed_id, entry_ids }
            },
        }
    }

    /// Takes in the outcome of the step asked for. An event that does not
    /// answer the current step leaves the cycle as it is.
    pub fn advance(&mut self, event: CycleEvent)
        requires
            old(self).wf(),
        ensures
            final(self).wf(),
            final(self).rule_sets() == old(self).rule_sets(),
            final(self).plan() == old(self).plan(),
            advanced(*old(self), event, *final(self)),
    {
        if self.position >= self.plan.len() {
            return;
        }
        let feed_id = self.rule_sets[self.plan[self.position]].feed_id;
        let waiting = self.pending.is_some();
        match event {
            CycleEvent::Fetched { entries } => {
                if waiting {
                    return;
                }
                let ids = select_matching_entries(&self.rule_sets[self.plan[self.position]], &entries);
                if ids.len() == 0 {
                    self.processed = self.processed.saturating_add(entries.len());
                    self.position = self.position + 1;
                } else {
                    self.pending = Some((entries.len(), ids));
                }
            },
            CycleEvent::FetchFailed => {
                if waiting {
                    return;
                }
                self.failed_feeds.push(feed_id);
                self.position = self.position + 1;
            },
            CycleEvent::Marked => {
                if !waiting {
                    return;
                }
                let pending = self.pending.take();
                if let Some((n, ids)) = pending {
                    self.processed = self.processed.saturating_add(n);
                    self.filtered = self.filtered.saturating_add(ids.len());
                }
                self.position = self.position + 1;
            },
            CycleEvent::MarkFailed => {
                if !waiting {
                    return;
                }
                self.pending = None;
                self.failed_feeds.push(feed_id);
                self.position = self.position + 1;
            },
        }
    }

    pub fn is_finished(&self) -> (r: bool)
        requires
            self.wf(),
        ensures
            r == self.finished(),
    {
        self.position >= self.plan.len()
    }

    /// Entries fetched by the feeds that completed.
    pub fn processed(&self) -> (r: usize)
        ensures
            r == self.processed_total(),
    {
        self.processed
    }

    /// Entries marked read by the feeds that completed.
    pub fn filtered(&self) -> (r: usize)
        ensures
            r == self.filtered_total(),
    {
        self.filtered
    }

    /// The feeds whose fetch or mark failed, in order.
    pub fn failed_feeds(&self) -> (r: &Vec<u64>)
        ensures
            r@ == self.failed(),
    {
        &self.failed_feeds
    }
}

/// How one event moves cycle `pre` to `post` (plan and rule sets are kept
/// by `advance` itself).
pub open spec fn advanced(pre: FilterCycle, event: CycleEvent, post: FilterCycle) -> bool {
    let feed_id = pre.current().feed_id;
    let moved_on = post.position() == pre.position() + 1 && post.pending() is None;
    let totals_kept = post.processed_total() == pre.processed_total()
        && post.filtered_total() == pre.filtered_total();
    let failed_kept = post.failed() == pre.failed();
    if pre.finished() {
        post == pre
    } else {
        match event {
            CycleEvent::Fetched { entries } => {
                let ids = matched_ids(pre.current(), entries@);
                if pre.pending() is Some {
                    post == pre
                } else if ids.len() == 0 {
                    &&& moved_on
                    &&& post.processed_total() == add_capped(pre.processed_total(), entries@.len() as int)
                    &&& post.filtered_total() == pre.filtered_total()
                    &&& failed_kept
                } else {
                    &&& post.position() == pre.position()
                    &&& post.pending() == Some((entries@.len() as usize, ids))
                    &&& totals_kept
                    &&& failed_kept
                }
            },
            CycleEvent::FetchFailed => {
                if pre.pending() is Some {
                    post == pre
                } else {
                    moved_on && totals_kept && post.failed() == pre.failed().push(feed_id)
                }
            },
            CycleEvent::Marked => {
                if pre.pending() is None {
                    post == pre
                } else {
                    &&& moved_on
                    &&& post.processed_total() == add_capped(pre.processed_total(), pre.pending_count() as int)
                    &&& post.filtered_total() == add_capped(pre.filtered_total(), pre.pending_ids().len() as int)
                    &&& failed_kept
                }
            },
            CycleEvent::MarkFailed => {
                if pre.pending() is None {
                    post == pre
                } else {
                    moved_on && totals_kept && post.failed() == pre.failed().push(feed_id)
                }
            },
        }
    }
}

/// How many of the rule sets are enabled.
pub open spec fn enabled_count(s: Seq<RuleSet>) -> nat
    decreases s.len(),
{
    if s.len() == 0 {
        0
    } else {
        enabled_count(s.drop_last()) + if rule_set_enabled(s.last()) {
            1nat
        } else {
            0nat
        }
    }
}

/// How many rules the rule sets hold together.
pub open spec fn rule_count(s: Seq<RuleSet>) -> nat
    decreases s.len(),
{
    if s.len() == 0 {
        0
    } else {
        rule_count(s.drop_last()) + s.last().rules@.len()
    }
}

/// The feed of each rule set, in order.
pub open spec fn feed_ids(s: Seq<RuleSet>) -> Seq<u64> {
    s.map_values(|rs: RuleSet| rs.feed_id)
}

proof fn lemma_enabled_count_bound(s: Seq<RuleSet>)
    ensures
        enabled_count(s) <= s.len(),
    decreases s.len(),
{
    if s.len() > 0 {
        lemma_enabled_count_bound(s.drop_last());
    }
}

/// A summary of the rule sets on hand.
#[derive(Debug)]
pub struct FilterStats {
    pub total_rule_sets: usize,
    pub enabled_rule_sets: usize,
    /// Held at `usize::MAX` should the sum exceed it.
    pub total_rules: usize,
    pub feeds_with_rules: Vec<u64>,
}

impl FilterStats {
    /// Counts the rule sets, the enabled ones and their rules, and lists
    /// their feeds in order.
    pub fn from_rule_sets(rule_sets: &Vec<RuleSet>) -> (r: FilterStats)
        ensures
            r.total_rule_sets == rule_sets@.len(),
            r.enabled_rule_sets == enabled_count(rule_sets@),
            r.total_rules == add_capped(0, rule_count(rule_sets@) as int),
            r.feeds_with_rules@ == feed_ids(rule_sets@),
    {
        let mut enabled: usize = 0;
        let mut rules: usize = 0;
        let mut feeds: Vec<u64> = Vec::new();
        let mut i: usize = 0;
        while i < rule_sets.len()
            invariant
                i <= rule_sets.len(),
                enabled == enabled_count(rule_sets@.take(i as int)),
                rules == add_capped(0, rule_count(rule_sets@.take(i as int)) as int),
                feeds@ == feed_ids(rule_sets@.take(i as int)),
            decreases rule_sets.len() - i,
        {
            let ghost done = rule_sets@.take(i as int);
            let ghost next = rule_sets@.take(i as int + 1);
            proof {
                assert(next.drop_last() =~= done);
                lemma_enabled_count_bound(done);
            }
            if rule_sets[i].is_enabled() {
                enabled = enabled + 1;
            }
            rules = rules.saturating_add(rule_sets[i].rules.len());
            feeds.push(rule_sets[i].feed_id);
            proof {
                assert(feeds@ =~= feed_ids(next));
            }
            i = i + 1;
        }
        proof {
            assert(rule_sets@.take(rule_sets@.len() as int) =~= rule_sets@);
        }
        FilterStats {
            total_rule_sets: rule_sets.len(),
            enabled_rule_sets: enabled,
            total_rules: rules,
            feeds_with_rules: feeds,
        }
    }
}

/// `c` tests `field` with `operator` against `value`.
pub open spec fn is_condition(c: Condition, field: Field, operator: Operator, value: Seq<char>) -> bool {
    c.field == field && c.operator == operator && c.value@ == value
}

fn condition(field: Field, operator: Operator, value: &str) -> (r: Condition)
    ensures
        is_condition(r, field, operator, value@),
{
    Condition { field, operator, value: value.to_string() }
}

/// A starting rule set for a feed: it marks read the entries whose title
/// holds both "ad" and "advertisement", those whose content holds
/// "promotional", and those by the author "spam-author".
pub fn create_example_rule_file(feed_id: u64, feed_name: &str) -> (r: RuleSet)
    ensures
        r.feed_id == feed_id,
        r.feed_name matches Some(n) && n@ == feed_name@,
        r.enabled == Some(true),
        r.rules@.len() == 3,
        forall|i: int| 0 <= i < 3 ==> (#[trigger] r.rules@[i]).action == Action::MarkRead,
        r.rules@[0].conditions@.len() == 2,
        is_condition(r.rules@[0].conditions@[0], Field::Title, Operator::Contains, "ad"@),
        is_condition(r.rules@[0].conditions@[1], Field::Title, Operator::Contains, "advertisement"@),
        r.rules@[1].conditions@.len() == 1,
        is_condition(r.rules@[1].conditions@[0], Field::Content, Operator::Contains, "promotional"@),
        r.rules@[2].conditions@.len() == 1,
        is_condition(r.rules@[2].conditions@[0], Field::Author, Operator::Equals, "spam-author"@),
{
    let rules = vec![
        Rule {
            action: Action::MarkRead,
            conditions: vec![
                condition(Field::Title, Operator::Contains, "ad"),
                condition(Field::Title, Operator::Contains, "advertisement"),
            ],
        },
        Rule {
            action: Action::MarkRead,
            conditions: vec![condition(Field::Content, Operator::Contains, "promotional")],
        },
        Rule {
            action: Action::MarkRead,
            conditions: vec![condition(Field::Author, Operator::Equals, "spam-author")],
        },
    ];
    RuleSet { feed_id, feed_name: Some(feed_name.to_string()), enabled: Some(true), rules }
}

} // verus!
