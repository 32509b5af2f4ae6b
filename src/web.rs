//! What the web interface decides before and after it talks to the reader
//! or the rule directory.
use vstd::prelude::*;

use crate::api::Feed;
use crate::rules::{rule_set_enabled, RuleSet};

verus! {

/// The reply to every request of the web interface.
#[derive(Debug)]
pub struct ApiResponse<T> {
    pub success: bool,
    pub data: Option<T>,
    pub error: Option<String>,
}

impl<T> ApiResponse<T> {
    /// A successful reply carrying `data`.
    pub fn ok(data: T) -> (r: ApiResponse<T>)
        ensures
            r.success,
            r.data == Some(data),
            r.error is None,
    {
        ApiResponse { success: true, data: Some(data), error: None }
    }

    /// A failed reply carrying `error`.
    pub fn failure(error: String) -> (r: ApiResponse<T>)
        ensures
            !r.success,
            r.data is None,
            r.error == Some(error),
    {
        ApiResponse { success: false, data: None, error: Some(error) }
    }
}

/// A feed of the reader, and whether a rule set exists for it.
#[derive(Debug)]
pub struct FeedInfo {
    pub id: u64,
    pub title: String,
    pub site_url: String,
    pub feed_url: String,
    pub has_rules: bool,
}

/// A request to create an empty rule set for a feed.
#[derive(Debug)]
pub struct CreateRuleSetRequest {
    pub feed_id: u64,
}

/// What running the rules of one feed did.
#[derive(Debug)]
pub struct ExecuteResult {
    pub processed: usize,
    pub filtered: usize,
    pub message: String,
}

/// Why the rules of a feed cannot be run on request.
#[derive(Debug, Clone, Copy, PartialEq, Eq, Structural)]
pub enum ExecuteError {
    NoRuleSet,
    Disabled,
}

/// Some rule set of `s` is for feed `feed_id`.
pub open spec fn has_rule_set_for(s: Seq<RuleSet>, feed_id: u64) -> bool {
    exists|i: int| 0 <= i < s.len() && (#[trigger] s[i]).feed_id == feed_id
}

/// `i` is the first position of `s` holding a rule set for `feed_id`.
pub open spec fn is_first_for_feed(s: Seq<RuleSet>, feed_id: u64, i: int) -> bool {
    &&& 0 <= i < s.len()
    &&& s[i].feed_id == feed_id
    &&& forall|k: int| 0 <= k < i ==> (#[trigger] s[k]).feed_id != feed_id
}

/// The position of the first rule set for feed `feed_id`, if any.
pub fn find_rule_set(rule_sets: &Vec<RuleSet>, feed_id: u64) -> (r: Option<usize>)
    ensures
        r is None <==> !has_rule_set_for(rule_sets@, feed_id),
        r matches Some(i) ==> is_first_for_feed(rule_sets@, feed_id, i as int),
{
    let mut i: usize = 0;
    while i < rule_sets.len()
        invariant
            i <= rule_sets@.len(),
            forall|k: int| 0 <= k < i ==> (#[trigger] rule_sets@[k]).feed_id != feed_id,
        decreases rule_sets@.len() - i,
    {
        if rule_sets[i].feed_id == feed_id {
            return Some(i);
        }
        i = i + 1;
    }
    None
}

/// The rule set to run on request for feed `feed_id`: the first one for
/// that feed, which must be enabled.
pub fn rule_set_for_execution(rule_sets: &Vec<RuleSet>, feed_id: u64) -> (r: Result<usize, ExecuteError>)
    ensures
        !has_rule_set_for(rule_sets@, feed_id) ==> r == Err::<usize, ExecuteError>(ExecuteError::NoRuleSet),
        has_rule_set_for(rule_sets@, feed_id) ==> match r {
            Ok(i) => is_first_for_feed(rule_sets@, feed_id, i as int) && rule_set_enabled(rule_sets@[i as int]),
            Err(e) => e == ExecuteError::Disabled && exists|i: int|
                is_first_for_feed(rule_sets@, feed_id, i) && !rule_set_enabled(#[trigger] rule_sets@[i]),
        },
{
    match find_rule_set(rule_sets, feed_id) {
        None => Err(ExecuteError::NoRuleSet),
        Some(i) => {
            if rule_sets[i].is_enabled() {
                Ok(i)
            } else {
                Err(ExecuteError::Disabled)
            }
        },
    }
}

/// Describes `feed`, noting whether some rule set is for it.
pub fn feed_info(feed: &Feed, rule_sets: &Vec<RuleSet>) -> (r: FeedInfo)
    ensures
        r.id == feed.id,
        r.title@ == feed.title@,
        r.site_url@ == feed.site_url@,
        r.feed_url@ == feed.feed_url@,
        r.has_rules == has_rule_set_for(rule_sets@, feed.id),
{
    let has_rules = find_rule_set(rule_sets, feed.id).is_some();
    FeedInfo {
        id: feed.id,
        title: feed.title.clone(),
        site_url: feed.site_url.clone(),
        feed_url: feed.feed_url.clone(),
        has_rules,
    }
}

/// Describes every feed, in order.
pub fn feed_infos(feeds: &Vec<Feed>, rule_sets: &Vec<RuleSet>) -> (r: Vec<FeedInfo>)
    ensures
        r@.len() == feeds@.len(),
        forall|i: int|
            0 <= i < feeds@.len() ==> {
                &&& (#[trigger] r@[i]).id == feeds@[i].id
                &&& r@[i].title@ == feeds@[i].title@
                &&& r@[i].site_url@ == feeds@[i].site_url@
                &&& r@[i].feed_url@ == feeds@[i].feed_url@
                &&& r@[i].has_rules == has_rule_set_for(rule_sets@, feeds@[i].id)
            },
{
    let mut out: Vec<FeedInfo> = Vec::new();
    let mut i: usize = 0;
    while i < feeds.len()
        invariant
            i <= feeds@.len(),
            out@.len() == i,
            forall|k: int|
                0 <= k < i ==> {
                    &&& (#[trigger] out@[k]).id == feeds@[k].id
                    &&& out@[k].title@ == feeds@[k].title@
                    &&& out@[k].site_url@ == feeds@[k].site_url@
                    &&& out@[k].feed_url@ == feeds@[k].feed_url@
                    &&& out@[k].has_rules == has_rule_set_for(rule_sets@, feeds@[k].id)
                },
        decreases feeds@.len() - i,
    {
        out.push(feed_info(&feeds[i], rule_sets));
        i = i + 1;
    }
    out
}

/// The position of the feed with id `feed_id`, if there is one (the first).
pub fn find_feed(feeds: &Vec<Feed>, feed_id: u64) -> (r: Option<usize>)
    ensures
        r is None <==> forall|k: int| 0 <= k < feeds@.len() ==> (#[trigger] feeds@[k]).id != feed_id,
        r matches Some(i) ==> i < feeds@.len() && feeds@[i as int].id == feed_id && forall|k: int|
            0 <= k < i ==> (#[trigger] feeds@[k]).id != feed_id,
{
    let mut i: usize = 0;
    while i < feeds.len()
        invariant
            i <= feeds@.len(),
            forall|k: int| 0 <= k < i ==> (#[trigger] feeds@[k]).id != feed_id,
        decreases feeds@.len() - i,
    {
        if feeds[i].id == feed_id {
            return Some(i);
        }
        i = i + 1;
    }
    None
}

/// The rule set a new feed starts with: enabled, unnamed, without rules.
pub fn new_rule_set(request: &CreateRuleSetRequest) -> (r: RuleSet)
    ensures
        r.feed_id == request.feed_id,
        r.feed_name is None,
        r.enabled == Some(true),
        r.rules@.len() == 0,
{
    RuleSet { feed_id: request.feed_id, feed_name: None, enabled: Some(true), rules: Vec::new() }
}

/// A rule set may replace the one stored under `feed_id` only when it is
/// for that same feed.
pub fn update_matches_path(feed_id: u64, rule_set: &RuleSet) -> (r: bool)
    ensures
        r == (rule_set.feed_id == feed_id),
{
    rule_set.feed_id == feed_id
}

} // verus!
