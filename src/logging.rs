//! A bounded, in-memory record of recent log events for the web interface.
use vstd::prelude::*;

use std::collections::VecDeque;

use crate::text::{lower_of, parse_u64, parse_unsigned, same_str, strip_quotes, to_lower, unquoted};

verus! {

/// A point in time: seconds since the Unix epoch and the nanoseconds past
/// that second.
#[derive(Debug, Clone, Copy, PartialEq, Eq, Structural)]
pub struct Timestamp {
    pub seconds: i64,
    pub nanos: u32,
}

/// One recorded log event.
#[derive(Debug, Clone)]
pub struct LogEntry {
    pub timestamp: Timestamp,
    pub level: String,
    pub message: String,
    pub target: String,
    pub feed_id: Option<u64>,
    pub entry_id: Option<u64>,
    pub entry_title: Option<String>,
}

fn copy_entry(e: &LogEntry) -> (r: LogEntry)
    ensures
        r == *e,
{
    let entry_title = match &e.entry_title {
        Some(t) => Some(t.clone()),
        None => None,
    };
    LogEntry {
        timestamp: e.timestamp,
        level: e.level.clone(),
        message: e.message.clone(),
        target: e.target.clone(),
        feed_id: e.feed_id,
        entry_id: e.entry_id,
        entry_title,
    }
}

/// The fields of one log event that the collector keeps.
#[derive(Debug)]
pub struct LogVisitor {
    pub message: String,
    pub feed_id: Option<u64>,
    pub entry_id: Option<u64>,
    pub entry_title: Option<String>,
}

/// The number a field's debug text spells, if it spells one; else `keep`.
pub open spec fn id_from_text(text: Seq<char>, keep: Option<u64>) -> Option<u64> {
    match parse_unsigned(text, u64::MAX as nat) {
        Some(v) => Some(v as u64),
        None => keep,
    }
}

impl LogVisitor {
    /// Nothing recorded yet.
    pub fn new() -> (r: LogVisitor)
        ensures
            r.message@ == Seq::<char>::empty(),
            r.feed_id is None,
            r.entry_id is None,
            r.entry_title is None,
    {
        LogVisitor { message: String::new(), feed_id: None, entry_id: None, entry_title: None }
    }

    /// Records a field given as its debug text: the message and the entry
    /// title lose surrounding quotes, the ids are read as numbers (a text
    /// that is no number leaves the id as it was), other fields are ignored.
    pub fn record_debug(&mut self, field: &str, text: &str)
        ensures
            field@ == "message"@ ==> *final(self) == (LogVisitor {
                message: final(self).message,
                ..*old(self)
            }) && final(self).message@ == unquoted(text@),
            field@ == "feed_id"@ ==> *final(self) == (LogVisitor {
                feed_id: id_from_text(text@, old(self).feed_id),
                ..*old(self)
            }),
            field@ == "entry_id"@ ==> *final(self) == (LogVisitor {
                entry_id: id_from_text(text@, old(self).entry_id),
                ..*old(self)
            }),
            field@ == "entry_title"@ ==> *final(self) == (LogVisitor {
                entry_title: final(self).entry_title,
                ..*old(self)
            }) && (final(self).entry_title matches Some(t) && t@ == unquoted(text@)),
            !is_visited_field(field@) ==> *final(self) == *old(self),
    {
        proof {
            reveal_field_names();
        }
        if same_str(field, "message") {
            self.message = strip_quotes(text);
        } else if same_str(field, "feed_id") {
            if let Some(id) = parse_u64(text) {
                self.feed_id = Some(id);
            }
        } else if same_str(field, "entry_id") {
            if let Some(id) = parse_u64(text) {
                self.entry_id = Some(id);
            }
        } else if same_str(field, "entry_title") {
            self.entry_title = Some(strip_quotes(text));
        }
    }

    /// Records a text field: the message or the entry title, as given.
    pub fn record_str(&mut self, field: &str, value: &str)
        ensures
            field@ == "message"@ ==> *final(self) == (LogVisitor {
                message: final(self).message,
                ..*old(self)
            }) && final(self).message@ == value@,
            field@ == "entry_title"@ ==> *final(self) == (LogVisitor {
                entry_title: final(self).entry_title,
                ..*old(self)
            }) && (final(self).entry_title matches Some(t) && t@ == value@),
            field@ != "message"@ && field@ != "entry_title"@ ==> *final(self) == *old(self),
    {
        proof {
            reveal_field_names();
        }
        if same_str(field, "message") {
            self.message = value.to_string();
        } else if same_str(field, "entry_title") {
            self.entry_title = Some(value.to_string());
        }
    }

    /// Records a numeric field: the feed id or the entry id.
    pub fn record_u64(&mut self, field: &str, value: u64)
        ensures
            field@ == "feed_id"@ ==> *final(self) == (LogVisitor { feed_id: Some(value), ..*old(self) }),
            field@ == "entry_id"@ ==> *final(self) == (LogVisitor { entry_id: Some(value), ..*old(self) }),
            field@ != "feed_id"@ && field@ != "entry_id"@ ==> *final(self) == *old(self),
    {
        proof {
            reveal_field_names();
        }
        if same_str(field, "feed_id") {
            self.feed_id = Some(value);
        } else if same_str(field, "entry_id") {
            self.entry_id = Some(value);
        }
    }
}

/// The fields a `LogVisitor` keeps.
pub open spec fn is_visited_field(field: Seq<char>) -> bool {
    field == "message"@ || field == "feed_id"@ || field == "entry_id"@ || field == "entry_title"@
}

proof fn reveal_field_names()
    ensures
        "message"@ != "feed_id"@,
        "message"@ != "entry_id"@,
        "message"@ != "entry_title"@,
        "feed_id"@ != "entry_id"@,
        "feed_id"@ != "entry_title"@,
        "entry_id"@ != "entry_title"@,
{
    reveal_strlit("message");
    reveal_strlit("feed_id");
    reveal_strlit("entry_id");
    reveal_strlit("entry_title");
    assert("message"@[0] != "feed_id"@[0]);
    assert("message"@[0] != "entry_id"@[0]);
    assert("message"@[0] != "entry_title"@[0]);
    assert("feed_id"@[0] != "entry_id"@[0]);
    assert("feed_id"@[0] != "entry_title"@[0]);
    assert("entry_id"@.len() != "entry_title"@.len());
}

/// How much the log shows.
#[derive(Debug, Clone, Copy, PartialEq, Eq, Structural)]
pub enum LogLevel {
    Trace,
    Debug,
    Info,
    Warn,
    Error,
}

/// The level a setting names, in any case; `Info` for anything else.
pub open spec fn log_level_of(setting: Seq<char>) -> LogLevel {
    let l = lower_of(setting);
    if l == "trace"@ {
        LogLevel::Trace
    } else if l == "debug"@ {
        LogLevel::Debug
    } else if l == "info"@ {
        LogLevel::Info
    } else if l == "warn"@ {
        LogLevel::Warn
    } else if l == "error"@ {
        LogLevel::Error
    } else {
        LogLevel::Info
    }
}

/// Reads a log level setting.
pub fn parse_log_level(setting: &str) -> (r: LogLevel)
    ensures
        r == log_level_of(setting@),
{
    let lower = to_lower(setting);
    let l = lower.as_str();
    if same_str(l, "trace") {
        LogLevel::Trace
    } else if same_str(l, "debug") {
        LogLevel::Debug
    } else if same_str(l, "info") {
        LogLevel::Info
    } else if same_str(l, "warn") {
        LogLevel::Warn
    } else if same_str(l, "error") {
        LogLevel::Error
    } else {
        LogLevel::Info
    }
}

/// The first `n` of `s`, or all of `s` when it is shorter.
pub open spec fn take_at_most<A>(s: Seq<A>, n: int) -> Seq<A> {
    if n < s.len() {
        s.take(n)
    } else {
        s
    }
}

/// The entries of `s` about feed `feed_id`, in order.
pub open spec fn entries_for_feed(s: Seq<LogEntry>, feed_id: u64) -> Seq<LogEntry>
    decreases s.len(),
{
    if s.len() == 0 {
        Seq::empty()
    } else {
        let before = entries_for_feed(s.drop_last(), feed_id);
        if s.last().feed_id == Some(feed_id) {
            before.push(s.last())
        } else {
            before
        }
    }
}

/// What is kept of `s` before one more entry is added under capacity `max`:
/// the newest `max - 1` entries.
pub open spec fn kept_before_add(s: Seq<LogEntry>, max: usize) -> Seq<LogEntry> {
    if s.len() >= max {
        s.subrange(s.len() - (max - 1), s.len() as int)
    } else {
        s
    }
}

/// The most recent log events, oldest first, at most `max_logs` of them.
pub struct WebLogCollector {
    logs: VecDeque<LogEntry>,
    max_logs: usize,
}

impl WebLogCollector {
    /// The entries held, oldest first.
    pub closed spec fn logs(&self) -> Seq<LogEntry> {
        self.logs@
    }

    /// The capacity.
    pub closed spec fn capacity(&self) -> usize {
        self.max_logs
    }

    pub open spec fn wf(&self) -> bool {
        0 < self.capacity() && self.logs().len() <= self.capacity()
    }

    /// An empty collector that keeps at most `max_logs` entries.
    pub fn new(max_logs: usize) -> (r: WebLogCollector)
        requires
            max_logs > 0,
        ensures
            r.wf(),
            r.logs() == Seq::<LogEntry>::empty(),
            r.capacity() == max_logs,
    {
        WebLogCollector { logs: VecDeque::with_capacity(max_logs), max_logs }
    }

    /// Appends `entry`, first dropping the oldest entries as far as needed to
    /// stay within capacity.
    pub fn add_log(&mut self, entry: LogEntry)
        requires
            old(self).wf(),
        ensures
            final(self).wf(),
            final(self).capacity() == old(self).capacity(),
            final(self).logs() == kept_before_add(old(self).logs(), old(self).capacity()).push(entry),
    {
        let ghost start = self.logs@;
        while self.logs.len() >= self.max_logs
            invariant
                0 < self.max_logs,
                self.max_logs == old(self).max_logs,
                start == old(self).logs@,
                start.len() <= self.max_logs,
                self.logs@.len() <= start.len(),
                self.logs@ == start.subrange(start.len() - self.logs@.len(), start.len() as int),
                self.logs@.len() == start.len() || self.logs@.len() >= self.max_logs - 1,
            decreases self.logs@.len(),
        {
            self.logs.pop_front();
        }
        proof {
            if start.len() < self.max_logs {
                assert(self.logs@ =~= start);
            }
        }
        self.logs.push_back(entry);
    }

    /// Copies of all entries, oldest first.
    pub fn get_logs(&self) -> (r: Vec<LogEntry>)
        ensures
            r@ == self.logs(),
    {
        let mut out: Vec<LogEntry> = Vec::new();
        let mut i: usize = 0;
        while i < self.logs.len()
            invariant
                i <= self.logs@.len(),
                out@ == self.logs@.take(i as int),
            decreases self.logs@.len() - i,
        {
            out.push(copy_entry(&self.logs[i]));
            proof {
                assert(self.logs@.take(i as int + 1) =~= self.logs@.take(i as int).push(self.logs@[i as int]));
            }
            i = i + 1;
        }
        proof {
            assert(self.logs@.take(self.logs@.len() as int) =~= self.logs@);
        }
        out
    }

    /// Copies of the `limit` newest entries, newest first.
    pub fn get_recent_logs(&self, limit: usize) -> (r: Vec<LogEntry>)
        ensures
            r@ == take_at_most(self.logs().reverse(), limit as int),
    {
        newest_first(&self.get_logs(), limit)
    }

    /// Copies of the entries about feed `feed_id`, newest first, at most
    /// `limit` of them when a limit is given.
    pub fn get_logs_for_feed(&self, feed_id: u64, limit: Option<usize>) -> (r: Vec<LogEntry>)
        ensures
            r@ == (match limit {
                Some(n) => take_at_most(entries_for_feed(self.logs(), feed_id).reverse(), n as int),
                None => entries_for_feed(self.logs(), feed_id).reverse(),
            }),
    {
        let mut matching: Vec<LogEntry> = Vec::new();
        let mut i: usize = 0;
        while i < self.logs.len()
            invariant
                i <= self.logs@.len(),
                matching@ == entries_for_feed(self.logs@.take(i as int), feed_id),
            decreases self.logs@.len() - i,
        {
            proof {
                assert(self.logs@.take(i as int + 1).drop_last() =~= self.logs@.take(i as int));
            }
            if self.logs[i].feed_id == Some(feed_id) {
                matching.push(copy_entry(&self.logs[i]));
            }
            i = i + 1;
        }
        proof {
            assert(self.logs@.take(self.logs@.len() as int) =~= self.logs@);
        }
        let n = match limit {
            Some(n) => n,
            None => matching.len(),
        };
        newest_first(&matching, n)
    }

    /// Drops every entry.
    pub fn clear_logs(&mut self)
        requires
            old(self).wf(),
        ensures
            final(self).wf(),
            final(self).capacity() == old(self).capacity(),
            final(self).logs() == Seq::<LogEntry>::empty(),
    {
        self.logs.clear();
    }
}

/// Copies of the `limit` last entries of `v`, last first.
fn newest_first(v: &Vec<LogEntry>, limit: usize) -> (r: Vec<LogEntry>)
    ensures
        r@ == take_at_most(v@.reverse(), limit as int),
{
    let n: usize = if limit < v.len() {
        limit
    } else {
        v.len()
    };
    let mut out: Vec<LogEntry> = Vec::new();
    let mut k: usize = 0;
    while k < n
        invariant
            n <= v@.len(),
            n == limit || n == v@.len(),
            n <= limit,
            k <= n,
            out@ == v@.reverse().take(k as int),
        decreases n - k,
    {
        out.push(copy_entry(&v[v.len() - 1 - k]));
        proof {
            assert(v@.reverse().take(k as int + 1) =~= v@.reverse().take(k as int).push(
                v@[v@.len() - 1 - k],
            ));
        }
        k = k + 1;
    }
    proof {
        if n == v@.len() {
            assert(v@.reverse().take(n as int) =~= v@.reverse());
        }
    }
    out
}

} // verus!
