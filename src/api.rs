//! The feed reader's records, as the rule engine and the cycle see them.
use vstd::prelude::*;

verus! {

/// A feed of the remote reader.
#[derive(Debug, Clone)]
pub struct Feed {
    pub id: u64,
    pub title: String,
    pub site_url: String,
    pub feed_url: String,
}

/// An article (entry) of the remote reader. Missing text fields arrive as
/// empty strings and missing tags as an empty list.
#[derive(Debug, Clone)]
pub struct Entry {
    pub id: u64,
    pub title: String,
    pub url: String,
    pub content: String,
    pub author: String,
    pub status: String,
    pub feed: Feed,
    pub published_at: String,
    pub created_at: String,
    pub tags: Vec<String>,
}

/// One page of entries as the reader lists them.
#[derive(Debug)]
pub struct EntriesResponse {
    pub total: u64,
    pub entries: Vec<Entry>,
}

/// The body of a request that sets the status of a batch of entries.
#[derive(Debug)]
pub struct MarkEntriesRequest {
    pub entry_ids: Vec<u64>,
    pub status: String,
}

impl MarkEntriesRequest {
    /// The request that marks the given entries as read.
    pub fn mark_read(entry_ids: Vec<u64>) -> (r: MarkEntriesRequest)
        ensures
            r.entry_ids@ == entry_ids@,
            r.status@ == "read"@,
    {
        MarkEntriesRequest { entry_ids, status: "read".to_string() }
    }
}

} // verus!
