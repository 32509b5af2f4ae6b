//! Rule-based filtering of feed-reader articles: conditions, rules and rule
//! sets, their validation, and the decisions of a polling cycle.

pub mod api;
pub mod config;
pub mod filter;
pub mod laws;
pub mod logging;
pub mod pattern;
pub mod rules;
pub mod text;
pub mod web;
