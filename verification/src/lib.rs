//! A library for serving YouTrack to language models over MCP: the text
//! rules, search and paging, attachment handling and access checks that the
//! server applies around its calls to YouTrack.
use vstd::prelude::*;

pub mod args;
pub mod attachment;
pub mod builder;
pub mod config;
pub mod mcp;
pub mod projects;
pub mod reading;
pub mod references;
pub mod requests;
pub mod search;
pub mod text;

verus! {
} // verus!
