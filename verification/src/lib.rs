//! Oblivious collation of key image search results.
//!
//! A client asks about a batch of key images; every shard of the ledger
//! answers for the key images it knows. This crate merges the shards' answers
//! into one answer per query. The merge looks at every pair of query and
//! shard answer, and moves data only through constant-time selection, so that
//! the work done depends on the number of queries and answers alone.
//!
//! - [`ledger`] holds the queries, the results and their codes.
//! - [`priority`] is the rule by which one result outranks another.
//! - [`collation`] applies the rule to every pair and gives the merged results.
//! - [`laws`] proves what the merged results are, whatever order the shards'
//!   results came in.
//! - [`status`] says how the service that hands the results out reports its
//!   failures.

pub mod collation;
pub mod laws;
pub mod ledger;
pub mod priority;
mod selector;
pub mod status;
