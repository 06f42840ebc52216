//! Resolution of short-link tokens to their destination URLs.
//!
//! A token is looked up in three tiers: a time-bounded cache, the primary
//! link store, and a fixed set of links loaded once from a CSV dataset.  The
//! cache and the store live outside this crate; the crate decides what to ask
//! of them and what to make of their answers, and states those decisions as
//! contracts over plain mathematical models.

pub mod csv_links;
pub mod guarantees;
pub mod link;
pub mod resolver;
pub mod text;
