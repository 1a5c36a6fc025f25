//! Storage bootstrap and the tournament-list command of the esports ranker desktop backend.
//!
//! The library decides where the database file lives, holds the statements that configure it,
//! and turns what a query of the tournaments table gave into the command's answer. Running the
//! statements and touching the file system is left to the host program.

pub mod query;
pub mod resolver;
pub mod schema;

pub use query::{collect_names, get_tournaments, QueryFailure};
pub use resolver::{Candidate, Decision, PathWalk};
