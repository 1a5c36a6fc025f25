//! The statements that make an opened database file ready for the commands.
//!
//! Write-ahead logging keeps readers from blocking on the writer; synchronous level `NORMAL`
//! syncs at checkpoints rather than at every commit, which trades a little durability of the
//! last commit for write throughput on a single-user desktop. The table is created only when it
//! is missing, so running the whole set again on every start changes nothing.

use vstd::prelude::*;

verus! {

/// Pragma that selects the journaling mode.
pub const JOURNAL_MODE_PRAGMA: &'static str = "journal_mode";

/// Journaling mode set on every start: write-ahead logging.
pub const JOURNAL_MODE: &'static str = "WAL";

/// Pragma that selects when the engine syncs to disk.
pub const SYNCHRONOUS_PRAGMA: &'static str = "synchronous";

/// Sync level set on every start: at checkpoints, not at every commit.
pub const SYNCHRONOUS_LEVEL: &'static str = "NORMAL";

/// Creates the tournaments table when it is missing.
pub const CREATE_TOURNAMENTS_SQL: &'static str = "CREATE TABLE IF NOT EXISTS tournaments (
            id INTEGER PRIMARY KEY AUTOINCREMENT,
            name TEXT NOT NULL,
            region TEXT,
            tier TEXT,
            start_date TEXT,
            end_date TEXT,
            status TEXT DEFAULT 'Draft'
        );";

} // verus!
