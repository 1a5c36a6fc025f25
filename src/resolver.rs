//! Where the database file lives.
//!
//! Starting at the working directory, the walk looks at `<level>/sqlite` for the level itself,
//! its parent and its grandparent. The first of them that exists, or that can be created,
//! holds `esports_ranker.db`. The nearest level wins: a `sqlite/` directory further up is never
//! preferred to one that exists or can be made closer to the working directory.
//!
//! The host program makes the file system calls; [`PathWalk`] makes every decision between them.

use vstd::prelude::*;

verus! {

/// Directory looked for, or created, under each level of the walk.
pub const SQLITE_DIR_NAME: &'static str = "sqlite";

/// Database file inside that directory.
pub const DB_FILE_NAME: &'static str = "esports_ranker.db";

/// Number of levels the walk may look at: the working directory, its parent and its grandparent.
pub const MAX_LEVELS: u32 = 3;

/// Cause carried by the error of a walk that found no usable directory.
pub const UNRESOLVED_MESSAGE: &'static str = "could not resolve sqlite directory";

/// Extended result code of that error: the storage engine's "cannot open" code.
pub const CANNOT_OPEN_EXTENDED_CODE: i32 = 14;

/// What `<level>/sqlite` turned out to be when the walk looked at it.
#[derive(Clone, Copy, Debug, PartialEq, Eq, Structural)]
pub enum Candidate {
    /// The directory was already there.
    Present,
    /// It was missing and has just been created, together with any missing ancestors.
    Created,
    /// It was missing and could not be created; `has_parent` tells whether the level has a
    /// parent directory to go on with.
    Unavailable { has_parent: bool },
}

/// What the walk does after looking at a candidate.
#[derive(Clone, Copy, Debug, PartialEq, Eq, Structural)]
pub enum Decision {
    /// Use `<level>/sqlite/esports_ranker.db`.
    UseCandidate,
    /// Move to the parent of the current level and look there.
    TryParent,
    /// Stop: no level gave a usable directory.
    GiveUp,
}

impl Candidate {
    /// The candidate directory exists once the walk has looked at it.
    pub open spec fn is_usable(self) -> bool {
        self is Present || self is Created
    }
}

/// The decision taken on `c` when `checks` candidates have been looked at before it.
pub open spec fn step(checks: nat, c: Candidate) -> Decision {
    match c {
        Candidate::Present => Decision::UseCandidate,
        Candidate::Created => Decision::UseCandidate,
        Candidate::Unavailable { has_parent } => {
            if has_parent && checks + 1 < MAX_LEVELS {
                Decision::TryParent
            } else {
                Decision::GiveUp
            }
        },
    }
}

/// How a walk ends when `checks` candidates are behind it and the one looked at as the `i`-th
/// turns out as `outcomes[i]`: the number of candidates looked at in all, and the last decision.
pub open spec fn walk_end(checks: nat, outcomes: Seq<Candidate>) -> (nat, Decision)
    decreases MAX_LEVELS - checks,
{
    if checks >= MAX_LEVELS || checks >= outcomes.len() {
        (checks, Decision::GiveUp)
    } else {
        let d = step(checks, outcomes[checks as int]);
        if d is TryParent {
            walk_end(checks + 1, outcomes)
        } else {
            (checks + 1, d)
        }
    }
}

/// The state of a walk: how many candidates it has looked at, and whether it has ended.
pub struct PathWalk {
    checks: u32,
    finished: bool,
}

impl PathWalk {
    /// Number of candidates looked at so far.
    pub closed spec fn checks_done(&self) -> nat {
        self.checks as nat
    }

    /// The walk has used a candidate or given up.
    pub closed spec fn is_finished(&self) -> bool {
        self.finished
    }

    /// The walk may look at one more candidate.
    pub open spec fn can_step(&self) -> bool {
        !self.is_finished() && self.checks_done() < MAX_LEVELS
    }

    /// A walk about to look at the working directory.
    pub fn new() -> (r: PathWalk)
        ensures
            r.checks_done() == 0,
            !r.is_finished(),
    {
        PathWalk { checks: 0, finished: false }
    }

    /// Whether the walk may look at one more candidate.
    pub fn may_continue(&self) -> (r: bool)
        ensures
            r == self.can_step(),
    {
        !self.finished && self.checks < MAX_LEVELS
    }

    /// Takes the decision on the candidate just looked at.
    ///
    /// An existing or newly created directory is used. Otherwise the walk moves up a level if
    /// there is one and a level is left to look at, and gives up if not.
    pub fn decide(&mut self, c: Candidate) -> (r: Decision)
        requires
            old(self).can_step(),
        ensures
            r == step(old(self).checks_done(), c),
            final(self).checks_done() == old(self).checks_done() + 1,
            final(self).checks_done() <= MAX_LEVELS,
            final(self).is_finished() == !(r is TryParent),
            r is UseCandidate ==> c.is_usable(),
            r is TryParent ==> final(self).can_step(),
    {
        self.checks = self.checks + 1;
        let r = match c {
            Candidate::Present => Decision::UseCandidate,
            Candidate::Created => Decision::UseCandidate,
            Candidate::Unavailable { has_parent } => {
                if has_parent && self.checks < MAX_LEVELS {
                    Decision::TryParent
                } else {
                    Decision::GiveUp
                }
            },
        };
        self.finished = !matches!(r, Decision::TryParent);
        r
    }
}

proof fn walk_end_from(checks: nat, outcomes: Seq<Candidate>)
    requires
        checks < MAX_LEVELS,
        outcomes.len() >= MAX_LEVELS,
    ensures
        checks < walk_end(checks, outcomes).0 <= MAX_LEVELS,
        !(walk_end(checks, outcomes).1 is TryParent),
        walk_end(checks, outcomes).1 is UseCandidate ==> outcomes[walk_end(checks, outcomes).0 - 1].is_usable(),
    decreases MAX_LEVELS - checks,
{
    if step(checks, outcomes[checks as int]) is TryParent {
        walk_end_from(checks + 1, outcomes);
    }
}

/// Whatever each candidate directory turns out to be, a walk started at the working directory
/// looks at one to three candidates, ends with a verdict, and uses a candidate only if that
/// directory exists.
pub proof fn walk_is_bounded(outcomes: Seq<Candidate>)
    requires
        outcomes.len() >= MAX_LEVELS,
    ensures
        1 <= walk_end(0, outcomes).0 <= MAX_LEVELS,
        !(walk_end(0, outcomes).1 is TryParent),
        walk_end(0, outcomes).1 is UseCandidate ==> outcomes[walk_end(0, outcomes).0 - 1].is_usable(),
{
    walk_end_from(0, outcomes);
}

} // verus!
