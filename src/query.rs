//! The `get_tournaments` command: the names of all tournaments, most recently inserted first.
//!
//! The host program locks the shared connection and runs [`SELECT_NAMES_SQL`]; the library
//! turns what that gave into the command's answer. The engine orders the rows by descending
//! identity; the answer keeps that order and is either every name or a single error.

use vstd::prelude::*;

verus! {

/// Query whose rows the command reads: one name per tournament, newest identity first.
pub const SELECT_NAMES_SQL: &'static str = "SELECT name FROM tournaments ORDER BY id DESC";

/// Error the command answers with when the shared connection's lock is poisoned.
pub const LOCK_FAILED_MESSAGE: &'static str = "Failed to lock DB connection";

/// Why the query could not be run at all.
#[derive(Debug, PartialEq, Eq)]
pub enum QueryFailure {
    /// A caller panicked while it held the shared connection.
    LockPoisoned,
    /// The statement could not be prepared or started; the engine's message.
    Statement(String),
}

/// The command's answer as a mathematical value: the names, or the text of the error.
pub open spec fn answer_view(r: Result<Vec<String>, String>) -> Result<Seq<String>, Seq<char>> {
    match r {
        Ok(names) => Ok(names@),
        Err(e) => Err(e@),
    }
}

/// What the rows of the query come to: every name in row order when each row was read, and
/// otherwise the error of the first row that was not.
pub open spec fn collected(rows: Seq<Result<String, String>>) -> Result<Seq<String>, Seq<char>>
    decreases rows.len(),
{
    if rows.len() == 0 {
        Ok(Seq::empty())
    } else {
        match collected(rows.drop_last()) {
            Ok(names) => match rows.last() {
                Ok(name) => Ok(names.push(name)),
                Err(e) => Err(e@),
            },
            Err(e) => Err(e),
        }
    }
}

/// The command's answer, given what running the query gave.
pub open spec fn reply(fetched: Result<Seq<Result<String, String>>, QueryFailure>) -> Result<
    Seq<String>,
    Seq<char>,
> {
    match fetched {
        Ok(rows) => collected(rows),
        Err(QueryFailure::LockPoisoned) => Err(LOCK_FAILED_MESSAGE@),
        Err(QueryFailure::Statement(e)) => Err(e@),
    }
}

proof fn collected_keeps_error(rows: Seq<Result<String, String>>, n: nat)
    requires
        n <= rows.len(),
        collected(rows.take(n as int)) is Err,
    ensures
        collected(rows) == collected(rows.take(n as int)),
    decreases rows.len() - n,
{
    if n < rows.len() {
        let next = rows.take(n as int + 1);
        assert(next.drop_last() =~= rows.take(n as int));
        collected_keeps_error(rows, n + 1);
    } else {
        assert(rows.take(n as int) =~= rows);
    }
}

/// Name held by a row that was read.
pub open spec fn row_name(row: Result<String, String>) -> String {
    row->Ok_0
}

/// When every row was read, the answer holds the rows' names, one for each row and in the order
/// the rows came: rows sorted newest first give names newest first.
pub proof fn names_keep_row_order(rows: Seq<Result<String, String>>)
    requires
        forall|i: int| 0 <= i < rows.len() ==> rows[i] is Ok,
    ensures
        collected(rows) == Ok::<Seq<String>, Seq<char>>(rows.map_values(|r| row_name(r))),
    decreases rows.len(),
{
    if rows.len() > 0 {
        let rest = rows.drop_last();
        names_keep_row_order(rest);
        assert(rest.map_values(|r| row_name(r)).push(row_name(rows.last())) =~= rows.map_values(
            |r| row_name(r),
        ));
    } else {
        assert(rows.map_values(|r| row_name(r)) =~= Seq::<String>::empty());
    }
}

/// A row that could not be read makes the whole answer an error, the one of the first such row:
/// no caller is ever handed part of the list.
pub proof fn first_failed_row_decides(rows: Seq<Result<String, String>>, i: int)
    requires
        0 <= i < rows.len(),
        rows[i] is Err,
        forall|j: int| 0 <= j < i ==> rows[j] is Ok,
    ensures
        collected(rows) == Err::<Seq<String>, Seq<char>>(rows[i]->Err_0@),
{
    let before = rows.take(i);
    names_keep_row_order(before);
    assert(rows.take(i + 1).drop_last() =~= before);
    collected_keeps_error(rows, (i + 1) as nat);
}

/// Reads the names out of the query's rows, in the order the rows came.
pub fn collect_names(rows: &Vec<Result<String, String>>) -> (r: Result<Vec<String>, String>)
    ensures
        answer_view(r) == collected(rows@),
{
    let mut names: Vec<String> = Vec::new();
    let mut i: usize = 0;
    while i < rows.len()
        invariant
            i <= rows@.len(),
            collected(rows@.take(i as int)) == Ok::<Seq<String>, Seq<char>>(names@),
        decreases rows@.len() - i,
    {
        assert(rows@.take(i as int + 1).drop_last() =~= rows@.take(i as int));
        match &rows[i] {
            Ok(name) => {
                names.push(name.clone());
            },
            Err(e) => {
                proof {
                    collected_keeps_error(rows@, i as nat + 1);
                }
                return Err(e.clone());
            },
        }
        i = i + 1;
    }
    assert(rows@.take(i as int) =~= rows@);
    Ok(names)
}

/// Answers the `get_tournaments` command from what acquiring the connection and running the
/// query gave: the names, newest first, or one error text.
pub fn get_tournaments(fetched: Result<Vec<Result<String, String>>, QueryFailure>) -> (r: Result<
    Vec<String>,
    String,
>)
    ensures
        answer_view(r) == reply(
            match fetched {
                Ok(rows) => Ok(rows@),
                Err(f) => Err(f),
            },
        ),
{
    match fetched {
        Ok(rows) => collect_names(&rows),
        Err(QueryFailure::LockPoisoned) => Err(LOCK_FAILED_MESSAGE.to_owned()),
        Err(QueryFailure::Statement(e)) => Err(e),
    }
}

} // verus!
