use esports_ranker::query::LOCK_FAILED_MESSAGE;
use esports_ranker::{collect_names, get_tournaments, QueryFailure};

fn ok(s: &str) -> Result<String, String> {
    Ok(s.to_string())
}

#[test]
fn no_rows_give_empty_list() {
    assert_eq!(get_tournaments(Ok(vec![])), Ok(Vec::<String>::new()));
}

#[test]
fn names_come_in_row_order() {
    let rows = vec![ok("C"), ok("B"), ok("A")];
    assert_eq!(
        collect_names(&rows),
        Ok(vec!["C".to_string(), "B".to_string(), "A".to_string()])
    );
}

#[test]
fn first_failed_row_is_the_answer() {
    let rows = vec![
        ok("C"),
        Err("bad row".to_string()),
        ok("A"),
        Err("later".to_string()),
    ];
    assert_eq!(get_tournaments(Ok(rows)), Err("bad row".to_string()));
}

#[test]
fn poisoned_lock_reports_lock_failure() {
    assert_eq!(
        get_tournaments(Err(QueryFailure::LockPoisoned)),
        Err("Failed to lock DB connection".to_string())
    );
    assert_eq!(LOCK_FAILED_MESSAGE, "Failed to lock DB connection");
}

#[test]
fn statement_failure_passes_engine_message() {
    assert_eq!(
        get_tournaments(Err(QueryFailure::Statement("no such table: tournaments".to_string()))),
        Err("no such table: tournaments".to_string())
    );
}
