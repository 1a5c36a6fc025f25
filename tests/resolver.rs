use esports_ranker::resolver::{
    CANNOT_OPEN_EXTENDED_CODE, DB_FILE_NAME, MAX_LEVELS, SQLITE_DIR_NAME, UNRESOLVED_MESSAGE,
};
use esports_ranker::{Candidate, Decision, PathWalk};

#[test]
fn cold_start_creates_directory_at_working_directory() {
    let mut walk = PathWalk::new();
    assert!(walk.may_continue());
    assert_eq!(walk.decide(Candidate::Created), Decision::UseCandidate);
    assert!(!walk.may_continue());
}

#[test]
fn existing_directory_is_used_at_once() {
    let mut walk = PathWalk::new();
    assert_eq!(walk.decide(Candidate::Present), Decision::UseCandidate);
    assert!(!walk.may_continue());
}

#[test]
fn nested_launch_settles_on_grandparent() {
    // working directory <root>/build/bin: neither bin/sqlite nor build/sqlite can be made
    let mut walk = PathWalk::new();
    assert_eq!(
        walk.decide(Candidate::Unavailable { has_parent: true }),
        Decision::TryParent
    );
    assert!(walk.may_continue());
    assert_eq!(
        walk.decide(Candidate::Unavailable { has_parent: true }),
        Decision::TryParent
    );
    assert!(walk.may_continue());
    assert_eq!(walk.decide(Candidate::Present), Decision::UseCandidate);
    assert!(!walk.may_continue());
}

#[test]
fn nearest_level_wins() {
    let mut walk = PathWalk::new();
    assert_eq!(
        walk.decide(Candidate::Unavailable { has_parent: true }),
        Decision::TryParent
    );
    assert_eq!(walk.decide(Candidate::Created), Decision::UseCandidate);
    assert!(!walk.may_continue());
}

#[test]
fn write_locked_ancestors_give_up_after_three_levels() {
    let mut walk = PathWalk::new();
    let mut checks: u32 = 0;
    let mut last = Decision::TryParent;
    while walk.may_continue() {
        last = walk.decide(Candidate::Unavailable { has_parent: true });
        checks += 1;
    }
    assert_eq!(last, Decision::GiveUp);
    assert_eq!(checks, MAX_LEVELS);
    assert_eq!(checks, 3);
    assert!(UNRESOLVED_MESSAGE.contains("could not resolve sqlite directory"));
    assert_eq!(CANNOT_OPEN_EXTENDED_CODE, 14);
}

#[test]
fn filesystem_root_without_parent_gives_up() {
    let mut walk = PathWalk::new();
    assert_eq!(
        walk.decide(Candidate::Unavailable { has_parent: false }),
        Decision::GiveUp
    );
    assert!(!walk.may_continue());
}

#[test]
fn missing_parent_on_second_level_gives_up() {
    let mut walk = PathWalk::new();
    assert_eq!(
        walk.decide(Candidate::Unavailable { has_parent: true }),
        Decision::TryParent
    );
    assert_eq!(
        walk.decide(Candidate::Unavailable { has_parent: false }),
        Decision::GiveUp
    );
    assert!(!walk.may_continue());
}

#[test]
fn database_file_location_names() {
    assert_eq!(SQLITE_DIR_NAME, "sqlite");
    assert_eq!(DB_FILE_NAME, "esports_ranker.db");
}
