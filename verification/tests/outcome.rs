use inventory_store::outcome::{
    created, deleted, listed, rows_changed, status_label, update_outcome, updated, Status,
};

#[test]
fn statuses_have_their_numbers() {
    assert_eq!(Status::Success.code(), 200);
    assert_eq!(Status::Created.code(), 201);
    assert_eq!(Status::NoContent.code(), 204);
    assert_eq!(Status::NotFound.code(), 404);
    assert_eq!(Status::InternalServerError.code(), 500);
}

#[test]
fn a_statement_that_touched_no_row_changed_nothing() {
    assert!(!rows_changed(0));
    assert!(rows_changed(1));
    assert!(rows_changed(u64::MAX));
}

#[test]
fn an_update_that_was_not_run_changed_nothing() {
    assert!(!update_outcome(None));
    assert!(!update_outcome(Some(0)));
    assert!(update_outcome(Some(1)));
}

#[test]
fn listing_answers() {
    let found: Result<Vec<u8>, String> = Ok(vec![]);
    let failed: Result<Vec<u8>, String> = Err("disk".to_string());
    assert_eq!(listed(&found), Status::Success);
    assert_eq!(listed(&failed), Status::InternalServerError);
}

#[test]
fn creation_answers() {
    let stored: Result<(), String> = Ok(());
    let failed: Result<(), String> = Err("NOT NULL".to_string());
    assert_eq!(created(&stored), Status::Created);
    assert_eq!(created(&failed), Status::InternalServerError);
}

#[test]
fn removal_answers() {
    let removed: Result<bool, String> = Ok(true);
    let missing: Result<bool, String> = Ok(false);
    let failed: Result<bool, String> = Err("disk".to_string());
    assert_eq!(deleted(&removed), Status::NoContent);
    assert_eq!(deleted(&missing), Status::NotFound);
    assert_eq!(deleted(&failed), Status::InternalServerError);
}

#[test]
fn update_answers() {
    let changed: Result<bool, String> = Ok(true);
    let missing: Result<bool, String> = Ok(false);
    let failed: Result<bool, String> = Err("disk".to_string());
    assert_eq!(updated(&changed), Status::Success);
    assert_eq!(updated(&missing), Status::NotFound);
    assert_eq!(updated(&failed), Status::InternalServerError);
}

#[test]
fn a_flag_is_shown_in_three_ways() {
    assert_eq!(status_label(Some(true)), "active");
    assert_eq!(status_label(Some(false)), "inactive");
    assert_eq!(status_label(None), "None");
}
