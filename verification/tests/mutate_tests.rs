use sheetsync::RowRange;
use sheetsync::SyncEvent;
use sheetsync::SyncState;
use sheetsync::WriteError;
use sheetsync::append_url;
use sheetsync::batch_update_url;
use sheetsync::classify_write_status;
use sheetsync::delete_body;
use sheetsync::delete_row_range;
use sheetsync::read_url;
use sheetsync::sync_step;
use sheetsync::update_url;
use sheetsync::values_body;
use sheetsync::write_outcome;

#[test]
fn delete_translates_to_half_open_range() {
    assert_eq!(
        delete_row_range(3).expect("positive index"),
        RowRange { start: 2, end: 3 }
    );
    assert_eq!(
        delete_row_range(1).expect("positive index"),
        RowRange { start: 0, end: 1 }
    );
}

#[test]
fn delete_with_zero_index_is_rejected_before_any_call() {
    assert!(matches!(delete_row_range(0), Err(WriteError::InvalidIndex)));
}

#[test]
fn delete_body_is_exact() {
    let range = delete_row_range(3).expect("positive index");
    assert_eq!(
        delete_body(0, range),
        "{\"requests\":[{\"deleteDimension\":{\"range\":{\"sheetId\":0,\"dimension\":\"ROWS\",\"startIndex\":2,\"endIndex\":3}}}]}"
    );
}

#[test]
fn urls_are_exact() {
    assert_eq!(
        read_url("TBL", "RETURNS MAIN"),
        "https://sheets.googleapis.com/v4/spreadsheets/TBL/values/RETURNS MAIN"
    );
    assert_eq!(
        append_url("TBL", "Sheet1"),
        "https://sheets.googleapis.com/v4/spreadsheets/TBL/values/Sheet1:append?valueInputOption=RAW"
    );
    assert_eq!(
        update_url("TBL", "Sheet1", 2),
        "https://sheets.googleapis.com/v4/spreadsheets/TBL/values/Sheet1!A2:Z2?valueInputOption=RAW"
    );
    assert_eq!(
        update_url("TBL", "Sheet1", 120),
        "https://sheets.googleapis.com/v4/spreadsheets/TBL/values/Sheet1!A120:Z120?valueInputOption=RAW"
    );
    assert_eq!(
        batch_update_url("TBL"),
        "https://sheets.googleapis.com/v4/spreadsheets/TBL:batchUpdate"
    );
}

#[test]
fn values_body_is_exact() {
    let row = vec!["X".to_string(), "Y".to_string(), "Z".to_string()];
    assert_eq!(values_body(&row), "{\"values\":[[\"X\",\"Y\",\"Z\"]]}");
    let empty: Vec<String> = Vec::new();
    assert_eq!(values_body(&empty), "{\"values\":[[]]}");
    let one = vec!["only".to_string()];
    assert_eq!(values_body(&one), "{\"values\":[[\"only\"]]}");
}

#[test]
fn values_body_escapes_cell_text() {
    let row = vec!["a\"b\\c\nd".to_string()];
    assert_eq!(values_body(&row), "{\"values\":[[\"a\\\"b\\\\c\\nd\"]]}");
    let control = vec!["\u{1}".to_string()];
    assert_eq!(values_body(&control), "{\"values\":[[\"\\u0001\"]]}");
}

#[test]
fn successful_statuses_succeed() {
    assert!(classify_write_status(200, false).is_ok());
    assert!(classify_write_status(299, false).is_ok());
    assert!(classify_write_status(200, true).is_ok());
}

#[test]
fn rejection_statuses_carry_the_service_verdict() {
    assert!(matches!(
        classify_write_status(403, false),
        Err(WriteError::RejectedByService)
    ));
    assert!(matches!(
        classify_write_status(400, false),
        Err(WriteError::RejectedByService)
    ));
    assert!(matches!(
        classify_write_status(500, true),
        Err(WriteError::RejectedByService)
    ));
}

#[test]
fn credential_rejections_ask_for_a_fresh_token() {
    assert!(matches!(
        classify_write_status(401, false),
        Err(WriteError::Unauthorized)
    ));
    assert!(matches!(
        classify_write_status(403, true),
        Err(WriteError::Unauthorized)
    ));
}

#[test]
fn missing_response_is_a_transport_failure() {
    assert!(matches!(
        write_outcome(None),
        Err(WriteError::TransportFailure)
    ));
    assert!(write_outcome(Some((200, false))).is_ok());
    assert!(matches!(
        write_outcome(Some((403, false))),
        Err(WriteError::RejectedByService)
    ));
}

#[test]
fn run_advances_only_through_the_token() {
    assert_eq!(
        sync_step(SyncState::Start, SyncEvent::TokenOk),
        SyncState::TokenAcquired
    );
    assert_eq!(
        sync_step(SyncState::Start, SyncEvent::TokenFailed),
        SyncState::Failed
    );
    assert_eq!(
        sync_step(SyncState::Start, SyncEvent::ReadOk),
        SyncState::Failed
    );
}

#[test]
fn reads_and_mutations_keep_the_run_alive_until_finish() {
    let s = SyncState::TokenAcquired;
    assert_eq!(sync_step(s, SyncEvent::ReadOk), SyncState::TokenAcquired);
    assert_eq!(sync_step(s, SyncEvent::MutateOk), SyncState::TokenAcquired);
    assert_eq!(sync_step(s, SyncEvent::Finish), SyncState::Done);
    assert_eq!(sync_step(s, SyncEvent::ReadFailed), SyncState::Failed);
    assert_eq!(sync_step(s, SyncEvent::MutateFailed), SyncState::Failed);
}

#[test]
fn finished_runs_stay_finished() {
    assert_eq!(sync_step(SyncState::Done, SyncEvent::TokenOk), SyncState::Done);
    assert_eq!(sync_step(SyncState::Done, SyncEvent::MutateFailed), SyncState::Done);
    assert_eq!(
        sync_step(SyncState::Failed, SyncEvent::ReadOk),
        SyncState::Failed
    );
    assert_eq!(
        sync_step(SyncState::Failed, SyncEvent::Finish),
        SyncState::Failed
    );
}
