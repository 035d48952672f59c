use chat_history::entities::{Dataset, PbUuid, User};
use chat_history::error::HistoryError;
use chat_history::loader::LoadedDataset;
use chat_history::paths::DatasetRoot;
use chat_history::request::{
    outcome_of, process_request, request_line, response_line, status_of, truncate_to, Status,
    StatusCode,
};
use chat_history::server::{JsonServer, ParseJsonFileResponse};

#[test]
fn truncate_to_keeps_the_first_clusters() {
    assert_eq!(truncate_to("hello", 3), "hel");
    assert_eq!(truncate_to("hello", 5), "hello");
    assert_eq!(truncate_to("hello", 100), "hello");
    assert_eq!(truncate_to("hello", 0), "");
    assert_eq!(truncate_to("", 3), "");
}

#[test]
fn truncate_to_does_not_part_a_character_from_its_marks() {
    let text = "a\u{310}e\u{301}o\u{308}\u{332}";
    assert_eq!(truncate_to(text, 1), "a\u{310}");
    assert_eq!(truncate_to(text, 2), "a\u{310}e\u{301}");
    assert_eq!(truncate_to(text, 3), text);
    assert_eq!(truncate_to("a\r\nb", 2), "a\r\n");
    assert_eq!(truncate_to("🇷🇺🇸🇹", 1), "🇷🇺");
}

#[test]
fn log_lines_are_cut_after_150_clusters() {
    let long = "x".repeat(200);
    assert_eq!(request_line(&long), format!(">>> Request:  {}", "x".repeat(150)));
    assert_eq!(response_line(&long), format!("<<< Response: {}", "x".repeat(150)));
    assert_eq!(request_line("Ping"), ">>> Request:  Ping");
    assert_eq!(response_line("Ok(Pong)"), "<<< Response: Ok(Pong)");
}

#[test]
fn not_loaded_is_a_failed_precondition() {
    let status = status_of(&HistoryError::NotLoaded("/data/a".to_owned()));
    assert_eq!(status.code, StatusCode::FailedPrecondition);
    assert_eq!(status.message, "Database with key /data/a is not loaded!");
}

#[test]
fn every_other_failure_is_internal() {
    let cases = vec![
        (HistoryError::FormatMismatch("no result.json".to_owned()), "no result.json"),
        (HistoryError::ParseFailure("vCard has no name".to_owned()), "vCard has no name"),
        (HistoryError::AmbiguousIdentity, "No way to choose myself!"),
        (HistoryError::LockUnavailable, "Internal error"),
        (HistoryError::Internal("Mutex is poisoned!".to_owned()), "Internal error"),
    ];
    for (error, message) in cases {
        let status = status_of(&error);
        assert_eq!(status.code, StatusCode::Internal);
        assert_eq!(status.message, message);
        assert_eq!(error.duplicate(), error);
    }
}

#[test]
fn outcome_keeps_a_response_and_maps_a_failure() {
    assert_eq!(outcome_of(Ok(5)), Ok(5));
    assert_eq!(
        outcome_of::<i32>(Err(HistoryError::LockUnavailable)),
        Err(Status { code: StatusCode::Internal, message: "Internal error".to_owned() })
    );
}

#[test]
fn process_request_runs_the_logic_on_the_request() {
    assert_eq!(process_request(&20, |req: &i32| Ok(req + 1)), Ok(21));
    let failed: Result<i32, Status> =
        process_request(&20, |req: &i32| Err(HistoryError::NotLoaded(format!("/data/{req}"))));
    assert_eq!(
        failed,
        Err(Status {
            code: StatusCode::FailedPrecondition,
            message: "Database with key /data/20 is not loaded!".to_owned(),
        })
    );
}

#[test]
fn json_server_hands_back_what_was_parsed() {
    let uuid = PbUuid { value: "00000000-0000-0000-0000-000000000000".to_owned() };
    let myself = User {
        ds_uuid: uuid.clone(),
        id: 1,
        first_name_option: Some("Me".to_owned()),
        last_name_option: None,
        username_option: None,
        phone_number_option: None,
    };
    let loaded = LoadedDataset {
        dataset: Dataset { uuid: uuid.clone(), alias: "Telegram".to_owned() },
        ds_root: DatasetRoot("/data/export".to_owned()),
        myself: myself.clone(),
        users: vec![myself.clone()],
        cwms: vec![],
    };
    let server = JsonServer::default();
    assert_eq!(
        server.parse_json_file(Ok(loaded)),
        Ok(ParseJsonFileResponse {
            ds: Dataset { uuid, alias: "Telegram".to_owned() },
            root_file: "/data/export".to_owned(),
            myself: myself.clone(),
            users: vec![myself],
            cwm: vec![],
        })
    );
    assert_eq!(
        server.parse_json_file(Err("result.json not found".to_owned())),
        Err(Status { code: StatusCode::Internal, message: "result.json not found".to_owned() })
    );
}

#[test]
fn json_server_cuts_the_printed_line_as_a_whole() {
    let server = JsonServer::default();
    assert_eq!(server.response_line("Ok(1)"), "<<< Response: Ok(1)");
    let long = "y".repeat(300);
    assert_eq!(server.response_line(&long), format!("<<< Response: {}", "y".repeat(186)));
}
