use kdb::decode::ParseError;
use kdb::portal::{decimal_text, export_form, reports_portal_error, search_form};
use kdb::session::{Action, Event, FetchError, Phase, Session, Stage};

fn sjis(text: &str) -> Vec<u8> {
    encoding_rs::SHIFT_JIS.encode(text).0.into_owned()
}

fn start() -> Session {
    let (session, first) = Session::start("https://portal.example/".to_string(), 2025);
    assert!(matches!(first, Action::CheckCache));
    assert_eq!(session.phase(), Phase::CheckingCache);
    assert_eq!(session.endpoint(), "https://portal.example/");
    session
}

fn response(url: &str, body: &[u8]) -> Event {
    Event::Response { url: url.to_string(), body: body.to_vec() }
}

fn field<'a>(form: &'a [(String, String)], name: &str) -> Option<&'a str> {
    form.iter().find(|p| p.0 == name).map(|p| p.1.as_str())
}

/// Drives a fresh session through the three portal requests.
fn through_export(session: &mut Session, csv: &[u8]) -> Action {
    match session.step(Event::CacheChecked { exists: false }) {
        Action::Get { url } => assert_eq!(url, "https://portal.example/"),
        _ => panic!("expected the handshake request"),
    }
    match session.step(response("https://portal.example/search?s=1", b"<html>ok</html>")) {
        Action::Post { url, form } => {
            assert_eq!(url, "https://portal.example/search?s=1");
            assert_eq!(field(&form, "action"), Some("search"));
        }
        _ => panic!("expected the search request"),
    }
    match session.step(response("https://portal.example/search?s=2", b"<html>found</html>")) {
        Action::Post { url, form } => {
            assert_eq!(url, "https://portal.example/search?s=2");
            assert_eq!(session.endpoint(), "https://portal.example/search?s=2");
            assert_eq!(field(&form, "action"), Some("downloadList"));
            assert_eq!(field(&form, "cmbDwldtype"), Some("csv"));
        }
        _ => panic!("expected the export request"),
    }
    session.step(response("https://portal.example/search?s=2", csv))
}

#[test]
fn cached_file_is_decoded_without_requests() {
    let mut session = start();
    assert!(matches!(session.step(Event::CacheChecked { exists: true }), Action::Load));
    let raw = sjis("科目番号,科目名\n0XX101,Graduate Seminar\nCS101,Intro\n");
    match session.step(Event::Loaded { raw }) {
        Action::Finish { records } => {
            assert_eq!(records.len(), 2);
            assert_eq!(records[0].code, "0XX101");
            assert_eq!(records[1].code, "CS101");
        }
        _ => panic!("expected records"),
    }
    assert_eq!(session.phase(), Phase::Finished);
}

#[test]
fn full_download_stores_then_decodes() {
    let mut session = start();
    let csv = sjis("科目番号,科目名\nCS101,Intro\n");
    assert!(matches!(through_export(&mut session, &csv), Action::CheckDestination));
    match session.step(Event::DestinationChecked { exists: false }) {
        Action::Store { raw } => assert_eq!(raw, csv),
        _ => panic!("expected a store"),
    }
    assert!(matches!(session.step(Event::Stored), Action::Load));
    match session.step(Event::Loaded { raw: csv }) {
        Action::Finish { records } => assert_eq!(records[0].name, "Intro"),
        _ => panic!("expected records"),
    }
}

#[test]
fn existing_destination_is_not_overwritten() {
    let mut session = start();
    let csv = sjis("科目番号,科目名\nCS101,Intro\n");
    assert!(matches!(through_export(&mut session, &csv), Action::CheckDestination));
    match session.step(Event::DestinationChecked { exists: true }) {
        Action::Fail { error } => assert_eq!(error, FetchError::AlreadyExists),
        _ => panic!("an existing file must not be written"),
    }
    assert_eq!(session.phase(), Phase::Finished);
}

#[test]
fn error_page_on_handshake_fails() {
    let mut session = start();
    session.step(Event::CacheChecked { exists: false });
    match session.step(response("https://portal.example/", b"<div class=\"sys-err-head\">error</div>")) {
        Action::Fail { error } => assert_eq!(error, FetchError::Portal { stage: Stage::Handshake }),
        _ => panic!("expected a portal error"),
    }
}

#[test]
fn error_page_on_export_fails_before_any_write() {
    let mut session = start();
    match through_export(&mut session, b"....sys-err-head") {
        Action::Fail { error } => assert_eq!(error, FetchError::Portal { stage: Stage::Export }),
        _ => panic!("expected a portal error"),
    }
}

#[test]
fn transport_failure_names_the_stage() {
    let mut session = start();
    session.step(Event::CacheChecked { exists: false });
    session.step(response("https://portal.example/s", b"ok"));
    match session.step(Event::TransportFailed) {
        Action::Fail { error } => assert_eq!(error, FetchError::Transport { stage: Stage::Search }),
        _ => panic!("expected a transport error"),
    }
}

#[test]
fn malformed_cache_file_fails_with_parse_error() {
    let mut session = start();
    session.step(Event::CacheChecked { exists: true });
    match session.step(Event::Loaded { raw: sjis("科目番号,科目名\nA,B,C\n") }) {
        Action::Fail { error } => assert_eq!(
            error,
            FetchError::Parse { error: ParseError::FieldCount { row: 1, expected: 2, found: 3 } }
        ),
        _ => panic!("expected a parse error"),
    }
}

#[test]
fn unreadable_cache_file_fails_with_io_error() {
    let mut session = start();
    session.step(Event::CacheChecked { exists: true });
    match session.step(Event::IoFailed) {
        Action::Fail { error } => assert_eq!(error, FetchError::Io),
        _ => panic!("expected an io error"),
    }
}

#[test]
fn unexpected_event_ends_the_run() {
    let mut session = start();
    match session.step(Event::Stored) {
        Action::Fail { error } => assert_eq!(error, FetchError::OutOfOrder),
        _ => panic!("expected out of order"),
    }
    match session.step(Event::CacheChecked { exists: true }) {
        Action::Fail { error } => assert_eq!(error, FetchError::OutOfOrder),
        _ => panic!("a finished run stays finished"),
    }
}

#[test]
fn marker_detection() {
    assert!(reports_portal_error(b"sys-err-head"));
    assert!(reports_portal_error(b"<p class=\"sys-err-head\">"));
    assert!(!reports_portal_error(b""));
    assert!(!reports_portal_error(b"sys-err-hea"));
    assert!(!reports_portal_error(b"sys-err-HEAD and more text"));
}

#[test]
fn decimal_text_values() {
    assert_eq!(decimal_text(0), "0");
    assert_eq!(decimal_text(7), "7");
    assert_eq!(decimal_text(2025), "2025");
    assert_eq!(decimal_text(u32::MAX), "4294967295");
}

#[test]
fn forms_carry_the_year_and_open_filters() {
    let search = search_form(2025);
    assert_eq!(search[0], ("pageId".to_string(), "SB0070".to_string()));
    assert_eq!(field(&search, "hdnFy"), Some("2025"));
    assert_eq!(field(&search, "hdnKeywords"), Some(""));
    assert_eq!(field(&search, "hdnChkSyllabi"), Some("false"));
    assert_eq!(field(&search, "cmbDwldtype"), None);
    assert_eq!(search.len(), 23);
    let export = export_form(2024);
    assert_eq!(field(&export, "hdnFy"), Some("2024"));
    assert_eq!(export.len(), 24);
    assert_eq!(export[23], ("cmbDwldtype".to_string(), "csv".to_string()));
}
