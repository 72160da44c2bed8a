use debuginfo_upload_server::ingest::{
    plan_field, FieldMeta, FieldPlan, IngestAction, IngestEvent, IngestPhase, IngestSession, Route,
    UploadError,
};
use debuginfo_upload_server::store::{download_path, ArtifactPath, Options};

fn options() -> Options {
    Options {
        port: 8012,
        output: "up".to_string(),
        max_save_time: 60,
        minidump_dir: "dumps".to_string(),
        minidump_sym_dir: "syms".to_string(),
    }
}

fn field(name: Option<&str>, content_type: Option<&str>, file_name: Option<&str>) -> FieldMeta {
    FieldMeta {
        name: name.map(|s| s.to_string()),
        content_type: content_type.map(|s| s.to_string()),
        file_name: file_name.map(|s| s.to_string()),
    }
}

fn artifact(file_name: Option<&str>) -> FieldMeta {
    field(Some("file"), Some("application/octet-stream"), file_name)
}

fn segments(p: &ArtifactPath) -> Vec<String> {
    p.segments.clone()
}

fn strings(v: &[&str]) -> Vec<String> {
    v.iter().map(|s| s.to_string()).collect()
}

#[test]
fn generic_upload_lands_where_download_reads() {
    let opt = options();
    let (mut session, first) = IngestSession::new(&opt, Route::Generic);
    assert!(matches!(first, IngestAction::NextField));
    let stored = match session.step(&opt, IngestEvent::Field(artifact(Some("a.bin")))) {
        IngestAction::Store(p) => p,
        _ => panic!("expected a store"),
    };
    assert_eq!(segments(&stored), segments(&download_path(&opt, "a.bin")));
    assert_eq!(segments(&stored), strings(&["up", "a.bin"]));
    assert!(matches!(session.step(&opt, IngestEvent::Stored), IngestAction::NextField));
    assert!(matches!(session.step(&opt, IngestEvent::End), IngestAction::Respond(Ok(()))));
    assert_eq!(session.phase, IngestPhase::Finished);
}

#[test]
fn missing_filename_is_a_client_error() {
    let opt = options();
    let (mut session, _) = IngestSession::new(&opt, Route::Generic);
    match session.step(&opt, IngestEvent::Field(artifact(None))) {
        IngestAction::Respond(Err(e)) => {
            assert_eq!(e, UploadError::MissingFilename);
            assert!(e.is_client_error());
        }
        _ => panic!("expected a rejection"),
    }
    assert!(matches!(session.step(&opt, IngestEvent::Field(artifact(Some("b")))), IngestAction::Nothing));
    assert!(matches!(session.step(&opt, IngestEvent::End), IngestAction::Nothing));
}

#[test]
fn empty_filename_is_rejected() {
    let opt = options();
    assert!(matches!(plan_field(&opt, &Route::Generic, &artifact(Some(""))), FieldPlan::Reject));
}

#[test]
fn no_matching_field_still_succeeds() {
    let opt = options();
    let (mut session, _) = IngestSession::new(&opt, Route::Generic);
    let others = vec![
        field(Some("file"), Some("text/plain"), Some("a.txt")),
        field(Some("other"), Some("application/octet-stream"), Some("b.bin")),
        field(None, None, None),
        field(Some("file"), None, Some("c.bin")),
    ];
    for f in others {
        assert!(matches!(session.step(&opt, IngestEvent::Field(f)), IngestAction::NextField));
    }
    assert!(matches!(session.step(&opt, IngestEvent::End), IngestAction::Respond(Ok(()))));
}

#[test]
fn symbol_upload_creates_namespace_then_overwrites_same_path() {
    let opt = options();
    let route = || Route::Symbol { module_name: "mod".to_string(), module_id: "id1".to_string() };
    let mut paths = Vec::new();
    for _ in 0..2 {
        let (mut session, first) = IngestSession::new(&opt, route());
        match first {
            IngestAction::EnsureDir(d) => assert_eq!(segments(&d), strings(&["syms", "mod", "id1"])),
            _ => panic!("expected the namespace first"),
        }
        assert!(matches!(session.step(&opt, IngestEvent::Ready), IngestAction::NextField));
        match session.step(&opt, IngestEvent::Field(artifact(Some("lib.sym")))) {
            IngestAction::Store(p) => paths.push(segments(&p)),
            _ => panic!("expected a store"),
        }
    }
    assert_eq!(paths[0], paths[1]);
    assert_eq!(paths[0], strings(&["syms", "mod", "id1", "lib.sym"]));
}

#[test]
fn minidump_upload_plans_symbolication() {
    let opt = options();
    let route = Route::Minidump { vehicle_name: "v1".to_string(), timestamp: "1000".to_string() };
    let (mut session, first) = IngestSession::new(&opt, route);
    match first {
        IngestAction::EnsureDir(d) => assert_eq!(segments(&d), strings(&["dumps", "v1", "1000"])),
        _ => panic!("expected the namespace first"),
    }
    assert!(matches!(session.step(&opt, IngestEvent::Ready), IngestAction::NextField));
    match session.step(&opt, IngestEvent::Field(artifact(Some("crash")))) {
        IngestAction::Symbolicate { staging, report, symbols } => {
            assert_eq!(segments(&staging), strings(&["dumps", "v1", "1000", "crash.dmp"]));
            assert_eq!(
                segments(&report),
                strings(&["dumps", "v1", "1970-01-01 00:00:00.000001000.minidump"])
            );
            assert_eq!(segments(&symbols), strings(&["syms"]));
        }
        _ => panic!("expected symbolication"),
    }
    assert_eq!(session.phase, IngestPhase::Handling);
}

#[test]
fn storage_failure_is_a_server_error() {
    let opt = options();
    let (mut session, _) = IngestSession::new(&opt, Route::Generic);
    assert!(matches!(session.step(&opt, IngestEvent::Field(artifact(Some("a")))), IngestAction::Store(_)));
    match session.step(&opt, IngestEvent::Failed) {
        IngestAction::Respond(Err(e)) => {
            assert_eq!(e, UploadError::Storage);
            assert!(!e.is_client_error());
        }
        _ => panic!("expected a failure"),
    }
}

#[test]
fn directory_failure_fails_before_any_field() {
    let opt = options();
    let route = Route::Minidump { vehicle_name: "v".to_string(), timestamp: "t".to_string() };
    let (mut session, _) = IngestSession::new(&opt, route);
    assert!(matches!(session.step(&opt, IngestEvent::Failed), IngestAction::Respond(Err(UploadError::Storage))));
}

#[test]
fn malformed_body_is_a_client_error() {
    let opt = options();
    let (mut session, _) = IngestSession::new(&opt, Route::Generic);
    match session.step(&opt, IngestEvent::Malformed) {
        IngestAction::Respond(Err(e)) => {
            assert_eq!(e, UploadError::MalformedRequest);
            assert!(e.is_client_error());
        }
        _ => panic!("expected a rejection"),
    }
}

#[test]
fn later_fields_after_a_stored_one_are_processed() {
    let opt = options();
    let (mut session, _) = IngestSession::new(&opt, Route::Generic);
    assert!(matches!(session.step(&opt, IngestEvent::Field(artifact(Some("a")))), IngestAction::Store(_)));
    assert!(matches!(session.step(&opt, IngestEvent::Stored), IngestAction::NextField));
    match session.step(&opt, IngestEvent::Field(artifact(Some("b")))) {
        IngestAction::Store(p) => assert_eq!(segments(&p), strings(&["up", "b"])),
        _ => panic!("expected a store"),
    }
}

#[test]
fn events_out_of_turn_do_nothing() {
    let opt = options();
    let (mut session, _) = IngestSession::new(&opt, Route::Generic);
    assert!(matches!(session.step(&opt, IngestEvent::Stored), IngestAction::Nothing));
    assert!(matches!(session.step(&opt, IngestEvent::Ready), IngestAction::Nothing));
    assert_eq!(session.phase, IngestPhase::AwaitingField);
}
