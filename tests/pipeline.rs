use debuginfo_upload_server::store::ArtifactPath;
use debuginfo_upload_server::symbolicate::{
    PipelineAction, PipelineError, PipelineEvent, PipelineStage, Symbolication,
};

fn start() -> Symbolication {
    let staging = ArtifactPath::root("dumps").join("v1").join("1000").join("crash.dmp");
    let report = ArtifactPath::root("dumps").join("v1").join("1970-01-01 00:00:00.000001000.minidump");
    let symbols = ArtifactPath::root("syms");
    let (p, first) = Symbolication::new(staging, report, symbols);
    match first {
        PipelineAction::WriteStaging(s) => assert_eq!(s.segments.last().unwrap(), "crash.dmp"),
        _ => panic!("expected staging first"),
    }
    p
}

fn run_with_exit(success: bool, stdout: &[u8]) {
    let mut p = start();
    match p.step(PipelineEvent::Succeeded) {
        PipelineAction::RunTool { dump, symbols } => {
            assert_eq!(dump.segments.last().unwrap(), "crash.dmp");
            assert_eq!(symbols.segments, vec!["syms".to_string()]);
        }
        _ => panic!("expected the tool"),
    }
    match p.step(PipelineEvent::ToolExited { success, stdout: stdout.to_vec() }) {
        PipelineAction::WriteReport { path, contents } => {
            assert_eq!(path.segments.last().unwrap(), "1970-01-01 00:00:00.000001000.minidump");
            assert_eq!(contents, stdout.to_vec());
        }
        _ => panic!("expected the report"),
    }
    match p.step(PipelineEvent::Succeeded) {
        PipelineAction::RemoveStaging(s) => assert_eq!(s.segments.last().unwrap(), "crash.dmp"),
        _ => panic!("expected the staging removal"),
    }
    assert!(matches!(p.step(PipelineEvent::Succeeded), PipelineAction::Finish(Ok(()))));
    assert_eq!(p.stage, PipelineStage::Done);
}

#[test]
fn successful_tool_output_becomes_report() {
    run_with_exit(true, b"REPORT");
}

#[test]
fn failed_tool_output_still_becomes_report() {
    run_with_exit(false, b"REPORT");
    run_with_exit(false, b"");
}

#[test]
fn tool_that_cannot_run_still_removes_staging() {
    let mut p = start();
    assert!(matches!(p.step(PipelineEvent::Succeeded), PipelineAction::RunTool { .. }));
    assert!(matches!(p.step(PipelineEvent::Failed), PipelineAction::RemoveStaging(_)));
    assert!(matches!(
        p.step(PipelineEvent::Succeeded),
        PipelineAction::Finish(Err(PipelineError::Tool))
    ));
}

#[test]
fn report_write_failure_still_removes_staging() {
    let mut p = start();
    p.step(PipelineEvent::Succeeded);
    p.step(PipelineEvent::ToolExited { success: true, stdout: b"x".to_vec() });
    assert!(matches!(p.step(PipelineEvent::Failed), PipelineAction::RemoveStaging(_)));
    assert!(matches!(
        p.step(PipelineEvent::Succeeded),
        PipelineAction::Finish(Err(PipelineError::Report))
    ));
}

#[test]
fn staging_write_failure_ends_the_run() {
    let mut p = start();
    assert!(matches!(
        p.step(PipelineEvent::Failed),
        PipelineAction::Finish(Err(PipelineError::Staging))
    ));
    assert!(matches!(p.step(PipelineEvent::Succeeded), PipelineAction::Nothing));
}

#[test]
fn cleanup_failure_is_reported() {
    let mut p = start();
    p.step(PipelineEvent::Succeeded);
    p.step(PipelineEvent::ToolExited { success: true, stdout: Vec::new() });
    p.step(PipelineEvent::Succeeded);
    assert!(matches!(
        p.step(PipelineEvent::Failed),
        PipelineAction::Finish(Err(PipelineError::Cleanup))
    ));
}
