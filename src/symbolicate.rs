//! The symbolication pipeline for one uploaded dump: stage the raw dump, run
//! the analysis tool on it, store the tool's standard output as the report,
//! and remove the staged dump whatever happened after it was written.
//!
//! The caller performs each action (a write, a process run, a removal) and
//! hands back what came of it; [`Symbolication`] decides what comes next.

use vstd::prelude::*;
use crate::store::ArtifactPath;

verus! {

/// Which step of the pipeline failed first.
#[derive(PartialEq, Eq, Structural, Clone, Copy, Debug)]
pub enum PipelineError {
    /// The raw dump could not be staged.
    Staging,
    /// The tool could not be started, or did not finish in time.
    Tool,
    /// The report could not be written.
    Report,
    /// The staged dump could not be removed.
    Cleanup,
}

/// Where a pipeline run stands.
#[derive(PartialEq, Eq, Structural, Clone, Copy, Debug)]
pub enum PipelineStage {
    WritingStaging,
    RunningTool,
    WritingReport,
    RemovingStaging,
    Done,
}

/// What came of the last action.
pub enum PipelineEvent {
    /// The write or removal succeeded.
    Succeeded,
    /// The write or removal failed, or the tool could not be run to its end.
    Failed,
    /// The tool ran to its end: whether its exit status was success, and all
    /// it wrote to standard output.
    ToolExited { success: bool, stdout: Vec<u8> },
}

/// What the caller does next.
pub enum PipelineAction {
    /// Write the uploaded bytes at the staging location.
    WriteStaging(ArtifactPath),
    /// Run the analysis tool with the staged dump and the symbol root as its
    /// two arguments.
    RunTool { dump: ArtifactPath, symbols: ArtifactPath },
    /// Write these bytes as the report.
    WriteReport { path: ArtifactPath, contents: Vec<u8> },
    /// Remove the staged dump.
    RemoveStaging(ArtifactPath),
    /// The run is over, with this outcome.
    Finish(Result<(), PipelineError>),
    /// Nothing: the event does not apply at this stage.
    Nothing,
}

/// A [`PipelineAction`] over segment sequences and byte sequences.
pub ghost enum PipelineActionView {
    WriteStaging(Seq<Seq<char>>),
    RunTool { dump: Seq<Seq<char>>, symbols: Seq<Seq<char>> },
    WriteReport { path: Seq<Seq<char>>, contents: Seq<u8> },
    RemoveStaging(Seq<Seq<char>>),
    Finish(Result<(), PipelineError>),
    Nothing,
}

impl View for PipelineAction {
    type V = PipelineActionView;

    open spec fn view(&self) -> PipelineActionView {
        match self {
            PipelineAction::WriteStaging(p) => PipelineActionView::WriteStaging(p@),
            PipelineAction::RunTool { dump, symbols } => PipelineActionView::RunTool {
                dump: dump@,
                symbols: symbols@,
            },
            PipelineAction::WriteReport { path, contents } => PipelineActionView::WriteReport {
                path: path@,
                contents: contents@,
            },
            PipelineAction::RemoveStaging(p) => PipelineActionView::RemoveStaging(p@),
            PipelineAction::Finish(r) => PipelineActionView::Finish(*r),
            PipelineAction::Nothing => PipelineActionView::Nothing,
        }
    }
}

/// One pipeline run: its three locations, its stage, and the first failure.
pub struct Symbolication {
    pub staging: ArtifactPath,
    pub report: ArtifactPath,
    pub symbols: ArtifactPath,
    pub stage: PipelineStage,
    pub failure: Option<PipelineError>,
}

pub ghost struct SymbolicationView {
    pub staging: Seq<Seq<char>>,
    pub report: Seq<Seq<char>>,
    pub symbols: Seq<Seq<char>>,
    pub stage: PipelineStage,
    pub failure: Option<PipelineError>,
}

impl View for Symbolication {
    type V = SymbolicationView;

    open spec fn view(&self) -> SymbolicationView {
        SymbolicationView {
            staging: self.staging@,
            report: self.report@,
            symbols: self.symbols@,
            stage: self.stage,
            failure: self.failure,
        }
    }
}

/// The outcome once the staged dump's removal is known.
pub open spec fn finish_outcome(failure: Option<PipelineError>, removed: bool) -> Result<
    (),
    PipelineError,
> {
    match failure {
        Some(e) => Err(e),
        None => if removed {
            Ok(())
        } else {
            Err(PipelineError::Cleanup)
        },
    }
}

/// One transition of the pipeline: the next state and action after an event.
pub open spec fn pipeline_step(s: SymbolicationView, e: &PipelineEvent) -> (
    SymbolicationView,
    PipelineActionView,
) {
    match (s.stage, e) {
        (PipelineStage::WritingStaging, PipelineEvent::Succeeded) => (
            SymbolicationView { stage: PipelineStage::RunningTool, ..s },
            PipelineActionView::RunTool { dump: s.staging, symbols: s.symbols },
        ),
        (PipelineStage::WritingStaging, PipelineEvent::Failed) => (
            SymbolicationView {
                stage: PipelineStage::Done,
                failure: Some(PipelineError::Staging),
                ..s
            },
            PipelineActionView::Finish(Err(PipelineError::Staging)),
        ),
        (PipelineStage::RunningTool, PipelineEvent::ToolExited { success, stdout }) => (
            SymbolicationView { stage: PipelineStage::WritingReport, ..s },
            PipelineActionView::WriteReport { path: s.report, contents: stdout@ },
        ),
        (PipelineStage::RunningTool, PipelineEvent::Failed) => (
            SymbolicationView {
                stage: PipelineStage::RemovingStaging,
                failure: Some(PipelineError::Tool),
                ..s
            },
            PipelineActionView::RemoveStaging(s.staging),
        ),
        (PipelineStage::WritingReport, PipelineEvent::Succeeded) => (
            SymbolicationView { stage: PipelineStage::RemovingStaging, ..s },
            PipelineActionView::RemoveStaging(s.staging),
        ),
        (PipelineStage::WritingReport, PipelineEvent::Failed) => (
            SymbolicationView {
                stage: PipelineStage::RemovingStaging,
                failure: Some(PipelineError::Report),
                ..s
            },
            PipelineActionView::RemoveStaging(s.staging),
        ),
        (PipelineStage::RemovingStaging, PipelineEvent::Succeeded) => (
            SymbolicationView { stage: PipelineStage::Done, ..s },
            PipelineActionView::Finish(finish_outcome(s.failure, true)),
        ),
        (PipelineStage::RemovingStaging, PipelineEvent::Failed) => (
            SymbolicationView {
                stage: PipelineStage::Done,
                failure: Some(finish_outcome(s.failure, false)->Err_0),
                ..s
            },
            PipelineActionView::Finish(finish_outcome(s.failure, false)),
        ),
        _ => (s, PipelineActionView::Nothing),
    }
}

impl Symbolication {
    /// Starts a run: the first action stages the raw dump.
    pub fn new(staging: ArtifactPath, report: ArtifactPath, symbols: ArtifactPath) -> (r: (
        Symbolication,
        PipelineAction,
    ))
        ensures
            r.0@ == (SymbolicationView {
                staging: staging@,
                report: report@,
                symbols: symbols@,
                stage: PipelineStage::WritingStaging,
                failure: None,
            }),
            r.1@ == PipelineActionView::WriteStaging(staging@),
    {
        let first = PipelineAction::WriteStaging(staging.clone());
        (
            Symbolication {
                staging,
                report,
                symbols,
                stage: PipelineStage::WritingStaging,
                failure: None,
            },
            first,
        )
    }

    /// Takes what came of the last action and says what to do next.
    pub fn step(&mut self, e: PipelineEvent) -> (r: PipelineAction)
        ensures
            (final(self)@, r@) == pipeline_step(old(self)@, &e),
    {
        match (self.stage, e) {
            (PipelineStage::WritingStaging, PipelineEvent::Succeeded) => {
                self.stage = PipelineStage::RunningTool;
                PipelineAction::RunTool { dump: self.staging.clone(), symbols: self.symbols.clone() }
            },
            (PipelineStage::WritingStaging, PipelineEvent::Failed) => {
                self.stage = PipelineStage::Done;
                self.failure = Some(PipelineError::Staging);
                PipelineAction::Finish(Err(PipelineError::Staging))
            },
            (PipelineStage::RunningTool, PipelineEvent::ToolExited { success, stdout }) => {
                self.stage = PipelineStage::WritingReport;
                PipelineAction::WriteReport { path: self.report.clone(), contents: stdout }
            },
            (PipelineStage::RunningTool, PipelineEvent::Failed) => {
                self.stage = PipelineStage::RemovingStaging;
                self.failure = Some(PipelineError::Tool);
                PipelineAction::RemoveStaging(self.staging.clone())
            },
            (PipelineStage::WritingReport, PipelineEvent::Succeeded) => {
                self.stage = PipelineStage::RemovingStaging;
                PipelineAction::RemoveStaging(self.staging.clone())
            },
            (PipelineStage::WritingReport, PipelineEvent::Failed) => {
                self.stage = PipelineStage::RemovingStaging;
                self.failure = Some(PipelineError::Report);
                PipelineAction::RemoveStaging(self.staging.clone())
            },
            (PipelineStage::RemovingStaging, PipelineEvent::Succeeded) => {
                self.stage = PipelineStage::Done;
                match self.failure {
                    Some(err) => PipelineAction::Finish(Err(err)),
                    None => PipelineAction::Finish(Ok(())),
                }
            },
            (PipelineStage::RemovingStaging, PipelineEvent::Failed) => {
                self.stage = PipelineStage::Done;
                let err = match self.failure {
                    Some(err) => err,
                    None => PipelineError::Cleanup,
                };
                self.failure = Some(err);
                PipelineAction::Finish(Err(err))
            },
            _ => PipelineAction::Nothing,
        }
    }
}

/// The state reached and the actions issued when a run in state `s` sees
/// `events` in order.
pub open spec fn pipeline_run(s: SymbolicationView, events: Seq<PipelineEvent>) -> (
    SymbolicationView,
    Seq<PipelineActionView>,
)
    decreases events.len(),
{
    if events.len() == 0 {
        (s, Seq::empty())
    } else {
        let (next, action) = pipeline_step(s, &events[0]);
        let (last, rest) = pipeline_run(next, events.drop_first());
        (last, seq![action] + rest)
    }
}

/// Whether an event reports the outcome of a write or a removal.
pub open spec fn is_outcome(e: &PipelineEvent) -> bool {
    e is Succeeded || e is Failed
}

/// Once the dump is staged and the tool has run to its end, whatever its exit
/// status: the report written is exactly the tool's standard output, the
/// staged dump is then removed whether or not that write succeeded, and the
/// run succeeds exactly when the write and the removal both did.
pub proof fn lemma_report_is_tool_output_and_staging_removed(
    s: SymbolicationView,
    success: bool,
    stdout: Vec<u8>,
    report_written: PipelineEvent,
    staging_removed: PipelineEvent,
)
    requires
        s.stage == PipelineStage::WritingStaging,
        s.failure is None,
        is_outcome(&report_written),
        is_outcome(&staging_removed),
    ensures
        ({
            let events = seq![
                PipelineEvent::Succeeded,
                PipelineEvent::ToolExited { success, stdout },
                report_written,
                staging_removed,
            ];
            let (last, actions) = pipeline_run(s, events);
            &&& actions == seq![
                PipelineActionView::RunTool { dump: s.staging, symbols: s.symbols },
                PipelineActionView::WriteReport { path: s.report, contents: stdout@ },
                PipelineActionView::RemoveStaging(s.staging),
                PipelineActionView::Finish(
                    if report_written is Succeeded && staging_removed is Succeeded {
                        Ok(())
                    } else if report_written is Failed {
                        Err(PipelineError::Report)
                    } else {
                        Err(PipelineError::Cleanup)
                    },
                ),
            ]
            &&& last.stage == PipelineStage::Done
        }),
{
    let events = seq![
        PipelineEvent::Succeeded,
        PipelineEvent::ToolExited { success, stdout },
        report_written,
        staging_removed,
    ];
    let e1 = events.drop_first();
    let e2 = e1.drop_first();
    let e3 = e2.drop_first();
    assert(e3.drop_first() =~= Seq::<PipelineEvent>::empty());
    assert(e3 =~= seq![staging_removed]);
    assert(e2 =~= seq![report_written, staging_removed]);
    assert(e1 =~= seq![PipelineEvent::ToolExited { success, stdout }, report_written, staging_removed]);
    let (s1, a1) = pipeline_step(s, &events[0]);
    let (s2, a2) = pipeline_step(s1, &e1[0]);
    let (s3, a3) = pipeline_step(s2, &e2[0]);
    let (s4, a4) = pipeline_step(s3, &e3[0]);
    assert(pipeline_run(s4, e3.drop_first()) == (s4, Seq::<PipelineActionView>::empty()));
    assert(pipeline_run(s3, e3) == (s4, seq![a4] + Seq::<PipelineActionView>::empty()));
    assert(pipeline_run(s2, e2).1 =~= seq![a3, a4]);
    assert(pipeline_run(s1, e1).1 =~= seq![a2, a3, a4]);
    assert(pipeline_run(s, events).1 =~= seq![a1, a2, a3, a4]);
}

/// When the tool cannot be run to its end (it fails to start, or runs past
/// its time), the staged dump is still removed and the run fails.
pub proof fn lemma_tool_failure_still_removes_staging(
    s: SymbolicationView,
    staging_removed: PipelineEvent,
)
    requires
        s.stage == PipelineStage::RunningTool,
        s.failure is None,
        is_outcome(&staging_removed),
    ensures
        ({
            let (last, actions) = pipeline_run(
                s,
                seq![PipelineEvent::Failed, staging_removed],
            );
            &&& actions == seq![
                PipelineActionView::RemoveStaging(s.staging),
                PipelineActionView::Finish(Err(PipelineError::Tool)),
            ]
            &&& last.stage == PipelineStage::Done
        }),
{
    let events = seq![PipelineEvent::Failed, staging_removed];
    let e1 = events.drop_first();
    assert(e1 =~= seq![staging_removed]);
    assert(e1.drop_first() =~= Seq::<PipelineEvent>::empty());
    let (s1, a1) = pipeline_step(s, &events[0]);
    let (s2, a2) = pipeline_step(s1, &e1[0]);
    assert(pipeline_run(s2, e1.drop_first()) == (s2, Seq::<PipelineActionView>::empty()));
    assert(pipeline_run(s1, e1).1 =~= seq![a2]);
    assert(pipeline_run(s, events).1 =~= seq![a1, a2]);
}

} // verus!
