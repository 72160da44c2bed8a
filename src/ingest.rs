//! Turning a multipart upload into store writes and symbolication runs.
//!
//! The request is driven by [`IngestSession`]: the caller reads the request
//! and performs the store work, and hands each outcome back as an event; the
//! session decides what comes next.

use vstd::prelude::*;
use crate::store::{
    ArtifactPath, Options, minidump_dir, minidump_dir_key, minidump_filepath, report_key,
    staging_key, staging_path, symbol_dir, symbol_dir_key, upload_key, upload_path,
};

verus! {

/// What a multipart field declares about itself.
pub struct FieldMeta {
    pub name: Option<String>,
    pub content_type: Option<String>,
    pub file_name: Option<String>,
}

/// The upload route a request came in on, with its path segments.
pub enum Route {
    /// A generic build artifact, stored under the upload root.
    Generic,
    /// A symbol file of one module build.
    Symbol { module_name: String, module_id: String },
    /// A raw crash dump of one vehicle at one timestamp.
    Minidump { vehicle_name: String, timestamp: String },
}

/// Why an upload request failed.
#[derive(PartialEq, Eq, Structural, Clone, Copy, Debug)]
pub enum UploadError {
    /// The matching field carries no (or an empty) file name.
    MissingFilename,
    /// The multipart body could not be read.
    MalformedRequest,
    /// Writing, creating a directory or running the analysis tool failed.
    Storage,
}

impl UploadError {
    /// Whether the fault lies with the request rather than the server.
    pub fn is_client_error(&self) -> (r: bool)
        ensures
            r == (*self != UploadError::Storage),
    {
        match self {
            UploadError::Storage => false,
            _ => true,
        }
    }
}

/// What to do with one field.
pub enum FieldPlan {
    /// Not the artifact field: skip it.
    Ignore,
    /// The artifact field without a file name: fail the request.
    Reject,
    /// Write the field's body at `path`.
    Store { path: ArtifactPath },
    /// Run the symbolication pipeline on the field's body.
    Symbolicate { staging: ArtifactPath, report: ArtifactPath, symbols: ArtifactPath },
}

/// A [`FieldPlan`] with its locations as segment sequences.
pub ghost enum FieldPlanView {
    Ignore,
    Reject,
    Store { path: Seq<Seq<char>> },
    Symbolicate { staging: Seq<Seq<char>>, report: Seq<Seq<char>>, symbols: Seq<Seq<char>> },
}

impl View for FieldPlan {
    type V = FieldPlanView;

    open spec fn view(&self) -> FieldPlanView {
        match self {
            FieldPlan::Ignore => FieldPlanView::Ignore,
            FieldPlan::Reject => FieldPlanView::Reject,
            FieldPlan::Store { path } => FieldPlanView::Store { path: path@ },
            FieldPlan::Symbolicate { staging, report, symbols } => FieldPlanView::Symbolicate {
                staging: staging@,
                report: report@,
                symbols: symbols@,
            },
        }
    }
}

/// The field that carries the artifact: named `file`, of content type
/// `application/octet-stream`.
pub open spec fn field_matches(f: &FieldMeta) -> bool {
    &&& f.name is Some && f.name->0@ == "file"@
    &&& f.content_type is Some && f.content_type->0@ == "application/octet-stream"@
}

/// The file name a field carries, when it carries a non-empty one.
pub open spec fn has_file_name(f: &FieldMeta) -> bool {
    f.file_name is Some && f.file_name->0@.len() > 0
}

/// What a field leads to on a route.
pub open spec fn field_plan(opt: &Options, route: &Route, f: &FieldMeta) -> FieldPlanView {
    if !field_matches(f) {
        FieldPlanView::Ignore
    } else if !has_file_name(f) {
        FieldPlanView::Reject
    } else {
        let name = f.file_name->0@;
        match route {
            Route::Generic => FieldPlanView::Store { path: upload_key(opt, name) },
            Route::Symbol { module_name, module_id } => FieldPlanView::Store {
                path: symbol_dir_key(opt, module_name@, module_id@).push(name),
            },
            Route::Minidump { vehicle_name, timestamp } => FieldPlanView::Symbolicate {
                staging: staging_key(opt, vehicle_name@, timestamp@, name),
                report: report_key(opt, vehicle_name@, timestamp@),
                symbols: seq![opt.minidump_sym_dir@],
            },
        }
    }
}

fn is_artifact_field(f: &FieldMeta) -> (r: bool)
    ensures
        r == field_matches(f),
{
    let name_ok = match &f.name {
        Some(n) => *n == "file".to_string(),
        None => false,
    };
    let type_ok = match &f.content_type {
        Some(c) => *c == "application/octet-stream".to_string(),
        None => false,
    };
    name_ok && type_ok
}

/// Decides what a field leads to on a route.
pub fn plan_field(opt: &Options, route: &Route, f: &FieldMeta) -> (r: FieldPlan)
    ensures
        r@ == field_plan(opt, route, f),
{
    if !is_artifact_field(f) {
        return FieldPlan::Ignore;
    }
    let name = match &f.file_name {
        Some(n) => n,
        None => {
            return FieldPlan::Reject;
        },
    };
    if name.as_str().unicode_len() == 0 {
        return FieldPlan::Reject;
    }
    match route {
        Route::Generic => FieldPlan::Store { path: upload_path(opt, name.as_str()) },
        Route::Symbol { module_name, module_id } => FieldPlan::Store {
            path: symbol_dir(opt, module_name.as_str(), module_id.as_str()).join(name.as_str()),
        },
        Route::Minidump { vehicle_name, timestamp } => FieldPlan::Symbolicate {
            staging: staging_path(opt, vehicle_name.as_str(), timestamp.as_str(), name.as_str()),
            report: minidump_filepath(opt, vehicle_name.as_str(), timestamp.as_str()),
            symbols: ArtifactPath::root(opt.minidump_sym_dir.as_str()),
        },
    }
}

/// Where a request stands.
#[derive(PartialEq, Eq, Structural, Clone, Copy, Debug)]
pub enum IngestPhase {
    /// Waiting for the route's namespace directory to be created.
    Preparing,
    /// Waiting for the next field, or the end of the body.
    AwaitingField,
    /// Waiting for the current field's store work to finish.
    Handling,
    /// The response has been decided; nothing more is done.
    Finished,
}

/// What the caller observed since the last action.
pub enum IngestEvent {
    /// The namespace directory exists.
    Ready,
    /// The next field's header was read.
    Field(FieldMeta),
    /// The current field's store work (write, or symbolication) succeeded.
    Stored,
    /// Store work, directory creation or the analysis tool failed.
    Failed,
    /// The multipart body could not be read.
    Malformed,
    /// The body holds no more fields.
    End,
}

/// What the caller does next.
pub enum IngestAction {
    /// Create the directory chain of a namespace.
    EnsureDir(ArtifactPath),
    /// Read the next field's header.
    NextField,
    /// Read the current field's body and write it at the path.
    Store(ArtifactPath),
    /// Read the current field's body and run the symbolication pipeline on it.
    Symbolicate { staging: ArtifactPath, report: ArtifactPath, symbols: ArtifactPath },
    /// Answer the request.
    Respond(Result<(), UploadError>),
    /// Nothing: the event does not apply in this phase.
    Nothing,
}

/// An [`IngestAction`] with its locations as segment sequences.
pub ghost enum IngestActionView {
    EnsureDir(Seq<Seq<char>>),
    NextField,
    Store(Seq<Seq<char>>),
    Symbolicate { staging: Seq<Seq<char>>, report: Seq<Seq<char>>, symbols: Seq<Seq<char>> },
    Respond(Result<(), UploadError>),
    Nothing,
}

impl View for IngestAction {
    type V = IngestActionView;

    open spec fn view(&self) -> IngestActionView {
        match self {
            IngestAction::EnsureDir(p) => IngestActionView::EnsureDir(p@),
            IngestAction::NextField => IngestActionView::NextField,
            IngestAction::Store(p) => IngestActionView::Store(p@),
            IngestAction::Symbolicate { staging, report, symbols } => IngestActionView::Symbolicate {
                staging: staging@,
                report: report@,
                symbols: symbols@,
            },
            IngestAction::Respond(r) => IngestActionView::Respond(*r),
            IngestAction::Nothing => IngestActionView::Nothing,
        }
    }
}

/// Whether an action writes an artifact.
pub open spec fn writes_artifact(a: IngestActionView) -> bool {
    a is Store || a is Symbolicate
}

/// The namespace a route writes into, when it has one of its own.
pub open spec fn route_dir(opt: &Options, route: &Route) -> Option<Seq<Seq<char>>> {
    match route {
        Route::Generic => None,
        Route::Symbol { module_name, module_id } => Some(
            symbol_dir_key(opt, module_name@, module_id@),
        ),
        Route::Minidump { vehicle_name, timestamp } => Some(
            minidump_dir_key(opt, vehicle_name@, timestamp@),
        ),
    }
}

/// The first phase and action of a request on a route.
pub open spec fn ingest_start(opt: &Options, route: &Route) -> (IngestPhase, IngestActionView) {
    match route_dir(opt, route) {
        Some(dir) => (IngestPhase::Preparing, IngestActionView::EnsureDir(dir)),
        None => (IngestPhase::AwaitingField, IngestActionView::NextField),
    }
}

/// One transition of a request: the next phase and action after an event.
pub open spec fn ingest_step(opt: &Options, route: &Route, phase: IngestPhase, e: &IngestEvent) -> (
    IngestPhase,
    IngestActionView,
) {
    match (phase, e) {
        (IngestPhase::Finished, _) => (IngestPhase::Finished, IngestActionView::Nothing),
        (_, IngestEvent::Failed) => (
            IngestPhase::Finished,
            IngestActionView::Respond(Err(UploadError::Storage)),
        ),
        (IngestPhase::Preparing, IngestEvent::Ready) => (
            IngestPhase::AwaitingField,
            IngestActionView::NextField,
        ),
        (IngestPhase::AwaitingField, IngestEvent::Field(f)) => match field_plan(opt, route, f) {
            FieldPlanView::Ignore => (IngestPhase::AwaitingField, IngestActionView::NextField),
            FieldPlanView::Reject => (
                IngestPhase::Finished,
                IngestActionView::Respond(Err(UploadError::MissingFilename)),
            ),
            FieldPlanView::Store { path } => (IngestPhase::Handling, IngestActionView::Store(path)),
            FieldPlanView::Symbolicate { staging, report, symbols } => (
                IngestPhase::Handling,
                IngestActionView::Symbolicate { staging, report, symbols },
            ),
        },
        (IngestPhase::AwaitingField, IngestEvent::Malformed) => (
            IngestPhase::Finished,
            IngestActionView::Respond(Err(UploadError::MalformedRequest)),
        ),
        (IngestPhase::AwaitingField, IngestEvent::End) => (
            IngestPhase::Finished,
            IngestActionView::Respond(Ok(())),
        ),
        (IngestPhase::Handling, IngestEvent::Stored) => (
            IngestPhase::AwaitingField,
            IngestActionView::NextField,
        ),
        _ => (phase, IngestActionView::Nothing),
    }
}

/// One upload request in progress.
pub struct IngestSession {
    pub route: Route,
    pub phase: IngestPhase,
}

impl IngestSession {
    /// Opens a request on a route, with the first thing to do.
    pub fn new(opt: &Options, route: Route) -> (r: (IngestSession, IngestAction))
        ensures
            r.0.route == route,
            (r.0.phase, r.1@) == ingest_start(opt, &route),
    {
        let action = match &route {
            Route::Generic => IngestAction::NextField,
            Route::Symbol { module_name, module_id } => IngestAction::EnsureDir(
                symbol_dir(opt, module_name.as_str(), module_id.as_str()),
            ),
            Route::Minidump { vehicle_name, timestamp } => IngestAction::EnsureDir(
                minidump_dir(opt, vehicle_name.as_str(), timestamp.as_str()),
            ),
        };
        let phase = match &route {
            Route::Generic => IngestPhase::AwaitingField,
            _ => IngestPhase::Preparing,
        };
        (IngestSession { route, phase }, action)
    }

    /// Takes what the caller observed and says what to do next.
    pub fn step(&mut self, opt: &Options, e: IngestEvent) -> (r: IngestAction)
        ensures
            final(self).route == old(self).route,
            (final(self).phase, r@) == ingest_step(opt, &old(self).route, old(self).phase, &e),
    {
        match (self.phase, e) {
            (IngestPhase::Finished, _) => IngestAction::Nothing,
            (_, IngestEvent::Failed) => {
                self.phase = IngestPhase::Finished;
                IngestAction::Respond(Err(UploadError::Storage))
            },
            (IngestPhase::Preparing, IngestEvent::Ready) => {
                self.phase = IngestPhase::AwaitingField;
                IngestAction::NextField
            },
            (IngestPhase::AwaitingField, IngestEvent::Field(f)) => match plan_field(
                opt,
                &self.route,
                &f,
            ) {
                FieldPlan::Ignore => IngestAction::NextField,
                FieldPlan::Reject => {
                    self.phase = IngestPhase::Finished;
                    IngestAction::Respond(Err(UploadError::MissingFilename))
                },
                FieldPlan::Store { path } => {
                    self.phase = IngestPhase::Handling;
                    IngestAction::Store(path)
                },
                FieldPlan::Symbolicate { staging, report, symbols } => {
                    self.phase = IngestPhase::Handling;
                    IngestAction::Symbolicate { staging, report, symbols }
                },
            },
            (IngestPhase::AwaitingField, IngestEvent::Malformed) => {
                self.phase = IngestPhase::Finished;
                IngestAction::Respond(Err(UploadError::MalformedRequest))
            },
            (IngestPhase::AwaitingField, IngestEvent::End) => {
                self.phase = IngestPhase::Finished;
                IngestAction::Respond(Ok(()))
            },
            (IngestPhase::Handling, IngestEvent::Stored) => {
                self.phase = IngestPhase::AwaitingField;
                IngestAction::NextField
            },
            _ => IngestAction::Nothing,
        }
    }
}

/// The phase reached and the actions issued when a request in `phase` sees
/// `events` in order.
pub open spec fn ingest_run(
    opt: &Options,
    route: &Route,
    phase: IngestPhase,
    events: Seq<IngestEvent>,
) -> (IngestPhase, Seq<IngestActionView>)
    decreases events.len(),
{
    if events.len() == 0 {
        (phase, Seq::empty())
    } else {
        let (next, action) = ingest_step(opt, route, phase, &events[0]);
        let (last, rest) = ingest_run(opt, route, next, events.drop_first());
        (last, seq![action] + rest)
    }
}

/// The events of a body made of the given fields and then its end.
pub open spec fn body_events(fields: Seq<FieldMeta>) -> Seq<IngestEvent> {
    fields.map_values(|f: FieldMeta| IngestEvent::Field(f)).push(IngestEvent::End)
}

/// Once a request is answered, no event makes it do anything more.
pub proof fn lemma_finished_is_final(opt: &Options, route: &Route, events: Seq<IngestEvent>)
    ensures
        ingest_run(opt, route, IngestPhase::Finished, events) == (
            IngestPhase::Finished,
            Seq::new(events.len(), |i: int| IngestActionView::Nothing),
        ),
    decreases events.len(),
{
    if events.len() > 0 {
        lemma_finished_is_final(opt, route, events.drop_first());
        assert(seq![IngestActionView::Nothing] + Seq::new(
            (events.len() - 1) as nat,
            |i: int| IngestActionView::Nothing,
        ) =~= Seq::new(events.len(), |i: int| IngestActionView::Nothing));
    }
}

/// A body none of whose fields is the artifact field (wrong name or content
/// type) is answered with success, and nothing is written.
pub proof fn lemma_no_matching_field_succeeds(opt: &Options, route: &Route, fields: Seq<FieldMeta>)
    requires
        forall|i: int| 0 <= i < fields.len() ==> !field_matches(#[trigger] &fields[i]),
    ensures
        ({
            let (phase, actions) = ingest_run(
                opt,
                route,
                IngestPhase::AwaitingField,
                body_events(fields),
            );
            &&& phase == IngestPhase::Finished
            &&& actions.len() == fields.len() + 1
            &&& actions.last() == IngestActionView::Respond(Ok(()))
            &&& forall|i: int| 0 <= i < actions.len() ==> !writes_artifact(#[trigger] actions[i])
        }),
    decreases fields.len(),
{
    let events = body_events(fields);
    if fields.len() == 0 {
        assert(events =~= seq![IngestEvent::End]);
        assert(events.drop_first() =~= Seq::<IngestEvent>::empty());
        assert(ingest_run(opt, route, IngestPhase::Finished, events.drop_first()) == (
            IngestPhase::Finished,
            Seq::<IngestActionView>::empty(),
        ));
        assert(ingest_step(opt, route, IngestPhase::AwaitingField, &events[0]) == (
            IngestPhase::Finished,
            IngestActionView::Respond(Ok(())),
        ));
    } else {
        let tail = fields.drop_first();
        assert forall|i: int| 0 <= i < tail.len() implies !field_matches(#[trigger] &tail[i]) by {
            assert(tail[i] == fields[i + 1]);
        }
        lemma_no_matching_field_succeeds(opt, route, tail);
        assert(events.drop_first() =~= body_events(tail));
        assert(events[0] == IngestEvent::Field(fields[0]));
        assert(!field_matches(&fields[0]));
        let (p, rest) = ingest_run(opt, route, IngestPhase::AwaitingField, body_events(tail));
        let actions = seq![IngestActionView::NextField] + rest;
        assert(ingest_run(opt, route, IngestPhase::AwaitingField, events) == (p, actions));
        assert forall|i: int| 0 <= i < actions.len() implies !writes_artifact(
            #[trigger] actions[i],
        ) by {
            if i > 0 {
                assert(actions[i] == rest[i - 1]);
            }
        }
    }
}

/// The artifact field without a file name fails the request with a client
/// error before anything of it is written, and nothing after it is done.
pub proof fn lemma_missing_filename_rejected(
    opt: &Options,
    route: &Route,
    f: FieldMeta,
    rest: Seq<IngestEvent>,
)
    requires
        field_matches(&f),
        !has_file_name(&f),
    ensures
        ({
            let (phase, actions) = ingest_run(
                opt,
                route,
                IngestPhase::AwaitingField,
                seq![IngestEvent::Field(f)] + rest,
            );
            &&& phase == IngestPhase::Finished
            &&& actions[0] == IngestActionView::Respond(Err(UploadError::MissingFilename))
            &&& UploadError::MissingFilename != UploadError::Storage
            &&& forall|i: int| 0 <= i < actions.len() ==> !writes_artifact(#[trigger] actions[i])
        }),
{
    let events = seq![IngestEvent::Field(f)] + rest;
    assert(events.drop_first() =~= rest);
    lemma_finished_is_final(opt, route, rest);
    let actions = ingest_run(opt, route, IngestPhase::AwaitingField, events).1;
    assert forall|i: int| 0 <= i < actions.len() implies !writes_artifact(#[trigger] actions[i]) by {
        if i > 0 {
            assert(actions[i] == IngestActionView::Nothing);
        }
    }
}

/// A generic upload of `name` is written exactly where a download of `name`
/// reads, so the download returns the uploaded bytes.
pub proof fn lemma_upload_lands_where_download_reads(opt: &Options, f: &FieldMeta)
    requires
        field_matches(f),
        has_file_name(f),
    ensures
        field_plan(opt, &Route::Generic, f) == (FieldPlanView::Store {
            path: seq![opt.output@, f.file_name->0@],
        }),
{
}

/// Two symbol uploads of the same file name on the same route go to the same
/// location, whatever their bodies: the later one replaces the earlier.
pub proof fn lemma_symbol_upload_overwrites(
    opt: &Options,
    module_name: String,
    module_id: String,
    first: &FieldMeta,
    second: &FieldMeta,
)
    requires
        field_matches(first),
        field_matches(second),
        has_file_name(first),
        has_file_name(second),
        first.file_name->0@ == second.file_name->0@,
    ensures
        ({
            let route = Route::Symbol { module_name, module_id };
            &&& field_plan(opt, &route, first) is Store
            &&& field_plan(opt, &route, first) == field_plan(opt, &route, second)
        }),
{
}

} // verus!
