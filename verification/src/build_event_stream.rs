//! The Bazel Build Event Stream messages that the translator produces, and
//! their mathematical views (strings as `Seq<char>`).
use vstd::prelude::*;
use crate::protobuf::Timestamp;

verus! {

/// Identifier of a progress event; consecutive progress events count up.
#[derive(Clone, Copy, Debug, PartialEq, Eq)]
pub struct ProgressId {
    pub opaque_count: i32,
}

/// The kinds of build event identifiers that the translator uses.
#[derive(Clone, Copy, Debug, PartialEq, Eq)]
pub enum BuildEventIdKind {
    Progress(ProgressId),
    Started,
    BuildFinished,
}

/// Identifier of a build event; children name the events that will follow.
#[derive(Clone, Copy, Debug, PartialEq, Eq)]
pub struct BuildEventId {
    pub id: Option<BuildEventIdKind>,
}

/// Console output of the build tool.
#[derive(Clone, Debug, PartialEq, Eq)]
pub struct Progress {
    pub stdout: String,
    pub stderr: String,
}

/// The first event of a build.
#[derive(Clone, Debug, PartialEq, Eq)]
pub struct BuildStarted {
    pub uuid: String,
    pub start_time_millis: i64,
    pub start_time: Option<Timestamp>,
    pub build_tool_version: String,
    pub options_description: String,
    pub command: String,
    pub working_directory: String,
    pub workspace_directory: String,
    pub server_pid: i64,
    pub host: String,
    pub user: String,
}

/// The exit code of a finished build: a name and a number.
#[derive(Clone, Debug, PartialEq, Eq)]
pub struct ExitCode {
    pub name: String,
    pub code: i32,
}

/// The last event of a build.
#[derive(Clone, Debug, PartialEq, Eq)]
pub struct BuildFinished {
    pub overall_success: bool,
    pub exit_code: Option<ExitCode>,
    pub finish_time_millis: i64,
    pub finish_time: Option<Timestamp>,
}

/// What a build event reports.
#[derive(Clone, Debug, PartialEq, Eq)]
pub enum Payload {
    Progress(Progress),
    Started(BuildStarted),
    Finished(BuildFinished),
}

/// One event of the Build Event Stream.
#[derive(Clone, Debug, PartialEq, Eq)]
pub struct BuildEvent {
    pub id: Option<BuildEventId>,
    pub children: Vec<BuildEventId>,
    pub last_message: bool,
    pub payload: Option<Payload>,
}

/// View of [`Progress`].
pub struct ProgressView {
    pub stdout: Seq<char>,
    pub stderr: Seq<char>,
}

/// View of [`BuildStarted`].
pub struct BuildStartedView {
    pub uuid: Seq<char>,
    pub start_time_millis: i64,
    pub start_time: Option<Timestamp>,
    pub build_tool_version: Seq<char>,
    pub options_description: Seq<char>,
    pub command: Seq<char>,
    pub working_directory: Seq<char>,
    pub workspace_directory: Seq<char>,
    pub server_pid: i64,
    pub host: Seq<char>,
    pub user: Seq<char>,
}

/// View of [`ExitCode`].
pub struct ExitCodeView {
    pub name: Seq<char>,
    pub code: i32,
}

/// View of [`BuildFinished`].
pub struct BuildFinishedView {
    pub overall_success: bool,
    pub exit_code: Option<ExitCodeView>,
    pub finish_time_millis: i64,
    pub finish_time: Option<Timestamp>,
}

/// View of [`Payload`].
pub enum PayloadView {
    Progress(ProgressView),
    Started(BuildStartedView),
    Finished(BuildFinishedView),
}

/// View of [`BuildEvent`].
pub struct BuildEventView {
    pub id: Option<BuildEventId>,
    pub children: Seq<BuildEventId>,
    pub last_message: bool,
    pub payload: Option<PayloadView>,
}

impl View for Progress {
    type V = ProgressView;

    open spec fn view(&self) -> ProgressView {
        ProgressView { stdout: self.stdout@, stderr: self.stderr@ }
    }
}

impl View for BuildStarted {
    type V = BuildStartedView;

    open spec fn view(&self) -> BuildStartedView {
        BuildStartedView {
            uuid: self.uuid@,
            start_time_millis: self.start_time_millis,
            start_time: self.start_time,
            build_tool_version: self.build_tool_version@,
            options_description: self.options_description@,
            command: self.command@,
            working_directory: self.working_directory@,
            workspace_directory: self.workspace_directory@,
            server_pid: self.server_pid,
            host: self.host@,
            user: self.user@,
        }
    }
}

impl View for ExitCode {
    type V = ExitCodeView;

    open spec fn view(&self) -> ExitCodeView {
        ExitCodeView { name: self.name@, code: self.code }
    }
}

impl View for BuildFinished {
    type V = BuildFinishedView;

    open spec fn view(&self) -> BuildFinishedView {
        BuildFinishedView {
            overall_success: self.overall_success,
            exit_code: match self.exit_code {
                Some(c) => Some(c@),
                None => None,
            },
            finish_time_millis: self.finish_time_millis,
            finish_time: self.finish_time,
        }
    }
}

impl View for Payload {
    type V = PayloadView;

    open spec fn view(&self) -> PayloadView {
        match self {
            Payload::Progress(p) => PayloadView::Progress(p@),
            Payload::Started(s) => PayloadView::Started(s@),
            Payload::Finished(f) => PayloadView::Finished(f@),
        }
    }
}

impl View for BuildEvent {
    type V = BuildEventView;

    open spec fn view(&self) -> BuildEventView {
        BuildEventView {
            id: self.id,
            children: self.children@,
            last_message: self.last_message,
            payload: match self.payload {
                Some(p) => Some(p@),
                None => None,
            },
        }
    }
}

/// The views of a sequence of build events, in order.
pub open spec fn event_views(events: Seq<BuildEvent>) -> Seq<BuildEventView> {
    events.map_values(|e: BuildEvent| e@)
}

/// The views of a sequence of build events have its length, and each is the
/// view of the event at the same place.
pub proof fn lemma_event_views(events: Seq<BuildEvent>)
    ensures
        event_views(events).len() == events.len(),
        forall|i: int| 0 <= i < events.len() ==> #[trigger] event_views(events)[i] == events[i]@,
{
}

/// The identifier of the progress event numbered `count`.
pub open spec fn progress_id(count: int) -> BuildEventId {
    BuildEventId { id: Some(BuildEventIdKind::Progress(ProgressId { opaque_count: count as i32 })) }
}

/// Build the identifier of the progress event numbered `count`.
pub fn make_progress_id(count: i32) -> (r: BuildEventId)
    ensures
        r == progress_id(count as int),
{
    BuildEventId { id: Some(BuildEventIdKind::Progress(ProgressId { opaque_count: count })) }
}

} // verus!
