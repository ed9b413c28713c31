//! The messages of the Build Event Service protocol
//! (`google.devtools.build.v1`) that a publisher sends.
use vstd::prelude::*;
use crate::protobuf::{Any, Timestamp};

verus! {

/// The component of the build that emits a stream.
#[derive(Clone, Copy, Debug, PartialEq, Eq)]
pub enum BuildComponent {
    UnknownComponent,
    Controller,
    Worker,
    Tool,
}

/// How urgently the service should handle a lifecycle event.
#[derive(Clone, Copy, Debug, PartialEq, Eq)]
pub enum ServiceLevel {
    Interactive,
    Batch,
}

/// The outcome of a build or of an invocation attempt.
#[derive(Clone, Copy, Debug, PartialEq, Eq)]
pub enum BuildResult {
    UnknownStatus,
    CommandSucceeded,
    CommandFailed,
    UserError,
    SystemError,
    ResourceExhausted,
    InvocationDeadlineExceeded,
    RequestDeadlineExceeded,
    Cancelled,
}

/// Why a component stream ended.
#[derive(Clone, Copy, Debug, PartialEq, Eq)]
pub enum FinishType {
    FinishTypeUnspecified,
    Finished,
    Expired,
}

/// The identity of one stream of events of one build.
#[derive(Clone, Debug, PartialEq, Eq)]
pub struct StreamId {
    pub build_id: String,
    pub invocation_id: String,
    pub component: BuildComponent,
}

/// The status of a build or of an invocation attempt.
#[derive(Clone, Debug, PartialEq, Eq)]
pub struct BuildStatus {
    pub result: BuildResult,
    pub final_invocation_id: String,
    pub error_message: String,
}

/// The kinds of events of the Build Event Service protocol.
#[derive(Clone, Debug, PartialEq, Eq)]
pub enum Event {
    InvocationAttemptStarted { attempt_number: i64 },
    InvocationAttemptFinished { invocation_status: Option<BuildStatus> },
    BuildEnqueued,
    BuildFinished { status: Option<BuildStatus> },
    ComponentStreamFinished { finish_type: FinishType },
    BazelEvent(Any),
}

/// An event of the Build Event Service protocol, with the time it happened.
#[derive(Clone, Debug, PartialEq, Eq)]
pub struct BuildEvent {
    pub event_time: Option<Timestamp>,
    pub event: Option<Event>,
}

/// An event placed in a stream at a sequence number.
#[derive(Clone, Debug, PartialEq, Eq)]
pub struct OrderedBuildEvent {
    pub stream_id: Option<StreamId>,
    pub sequence_number: i64,
    pub event: Option<BuildEvent>,
}

/// A request that publishes one lifecycle event.
#[derive(Clone, Debug, PartialEq, Eq)]
pub struct PublishLifecycleEventRequest {
    pub service_level: ServiceLevel,
    pub build_event: Option<OrderedBuildEvent>,
    pub notification_keywords: Vec<String>,
    pub project_id: String,
    pub check_preceding_lifecycle_events_present: bool,
}

/// A request that publishes one event of the build tool's stream.
#[derive(Clone, Debug, PartialEq, Eq)]
pub struct PublishBuildToolEventStreamRequest {
    pub ordered_build_event: Option<OrderedBuildEvent>,
    pub notification_keywords: Vec<String>,
    pub project_id: String,
    pub check_preceding_lifecycle_events_present: bool,
}

} // verus!
