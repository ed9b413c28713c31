//! The Buck2 event messages that the translator reads. Each message holds
//! the fields that the translation looks at; a kind of event that the
//! translation passes over is held as an `Other` variant.
use vstd::prelude::*;
use crate::protobuf::{Duration, Timestamp};

verus! {

/// One event of a Buck2 command.
#[derive(Clone, Debug, PartialEq, Eq)]
pub struct BuckEvent {
    pub timestamp: Option<Timestamp>,
    pub trace_id: String,
    pub span_id: u64,
    pub parent_id: u64,
    pub data: Option<BuckEventData>,
}

/// The kinds of Buck2 events.
#[derive(Clone, Debug, PartialEq, Eq)]
pub enum BuckEventData {
    SpanStart(SpanStartEvent),
    SpanEnd(SpanEndEvent),
    Instant(InstantEvent),
    Record(RecordEvent),
}

/// The opening of a span.
#[derive(Clone, Debug, PartialEq, Eq)]
pub struct SpanStartEvent {
    pub data: Option<SpanStartData>,
}

/// What a span opens: a command, or another kind of work.
#[derive(Clone, Debug, PartialEq, Eq)]
pub enum SpanStartData {
    Command(CommandStart),
    Other,
}

/// The start of a Buck2 command.
#[derive(Clone, Debug, PartialEq, Eq)]
pub struct CommandStart {
    pub cli_args: Vec<String>,
    pub tags: Vec<String>,
    pub data: Option<CommandStartData>,
}

/// Which command was started.
#[derive(Clone, Copy, Debug, PartialEq, Eq)]
pub enum CommandStartData {
    Build,
    Test,
    Targets,
    Query,
    Cquery,
    Aquery,
    Audit,
    Docs,
    Clean,
    Install,
    Materialize,
    Profile,
    Bxl,
    Lsp,
    FileStatus,
    Starlark,
    Subscribe,
    Trace,
    Ctargets,
    StarlarkDebugAttach,
    Explain,
    ExpandExternalCell,
    Complete,
}

/// The closing of a span, with the time that the span took.
#[derive(Clone, Debug, PartialEq, Eq)]
pub struct SpanEndEvent {
    pub duration: Option<Duration>,
    pub data: Option<SpanEndData>,
}

/// What a span closes: a command, or another kind of work.
#[derive(Clone, Debug, PartialEq, Eq)]
pub enum SpanEndData {
    Command(CommandEnd),
    Other,
}

/// The end of a Buck2 command.
#[derive(Clone, Debug, PartialEq, Eq)]
pub struct CommandEnd {
    pub is_success: bool,
}

/// An event without duration.
#[derive(Clone, Debug, PartialEq, Eq)]
pub struct InstantEvent {
    pub data: Option<InstantData>,
}

/// The kinds of instant events.
#[derive(Clone, Debug, PartialEq, Eq)]
pub enum InstantData {
    ConsoleMessage(ConsoleMessage),
    ConsoleWarning(ConsoleWarning),
    Other,
}

/// A message for the console.
#[derive(Clone, Debug, PartialEq, Eq)]
pub struct ConsoleMessage {
    pub message: String,
}

/// A warning for the console.
#[derive(Clone, Debug, PartialEq, Eq)]
pub struct ConsoleWarning {
    pub message: String,
}

/// A record of statistics about a command.
#[derive(Clone, Debug, PartialEq, Eq)]
pub struct RecordEvent {}

} // verus!
