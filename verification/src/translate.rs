//! Translation of a stream of Buck2 `BuckEvent`s into Bazel Build Event
//! Stream `BuildEvent`s.
use vstd::prelude::*;
use crate::buck_data::{
    BuckEvent, BuckEventData, CommandEnd, CommandStart, CommandStartData, ConsoleMessage,
    ConsoleWarning, InstantData, InstantEvent, SpanEndData, SpanEndEvent, SpanStartData,
    SpanStartEvent,
};
use crate::build_event_stream::{
    event_views, make_progress_id, progress_id, BuildEvent, BuildEventId, BuildEventIdKind, ProgressId,
    BuildEventView, BuildFinished, BuildFinishedView, BuildStarted, BuildStartedView, ExitCode,
    ExitCodeView, Payload, PayloadView, Progress, ProgressView,
};
use crate::protobuf::{add_duration, add_duration_fits, add_duration_spec, Duration, Timestamp};

verus! {

/// Translates a stream of Buck2 `BuckEvent`s into Bazel Build Event Stream `BuildEvent`s.
///
/// Maintains state across events to:
/// - Track the build start timestamp (needed to compute `finish_time`)
/// - Assign sequential progress event IDs for proper BES event chaining
/// - Store the trace ID used as the BES build UUID
pub struct BuckEventTranslator {
    progress_count: i32,
    start_timestamp: Option<Timestamp>,
    trace_id: Option<String>,
}

/// The state of a translator: the number of progress events so far, and the
/// start time and trace id of the last command start.
pub struct TranslatorState {
    pub progress_count: int,
    pub start_timestamp: Option<Timestamp>,
    pub trace_id: Option<Seq<char>>,
}

impl View for BuckEventTranslator {
    type V = TranslatorState;

    closed spec fn view(&self) -> TranslatorState {
        TranslatorState {
            progress_count: self.progress_count as int,
            start_timestamp: self.start_timestamp,
            trace_id: match self.trace_id {
                Some(t) => Some(t@),
                None => None,
            },
        }
    }
}

/// The state of a fresh translator.
pub open spec fn initial_state() -> TranslatorState {
    TranslatorState { progress_count: 0, start_timestamp: None, trace_id: None }
}

/// The name of a command, by the kind of command that was started.
pub open spec fn command_name_spec(data: Option<CommandStartData>) -> Seq<char> {
    match data {
        Some(CommandStartData::Build) => "build"@,
        Some(CommandStartData::Test) => "test"@,
        Some(CommandStartData::Targets) => "targets"@,
        Some(CommandStartData::Query) => "query"@,
        Some(CommandStartData::Cquery) => "cquery"@,
        Some(CommandStartData::Aquery) => "aquery"@,
        Some(CommandStartData::Audit) => "audit"@,
        Some(CommandStartData::Docs) => "docs"@,
        Some(CommandStartData::Clean) => "clean"@,
        Some(CommandStartData::Install) => "install"@,
        Some(CommandStartData::Materialize) => "materialize"@,
        Some(CommandStartData::Profile) => "profile"@,
        Some(CommandStartData::Bxl) => "bxl"@,
        Some(CommandStartData::Lsp) => "lsp"@,
        Some(CommandStartData::FileStatus) => "file_status"@,
        Some(CommandStartData::Starlark) => "starlark"@,
        Some(CommandStartData::Subscribe) => "subscribe"@,
        Some(CommandStartData::Trace) => "trace"@,
        Some(CommandStartData::Ctargets) => "ctargets"@,
        Some(CommandStartData::StarlarkDebugAttach) => "starlark_debug_attach"@,
        Some(CommandStartData::Explain) => "explain"@,
        Some(CommandStartData::ExpandExternalCell) => "expand_external_cell"@,
        Some(CommandStartData::Complete) => "complete"@,
        None => "unknown"@,
    }
}

/// The length and the first two characters of the name of a command kind;
/// no two kinds share them.
spec fn command_name_key(data: Option<CommandStartData>) -> (nat, char, char) {
    match data {
        Some(CommandStartData::Build) => (5, 'b', 'u'),
        Some(CommandStartData::Test) => (4, 't', 'e'),
        Some(CommandStartData::Targets) => (7, 't', 'a'),
        Some(CommandStartData::Query) => (5, 'q', 'u'),
        Some(CommandStartData::Cquery) => (6, 'c', 'q'),
        Some(CommandStartData::Aquery) => (6, 'a', 'q'),
        Some(CommandStartData::Audit) => (5, 'a', 'u'),
        Some(CommandStartData::Docs) => (4, 'd', 'o'),
        Some(CommandStartData::Clean) => (5, 'c', 'l'),
        Some(CommandStartData::Install) => (7, 'i', 'n'),
        Some(CommandStartData::Materialize) => (11, 'm', 'a'),
        Some(CommandStartData::Profile) => (7, 'p', 'r'),
        Some(CommandStartData::Bxl) => (3, 'b', 'x'),
        Some(CommandStartData::Lsp) => (3, 'l', 's'),
        Some(CommandStartData::FileStatus) => (11, 'f', 'i'),
        Some(CommandStartData::Starlark) => (8, 's', 't'),
        Some(CommandStartData::Subscribe) => (9, 's', 'u'),
        Some(CommandStartData::Trace) => (5, 't', 'r'),
        Some(CommandStartData::Ctargets) => (8, 'c', 't'),
        Some(CommandStartData::StarlarkDebugAttach) => (21, 's', 't'),
        Some(CommandStartData::Explain) => (7, 'e', 'x'),
        Some(CommandStartData::ExpandExternalCell) => (20, 'e', 'x'),
        Some(CommandStartData::Complete) => (8, 'c', 'o'),
        None => (7, 'u', 'n'),
    }
}

proof fn lemma_command_name_key(data: Option<CommandStartData>)
    ensures
        command_name_spec(data).len() == command_name_key(data).0,
        command_name_spec(data)[0] == command_name_key(data).1,
        command_name_spec(data)[1] == command_name_key(data).2,
{
    reveal_strlit("build");
    reveal_strlit("test");
    reveal_strlit("targets");
    reveal_strlit("query");
    reveal_strlit("cquery");
    reveal_strlit("aquery");
    reveal_strlit("audit");
    reveal_strlit("docs");
    reveal_strlit("clean");
    reveal_strlit("install");
    reveal_strlit("materialize");
    reveal_strlit("profile");
    reveal_strlit("bxl");
    reveal_strlit("lsp");
    reveal_strlit("file_status");
    reveal_strlit("starlark");
    reveal_strlit("subscribe");
    reveal_strlit("trace");
    reveal_strlit("ctargets");
    reveal_strlit("starlark_debug_attach");
    reveal_strlit("explain");
    reveal_strlit("expand_external_cell");
    reveal_strlit("complete");
    reveal_strlit("unknown");
}

/// Distinct command kinds get distinct names, and a start without a command
/// kind gets a name of its own ("unknown").
pub proof fn lemma_command_names_distinct(a: Option<CommandStartData>, b: Option<CommandStartData>)
    ensures
        (command_name_spec(a) == command_name_spec(b)) <==> a == b,
        (command_name_spec(a) == "unknown"@) <==> a is None,
{
    lemma_command_name_key(a);
    lemma_command_name_key(b);
    lemma_command_name_key(None);
    assert(command_name_spec(None) == "unknown"@);
    if command_name_spec(a) == command_name_spec(b) {
        assert(command_name_key(a) == command_name_key(b));
    }
}

/// The `BuildStarted` event of a command start: it announces the first
/// progress event and the `BuildFinished` event as its children.
pub open spec fn started_event(
    trace_id: Seq<char>,
    start_time: Option<Timestamp>,
    command: Seq<char>,
) -> BuildEventView {
    BuildEventView {
        id: Some(BuildEventId { id: Some(BuildEventIdKind::Started) }),
        children: seq![progress_id(1), BuildEventId { id: Some(BuildEventIdKind::BuildFinished) }],
        last_message: false,
        payload: Some(
            PayloadView::Started(
                BuildStartedView {
                    uuid: trace_id,
                    start_time_millis: 0,
                    start_time,
                    build_tool_version: Seq::empty(),
                    options_description: Seq::empty(),
                    command,
                    working_directory: Seq::empty(),
                    workspace_directory: Seq::empty(),
                    server_pid: 0,
                    host: Seq::empty(),
                    user: Seq::empty(),
                },
            ),
        ),
    }
}

/// The exit code of a command: `0 SUCCESS` or `1 BUILD_FAILURE`.
pub open spec fn exit_code_spec(success: bool) -> ExitCodeView {
    if success {
        ExitCodeView { name: "SUCCESS"@, code: 0 }
    } else {
        ExitCodeView { name: "BUILD_FAILURE"@, code: 1 }
    }
}

/// The finish time of a command: its start time plus the span's duration
/// where both are known, else the timestamp of the closing event.
pub open spec fn finish_time_spec(
    start: Option<Timestamp>,
    duration: Option<Duration>,
    event_time: Option<Timestamp>,
) -> Option<Timestamp> {
    match (start, duration) {
        (Some(s), Some(d)) => Some(add_duration_spec(s, d)),
        _ => event_time,
    }
}

/// The `BuildFinished` event of a command end; it is the last message.
pub open spec fn finished_event(success: bool, finish_time: Option<Timestamp>) -> BuildEventView {
    BuildEventView {
        id: Some(BuildEventId { id: Some(BuildEventIdKind::BuildFinished) }),
        children: Seq::empty(),
        last_message: true,
        payload: Some(
            PayloadView::Finished(
                BuildFinishedView {
                    overall_success: success,
                    exit_code: Some(exit_code_spec(success)),
                    finish_time_millis: 0,
                    finish_time,
                },
            ),
        ),
    }
}

/// The progress event numbered `count`; its child is the progress event
/// numbered `count + 1`.
pub open spec fn progress_event(count: int, stdout: Seq<char>, stderr: Seq<char>) -> BuildEventView {
    BuildEventView {
        id: Some(progress_id(count)),
        children: seq![progress_id(count + 1)],
        last_message: false,
        payload: Some(PayloadView::Progress(ProgressView { stdout, stderr })),
    }
}

/// One progress step: the count goes up by one, and the new progress event
/// carries the message on its stderr.
pub open spec fn progress_step(s: TranslatorState, message: Seq<char>) -> (
    TranslatorState,
    Seq<BuildEventView>,
) {
    let count: int = s.progress_count + 1;
    (
        TranslatorState {
            progress_count: count,
            start_timestamp: s.start_timestamp,
            trace_id: s.trace_id,
        },
        seq![progress_event(count, Seq::empty(), message)],
    )
}

/// The effect of a span start that comes with the event `e`: a command
/// start records the event's timestamp and trace id and produces the
/// `BuildStarted` event; any other span start changes nothing.
pub open spec fn span_start_spec(s: TranslatorState, e: BuckEvent, span_start: SpanStartEvent) -> (
    TranslatorState,
    Seq<BuildEventView>,
) {
    match span_start.data {
        Some(SpanStartData::Command(cmd)) => (
            TranslatorState {
                progress_count: s.progress_count,
                start_timestamp: e.timestamp,
                trace_id: Some(e.trace_id@),
            },
            seq![started_event(e.trace_id@, e.timestamp, command_name_spec(cmd.data))],
        ),
        _ => (s, Seq::empty()),
    }
}

/// The effect of a span end that comes with the event `e`: a command end
/// produces the `BuildFinished` event; the state never changes.
pub open spec fn span_end_spec(s: TranslatorState, e: BuckEvent, span_end: SpanEndEvent) -> (
    TranslatorState,
    Seq<BuildEventView>,
) {
    match span_end.data {
        Some(SpanEndData::Command(cmd)) => (
            s,
            seq![
                finished_event(
                    cmd.is_success,
                    finish_time_spec(s.start_timestamp, span_end.duration, e.timestamp),
                ),
            ],
        ),
        _ => (s, Seq::empty()),
    }
}

/// The effect of an instant event: a console message or warning is one
/// progress step; anything else changes nothing.
pub open spec fn instant_spec(s: TranslatorState, instant: InstantEvent) -> (
    TranslatorState,
    Seq<BuildEventView>,
) {
    match instant.data {
        Some(InstantData::ConsoleMessage(msg)) => progress_step(s, msg.message@),
        Some(InstantData::ConsoleWarning(warn)) => progress_step(s, warn.message@),
        _ => (s, Seq::empty()),
    }
}

/// The effect of translating `e` in state `s`: the next state, and the
/// views of the events produced, in order.
pub open spec fn translate_spec(s: TranslatorState, e: BuckEvent) -> (
    TranslatorState,
    Seq<BuildEventView>,
) {
    match e.data {
        Some(BuckEventData::SpanStart(span_start)) => span_start_spec(s, e, span_start),
        Some(BuckEventData::SpanEnd(span_end)) => span_end_spec(s, e, span_end),
        Some(BuckEventData::Instant(instant)) => instant_spec(s, instant),
        _ => (s, Seq::empty()),
    }
}

/// The next progress number and the one after it fit in an `i32`, where
/// `instant` is a console message or warning.
pub open spec fn instant_accepts(s: TranslatorState, instant: InstantEvent) -> bool {
    match instant.data {
        Some(InstantData::ConsoleMessage(_)) => s.progress_count + 2 <= i32::MAX,
        Some(InstantData::ConsoleWarning(_)) => s.progress_count + 2 <= i32::MAX,
        _ => true,
    }
}

/// The finish time of a command end can be computed within the machine
/// integers.
pub open spec fn span_end_accepts(s: TranslatorState, span_end: SpanEndEvent) -> bool {
    match span_end.data {
        Some(SpanEndData::Command(_)) => match (s.start_timestamp, span_end.duration) {
            (Some(st), Some(d)) => add_duration_fits(st, d),
            _ => true,
        },
        _ => true,
    }
}

/// `e` is a console message or warning, which becomes a progress event.
pub open spec fn is_progress_source(e: BuckEvent) -> bool {
    match e.data {
        Some(BuckEventData::Instant(instant)) => match instant.data {
            Some(InstantData::ConsoleMessage(_)) => true,
            Some(InstantData::ConsoleWarning(_)) => true,
            _ => false,
        },
        _ => false,
    }
}

/// `e` is the start of a command.
pub open spec fn is_command_start(e: BuckEvent) -> bool {
    match e.data {
        Some(BuckEventData::SpanStart(span_start)) => match span_start.data {
            Some(SpanStartData::Command(_)) => true,
            _ => false,
        },
        _ => false,
    }
}

/// `e` is the end of a command.
pub open spec fn is_command_end(e: BuckEvent) -> bool {
    match e.data {
        Some(BuckEventData::SpanEnd(span_end)) => match span_end.data {
            Some(SpanEndData::Command(_)) => true,
            _ => false,
        },
        _ => false,
    }
}

/// The duration that a closing span reports, if it is one.
pub open spec fn span_duration(e: BuckEvent) -> Option<Duration> {
    match e.data {
        Some(BuckEventData::SpanEnd(span_end)) => span_end.duration,
        _ => None,
    }
}

/// Translating `e` in state `s` stays within the machine integers: the next
/// progress number and the one after it fit in an `i32`, and the finish time
/// of a command end can be computed.
pub open spec fn translate_accepts(s: TranslatorState, e: BuckEvent) -> bool {
    match e.data {
        Some(BuckEventData::SpanEnd(span_end)) => span_end_accepts(s, span_end),
        Some(BuckEventData::Instant(instant)) => instant_accepts(s, instant),
        _ => true,
    }
}

/// Whether `e` closes a command that succeeded.
pub open spec fn command_success(e: BuckEvent) -> bool {
    match e.data {
        Some(BuckEventData::SpanEnd(span_end)) => match span_end.data {
            Some(SpanEndData::Command(cmd)) => cmd.is_success,
            _ => false,
        },
        _ => false,
    }
}

/// The effect of translating the events `evs` one after the other from
/// state `s`: the final state, and all the events produced, in order.
pub open spec fn translate_run(s: TranslatorState, evs: Seq<BuckEvent>) -> (
    TranslatorState,
    Seq<BuildEventView>,
)
    decreases evs.len(),
{
    if evs.len() == 0 {
        (s, Seq::empty())
    } else {
        let first = translate_spec(s, evs[0]);
        let rest = translate_run(first.0, evs.drop_first());
        (rest.0, first.1 + rest.1)
    }
}

/// The number of console messages and warnings among `evs`.
pub open spec fn count_progress_sources(evs: Seq<BuckEvent>) -> nat
    decreases evs.len(),
{
    if evs.len() == 0 {
        0
    } else {
        (if is_progress_source(evs[0]) {
            1nat
        } else {
            0nat
        }) + count_progress_sources(evs.drop_first())
    }
}

/// `id` names a progress event.
pub open spec fn is_progress_id(id: Option<BuildEventId>) -> bool {
    match id {
        Some(BuildEventId { id: Some(BuildEventIdKind::Progress(_)) }) => true,
        _ => false,
    }
}

/// The progress events among `outs`, in order.
pub open spec fn progress_events(outs: Seq<BuildEventView>) -> Seq<BuildEventView>
    decreases outs.len(),
{
    if outs.len() == 0 {
        Seq::empty()
    } else if is_progress_id(outs[0].id) {
        seq![outs[0]] + progress_events(outs.drop_first())
    } else {
        progress_events(outs.drop_first())
    }
}

/// No event of `evs` starts a command.
pub open spec fn no_command_start(evs: Seq<BuckEvent>) -> bool {
    forall|i: int| 0 <= i < evs.len() ==> !is_command_start(#[trigger] evs[i])
}

proof fn lemma_progress_events_append(a: Seq<BuildEventView>, b: Seq<BuildEventView>)
    ensures
        progress_events(a + b) == progress_events(a) + progress_events(b),
    decreases a.len(),
{
    if a.len() == 0 {
        assert(a + b =~= b);
        assert(progress_events(a) + progress_events(b) =~= progress_events(b));
    } else {
        assert((a + b).drop_first() =~= a.drop_first() + b);
        lemma_progress_events_append(a.drop_first(), b);
        if is_progress_id(a[0].id) {
            assert(seq![a[0]] + (progress_events(a.drop_first()) + progress_events(b))
                =~= (seq![a[0]] + progress_events(a.drop_first())) + progress_events(b));
        }
    }
}

/// Only console messages and warnings move the progress count, each by
/// exactly one; only command starts change the start time and trace id.
pub proof fn lemma_translate_step_state(s: TranslatorState, e: BuckEvent)
    ensures
        translate_spec(s, e).0.progress_count == s.progress_count + (if is_progress_source(e) {
            1int
        } else {
            0int
        }),
        !is_command_start(e) ==> translate_spec(s, e).0.start_timestamp == s.start_timestamp
            && translate_spec(s, e).0.trace_id == s.trace_id,
        is_command_start(e) ==> translate_spec(s, e).0.start_timestamp == e.timestamp
            && translate_spec(s, e).0.trace_id == Some(e.trace_id@),
{
}

/// The progress events that one translation step produces: for a console
/// message or warning, one event numbered `count + 1` that announces the
/// number `count + 2`; none otherwise.
proof fn lemma_step_progress_events(s: TranslatorState, e: BuckEvent)
    ensures
        is_progress_source(e) ==> {
            let pe = progress_events(translate_spec(s, e).1);
            &&& pe.len() == 1
            &&& pe[0].id == Some(progress_id(s.progress_count + 1))
            &&& pe[0].children == seq![progress_id(s.progress_count + 2)]
        },
        !is_progress_source(e) ==> progress_events(translate_spec(s, e).1).len() == 0,
{
    let outs = translate_spec(s, e).1;
    assert(progress_events(Seq::<BuildEventView>::empty()) =~= Seq::<BuildEventView>::empty());
    if outs.len() == 0 {
        assert(outs =~= Seq::<BuildEventView>::empty());
    } else {
        assert(outs.len() == 1);
        assert(outs.drop_first() =~= Seq::<BuildEventView>::empty());
        if is_progress_source(e) {
            assert(is_progress_id(outs[0].id));
            assert(seq![outs[0]] + Seq::<BuildEventView>::empty() =~= seq![outs[0]]);
        } else {
            assert(!is_progress_id(outs[0].id));
        }
    }
}

/// Progress events are numbered in sequence: translating any sequence of
/// events from state `s` produces one progress event per console message or
/// warning, the `j`-th numbered `count + 1 + j` and announcing as its only
/// child the number `count + 2 + j`, which is the number of the next one;
/// nothing else moves the count.
pub proof fn lemma_progress_ids_sequential(s: TranslatorState, evs: Seq<BuckEvent>)
    ensures
        translate_run(s, evs).0.progress_count == s.progress_count + count_progress_sources(evs),
        progress_events(translate_run(s, evs).1).len() == count_progress_sources(evs),
        forall|j: int|
            0 <= j < count_progress_sources(evs) ==> {
                &&& (#[trigger] progress_events(translate_run(s, evs).1)[j]).id == Some(
                    progress_id(s.progress_count + 1 + j),
                )
                &&& progress_events(translate_run(s, evs).1)[j].children == seq![
                    progress_id(s.progress_count + 2 + j),
                ]
            },
        forall|j: int|
            0 <= j < count_progress_sources(evs) - 1 ==> Some(
                (#[trigger] progress_events(translate_run(s, evs).1)[j]).children[0],
            ) == progress_events(translate_run(s, evs).1)[j + 1].id,
    decreases evs.len(),
{
    let pe = progress_events(translate_run(s, evs).1);
    let k = count_progress_sources(evs);
    if evs.len() == 0 {
        assert(progress_events(Seq::<BuildEventView>::empty()) =~= Seq::<BuildEventView>::empty());
    } else {
        let first = translate_spec(s, evs[0]);
        let rest = translate_run(first.0, evs.drop_first());
        lemma_translate_step_state(s, evs[0]);
        lemma_step_progress_events(s, evs[0]);
        lemma_progress_ids_sequential(first.0, evs.drop_first());
        lemma_progress_events_append(first.1, rest.1);
        let pf = progress_events(first.1);
        let pr = progress_events(rest.1);
        assert(pe == pf + pr);
        if is_progress_source(evs[0]) {
            assert forall|j: int| 0 <= j < k implies {
                &&& (#[trigger] pe[j]).id == Some(progress_id(s.progress_count + 1 + j))
                &&& pe[j].children == seq![progress_id(s.progress_count + 2 + j)]
            } by {
                if j > 0 {
                    assert(pe[j] == pr[j - 1]);
                    assert(first.0.progress_count + 1 + (j - 1) == s.progress_count + 1 + j);
                    assert(first.0.progress_count + 2 + (j - 1) == s.progress_count + 2 + j);
                }
            }
        } else {
            assert(pf.len() == 0);
            assert(pe =~= pr);
        }
        assert forall|j: int| 0 <= j < k - 1 implies Some((#[trigger] pe[j]).children[0])
            == pe[j + 1].id by {
            assert(pe[j].id == Some(progress_id(s.progress_count + 1 + j)));
            assert(pe[j + 1].id == Some(progress_id(s.progress_count + 1 + (j + 1))));
            assert(pe[j].children == seq![progress_id(s.progress_count + 2 + j)]);
        }
    }
}

/// Each progress event announces the next one: after a console message or
/// warning, the progress event of the next console message or warning has
/// the identifier that the first one named as its child.
pub proof fn lemma_progress_events_chain(s: TranslatorState, e1: BuckEvent, e2: BuckEvent)
    requires
        is_progress_source(e1),
        is_progress_source(e2),
    ensures
        translate_spec(translate_spec(s, e1).0, e2).1[0].id == Some(
            translate_spec(s, e1).1[0].children[0],
        ),
{
}

/// A `BuildStarted` event announces what follows it. On a translator that
/// has produced no progress event, its first child is the identifier of the
/// first progress event that any later events produce, which is number 1;
/// its second child is the identifier of the `BuildFinished` event of any
/// command end, which is the last message and announces nothing.
pub proof fn lemma_started_announces_children(
    s: TranslatorState,
    start: BuckEvent,
    rest: Seq<BuckEvent>,
    later: TranslatorState,
    end: BuckEvent,
)
    requires
        s.progress_count == 0,
        is_command_start(start),
        is_command_end(end),
    ensures
        translate_spec(s, start).1[0].children[0] == progress_id(1),
        progress_events(translate_run(translate_spec(s, start).0, rest).1).len() > 0 ==> progress_events(
            translate_run(translate_spec(s, start).0, rest).1,
        )[0].id == Some(translate_spec(s, start).1[0].children[0]),
        translate_spec(later, end).1[0].id == Some(translate_spec(s, start).1[0].children[1]),
        translate_spec(later, end).1[0].last_message,
        translate_spec(later, end).1[0].children.len() == 0,
{
    lemma_progress_ids_sequential(translate_spec(s, start).0, rest);
}

/// Events that start no command keep the start time and the trace id.
pub proof fn lemma_run_keeps_start(s: TranslatorState, evs: Seq<BuckEvent>)
    requires
        no_command_start(evs),
    ensures
        translate_run(s, evs).0.start_timestamp == s.start_timestamp,
        translate_run(s, evs).0.trace_id == s.trace_id,
    decreases evs.len(),
{
    if evs.len() > 0 {
        lemma_translate_step_state(s, evs[0]);
        assert(!is_command_start(evs[0]));
        assert forall|i: int| 0 <= i < evs.drop_first().len() implies !is_command_start(
            #[trigger] evs.drop_first()[i],
        ) by {
            assert(evs.drop_first()[i] == evs[i + 1]);
        }
        lemma_run_keeps_start(translate_spec(s, evs[0]).0, evs.drop_first());
    }
}

/// The finish time of a build is its start time plus the duration of the
/// command span, where both are known; otherwise it is the timestamp of the
/// command end event. Any events between the command start and the command
/// end that start no other command leave this so.
pub proof fn lemma_finish_time_from_start(
    s: TranslatorState,
    start: BuckEvent,
    between: Seq<BuckEvent>,
    end: BuckEvent,
)
    requires
        is_command_start(start),
        no_command_start(between),
        is_command_end(end),
    ensures
        translate_spec(translate_run(translate_spec(s, start).0, between).0, end).1 == seq![
            finished_event(
                command_success(end),
                finish_time_spec(start.timestamp, span_duration(end), end.timestamp),
            ),
        ],
{
    lemma_run_keeps_start(translate_spec(s, start).0, between);
}

/// A console message or warning becomes exactly one progress event: it is
/// numbered one past the count, names the next number as its only child, is
/// not the last message, and carries the whole text of the message on stderr
/// with an empty stdout. The count goes up by one and nothing else changes.
pub proof fn lemma_console_text_becomes_progress(
    s: TranslatorState,
    e: BuckEvent,
    instant: InstantEvent,
    text: String,
)
    requires
        e.data == Some(BuckEventData::Instant(instant)),
        instant.data == Some(InstantData::ConsoleMessage(ConsoleMessage { message: text }))
            || instant.data == Some(InstantData::ConsoleWarning(ConsoleWarning { message: text })),
    ensures
        translate_spec(s, e).1.len() == 1,
        translate_spec(s, e).1[0].id == Some(
            BuildEventId {
                id: Some(
                    BuildEventIdKind::Progress(
                        ProgressId { opaque_count: (s.progress_count + 1) as i32 },
                    ),
                ),
            },
        ),
        translate_spec(s, e).1[0].children == seq![
            BuildEventId {
                id: Some(
                    BuildEventIdKind::Progress(
                        ProgressId { opaque_count: (s.progress_count + 2) as i32 },
                    ),
                ),
            },
        ],
        !translate_spec(s, e).1[0].last_message,
        translate_spec(s, e).1[0].payload matches Some(PayloadView::Progress(p)) && p.stdout.len()
            == 0 && p.stderr == text@,
        translate_spec(s, e).0.progress_count == s.progress_count + 1,
        translate_spec(s, e).0.start_timestamp == s.start_timestamp,
        translate_spec(s, e).0.trace_id == s.trace_id,
{
}

/// A command start becomes exactly one `BuildStarted` event: its uuid is the
/// event's trace id, its start time is the event's timestamp, its command is
/// the command's name, and the other fields are empty; it announces progress
/// event number 1 and the `BuildFinished` event. The translator records the
/// timestamp and the trace id and keeps its count.
pub proof fn lemma_command_start_becomes_build_started(
    s: TranslatorState,
    e: BuckEvent,
    span_start: SpanStartEvent,
    cmd: CommandStart,
)
    requires
        e.data == Some(BuckEventData::SpanStart(span_start)),
        span_start.data == Some(SpanStartData::Command(cmd)),
    ensures
        translate_spec(s, e).1.len() == 1,
        translate_spec(s, e).1[0].id == Some(BuildEventId { id: Some(BuildEventIdKind::Started) }),
        translate_spec(s, e).1[0].children == seq![
            BuildEventId {
                id: Some(BuildEventIdKind::Progress(ProgressId { opaque_count: 1 })),
            },
            BuildEventId { id: Some(BuildEventIdKind::BuildFinished) },
        ],
        !translate_spec(s, e).1[0].last_message,
        translate_spec(s, e).1[0].payload matches Some(PayloadView::Started(b)) && {
            &&& b.uuid == e.trace_id@
            &&& b.start_time == e.timestamp
            &&& b.command == command_name_spec(cmd.data)
            &&& b.start_time_millis == 0
            &&& b.server_pid == 0
            &&& b.build_tool_version.len() == 0
            &&& b.options_description.len() == 0
            &&& b.working_directory.len() == 0
            &&& b.workspace_directory.len() == 0
            &&& b.host.len() == 0
            &&& b.user.len() == 0
        },
        translate_spec(s, e).0.progress_count == s.progress_count,
        translate_spec(s, e).0.start_timestamp == e.timestamp,
        translate_spec(s, e).0.trace_id == Some(e.trace_id@),
{
}

/// A command end becomes exactly one `BuildFinished` event, the last
/// message, announcing nothing: it reports the command's success, exit code
/// 0 named "SUCCESS" or 1 named "BUILD_FAILURE", and the finish time, which
/// is the recorded start time plus the span's duration where both are known
/// and the event's timestamp otherwise. The state does not change.
pub proof fn lemma_command_end_becomes_build_finished(
    s: TranslatorState,
    e: BuckEvent,
    span_end: SpanEndEvent,
    cmd: CommandEnd,
)
    requires
        e.data == Some(BuckEventData::SpanEnd(span_end)),
        span_end.data == Some(SpanEndData::Command(cmd)),
    ensures
        translate_spec(s, e).1.len() == 1,
        translate_spec(s, e).1[0].id == Some(
            BuildEventId { id: Some(BuildEventIdKind::BuildFinished) },
        ),
        translate_spec(s, e).1[0].children.len() == 0,
        translate_spec(s, e).1[0].last_message,
        translate_spec(s, e).1[0].payload matches Some(PayloadView::Finished(f)) && {
            &&& f.overall_success == cmd.is_success
            &&& f.finish_time_millis == 0
            &&& f.exit_code matches Some(c) && (if cmd.is_success {
                c.code == 0 && c.name == "SUCCESS"@
            } else {
                c.code == 1 && c.name == "BUILD_FAILURE"@
            })
            &&& f.finish_time == match (s.start_timestamp, span_end.duration) {
                (Some(st), Some(d)) => Some(add_duration_spec(st, d)),
                _ => e.timestamp,
            }
        },
        translate_spec(s, e).0 == s,
{
}

/// An event that is neither a command start, a command end, a console
/// message nor a console warning produces nothing and changes nothing.
pub proof fn lemma_other_events_produce_nothing(s: TranslatorState, e: BuckEvent)
    requires
        !is_command_start(e),
        !is_command_end(e),
        !is_progress_source(e),
    ensures
        translate_spec(s, e).1.len() == 0,
        translate_spec(s, e).0 == s,
{
}

/// The name of the command that `cmd` started.
pub fn command_name(cmd: &CommandStart) -> (r: String)
    ensures
        r@ == command_name_spec(cmd.data),
{
    let name: &str = match &cmd.data {
        Some(CommandStartData::Build) => "build",
        Some(CommandStartData::Test) => "test",
        Some(CommandStartData::Targets) => "targets",
        Some(CommandStartData::Query) => "query",
        Some(CommandStartData::Cquery) => "cquery",
        Some(CommandStartData::Aquery) => "aquery",
        Some(CommandStartData::Audit) => "audit",
        Some(CommandStartData::Docs) => "docs",
        Some(CommandStartData::Clean) => "clean",
        Some(CommandStartData::Install) => "install",
        Some(CommandStartData::Materialize) => "materialize",
        Some(CommandStartData::Profile) => "profile",
        Some(CommandStartData::Bxl) => "bxl",
        Some(CommandStartData::Lsp) => "lsp",
        Some(CommandStartData::FileStatus) => "file_status",
        Some(CommandStartData::Starlark) => "starlark",
        Some(CommandStartData::Subscribe) => "subscribe",
        Some(CommandStartData::Trace) => "trace",
        Some(CommandStartData::Ctargets) => "ctargets",
        Some(CommandStartData::StarlarkDebugAttach) => "starlark_debug_attach",
        Some(CommandStartData::Explain) => "explain",
        Some(CommandStartData::ExpandExternalCell) => "expand_external_cell",
        Some(CommandStartData::Complete) => "complete",
        None => "unknown",
    };
    String::from_str(name)
}

impl BuckEventTranslator {
    /// A translator that has seen no event.
    pub fn new() -> (r: Self)
        ensures
            r@ == initial_state(),
    {
        Self { progress_count: 0, start_timestamp: None, trace_id: None }
    }

    /// Whether translating `event` now stays within the machine integers,
    /// which [`translate`](Self::translate) requires.
    pub fn accepts(&self, event: &BuckEvent) -> (r: bool)
        ensures
            r == translate_accepts(self@, *event),
    {
        match &event.data {
            Some(BuckEventData::Instant(instant)) => match &instant.data {
                Some(InstantData::ConsoleMessage(_)) | Some(InstantData::ConsoleWarning(_)) => {
                    self.progress_count < i32::MAX - 1
                },
                _ => true,
            },
            Some(BuckEventData::SpanEnd(span_end)) => match &span_end.data {
                Some(SpanEndData::Command(_)) => match (&self.start_timestamp, &span_end.duration) {
                    (Some(start), Some(dur)) => duration_fits(start, dur),
                    _ => true,
                },
                _ => true,
            },
            _ => true,
        }
    }

    /// Translate a single `BuckEvent` into zero or more BES `BuildEvent`s.
    ///
    /// Returns an empty vec for events that have no BES equivalent (yet).
    pub fn translate(&mut self, event: &BuckEvent) -> (r: Vec<BuildEvent>)
        requires
            translate_accepts(old(self)@, *event),
        ensures
            final(self)@ == translate_spec(old(self)@, *event).0,
            event_views(r@) == translate_spec(old(self)@, *event).1,
    {
        let data = match &event.data {
            Some(d) => d,
            None => {
                let r: Vec<BuildEvent> = Vec::new();
                proof {
                    assert(event_views(r@) =~= Seq::empty());
                }
                return r;
            },
        };
        match data {
            BuckEventData::SpanStart(span_start) => self.translate_span_start(event, span_start),
            BuckEventData::SpanEnd(span_end) => self.translate_span_end(event, span_end),
            BuckEventData::Instant(instant) => self.translate_instant(event, instant),
            BuckEventData::Record(_) => {
                let r: Vec<BuildEvent> = Vec::new();
                proof {
                    assert(event_views(r@) =~= Seq::empty());
                }
                r
            },
        }
    }

    fn translate_span_start(&mut self, event: &BuckEvent, span_start: &SpanStartEvent) -> (r: Vec<
        BuildEvent,
    >)
        ensures
            final(self)@ == span_start_spec(old(self)@, *event, *span_start).0,
            event_views(r@) == span_start_spec(old(self)@, *event, *span_start).1,
    {
        let data = match &span_start.data {
            Some(d) => d,
            None => {
                let r: Vec<BuildEvent> = Vec::new();
                proof {
                    assert(event_views(r@) =~= Seq::empty());
                }
                return r;
            },
        };
        match data {
            SpanStartData::Command(cmd) => self.translate_command_start(event, cmd),
            _ => {
                let r: Vec<BuildEvent> = Vec::new();
                proof {
                    assert(event_views(r@) =~= Seq::empty());
                }
                r
            },
        }
    }

    fn translate_span_end(&mut self, event: &BuckEvent, span_end: &SpanEndEvent) -> (r: Vec<
        BuildEvent,
    >)
        requires
            span_end_accepts(old(self)@, *span_end),
        ensures
            final(self)@ == span_end_spec(old(self)@, *event, *span_end).0,
            event_views(r@) == span_end_spec(old(self)@, *event, *span_end).1,
    {
        let data = match &span_end.data {
            Some(d) => d,
            None => {
                let r: Vec<BuildEvent> = Vec::new();
                proof {
                    assert(event_views(r@) =~= Seq::empty());
                }
                return r;
            },
        };
        match data {
            SpanEndData::Command(cmd) => self.translate_command_end(event, span_end, cmd),
            _ => {
                let r: Vec<BuildEvent> = Vec::new();
                proof {
                    assert(event_views(r@) =~= Seq::empty());
                }
                r
            },
        }
    }

    fn translate_instant(&mut self, event: &BuckEvent, instant: &InstantEvent) -> (r: Vec<
        BuildEvent,
    >)
        requires
            instant_accepts(old(self)@, *instant),
        ensures
            final(self)@ == instant_spec(old(self)@, *instant).0,
            event_views(r@) == instant_spec(old(self)@, *instant).1,
    {
        let data = match &instant.data {
            Some(d) => d,
            None => {
                let r: Vec<BuildEvent> = Vec::new();
                proof {
                    assert(event_views(r@) =~= Seq::empty());
                }
                return r;
            },
        };
        match data {
            InstantData::ConsoleMessage(msg) => self.translate_console_message(msg),
            InstantData::ConsoleWarning(warn) => self.translate_console_warning(warn),
            _ => {
                let r: Vec<BuildEvent> = Vec::new();
                proof {
                    assert(event_views(r@) =~= Seq::empty());
                }
                r
            },
        }
    }

    fn translate_command_start(&mut self, event: &BuckEvent, cmd: &CommandStart) -> (r: Vec<
        BuildEvent,
    >)
        ensures
            final(self)@ == (TranslatorState {
                progress_count: old(self)@.progress_count,
                start_timestamp: event.timestamp,
                trace_id: Some(event.trace_id@),
            }),
            event_views(r@) == seq![
                started_event(event.trace_id@, event.timestamp, command_name_spec(cmd.data)),
            ],
    {
        self.start_timestamp = event.timestamp;
        self.trace_id = Some(event.trace_id.clone());

        let command_name = command_name(cmd);

        let started = BuildEvent {
            id: Some(BuildEventId { id: Some(BuildEventIdKind::Started) }),
            children: vec![
                make_progress_id(1),
                BuildEventId { id: Some(BuildEventIdKind::BuildFinished) },
            ],
            last_message: false,
            payload: Some(
                Payload::Started(
                    BuildStarted {
                        uuid: event.trace_id.clone(),
                        start_time: event.timestamp,
                        start_time_millis: 0,
                        build_tool_version: String::new(),
                        options_description: String::new(),
                        command: command_name,
                        working_directory: String::new(),
                        workspace_directory: String::new(),
                        server_pid: 0,
                        host: String::new(),
                        user: String::new(),
                    },
                ),
            ),
        };
        let r = vec![started];
        proof {
            assert(event_views(r@) =~= seq![
                started_event(event.trace_id@, event.timestamp, command_name_spec(cmd.data)),
            ]);
        }
        r
    }

    fn translate_command_end(
        &mut self,
        event: &BuckEvent,
        span_end: &SpanEndEvent,
        cmd: &CommandEnd,
    ) -> (r: Vec<BuildEvent>)
        requires
            match (old(self)@.start_timestamp, span_end.duration) {
                (Some(st), Some(d)) => add_duration_fits(st, d),
                _ => true,
            },
        ensures
            final(self)@ == old(self)@,
            event_views(r@) == seq![
                finished_event(
                    cmd.is_success,
                    finish_time_spec(old(self)@.start_timestamp, span_end.duration, event.timestamp),
                ),
            ],
    {
        let success: bool = cmd.is_success;

        let (code, name) = if success {
            (0i32, String::from_str("SUCCESS"))
        } else {
            (1i32, String::from_str("BUILD_FAILURE"))
        };

        // Compute finish_time from start_timestamp + duration, or fall back to event timestamp
        let finish_time = match (&self.start_timestamp, &span_end.duration) {
            (Some(start), Some(dur)) => Some(add_duration(start, dur)),
            _ => event.timestamp,
        };

        let finished = BuildEvent {
            id: Some(BuildEventId { id: Some(BuildEventIdKind::BuildFinished) }),
            children: Vec::new(),
            last_message: true,
            payload: Some(
                Payload::Finished(
                    BuildFinished {
                        overall_success: success,
                        exit_code: Some(ExitCode { name, code }),
                        finish_time_millis: 0,
                        finish_time,
                    },
                ),
            ),
        };
        let r = vec![finished];
        proof {
            assert(event_views(r@) =~= seq![
                finished_event(
                    cmd.is_success,
                    finish_time_spec(old(self)@.start_timestamp, span_end.duration, event.timestamp),
                ),
            ]);
        }
        r
    }

    fn translate_console_message(&mut self, msg: &ConsoleMessage) -> (r: Vec<BuildEvent>)
        requires
            old(self)@.progress_count + 2 <= i32::MAX,
        ensures
            final(self)@ == progress_step(old(self)@, msg.message@).0,
            event_views(r@) == progress_step(old(self)@, msg.message@).1,
    {
        self.make_progress_event(String::new(), msg.message.clone())
    }

    fn translate_console_warning(&mut self, warn: &ConsoleWarning) -> (r: Vec<BuildEvent>)
        requires
            old(self)@.progress_count + 2 <= i32::MAX,
        ensures
            final(self)@ == progress_step(old(self)@, warn.message@).0,
            event_views(r@) == progress_step(old(self)@, warn.message@).1,
    {
        self.make_progress_event(String::new(), warn.message.clone())
    }

    fn make_progress_event(&mut self, stdout: String, stderr: String) -> (r: Vec<BuildEvent>)
        requires
            old(self)@.progress_count + 2 <= i32::MAX,
        ensures
            final(self)@ == progress_step(old(self)@, stderr@).0,
            event_views(r@) == seq![
                progress_event(old(self)@.progress_count + 1, stdout@, stderr@),
            ],
    {
        self.progress_count += 1;
        let current_count: i32 = self.progress_count;

        let progress = BuildEvent {
            id: Some(make_progress_id(current_count)),
            children: vec![make_progress_id(current_count + 1)],
            last_message: false,
            payload: Some(Payload::Progress(Progress { stdout, stderr })),
        };
        let r = vec![progress];
        proof {
            assert(progress@.children =~= seq![progress_id(current_count + 1)]);
            assert(event_views(r@) =~= seq![
                progress_event(old(self)@.progress_count + 1, stdout@, stderr@),
            ]);
        }
        r
    }
}

/// Whether `start + dur` stays within the machine integers.
fn duration_fits(start: &Timestamp, dur: &Duration) -> (r: bool)
    ensures
        r == add_duration_fits(*start, *dur),
{
    let s: i128 = start.seconds as i128 + dur.seconds as i128;
    let n: i128 = start.nanos as i128 + dur.nanos as i128;
    let seconds_fit = i64::MIN as i128 <= s && s <= i64::MAX as i128;
    let nanos_fit = i32::MIN as i128 <= n && n <= i32::MAX as i128;
    let carry_fits = n < 1_000_000_000 || s + 1 <= i64::MAX as i128;
    let borrow_fits = n >= 0 || s - 1 >= i64::MIN as i128;
    seconds_fit && nanos_fit && carry_fits && borrow_fits
}

} // verus!
