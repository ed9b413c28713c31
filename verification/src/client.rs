//! What a Build Event Service client sends to publish a build: the order of
//! the publishing steps, the lifecycle requests, the requests of the build
//! tool's event stream, and the timestamps they carry. The network calls
//! themselves are made by the caller, step by step.
use vstd::prelude::*;
use crate::devtools_build::{
    BuildComponent, BuildEvent, BuildResult, BuildStatus, Event, FinishType, OrderedBuildEvent,
    PublishBuildToolEventStreamRequest, PublishLifecycleEventRequest, ServiceLevel, StreamId,
};
use crate::protobuf::{Any, Timestamp};

verus! {

#[verifier::external_type_specification]
#[verifier::external_body]
pub struct ExSystemTime(std::time::SystemTime);

#[verifier::external_type_specification]
#[verifier::external_body]
pub struct ExSystemTimeError(std::time::SystemTimeError);

/// Calls `std::time::SystemTime::now`. The result is the clock's reading;
/// nothing is stated of it.
#[verifier::external_body]
fn system_time_now() -> (t: std::time::SystemTime) {
    std::time::SystemTime::now()
}

/// Calls `std::time::SystemTime::duration_since` with the Unix epoch. The
/// result depends on the clock's reading; nothing is stated of it.
#[verifier::external_body]
fn duration_since_unix_epoch(t: &std::time::SystemTime) -> (r: Result<
    std::time::Duration,
    std::time::SystemTimeError,
>) {
    t.duration_since(std::time::UNIX_EPOCH)
}

/// Calls `std::time::Duration::as_secs`: the whole seconds of the duration.
/// The duration here comes from the clock, so nothing is stated of them.
#[verifier::external_body]
fn duration_as_secs(d: &std::time::Duration) -> (s: u64) {
    d.as_secs()
}

/// Calls `std::time::Duration::subsec_nanos`, which its documentation says
/// is the fractional part of the duration in nanoseconds, always less than
/// one billion.
#[verifier::external_body]
fn duration_subsec_nanos(d: &std::time::Duration) -> (n: u32)
    ensures
        n < 1_000_000_000,
{
    d.subsec_nanos()
}

/// The timestamp of a time `secs` seconds and `subsec_nanos` nanoseconds
/// after the Unix epoch.
pub fn timestamp_from_unix(secs: u64, subsec_nanos: u32) -> (ts: Timestamp)
    ensures
        ts.seconds == secs as i64,
        ts.nanos == subsec_nanos as i32,
{
    Timestamp { seconds: secs as i64, nanos: subsec_nanos as i32 }
}

/// The timestamp of a clock reading, given as the whole seconds and the
/// nanoseconds since the Unix epoch, or as `None` for a clock set before the
/// epoch, which reads as the epoch itself.
pub fn timestamp_from_clock(since_epoch: Option<(u64, u32)>) -> (ts: Timestamp)
    ensures
        match since_epoch {
            Some((secs, subsec_nanos)) => ts.seconds == secs as i64 && ts.nanos == subsec_nanos as i32,
            None => ts == (Timestamp { seconds: 0, nanos: 0 }),
        },
{
    match since_epoch {
        Some((secs, subsec_nanos)) => timestamp_from_unix(secs, subsec_nanos),
        None => timestamp_from_unix(0, 0),
    }
}

/// The current time as a timestamp; a clock set before the Unix epoch reads
/// as the epoch itself.
pub fn current_timestamp() -> (ts: Timestamp)
    ensures
        0 <= ts.nanos < 1_000_000_000,
{
    let now = system_time_now();
    let since_epoch: Option<(u64, u32)> = match duration_since_unix_epoch(&now) {
        Ok(d) => Some((duration_as_secs(&d), duration_subsec_nanos(&d))),
        Err(_) => None,
    };
    timestamp_from_clock(since_epoch)
}

/// The names under which a build is published.
pub struct BesIds {
    pub build_id: String,
    pub invocation_id: String,
    pub project_id: String,
}

/// The lifecycle events of a published build.
#[derive(Clone, Copy, Debug, PartialEq, Eq)]
pub enum LifecycleStage {
    BuildEnqueued,
    InvocationAttemptStarted,
    InvocationAttemptFinished,
    BuildFinished,
}

/// One step of publishing a build: a lifecycle event, or the build tool's
/// whole event stream.
#[derive(Clone, Copy, Debug, PartialEq, Eq)]
pub enum PublishStep {
    Lifecycle(LifecycleStage),
    BuildToolEventStream,
}

/// The order of the steps of the BES lifecycle protocol.
pub open spec fn publish_steps_spec() -> Seq<PublishStep> {
    seq![
        PublishStep::Lifecycle(LifecycleStage::BuildEnqueued),
        PublishStep::Lifecycle(LifecycleStage::InvocationAttemptStarted),
        PublishStep::BuildToolEventStream,
        PublishStep::Lifecycle(LifecycleStage::InvocationAttemptFinished),
        PublishStep::Lifecycle(LifecycleStage::BuildFinished),
    ]
}

/// The steps of publishing a complete build event stream, in order:
/// 1. BuildEnqueued
/// 2. InvocationAttemptStarted
/// 3. Stream all build events + ComponentStreamFinished
/// 4. InvocationAttemptFinished
/// 5. BuildFinished
pub fn publish_steps() -> (r: Vec<PublishStep>)
    ensures
        r@ == publish_steps_spec(),
{
    let r = vec![
        PublishStep::Lifecycle(LifecycleStage::BuildEnqueued),
        PublishStep::Lifecycle(LifecycleStage::InvocationAttemptStarted),
        PublishStep::BuildToolEventStream,
        PublishStep::Lifecycle(LifecycleStage::InvocationAttemptFinished),
        PublishStep::Lifecycle(LifecycleStage::BuildFinished),
    ];
    proof {
        assert(r@ =~= publish_steps_spec());
    }
    r
}

/// The sequence number of a lifecycle event in the controller's stream.
pub open spec fn lifecycle_sequence_number(stage: LifecycleStage) -> i64 {
    match stage {
        LifecycleStage::BuildEnqueued => 1,
        LifecycleStage::InvocationAttemptStarted => 1,
        LifecycleStage::InvocationAttemptFinished => 2,
        LifecycleStage::BuildFinished => 3,
    }
}

/// The result that a build reports: succeeded or failed.
pub open spec fn build_result_spec(success: bool) -> BuildResult {
    if success {
        BuildResult::CommandSucceeded
    } else {
        BuildResult::CommandFailed
    }
}

/// `status` reports the build's result for the invocation `invocation_id`,
/// with no error message.
pub open spec fn build_status_spec(
    status: Option<BuildStatus>,
    success: bool,
    invocation_id: Seq<char>,
) -> bool {
    match status {
        Some(st) => {
            &&& st.result == build_result_spec(success)
            &&& st.final_invocation_id@ == invocation_id
            &&& st.error_message@ == Seq::<char>::empty()
        },
        None => false,
    }
}

/// `event` is the lifecycle event of `stage`.
pub open spec fn lifecycle_event_spec(
    event: Event,
    stage: LifecycleStage,
    success: bool,
    invocation_id: Seq<char>,
) -> bool {
    match stage {
        LifecycleStage::BuildEnqueued => event == Event::BuildEnqueued,
        LifecycleStage::InvocationAttemptStarted => event == (Event::InvocationAttemptStarted {
            attempt_number: 1,
        }),
        LifecycleStage::InvocationAttemptFinished => match event {
            Event::InvocationAttemptFinished { invocation_status } => build_status_spec(
                invocation_status,
                success,
                invocation_id,
            ),
            _ => false,
        },
        LifecycleStage::BuildFinished => match event {
            Event::BuildFinished { status } => build_status_spec(status, success, invocation_id),
            _ => false,
        },
    }
}

/// The result that a build reports.
pub fn build_result(success: bool) -> (r: BuildResult)
    ensures
        r == build_result_spec(success),
{
    if success {
        BuildResult::CommandSucceeded
    } else {
        BuildResult::CommandFailed
    }
}

fn build_status(success: bool, invocation_id: &String) -> (r: BuildStatus)
    ensures
        build_status_spec(Some(r), success, invocation_id@),
{
    BuildStatus {
        result: build_result(success),
        final_invocation_id: invocation_id.clone(),
        error_message: String::new(),
    }
}

/// The sequence number, component and event of the lifecycle event of
/// `stage`, for a build whose result is `success`.
pub fn lifecycle_step(stage: LifecycleStage, success: bool, invocation_id: &String) -> (r: (
    i64,
    BuildComponent,
    Event,
))
    ensures
        r.0 == lifecycle_sequence_number(stage),
        r.1 == BuildComponent::Controller,
        lifecycle_event_spec(r.2, stage, success, invocation_id@),
{
    match stage {
        LifecycleStage::BuildEnqueued => (1, BuildComponent::Controller, Event::BuildEnqueued),
        LifecycleStage::InvocationAttemptStarted => (
            1,
            BuildComponent::Controller,
            Event::InvocationAttemptStarted { attempt_number: 1 },
        ),
        LifecycleStage::InvocationAttemptFinished => (
            2,
            BuildComponent::Controller,
            Event::InvocationAttemptFinished {
                invocation_status: Some(build_status(success, invocation_id)),
            },
        ),
        LifecycleStage::BuildFinished => (
            3,
            BuildComponent::Controller,
            Event::BuildFinished { status: Some(build_status(success, invocation_id)) },
        ),
    }
}

/// The event that an ordered event carries, if any.
pub open spec fn event_of(obe: Option<OrderedBuildEvent>) -> Option<Event> {
    match obe {
        Some(o) => match o.event {
            Some(be) => be.event,
            None => None,
        },
        None => None,
    }
}

/// `obe` is placed in the stream of `component` of the build named by
/// `ids`, at `sequence_number`, with the time `time`.
pub open spec fn ordered_event_header(
    obe: Option<OrderedBuildEvent>,
    ids: BesIds,
    component: BuildComponent,
    sequence_number: int,
    time: Timestamp,
) -> bool {
    match obe {
        Some(o) => match (o.stream_id, o.event) {
            (Some(sid), Some(be)) => {
                &&& sid.build_id@ == ids.build_id@
                &&& sid.invocation_id@ == ids.invocation_id@
                &&& sid.component == component
                &&& o.sequence_number == sequence_number
                &&& be.event_time == Some(time)
            },
            _ => false,
        },
        None => false,
    }
}

fn stream_id(ids: &BesIds, component: BuildComponent) -> (r: StreamId)
    ensures
        r.build_id@ == ids.build_id@,
        r.invocation_id@ == ids.invocation_id@,
        r.component == component,
{
    StreamId {
        build_id: ids.build_id.clone(),
        invocation_id: ids.invocation_id.clone(),
        component,
    }
}

/// The request that publishes the lifecycle event `event` at
/// `sequence_number` in the stream of `component`, with the time `timestamp`.
pub fn lifecycle_event_request(
    ids: &BesIds,
    sequence_number: i64,
    component: BuildComponent,
    event: Event,
    timestamp: &Timestamp,
) -> (r: PublishLifecycleEventRequest)
    ensures
        r.service_level == ServiceLevel::Interactive,
        ordered_event_header(r.build_event, *ids, component, sequence_number as int, *timestamp),
        event_of(r.build_event) == Some(event),
        r.notification_keywords@.len() == 0,
        r.project_id@ == ids.project_id@,
        !r.check_preceding_lifecycle_events_present,
{
    PublishLifecycleEventRequest {
        service_level: ServiceLevel::Interactive,
        build_event: Some(
            OrderedBuildEvent {
                stream_id: Some(stream_id(ids, component)),
                sequence_number,
                event: Some(BuildEvent { event_time: Some(*timestamp), event: Some(event) }),
            },
        ),
        notification_keywords: Vec::new(),
        project_id: ids.project_id.clone(),
        check_preceding_lifecycle_events_present: false,
    }
}

/// The type URL of an encoded Build Event Stream event.
pub open spec fn bazel_event_type_url() -> Seq<char> {
    "type.googleapis.com/build_event_stream.BuildEvent"@
}

/// `r` publishes, at `sequence_number` in the build tool's stream, the
/// encoded Build Event Stream event `encoded`.
pub open spec fn bazel_event_request_spec(
    r: PublishBuildToolEventStreamRequest,
    ids: BesIds,
    sequence_number: int,
    now: Timestamp,
    encoded: Seq<u8>,
) -> bool {
    &&& ordered_event_header(r.ordered_build_event, ids, BuildComponent::Tool, sequence_number, now)
    &&& match event_of(r.ordered_build_event) {
        Some(Event::BazelEvent(any)) => any.type_url@ == bazel_event_type_url() && any.value@
            == encoded,
        _ => false,
    }
    &&& r.notification_keywords@.len() == 0
    &&& r.project_id@ == ids.project_id@
    &&& !r.check_preceding_lifecycle_events_present
}

/// `r` closes the build tool's stream at `sequence_number`.
pub open spec fn stream_finished_request_spec(
    r: PublishBuildToolEventStreamRequest,
    ids: BesIds,
    sequence_number: int,
    now: Timestamp,
) -> bool {
    &&& ordered_event_header(r.ordered_build_event, ids, BuildComponent::Tool, sequence_number, now)
    &&& event_of(r.ordered_build_event) == Some(
        Event::ComponentStreamFinished { finish_type: FinishType::Finished },
    )
    &&& r.notification_keywords@.len() == 0
    &&& r.project_id@ == ids.project_id@
    &&& !r.check_preceding_lifecycle_events_present
}

fn bazel_event_request(ids: &BesIds, sequence_number: i64, now: &Timestamp, encoded: Vec<u8>) -> (r:
    PublishBuildToolEventStreamRequest)
    ensures
        bazel_event_request_spec(r, *ids, sequence_number as int, *now, encoded@),
{
    let any = Any {
        type_url: String::from_str("type.googleapis.com/build_event_stream.BuildEvent"),
        value: encoded,
    };
    PublishBuildToolEventStreamRequest {
        ordered_build_event: Some(
            OrderedBuildEvent {
                stream_id: Some(stream_id(ids, BuildComponent::Tool)),
                sequence_number,
                event: Some(BuildEvent { event_time: Some(*now), event: Some(Event::BazelEvent(any)) }),
            },
        ),
        notification_keywords: Vec::new(),
        project_id: ids.project_id.clone(),
        check_preceding_lifecycle_events_present: false,
    }
}

/// The requests of the build tool's event stream: each encoded Build Event
/// Stream event wrapped in an `Any`, numbered from 1 in order, followed by
/// the event that closes the stream.
pub fn build_tool_event_stream_requests(
    ids: &BesIds,
    encoded_events: Vec<Vec<u8>>,
    now: &Timestamp,
) -> (r: Vec<PublishBuildToolEventStreamRequest>)
    requires
        encoded_events.len() < i64::MAX,
    ensures
        r.len() == encoded_events.len() + 1,
        forall|i: int|
            0 <= i < encoded_events.len() ==> bazel_event_request_spec(
                #[trigger] r[i],
                *ids,
                i + 1,
                *now,
                encoded_events[i]@,
            ),
        stream_finished_request_spec(
            r[encoded_events.len() as int],
            *ids,
            encoded_events.len() + 1,
            *now,
        ),
{
    let ghost events = encoded_events@;
    let n: usize = encoded_events.len();
    let mut requests: Vec<PublishBuildToolEventStreamRequest> = Vec::new();
    let mut i: usize = 0;
    for encoded in it: encoded_events.into_iter()
        invariant
            n == events.len(),
            it.seq() == events,
            i == it.index(),
            i <= n,
            n < i64::MAX,
            requests.len() == i,
            forall|j: int|
                0 <= j < i ==> bazel_event_request_spec(
                    #[trigger] requests[j],
                    *ids,
                    j + 1,
                    *now,
                    events[j]@,
                ),
    {
        requests.push(bazel_event_request(ids, (i + 1) as i64, now, encoded));
        i += 1;
    }

    // Final event: ComponentStreamFinished
    let final_seq: i64 = requests.len() as i64 + 1;
    requests.push(
        PublishBuildToolEventStreamRequest {
            ordered_build_event: Some(
                OrderedBuildEvent {
                    stream_id: Some(stream_id(ids, BuildComponent::Tool)),
                    sequence_number: final_seq,
                    event: Some(
                        BuildEvent {
                            event_time: Some(*now),
                            event: Some(
                                Event::ComponentStreamFinished { finish_type: FinishType::Finished },
                            ),
                        },
                    ),
                },
            ),
            notification_keywords: Vec::new(),
            project_id: ids.project_id.clone(),
            check_preceding_lifecycle_events_present: false,
        },
    );
    requests
}

/// The lifecycle events of a build: BuildEnqueued; InvocationAttemptStarted
/// for attempt 1; and for InvocationAttemptFinished and BuildFinished, a
/// status whose result is `CommandSucceeded` when the build succeeded and
/// `CommandFailed` when it failed, naming the invocation as the final one,
/// with no error message.
pub proof fn lemma_lifecycle_events(
    event: Event,
    stage: LifecycleStage,
    success: bool,
    invocation_id: Seq<char>,
)
    requires
        lifecycle_event_spec(event, stage, success, invocation_id),
    ensures
        stage == LifecycleStage::BuildEnqueued ==> event == Event::BuildEnqueued,
        stage == LifecycleStage::InvocationAttemptStarted ==> event == (
        Event::InvocationAttemptStarted { attempt_number: 1 }),
        stage == LifecycleStage::InvocationAttemptFinished ==> (event matches
            Event::InvocationAttemptFinished { invocation_status: Some(st) } && {
            &&& success ==> st.result == BuildResult::CommandSucceeded
            &&& !success ==> st.result == BuildResult::CommandFailed
            &&& st.final_invocation_id@ == invocation_id
            &&& st.error_message@.len() == 0
        }),
        stage == LifecycleStage::BuildFinished ==> (event matches Event::BuildFinished {
            status: Some(st),
        } && {
            &&& success ==> st.result == BuildResult::CommandSucceeded
            &&& !success ==> st.result == BuildResult::CommandFailed
            &&& st.final_invocation_id@ == invocation_id
            &&& st.error_message@.len() == 0
        }),
{
}

/// An ordered event with this header names the build and invocation of
/// `ids` and the component, sits at the sequence number, and carries an
/// event stamped with the time; `event_of` is the event it carries.
pub proof fn lemma_ordered_event_header(
    obe: Option<OrderedBuildEvent>,
    ids: BesIds,
    component: BuildComponent,
    sequence_number: int,
    time: Timestamp,
    event: Event,
)
    requires
        ordered_event_header(obe, ids, component, sequence_number, time),
        event_of(obe) == Some(event),
    ensures
        obe matches Some(o) && o.stream_id matches Some(sid) && o.event matches Some(be) && {
            &&& sid.build_id@ == ids.build_id@
            &&& sid.invocation_id@ == ids.invocation_id@
            &&& sid.component == component
            &&& o.sequence_number == sequence_number
            &&& be.event_time == Some(time)
            &&& be.event == Some(event)
        },
{
}

/// The build tool's stream: request `i` is numbered `i + 1` in the tool's
/// stream of the build named by `ids`, is stamped with `now`, and carries
/// the `i`-th encoded event, byte for byte, in an `Any` of the Build Event
/// Stream type; the request after them, numbered one more, closes the
/// stream as finished.
pub proof fn lemma_tool_stream(
    r: Seq<PublishBuildToolEventStreamRequest>,
    ids: BesIds,
    encoded: Seq<Vec<u8>>,
    now: Timestamp,
)
    requires
        r.len() == encoded.len() + 1,
        forall|i: int|
            0 <= i < encoded.len() ==> bazel_event_request_spec(
                #[trigger] r[i],
                ids,
                i + 1,
                now,
                encoded[i]@,
            ),
        stream_finished_request_spec(r[encoded.len() as int], ids, encoded.len() + 1 as int, now),
    ensures
        forall|i: int|
            0 <= i < encoded.len() ==> ((#[trigger] r[i]).ordered_build_event matches Some(o)
                && o.stream_id matches Some(sid) && o.event matches Some(be) && be.event matches Some(
                Event::BazelEvent(any),
            ) && {
                &&& sid.build_id@ == ids.build_id@
                &&& sid.invocation_id@ == ids.invocation_id@
                &&& sid.component == BuildComponent::Tool
                &&& o.sequence_number == i + 1
                &&& be.event_time == Some(now)
                &&& any.type_url@ == "type.googleapis.com/build_event_stream.BuildEvent"@
                &&& any.value@ == encoded[i]@
                &&& r[i].project_id@ == ids.project_id@
            }),
        r[encoded.len() as int].ordered_build_event matches Some(o) && o.stream_id matches Some(sid)
            && o.event matches Some(be) && {
            &&& sid.build_id@ == ids.build_id@
            &&& sid.invocation_id@ == ids.invocation_id@
            &&& sid.component == BuildComponent::Tool
            &&& o.sequence_number == encoded.len() + 1
            &&& be.event_time == Some(now)
            &&& be.event == Some(Event::ComponentStreamFinished { finish_type: FinishType::Finished })
        },
{
    assert forall|i: int| 0 <= i < encoded.len() implies ((#[trigger] r[i]).ordered_build_event matches Some(o)
        && o.stream_id matches Some(sid) && o.event matches Some(be) && be.event matches Some(
        Event::BazelEvent(any),
    ) && {
        &&& sid.build_id@ == ids.build_id@
        &&& sid.invocation_id@ == ids.invocation_id@
        &&& sid.component == BuildComponent::Tool
        &&& o.sequence_number == i + 1
        &&& be.event_time == Some(now)
        &&& any.type_url@ == "type.googleapis.com/build_event_stream.BuildEvent"@
        &&& any.value@ == encoded[i]@
        &&& r[i].project_id@ == ids.project_id@
    }) by {
        assert(bazel_event_request_spec(r[i], ids, i + 1, now, encoded[i]@));
    }
}

} // verus!

