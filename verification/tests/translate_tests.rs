use buck2bes::buck_data::{
    BuckEvent, BuckEventData, CommandEnd, CommandStart, CommandStartData, ConsoleMessage,
    ConsoleWarning, InstantData, InstantEvent, RecordEvent, SpanEndData, SpanEndEvent,
    SpanStartData, SpanStartEvent,
};
use buck2bes::build_event_stream::{BuildEventId, BuildEventIdKind, Payload, ProgressId};
use buck2bes::protobuf::{add_duration, Duration, Timestamp};
use buck2bes::translate::{command_name, BuckEventTranslator};

fn make_timestamp(seconds: i64) -> Timestamp {
    Timestamp { seconds, nanos: 0 }
}

fn make_buck_event(trace_id: &str, timestamp: Timestamp, data: BuckEventData) -> BuckEvent {
    BuckEvent {
        timestamp: Some(timestamp),
        trace_id: trace_id.to_string(),
        span_id: 1,
        parent_id: 0,
        data: Some(data),
    }
}

fn command_start_event(trace_id: &str, timestamp: Timestamp, kind: Option<CommandStartData>) -> BuckEvent {
    make_buck_event(
        trace_id,
        timestamp,
        BuckEventData::SpanStart(SpanStartEvent {
            data: Some(SpanStartData::Command(CommandStart {
                cli_args: vec![],
                tags: vec![],
                data: kind,
            })),
        }),
    )
}

fn command_end_event(timestamp: Timestamp, duration: Option<Duration>, is_success: bool) -> BuckEvent {
    make_buck_event(
        "abc-123",
        timestamp,
        BuckEventData::SpanEnd(SpanEndEvent {
            duration,
            data: Some(SpanEndData::Command(CommandEnd { is_success })),
        }),
    )
}

fn console_message_event(message: &str) -> BuckEvent {
    make_buck_event(
        "abc-123",
        make_timestamp(1700000000),
        BuckEventData::Instant(InstantEvent {
            data: Some(InstantData::ConsoleMessage(ConsoleMessage { message: message.to_string() })),
        }),
    )
}

fn progress_count_of(id: &Option<BuildEventId>) -> i32 {
    match id {
        Some(BuildEventId { id: Some(BuildEventIdKind::Progress(p)) }) => p.opaque_count,
        other => panic!("Expected ProgressId, got {:?}", other),
    }
}

#[test]
fn test_command_start_produces_build_started() {
    let mut translator = BuckEventTranslator::new();
    let ts = make_timestamp(1700000000);
    let event = make_buck_event(
        "abc-123",
        ts.clone(),
        BuckEventData::SpanStart(SpanStartEvent {
            data: Some(SpanStartData::Command(CommandStart {
                cli_args: vec!["build".into(), "//...".into()],
                tags: vec![],
                data: Some(CommandStartData::Build),
            })),
        }),
    );

    let result = translator.translate(&event);
    assert_eq!(result.len(), 1);

    let bes_event = &result[0];
    match &bes_event.payload {
        Some(Payload::Started(started)) => {
            assert_eq!(started.uuid, "abc-123");
            assert_eq!(started.command, "build");
            assert_eq!(started.start_time, Some(ts));
        }
        other => panic!("Expected BuildStarted, got {:?}", other),
    }

    assert_eq!(bes_event.children.len(), 2);
}

#[test]
fn test_command_end_produces_build_finished() {
    let mut translator = BuckEventTranslator::new();

    // Send CommandStart first to initialize state
    let start_event = command_start_event("abc-123", make_timestamp(1700000000), Some(CommandStartData::Build));
    translator.translate(&start_event);

    // Now send CommandEnd
    let end_event = command_end_event(
        make_timestamp(1700000010),
        Some(Duration { seconds: 10, nanos: 0 }),
        true,
    );

    let result = translator.translate(&end_event);
    assert_eq!(result.len(), 1);

    let bes_event = &result[0];
    assert!(bes_event.last_message);
    match &bes_event.payload {
        Some(Payload::Finished(finished)) => {
            let exit = finished.exit_code.as_ref().unwrap();
            assert_eq!(exit.code, 0);
            assert_eq!(exit.name, "SUCCESS");
            let ft = finished.finish_time.as_ref().unwrap();
            assert_eq!(ft.seconds, 1700000010);
        }
        other => panic!("Expected BuildFinished, got {:?}", other),
    }
}

#[test]
fn test_console_message_produces_progress() {
    let mut translator = BuckEventTranslator::new();
    let event = console_message_event("Building target //foo:bar");

    let result = translator.translate(&event);
    assert_eq!(result.len(), 1);

    match &result[0].payload {
        Some(Payload::Progress(progress)) => {
            assert_eq!(progress.stderr, "Building target //foo:bar");
            assert!(progress.stdout.is_empty());
        }
        other => panic!("Expected Progress, got {:?}", other),
    }

    match &result[0].id.as_ref().unwrap().id {
        Some(BuildEventIdKind::Progress(p)) => assert_eq!(p.opaque_count, 1),
        other => panic!("Expected ProgressId, got {:?}", other),
    }
}

#[test]
fn test_progress_events_chain_sequentially() {
    let mut translator = BuckEventTranslator::new();

    for i in 1..=3 {
        let event = console_message_event(&format!("msg {i}"));
        let result = translator.translate(&event);
        let bes = &result[0];

        match &bes.id.as_ref().unwrap().id {
            Some(BuildEventIdKind::Progress(p)) => {
                assert_eq!(p.opaque_count, i as i32)
            }
            other => panic!("Expected ProgressId, got {:?}", other),
        }

        match &bes.children[0].id {
            Some(BuildEventIdKind::Progress(p)) => {
                assert_eq!(p.opaque_count, i as i32 + 1)
            }
            other => panic!("Expected ProgressId child, got {:?}", other),
        }
    }
}

#[test]
fn started_event_announces_progress_and_finished() {
    let mut translator = BuckEventTranslator::new();
    let result = translator.translate(&command_start_event("t", make_timestamp(5), Some(CommandStartData::Test)));
    let started = &result[0];
    assert_eq!(started.id, Some(BuildEventId { id: Some(BuildEventIdKind::Started) }));
    assert!(!started.last_message);
    assert_eq!(
        started.children,
        vec![
            BuildEventId { id: Some(BuildEventIdKind::Progress(ProgressId { opaque_count: 1 })) },
            BuildEventId { id: Some(BuildEventIdKind::BuildFinished) },
        ]
    );
    match &started.payload {
        Some(Payload::Started(s)) => {
            assert_eq!(s.command, "test");
            assert_eq!(s.uuid, "t");
            assert_eq!(s.start_time_millis, 0);
            assert_eq!(s.server_pid, 0);
            assert!(s.build_tool_version.is_empty());
            assert!(s.options_description.is_empty());
            assert!(s.working_directory.is_empty());
            assert!(s.workspace_directory.is_empty());
            assert!(s.host.is_empty());
            assert!(s.user.is_empty());
        }
        other => panic!("Expected BuildStarted, got {:?}", other),
    }

    // The first progress event has the identifier announced by BuildStarted.
    let progress = translator.translate(&console_message_event("hello"));
    assert_eq!(progress[0].id, Some(started.children[0]));

    // The BuildFinished event has the identifier announced by BuildStarted.
    let finished = translator.translate(&command_end_event(make_timestamp(9), None, true));
    assert_eq!(finished[0].id, Some(started.children[1]));
}

#[test]
fn progress_ids_skip_no_number_across_other_events() {
    let mut translator = BuckEventTranslator::new();
    let first = translator.translate(&console_message_event("a"));
    translator.translate(&command_start_event("x", make_timestamp(1), Some(CommandStartData::Build)));
    translator.translate(&command_end_event(make_timestamp(2), None, false));
    let second = translator.translate(&console_message_event("b"));
    assert_eq!(progress_count_of(&first[0].id), 1);
    assert_eq!(progress_count_of(&second[0].id), 2);
    assert_eq!(second[0].id, Some(first[0].children[0]));
}

#[test]
fn console_warning_produces_progress() {
    let mut translator = BuckEventTranslator::new();
    let event = make_buck_event(
        "abc-123",
        make_timestamp(1),
        BuckEventData::Instant(InstantEvent {
            data: Some(InstantData::ConsoleWarning(ConsoleWarning { message: "careful".to_string() })),
        }),
    );
    let result = translator.translate(&event);
    assert_eq!(result.len(), 1);
    assert!(!result[0].last_message);
    match &result[0].payload {
        Some(Payload::Progress(p)) => {
            assert_eq!(p.stderr, "careful");
            assert_eq!(p.stdout, "");
        }
        other => panic!("Expected Progress, got {:?}", other),
    }
    assert_eq!(progress_count_of(&result[0].id), 1);
    assert_eq!(progress_count_of(&Some(result[0].children[0])), 2);
    assert_eq!(result[0].children.len(), 1);
}

#[test]
fn events_without_equivalent_produce_nothing() {
    let mut translator = BuckEventTranslator::new();
    let no_data = BuckEvent {
        timestamp: None,
        trace_id: String::new(),
        span_id: 0,
        parent_id: 0,
        data: None,
    };
    assert!(translator.translate(&no_data).is_empty());
    let record = make_buck_event("r", make_timestamp(1), BuckEventData::Record(RecordEvent {}));
    assert!(translator.translate(&record).is_empty());
    let other_start = make_buck_event(
        "r",
        make_timestamp(1),
        BuckEventData::SpanStart(SpanStartEvent { data: Some(SpanStartData::Other) }),
    );
    assert!(translator.translate(&other_start).is_empty());
    let empty_start = make_buck_event("r", make_timestamp(1), BuckEventData::SpanStart(SpanStartEvent { data: None }));
    assert!(translator.translate(&empty_start).is_empty());
    let other_end = make_buck_event(
        "r",
        make_timestamp(1),
        BuckEventData::SpanEnd(SpanEndEvent { duration: None, data: Some(SpanEndData::Other) }),
    );
    assert!(translator.translate(&other_end).is_empty());
    let empty_end = make_buck_event(
        "r",
        make_timestamp(1),
        BuckEventData::SpanEnd(SpanEndEvent { duration: None, data: None }),
    );
    assert!(translator.translate(&empty_end).is_empty());
    let other_instant = make_buck_event(
        "r",
        make_timestamp(1),
        BuckEventData::Instant(InstantEvent { data: Some(InstantData::Other) }),
    );
    assert!(translator.translate(&other_instant).is_empty());
    let empty_instant = make_buck_event("r", make_timestamp(1), BuckEventData::Instant(InstantEvent { data: None }));
    assert!(translator.translate(&empty_instant).is_empty());

    // None of these moved the progress count.
    let progress = translator.translate(&console_message_event("m"));
    assert_eq!(progress_count_of(&progress[0].id), 1);
}

#[test]
fn failed_command_reports_build_failure() {
    let mut translator = BuckEventTranslator::new();
    translator.translate(&command_start_event("abc-123", Timestamp { seconds: 100, nanos: 600_000_000 }, None));
    let result = translator.translate(&command_end_event(
        make_timestamp(200),
        Some(Duration { seconds: 3, nanos: 500_000_000 }),
        false,
    ));
    match &result[0].payload {
        Some(Payload::Finished(finished)) => {
            assert!(!finished.overall_success);
            let exit = finished.exit_code.as_ref().unwrap();
            assert_eq!(exit.code, 1);
            assert_eq!(exit.name, "BUILD_FAILURE");
            assert_eq!(finished.finish_time, Some(Timestamp { seconds: 104, nanos: 100_000_000 }));
            assert_eq!(finished.finish_time_millis, 0);
        }
        other => panic!("Expected BuildFinished, got {:?}", other),
    }
    assert!(result[0].children.is_empty());
    assert!(result[0].last_message);
}

#[test]
fn finish_time_falls_back_to_event_timestamp() {
    // No command start: no start timestamp is known.
    let mut translator = BuckEventTranslator::new();
    let result = translator.translate(&command_end_event(
        make_timestamp(1700000042),
        Some(Duration { seconds: 10, nanos: 0 }),
        true,
    ));
    match &result[0].payload {
        Some(Payload::Finished(finished)) => {
            assert_eq!(finished.finish_time, Some(make_timestamp(1700000042)));
            assert!(finished.overall_success);
        }
        other => panic!("Expected BuildFinished, got {:?}", other),
    }

    // A command start, but a command end without a duration.
    let mut translator = BuckEventTranslator::new();
    translator.translate(&command_start_event("abc-123", make_timestamp(1), None));
    let result = translator.translate(&command_end_event(make_timestamp(77), None, true));
    match &result[0].payload {
        Some(Payload::Finished(finished)) => assert_eq!(finished.finish_time, Some(make_timestamp(77))),
        other => panic!("Expected BuildFinished, got {:?}", other),
    }
}

#[test]
fn command_names_follow_the_command_kind() {
    let cases = [
        (Some(CommandStartData::Build), "build"),
        (Some(CommandStartData::Test), "test"),
        (Some(CommandStartData::Targets), "targets"),
        (Some(CommandStartData::Query), "query"),
        (Some(CommandStartData::Cquery), "cquery"),
        (Some(CommandStartData::Aquery), "aquery"),
        (Some(CommandStartData::Audit), "audit"),
        (Some(CommandStartData::Docs), "docs"),
        (Some(CommandStartData::Clean), "clean"),
        (Some(CommandStartData::Install), "install"),
        (Some(CommandStartData::Materialize), "materialize"),
        (Some(CommandStartData::Profile), "profile"),
        (Some(CommandStartData::Bxl), "bxl"),
        (Some(CommandStartData::Lsp), "lsp"),
        (Some(CommandStartData::FileStatus), "file_status"),
        (Some(CommandStartData::Starlark), "starlark"),
        (Some(CommandStartData::Subscribe), "subscribe"),
        (Some(CommandStartData::Trace), "trace"),
        (Some(CommandStartData::Ctargets), "ctargets"),
        (Some(CommandStartData::StarlarkDebugAttach), "starlark_debug_attach"),
        (Some(CommandStartData::Explain), "explain"),
        (Some(CommandStartData::ExpandExternalCell), "expand_external_cell"),
        (Some(CommandStartData::Complete), "complete"),
        (None, "unknown"),
    ];
    for (kind, name) in cases {
        let cmd = CommandStart { cli_args: vec![], tags: vec![], data: kind };
        assert_eq!(command_name(&cmd), name);
    }
}

#[test]
fn add_duration_carries_and_borrows() {
    let plain = add_duration(&Timestamp { seconds: 10, nanos: 100 }, &Duration { seconds: 5, nanos: 200 });
    assert_eq!(plain, Timestamp { seconds: 15, nanos: 300 });

    let carry = add_duration(
        &Timestamp { seconds: 10, nanos: 900_000_000 },
        &Duration { seconds: 1, nanos: 200_000_000 },
    );
    assert_eq!(carry, Timestamp { seconds: 12, nanos: 100_000_000 });

    let exact = add_duration(
        &Timestamp { seconds: 0, nanos: 999_999_999 },
        &Duration { seconds: 0, nanos: 1 },
    );
    assert_eq!(exact, Timestamp { seconds: 1, nanos: 0 });

    let borrow = add_duration(
        &Timestamp { seconds: 10, nanos: 100_000_000 },
        &Duration { seconds: -1, nanos: -300_000_000 },
    );
    assert_eq!(borrow, Timestamp { seconds: 8, nanos: 800_000_000 });
}

#[test]
fn add_duration_keeps_total_nanoseconds() {
    let ts = Timestamp { seconds: 1_700_000_000, nanos: 750_000_000 };
    let dur = Duration { seconds: -2, nanos: -900_000_000 };
    let r = add_duration(&ts, &dur);
    let total = |s: i64, n: i32| s as i128 * 1_000_000_000 + n as i128;
    assert_eq!(total(r.seconds, r.nanos), total(ts.seconds, ts.nanos) + total(dur.seconds, dur.nanos));
    assert!(0 <= r.nanos && r.nanos < 1_000_000_000);
}

#[test]
fn accepts_refuses_an_overflowing_finish_time() {
    let mut translator = BuckEventTranslator::new();
    translator.translate(&command_start_event("abc", make_timestamp(i64::MAX), None));
    let overflowing = command_end_event(make_timestamp(1), Some(Duration { seconds: 1, nanos: 0 }), true);
    assert!(!translator.accepts(&overflowing));
    let fine = command_end_event(make_timestamp(1), Some(Duration { seconds: -1, nanos: 0 }), true);
    assert!(translator.accepts(&fine));
    assert!(translator.accepts(&console_message_event("x")));
    let result = translator.translate(&fine);
    match &result[0].payload {
        Some(Payload::Finished(finished)) => {
            assert_eq!(finished.finish_time, Some(make_timestamp(i64::MAX - 1)))
        }
        other => panic!("Expected BuildFinished, got {:?}", other),
    }
}

#[test]
fn finish_time_survives_events_between_start_and_end() {
    let mut translator = BuckEventTranslator::new();
    let started = translator.translate(&command_start_event(
        "abc-123",
        Timestamp { seconds: 1000, nanos: 900_000_000 },
        Some(CommandStartData::Build),
    ));
    // Events between the command start and its end.
    let first = translator.translate(&console_message_event("one"));
    translator.translate(&command_end_event(make_timestamp(5), None, true));
    let second = translator.translate(&console_message_event("two"));
    let result = translator.translate(&command_end_event(
        make_timestamp(2000),
        Some(Duration { seconds: 20, nanos: 200_000_000 }),
        true,
    ));
    // BuildStarted announced the first progress event and the BuildFinished event.
    assert_eq!(first[0].id, Some(started[0].children[0]));
    assert_eq!(second[0].id, Some(first[0].children[0]));
    assert_eq!(result[0].id, Some(started[0].children[1]));
    match &result[0].payload {
        Some(Payload::Finished(finished)) => {
            assert_eq!(finished.finish_time, Some(Timestamp { seconds: 1021, nanos: 100_000_000 }))
        }
        other => panic!("Expected BuildFinished, got {:?}", other),
    }
}

#[test]
fn distinct_command_kinds_get_distinct_names() {
    let kinds = [
        Some(CommandStartData::Build),
        Some(CommandStartData::Test),
        Some(CommandStartData::Ctargets),
        Some(CommandStartData::Complete),
        Some(CommandStartData::Starlark),
        Some(CommandStartData::StarlarkDebugAttach),
        Some(CommandStartData::Explain),
        Some(CommandStartData::ExpandExternalCell),
        None,
    ];
    let names: Vec<String> = kinds
        .iter()
        .map(|k| command_name(&CommandStart { cli_args: vec![], tags: vec![], data: *k }))
        .collect();
    for i in 0..names.len() {
        for j in 0..names.len() {
            assert_eq!(names[i] == names[j], i == j);
        }
    }
}
