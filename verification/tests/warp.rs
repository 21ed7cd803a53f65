use jcode_kit::payload::{emit, osc_sequence, payload_members, WarpNotification, PROTOCOL_VERSION};
use jcode_kit::session::{App, DisplayMessage};
use jcode_kit::test_sink::TestSink;
use jcode_kit::text::truncate;
use jcode_kit::warp_agent::{
    agent_identity, announce_session_start, cwd_string, decide_transition, integration_active,
    note_blocked, note_turn_failed, project_from_cwd, reset_for_tests, sync_processing,
    warp_supports_structured, EmitterState, EmitterStateSnapshot, WarpAgentState, WarpSettings,
    WarpSyncContext,
};

fn in_warp() -> WarpSettings {
    WarpSettings {
        protocol_version: Some("1".to_string()),
        cli_agent_integration: true,
        cli_agent_identity: "pi".to_string(),
        plugin_version: "0.9.1".to_string(),
    }
}

fn json_of(sequence: &str) -> serde_json::Value {
    let body = sequence.strip_prefix("\x1b]777;notify;warp://cli-agent;").unwrap();
    let body = body.strip_suffix('\x07').unwrap();
    serde_json::from_str(body).unwrap()
}

fn notification_json(n: &WarpNotification<'_>) -> serde_json::Value {
    let mut sequences = Vec::new();
    emit(&mut sequences, n);
    assert_eq!(sequences.len(), 1);
    json_of(&sequences[0])
}

fn event_names(sequences: &[String]) -> Vec<String> {
    sequences.iter().map(|s| json_of(s)["event"].as_str().unwrap().to_string()).collect()
}

fn bare(event: &str) -> WarpNotification<'_> {
    WarpNotification {
        v: PROTOCOL_VERSION,
        agent: "pi",
        event,
        session_id: None,
        cwd: None,
        project: None,
        query: None,
        response: None,
        summary: None,
        plugin_version: None,
        error_type: None,
    }
}

#[test]
fn payload_matches_warp_schema_and_skips_none() {
    let n = WarpNotification {
        v: PROTOCOL_VERSION,
        agent: "pi",
        event: "stop",
        session_id: Some("sess-1"),
        cwd: Some("/home/u/proj".to_string()),
        project: Some("proj".to_string()),
        query: Some("do the thing".to_string()),
        response: Some("done".to_string()),
        summary: None,
        plugin_version: None,
        error_type: None,
    };
    let v = notification_json(&n);
    assert_eq!(v["v"], 1);
    assert_eq!(v["agent"], "pi");
    assert_eq!(v["event"], "stop");
    assert_eq!(v["session_id"], "sess-1");
    assert_eq!(v["cwd"], "/home/u/proj");
    assert_eq!(v["project"], "proj");
    assert_eq!(v["query"], "do the thing");
    assert_eq!(v["response"], "done");
    // Fields without a value are dropped entirely.
    assert!(v.get("summary").is_none());
    assert!(v.get("plugin_version").is_none());
    assert!(v.get("error_type").is_none());
}

#[test]
fn truncate_adds_ellipsis_only_when_needed() {
    assert_eq!(truncate("short", 200), "short");
    let long = "x".repeat(500);
    let out = truncate(&long, 200);
    assert_eq!(out.chars().count(), 200);
    assert!(out.ends_with("..."));
}

#[test]
fn project_is_basename_of_cwd() {
    assert_eq!(project_from_cwd(Some("/a/b/myproj")), Some("myproj".to_string()));
    assert_eq!(project_from_cwd(None), None);
}

#[test]
fn event_names_match_protocol() {
    // Guard against accidental renames: these strings are Warp's wire contract.
    let cases = [
        (WarpAgentState::Working, "prompt_submit"),
        (WarpAgentState::Idle, "stop"),
        (WarpAgentState::Failed, "stop_failure"),
        (WarpAgentState::Blocked, "permission_request"),
    ];
    for (state, expected) in cases {
        let event = match state {
            WarpAgentState::Working => "prompt_submit",
            WarpAgentState::Idle => "stop",
            WarpAgentState::Failed => "stop_failure",
            WarpAgentState::Blocked => "permission_request",
        };
        assert_eq!(event, expected);
        // The machine agrees, from within a turn that is in another state.
        let from = if state == WarpAgentState::Working {
            WarpAgentState::Blocked
        } else {
            WarpAgentState::Working
        };
        let prev = EmitterStateSnapshot {
            session_started: true,
            last_state: Some(from),
            ..fresh()
        };
        assert_eq!(decide_transition(prev, state).event, Some(expected));
    }
}

// ---- decide_transition: the core state machine ----

fn fresh() -> EmitterStateSnapshot {
    EmitterStateSnapshot::default()
}

#[test]
fn first_working_emits_session_start_then_prompt_submit() {
    let d = decide_transition(fresh(), WarpAgentState::Working);
    assert!(d.emit_session_start, "handshake must precede first event");
    assert_eq!(d.event, Some("prompt_submit"));
    assert!(!d.is_failure);
    assert_eq!(d.next.last_state, Some(WarpAgentState::Working));
    assert!(d.next.session_started);
}

#[test]
fn idle_before_any_turn_emits_handshake_but_no_stop() {
    // Startup announce path: first observed state is Idle. Warp must not show a phantom success.
    let d = decide_transition(fresh(), WarpAgentState::Idle);
    assert!(d.emit_session_start);
    assert_eq!(d.event, None, "no stop before any turn ran");
    assert_eq!(d.next.last_state, Some(WarpAgentState::Idle));
}

#[test]
fn working_then_idle_emits_stop() {
    let after_start = decide_transition(fresh(), WarpAgentState::Working).next;
    let d = decide_transition(after_start, WarpAgentState::Idle);
    assert!(!d.emit_session_start, "handshake already sent");
    assert_eq!(d.event, Some("stop"));
    assert!(!d.is_failure);
}

#[test]
fn failure_latch_turns_idle_into_stop_failure() {
    let working = decide_transition(fresh(), WarpAgentState::Working).next;
    // note_turn_failed() sets pending_failure while still "working".
    let latched = EmitterStateSnapshot { pending_failure: true, ..working };
    let d = decide_transition(latched, WarpAgentState::Idle);
    assert_eq!(d.event, Some("stop_failure"));
    assert!(d.is_failure);
    assert!(!d.next.pending_failure, "latch consumed");
}

#[test]
fn duplicate_working_is_suppressed() {
    let working = decide_transition(fresh(), WarpAgentState::Working).next;
    let d = decide_transition(working, WarpAgentState::Working);
    assert!(!d.emit_session_start);
    assert_eq!(d.event, None, "no duplicate prompt_submit");
}

#[test]
fn blocked_then_idle_emits_stop() {
    let working = decide_transition(fresh(), WarpAgentState::Working).next;
    let blocked = decide_transition(working, WarpAgentState::Blocked);
    assert_eq!(blocked.event, Some("permission_request"));
    let d = decide_transition(blocked.next, WarpAgentState::Idle);
    // A blocked->idle transition counts as a completed turn.
    assert_eq!(d.event, Some("stop"));
}

#[test]
fn repeated_idle_between_turns_is_silent() {
    // working -> idle (stop), then idle again should not re-emit stop.
    let working = decide_transition(fresh(), WarpAgentState::Working).next;
    let idle = decide_transition(working, WarpAgentState::Idle).next;
    let d = decide_transition(idle, WarpAgentState::Idle);
    assert_eq!(d.event, None);
    assert!(!d.emit_session_start);
}

#[test]
fn second_turn_after_idle_emits_prompt_submit() {
    let working = decide_transition(fresh(), WarpAgentState::Working).next;
    let idle = decide_transition(working, WarpAgentState::Idle).next;
    let d = decide_transition(idle, WarpAgentState::Working);
    assert_eq!(d.event, Some("prompt_submit"));
    assert!(!d.emit_session_start);
}

// ---- end-to-end through the real emission path into the capture sink ----

fn capture_all(sink: &mut TestSink, sequences: Vec<String>) {
    for sequence in &sequences {
        assert!(sink.capture(sequence));
    }
}

#[test]
fn end_to_end_emission_through_real_path() {
    let mut emitter = EmitterState::default();
    let mut sink = TestSink::new();
    let settings = in_warp();

    // Scenario A: successful turn lifecycle.
    sink.start(&mut emitter);
    let ctx = WarpSyncContext {
        session_id: Some("sess-e2e"),
        query: Some("hello"),
        response: Some("world"),
        ..Default::default()
    };
    // session_start, no phantom stop
    capture_all(
        &mut sink,
        announce_session_start(&mut emitter, &settings, Some("sess-e2e"), None),
    );
    capture_all(&mut sink, sync_processing(&mut emitter, &settings, true, &ctx)); // prompt_submit
    capture_all(&mut sink, sync_processing(&mut emitter, &settings, false, &ctx)); // stop
    let events: Vec<String> = sink.events().into_iter().map(|(e, _)| e).collect();
    assert_eq!(
        events,
        vec!["session_start".to_string(), "prompt_submit".to_string(), "stop".to_string()],
        "expected handshake, then working, then success"
    );

    // Scenario B: failed turn latches into stop_failure.
    sink.start(&mut emitter);
    let ctx = WarpSyncContext { session_id: Some("sess-fail"), ..Default::default() };
    capture_all(&mut sink, sync_processing(&mut emitter, &settings, true, &ctx));
    note_turn_failed(&mut emitter, &settings); // latch failure
    capture_all(&mut sink, sync_processing(&mut emitter, &settings, false, &ctx));
    let events: Vec<String> = sink.events().into_iter().map(|(e, _)| e).collect();
    assert_eq!(
        events,
        vec!["session_start".to_string(), "prompt_submit".to_string(), "stop_failure".to_string()]
    );

    // Scenario C: outside Warp nothing is emitted.
    let outside = WarpSettings { protocol_version: None, ..in_warp() };
    sink.start(&mut emitter);
    let ctx = WarpSyncContext::default();
    capture_all(
        &mut sink,
        announce_session_start(&mut emitter, &outside, Some("sess-off"), None),
    );
    capture_all(&mut sink, sync_processing(&mut emitter, &outside, true, &ctx));
    capture_all(&mut sink, sync_processing(&mut emitter, &outside, false, &ctx));
    assert!(sink.events().is_empty(), "no events should be emitted outside Warp");
}

// ---- the wire ----

#[test]
fn sequence_is_framed_as_osc_777() {
    assert_eq!(osc_sequence("{}"), "\x1b]777;notify;warp://cli-agent;{}\x07");
    let mut sequences = vec!["before".to_string()];
    emit(&mut sequences, &bare("stop"));
    assert_eq!(sequences.len(), 2);
    assert_eq!(sequences[0], "before");
    assert_eq!(
        sequences[1],
        "\x1b]777;notify;warp://cli-agent;{\"v\":1,\"agent\":\"pi\",\"event\":\"stop\"}\x07"
    );
}

#[test]
fn members_keep_wire_order() {
    let n = WarpNotification {
        v: PROTOCOL_VERSION,
        agent: "a",
        event: "e",
        session_id: Some("s"),
        cwd: Some("c".to_string()),
        project: Some("p".to_string()),
        query: Some("q".to_string()),
        response: Some("r".to_string()),
        summary: Some("m".to_string()),
        plugin_version: Some("w"),
        error_type: Some("x"),
    };
    let keys: Vec<String> = payload_members(&n).into_iter().map(|(key, _)| key).collect();
    assert_eq!(
        keys,
        [
            "agent",
            "event",
            "session_id",
            "cwd",
            "project",
            "query",
            "response",
            "summary",
            "plugin_version",
            "error_type"
        ]
    );
    let mut sequences = Vec::new();
    emit(&mut sequences, &n);
    assert_eq!(
        sequences[0],
        "\x1b]777;notify;warp://cli-agent;{\"v\":1,\"agent\":\"a\",\"event\":\"e\",\
         \"session_id\":\"s\",\"cwd\":\"c\",\"project\":\"p\",\"query\":\"q\",\
         \"response\":\"r\",\"summary\":\"m\",\"plugin_version\":\"w\",\"error_type\":\"x\"}\x07"
    );
}

#[test]
fn control_characters_cannot_end_a_sequence() {
    let mut n = bare("stop");
    n.query = Some("bell \x07 esc \x1b newline \n tab \t nul \0 quote \" back \\ end".to_string());
    let mut sequences = Vec::new();
    emit(&mut sequences, &n);
    let chars: Vec<char> = sequences[0].chars().collect();
    assert_eq!(chars[0], '\x1b');
    assert_eq!(chars[chars.len() - 1], '\x07');
    assert!(chars[1..chars.len() - 1].iter().all(|c| *c >= ' '));
    assert_eq!(json_of(&sequences[0])["query"].as_str().map(str::to_string), n.query);
}

// ---- settings ----

#[test]
fn settings_decide_whether_the_integration_runs() {
    let on = in_warp();
    assert!(warp_supports_structured(&on));
    assert!(integration_active(&on));
    // The variable's mere presence is the signal.
    let blank = WarpSettings { protocol_version: Some(String::new()), ..in_warp() };
    assert!(warp_supports_structured(&blank));
    let disabled = WarpSettings { cli_agent_integration: false, ..in_warp() };
    assert!(warp_supports_structured(&disabled));
    assert!(!integration_active(&disabled));
    let outside = WarpSettings { protocol_version: None, ..in_warp() };
    assert!(!warp_supports_structured(&outside));
    assert!(!integration_active(&outside));
}

#[test]
fn identity_is_trimmed_and_falls_back() {
    let named = |name: &str| WarpSettings { cli_agent_identity: name.to_string(), ..in_warp() };
    assert_eq!(agent_identity(&named("bot")), "bot");
    assert_eq!(agent_identity(&named("  my bot\t\n")), "my bot");
    assert_eq!(agent_identity(&named("\u{3000}x\u{a0}")), "x");
    assert_eq!(agent_identity(&named("")), "pi");
    assert_eq!(agent_identity(&named(" \t ")), "pi");
}

#[test]
fn inactive_integration_is_silent_and_forgets() {
    let disabled = WarpSettings { cli_agent_integration: false, ..in_warp() };
    let mut emitter = EmitterState::default();
    let ctx = WarpSyncContext::default();
    assert!(announce_session_start(&mut emitter, &disabled, Some("s"), None).is_empty());
    assert!(sync_processing(&mut emitter, &disabled, true, &ctx).is_empty());
    assert!(note_blocked(&mut emitter, &disabled, Some("why")).is_empty());
    assert!(!emitter.session_started);
    assert_eq!(emitter.last_state, None);
    assert_eq!(emitter.pending_blocked, None);
    // The failure latch goes by Warp's presence alone.
    note_turn_failed(&mut emitter, &disabled);
    assert!(emitter.pending_failure);
    let outside = WarpSettings { protocol_version: None, ..in_warp() };
    reset_for_tests(&mut emitter);
    note_turn_failed(&mut emitter, &outside);
    assert!(!emitter.pending_failure);
}

// ---- working directories ----

#[test]
fn project_names() {
    assert_eq!(project_from_cwd(Some("/a/b/")), Some("b".to_string()));
    assert_eq!(project_from_cwd(Some("/")), None);
    assert_eq!(project_from_cwd(Some("..")), None);
    assert_eq!(project_from_cwd(Some("proj")), Some("proj".to_string()));
    assert_eq!(project_from_cwd(Some("")), None);
    assert_eq!(cwd_string(Some("/a/b/")), Some("/a/b/".to_string()));
    assert_eq!(cwd_string(None), None);
}

// ---- truncation ----

#[test]
fn truncation_edges() {
    // Trimmed before it is measured.
    assert_eq!(truncate("  padded \n", 200), "padded");
    assert_eq!(truncate(&format!("{}{}", "y".repeat(197), " ".repeat(50)), 200), "y".repeat(197));
    // A text that fits is left whole, up to the last character.
    assert_eq!(truncate("hello", 5), "hello");
    assert_eq!(truncate(&"y".repeat(198), 200), "y".repeat(198));
    assert_eq!(truncate(&"y".repeat(200), 200), "y".repeat(200));
    assert_eq!(truncate(&"y".repeat(201), 200), format!("{}...", "y".repeat(197)));
    // Characters count, not bytes.
    assert_eq!(truncate(&"\u{e9}".repeat(200), 200), "\u{e9}".repeat(200));
    assert_eq!(truncate(&"\u{e9}".repeat(300), 200), format!("{}...", "\u{e9}".repeat(197)));
    // Limits that barely hold the ellipsis, or do not.
    assert_eq!(truncate("abcde", 4), "a...");
    assert_eq!(truncate("abcd", 4), "abcd");
    assert_eq!(truncate("abc", 3), "abc");
    assert_eq!(truncate("abcd", 3), "...");
    assert_eq!(truncate("abc", 0), "...");
    assert_eq!(truncate("", 0), "");
}

// ---- runs ----

#[test]
fn handshake_carries_the_version_and_comes_once() {
    let settings = in_warp();
    let mut emitter = EmitterState::default();
    let first = announce_session_start(&mut emitter, &settings, Some("s-1"), Some("/w/proj"));
    assert_eq!(first.len(), 1);
    let v = json_of(&first[0]);
    assert_eq!(v["event"], "session_start");
    assert_eq!(v["agent"], "pi");
    assert_eq!(v["session_id"], "s-1");
    assert_eq!(v["cwd"], "/w/proj");
    assert_eq!(v["project"], "proj");
    assert_eq!(v["plugin_version"], "0.9.1");
    assert!(v.get("query").is_none());
    assert!(announce_session_start(&mut emitter, &settings, Some("s-1"), None).is_empty());
    let ctx = WarpSyncContext::default();
    assert_eq!(event_names(&sync_processing(&mut emitter, &settings, true, &ctx)), [
        "prompt_submit"
    ]);
}

#[test]
fn turns_report_their_texts() {
    let settings = in_warp();
    let mut emitter = EmitterState::default();
    let long = "r".repeat(400);
    let ctx = WarpSyncContext {
        session_id: Some("s"),
        cwd: Some("/w/proj"),
        query: Some("  why?  "),
        response: Some(&long),
    };
    let begin = sync_processing(&mut emitter, &settings, true, &ctx);
    assert_eq!(event_names(&begin), ["session_start", "prompt_submit"]);
    let v = json_of(&begin[1]);
    assert_eq!(v["query"], "why?");
    assert!(v.get("response").is_none());
    assert!(v.get("plugin_version").is_none());
    assert_eq!(v["project"], "proj");
    let end = sync_processing(&mut emitter, &settings, false, &ctx);
    assert_eq!(event_names(&end), ["stop"]);
    let v = json_of(&end[0]);
    assert_eq!(v["response"].as_str().unwrap(), format!("{}...", "r".repeat(197)));
    assert!(v.get("error_type").is_none());
}

#[test]
fn repeated_ticks_are_silent() {
    let settings = in_warp();
    let mut emitter = EmitterState::default();
    let ctx = WarpSyncContext::default();
    assert_eq!(event_names(&sync_processing(&mut emitter, &settings, false, &ctx)), [
        "session_start"
    ]);
    assert!(sync_processing(&mut emitter, &settings, false, &ctx).is_empty());
    assert_eq!(sync_processing(&mut emitter, &settings, true, &ctx).len(), 1);
    assert!(sync_processing(&mut emitter, &settings, true, &ctx).is_empty());
    assert_eq!(sync_processing(&mut emitter, &settings, false, &ctx).len(), 1);
    assert!(sync_processing(&mut emitter, &settings, false, &ctx).is_empty());
}

#[test]
fn blocks_name_their_reason_every_time() {
    let settings = in_warp();
    let mut emitter = EmitterState::default();
    let first = note_blocked(&mut emitter, &settings, Some("Run rm?"));
    assert_eq!(event_names(&first), ["session_start", "permission_request"]);
    assert_eq!(json_of(&first[1])["summary"], "Run rm?");
    assert_eq!(emitter.pending_blocked, Some("Run rm?".to_string()));
    let second = note_blocked(&mut emitter, &settings, None);
    assert_eq!(event_names(&second), ["permission_request"]);
    assert_eq!(json_of(&second[0])["summary"], "Waiting for your input");
    let ctx = WarpSyncContext::default();
    let end = sync_processing(&mut emitter, &settings, false, &ctx);
    assert_eq!(event_names(&end), ["stop"]);
    assert!(json_of(&end[0]).get("summary").is_none());
    assert_eq!(emitter.pending_blocked, None);
}

#[test]
fn failure_outlives_a_block_and_ends_with_its_turn() {
    let settings = in_warp();
    let mut emitter = EmitterState::default();
    let ctx = WarpSyncContext::default();
    sync_processing(&mut emitter, &settings, true, &ctx);
    note_turn_failed(&mut emitter, &settings);
    note_blocked(&mut emitter, &settings, None);
    let end = sync_processing(&mut emitter, &settings, false, &ctx);
    assert_eq!(event_names(&end), ["stop_failure"]);
    assert_eq!(json_of(&end[0])["error_type"], "error");
    assert!(sync_processing(&mut emitter, &settings, false, &ctx).is_empty());
    sync_processing(&mut emitter, &settings, true, &ctx);
    assert_eq!(event_names(&sync_processing(&mut emitter, &settings, false, &ctx)), ["stop"]);
}

#[test]
fn failure_noted_between_turns_is_dropped() {
    let settings = in_warp();
    let mut emitter = EmitterState::default();
    let ctx = WarpSyncContext::default();
    sync_processing(&mut emitter, &settings, false, &ctx);
    note_turn_failed(&mut emitter, &settings);
    assert!(sync_processing(&mut emitter, &settings, false, &ctx).is_empty());
    sync_processing(&mut emitter, &settings, true, &ctx);
    assert!(!emitter.pending_failure);
    assert_eq!(event_names(&sync_processing(&mut emitter, &settings, false, &ctx)), ["stop"]);
}

#[test]
fn reported_failure_carries_the_error() {
    let d = decide_transition(fresh(), WarpAgentState::Failed);
    assert_eq!(d.event, Some("stop_failure"));
    assert!(d.is_failure);
    assert!(d.emit_session_start);
    let again = decide_transition(d.next, WarpAgentState::Failed);
    assert_eq!(again.event, None);
    assert!(!again.is_failure);
    assert_eq!(again.next, d.next);
}

// ---- the sink ----

#[test]
fn sink_captures_only_while_started() {
    let mut emitter = EmitterState::default();
    let mut sink = TestSink::new();
    assert!(!sink.capture("lost"));
    assert!(sink.take().is_empty());
    emitter.session_started = true;
    sink.start(&mut emitter);
    assert!(!emitter.session_started);
    assert!(sink.capture("kept"));
    assert_eq!(sink.take(), ["kept"]);
    assert!(!sink.capture("lost"));
}

#[test]
fn sink_parses_events_and_skips_the_rest() {
    let mut emitter = EmitterState::default();
    let mut sink = TestSink::new();
    sink.start(&mut emitter);
    let mut sequences = Vec::new();
    emit(&mut sequences, &bare("stop"));
    capture_all(&mut sink, sequences);
    // No BEL, no agent.
    assert!(sink.capture("\x1b]777;notify;warp://cli-agent;{\"event\":\"x\"}"));
    // No event, no text, no JSON, another title.
    assert!(sink.capture("\x1b]777;notify;warp://cli-agent;{\"agent\":\"pi\"}\x07"));
    assert!(sink.capture("\x1b]777;notify;warp://cli-agent;{\"event\":3}\x07"));
    assert!(sink.capture("\x1b]777;notify;warp://cli-agent;oops\x07"));
    assert!(sink.capture("\x1b]777;notify;other;{\"event\":\"x\"}\x07"));
    assert!(sink.capture(""));
    assert_eq!(
        sink.events(),
        [("stop".to_string(), "pi".to_string()), ("x".to_string(), String::new())]
    );
    assert!(sink.events().is_empty());
}

// ---- the session bridge ----

fn message(role: &str, content: &str) -> DisplayMessage {
    DisplayMessage { role: role.to_string(), content: content.to_string() }
}

fn app() -> App {
    App {
        is_replay: false,
        is_processing: true,
        active_client_session_id: Some("sess".to_string()),
        last_submitted_input: Some("ask".to_string()),
        display_messages: vec![
            message("assistant", "old answer"),
            message("user", "ask"),
            message("assistant", "answer"),
            message("assistant", " \n "),
            message("tool", "output"),
        ],
    }
}

#[test]
fn context_takes_the_latest_answer() {
    let ctx = app().warp_sync_context(Some("/w/p"));
    assert_eq!(ctx.session_id, Some("sess".to_string()));
    assert_eq!(ctx.cwd, Some("/w/p".to_string()));
    assert_eq!(ctx.query, Some("ask".to_string()));
    assert_eq!(ctx.response, Some("answer".to_string()));
    let silent = App {
        display_messages: vec![message("user", "ask"), message("assistant", "  ")],
        active_client_session_id: None,
        last_submitted_input: None,
        ..app()
    };
    let ctx = silent.warp_sync_context(None);
    assert_eq!(ctx.response, None);
    assert_eq!(ctx.session_id, None);
    assert_eq!(ctx.cwd, None);
    assert_eq!(ctx.query, None);
}

#[test]
fn bridge_reports_the_processing_state() {
    let settings = in_warp();
    let mut emitter = EmitterState::default();
    let mut app = app();
    let hello = app.announce_warp_agent_session_start(&mut emitter, &settings, Some("/w/p"));
    assert_eq!(event_names(&hello), ["session_start"]);
    assert_eq!(json_of(&hello[0])["session_id"], "sess");
    assert_eq!(json_of(&hello[0])["project"], "p");
    let begin = app.sync_warp_agent(&mut emitter, &settings, Some("/w/p"));
    assert_eq!(event_names(&begin), ["prompt_submit"]);
    assert_eq!(json_of(&begin[0])["query"], "ask");
    app.is_processing = false;
    let end = app.sync_warp_agent(&mut emitter, &settings, Some("/w/p"));
    assert_eq!(event_names(&end), ["stop"]);
    assert_eq!(json_of(&end[0])["response"], "answer");
}

#[test]
fn replay_never_writes() {
    let settings = in_warp();
    let mut emitter = EmitterState::default();
    let replay = App { is_replay: true, ..app() };
    assert!(replay.announce_warp_agent_session_start(&mut emitter, &settings, None).is_empty());
    assert!(replay.sync_warp_agent(&mut emitter, &settings, None).is_empty());
    assert!(!emitter.session_started);
    assert_eq!(emitter.last_state, None);
}

#[test]
fn failure_outlives_ticks_of_its_turn() {
    let settings = in_warp();
    let mut emitter = EmitterState::default();
    let ctx = WarpSyncContext::default();
    sync_processing(&mut emitter, &settings, true, &ctx);
    note_turn_failed(&mut emitter, &settings);
    for _ in 0..3 {
        assert!(sync_processing(&mut emitter, &settings, true, &ctx).is_empty());
        assert!(announce_session_start(&mut emitter, &settings, None, None).is_empty());
    }
    assert_eq!(
        event_names(&sync_processing(&mut emitter, &settings, false, &ctx)),
        ["stop_failure"]
    );
}

#[test]
fn turns_alternate_over_a_run() {
    let settings = in_warp();
    let mut emitter = EmitterState::default();
    let ctx = WarpSyncContext::default();
    let mut events = Vec::new();
    note_turn_failed(&mut emitter, &settings);
    for (is_processing, fails) in [
        (false, false),
        (true, false),
        (true, true),
        (false, true),
        (false, false),
        (true, false),
        (false, false),
        (true, true),
        (false, false),
    ] {
        let told = sync_processing(&mut emitter, &settings, is_processing, &ctx);
        events.extend(event_names(&told));
        if fails {
            note_turn_failed(&mut emitter, &settings);
        }
    }
    assert_eq!(
        events,
        [
            "session_start",
            "prompt_submit",
            "stop_failure",
            "prompt_submit",
            "stop",
            "prompt_submit",
            "stop_failure"
        ]
    );
}
