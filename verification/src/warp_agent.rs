//! Warp terminal third-party CLI-agent integration.
//!
//! Inside [Warp](https://warp.dev) jcode presents itself as a first-class CLI coding agent: Warp
//! shows a per-tab working/done/blocked status and fires notifications when a turn finishes or
//! needs attention. Warp drives all of this from the notifications of [`crate::payload`].
//!
//! The integration is inert unless Warp advertises structured notifications (the
//! `WARP_CLI_AGENT_PROTOCOL_VERSION` environment variable) and the user has it enabled.
//!
//! The emitter's state is a plain value that the caller keeps. Each entry point moves the state on
//! and returns the escape sequences to write to the terminal, in order.

use vstd::prelude::*;

use crate::payload;
use crate::payload::WarpNotification;
use crate::payload::PROTOCOL_VERSION;
use crate::text;

verus! {

/// Most characters of user or assistant text in a payload. Warp truncates notification banners
/// aggressively, and the sequence rides the terminal, so keep it tight.
pub const TEXT_MAX_CHARS: usize = 200;

// ---------------------------------------------------------------------------
// Settings
// ---------------------------------------------------------------------------

/// What the environment and the configuration say about the integration.
#[derive(Debug, Clone)]
pub struct WarpSettings {
    /// The value of `WARP_CLI_AGENT_PROTOCOL_VERSION`, where it is set.
    pub protocol_version: Option<String>,
    /// `[warp] cli_agent_integration`
    pub cli_agent_integration: bool,
    /// `[warp] cli_agent_identity`
    pub cli_agent_identity: String,
    /// The version that the handshake reports.
    pub plugin_version: String,
}

impl WarpSettings {
    /// Inside a capable Warp build: the variable's mere presence is the signal.
    pub open spec fn supported(&self) -> bool {
        self.protocol_version is Some
    }

    /// Inside a capable Warp build and enabled.
    pub open spec fn active(&self) -> bool {
        self.supported() && self.cli_agent_integration
    }

    /// The configured identity without white space around it, or `pi` where that leaves nothing.
    pub open spec fn identity(&self) -> Seq<char> {
        if text::is_blank(self.cli_agent_identity@) {
            "pi"@
        } else {
            text::trimmed(self.cli_agent_identity@)
        }
    }
}

/// Returns true when jcode runs inside a Warp build that supports structured CLI-agent
/// notifications. Warp exports `WARP_CLI_AGENT_PROTOCOL_VERSION` precisely so that agents can
/// detect this; its mere presence is the signal.
pub fn warp_supports_structured(settings: &WarpSettings) -> (supported: bool)
    ensures
        supported == settings.supported(),
{
    settings.protocol_version.is_some()
}

/// Whether the integration should run: inside a capable Warp build and enabled in config.
pub fn integration_active(settings: &WarpSettings) -> (active: bool)
    ensures
        active == settings.active(),
{
    if !warp_supports_structured(settings) {
        return false;
    }
    settings.cli_agent_integration
}

/// The agent identity to advertise to Warp. Falls back to `pi` when the configured value is blank.
pub fn agent_identity(settings: &WarpSettings) -> (identity: String)
    ensures
        identity@ == settings.identity(),
{
    let name = settings.cli_agent_identity.as_str().trim();
    if name.is_empty() {
        "pi".to_owned()
    } else {
        name.to_owned()
    }
}

// ---------------------------------------------------------------------------
// The working directory
// ---------------------------------------------------------------------------

/// What is known of a directory's project name: it is the platform's file name for the path, which
/// is the path's final component wherever every platform splits the path alike, and always a stretch
/// of the path.
pub open spec fn is_project_of(project: Option<Seq<char>>, cwd: Option<Seq<char>>) -> bool {
    match cwd {
        None => project is None,
        Some(path) => {
            &&& text::names_file(path, project)
            &&& text::is_plain_path(path) ==> project == text::final_component(path)
            &&& project matches Some(name) ==> name.len() > 0 && text::is_part_of(name, path)
        },
    }
}

/// The project name to report for a working directory: the path's final component.
pub fn project_from_cwd(cwd: Option<&str>) -> (project: Option<String>)
    ensures
        is_project_of(payload::owned_text_of(project), payload::text_of(cwd)),
{
    match cwd {
        Some(path) => text::file_name(path),
        None => None,
    }
}

/// The working directory to report.
pub fn cwd_string(cwd: Option<&str>) -> (path: Option<String>)
    ensures
        payload::owned_text_of(path) == payload::text_of(cwd),
{
    match cwd {
        Some(path) => Some(path.to_owned()),
        None => None,
    }
}

// ---------------------------------------------------------------------------
// State
// ---------------------------------------------------------------------------

/// Coarse agent state jcode reports to Warp, derived from the interactive session's processing
/// state.
#[derive(Debug, Clone, Copy, PartialEq, Eq, Structural)]
pub enum WarpAgentState {
    /// A turn is actively running (model thinking / streaming / tool use).
    Working,
    /// The turn finished successfully and the agent is idle.
    Idle,
    /// The turn ended in an error.
    Failed,
    /// The agent is blocked waiting on the user (e.g. tool approval).
    Blocked,
}

/// What the emitter remembers between calls.
#[derive(Debug)]
pub struct EmitterState {
    /// Whether the initial `session_start` handshake was sent.
    pub session_started: bool,
    /// The last coarse state reported, to suppress duplicate events.
    pub last_state: Option<WarpAgentState>,
    /// Latch set when a turn ends in error, consumed on the next transition to idle so it is
    /// reported as `stop_failure` rather than `stop`. Cleared when a new turn starts (transition
    /// to working).
    pub pending_failure: bool,
    /// Latch set when the agent is blocked awaiting the user (e.g. a tool approval prompt),
    /// consumed on the next idle transition. Cleared when a new turn starts.
    pub pending_blocked: Option<String>,
}

/// The emitter's memory as plain mathematics.
#[verifier::ext_equal]
pub struct EmitterView {
    pub session_started: bool,
    pub last_state: Option<WarpAgentState>,
    pub pending_failure: bool,
    pub pending_blocked: Option<Seq<char>>,
}

impl View for EmitterState {
    type V = EmitterView;

    open spec fn view(&self) -> EmitterView {
        EmitterView {
            session_started: self.session_started,
            last_state: self.last_state,
            pending_failure: self.pending_failure,
            pending_blocked: payload::owned_text_of(self.pending_blocked),
        }
    }
}

/// The memory of an emitter that has reported nothing yet.
pub open spec fn fresh_emitter() -> EmitterView {
    EmitterView {
        session_started: false,
        last_state: None,
        pending_failure: false,
        pending_blocked: None,
    }
}

impl Default for EmitterState {
    fn default() -> (emitter: Self)
        ensures
            emitter@ == fresh_emitter(),
    {
        EmitterState {
            session_started: false,
            last_state: None,
            pending_failure: false,
            pending_blocked: None,
        }
    }
}

/// Reset the emitter's state. Intended for tests.
pub fn reset_for_tests(emitter: &mut EmitterState)
    ensures
        final(emitter)@ == fresh_emitter(),
{
    *emitter = EmitterState::default();
}

// ---------------------------------------------------------------------------
// The transition machine
// ---------------------------------------------------------------------------

/// The fields of [`EmitterState`] that decide a transition: the blocked summary itself does not
/// matter, only whether there is one.
#[derive(Debug, Clone, Copy, PartialEq, Eq)]
pub struct EmitterStateSnapshot {
    pub session_started: bool,
    pub last_state: Option<WarpAgentState>,
    pub pending_failure: bool,
    pub has_pending_blocked: bool,
}

impl Default for EmitterStateSnapshot {
    fn default() -> (snapshot: Self)
        ensures
            snapshot == snapshot_of(fresh_emitter()),
    {
        EmitterStateSnapshot {
            session_started: false,
            last_state: None,
            pending_failure: false,
            has_pending_blocked: false,
        }
    }
}

/// Outcome of the pure transition decision: how the emitter state should advance and which status
/// event (if any) to emit.
#[derive(Debug, Clone, PartialEq, Eq)]
pub struct TransitionDecision {
    /// Emit the one-time `session_start` handshake before any status event.
    pub emit_session_start: bool,
    /// The status event to emit, or `None` to suppress (no-op repeat, or an idle report with no
    /// preceding turn).
    pub event: Option<&'static str>,
    /// Whether the emitted event carries `error_type: "error"` (i.e. it is a `stop_failure`).
    pub is_failure: bool,
    /// The emitter state after applying this transition.
    pub next: EmitterStateSnapshot,
}

/// The snapshot of an emitter's memory.
pub open spec fn snapshot_of(emitter: EmitterView) -> EmitterStateSnapshot {
    EmitterStateSnapshot {
        session_started: emitter.session_started,
        last_state: emitter.last_state,
        pending_failure: emitter.pending_failure,
        has_pending_blocked: emitter.pending_blocked is Some,
    }
}

/// A report that repeats the last one. A blocked report never counts as a repeat, since its
/// summary may differ.
pub open spec fn is_repeat(prev: EmitterStateSnapshot, state: WarpAgentState) -> bool {
    prev.session_started && prev.last_state == Some(state) && state != WarpAgentState::Blocked
}

/// A turn is under way: the last report was working or blocked.
pub open spec fn in_turn(prev: EmitterStateSnapshot) -> bool {
    prev.last_state == Some(WarpAgentState::Working) || prev.last_state == Some(
        WarpAgentState::Blocked,
    )
}

/// The status event that reporting `state` calls for.
///
/// An idle report only means "turn finished" while a turn is under way. At startup or between turns
/// there is nothing to report: a `stop` there would be a phantom success.
pub open spec fn status_event(prev: EmitterStateSnapshot, state: WarpAgentState) -> Option<
    Seq<char>,
> {
    if is_repeat(prev, state) {
        None
    } else {
        match state {
            WarpAgentState::Working => Some("prompt_submit"@),
            WarpAgentState::Blocked => Some("permission_request"@),
            WarpAgentState::Failed => Some("stop_failure"@),
            WarpAgentState::Idle => if !in_turn(prev) {
                None
            } else if prev.pending_failure {
                Some("stop_failure"@)
            } else {
                Some("stop"@)
            },
        }
    }
}

/// Whether reporting `state` reports an error.
pub open spec fn reports_failure(prev: EmitterStateSnapshot, state: WarpAgentState) -> bool {
    !is_repeat(prev, state) && match state {
        WarpAgentState::Failed => true,
        WarpAgentState::Idle => in_turn(prev) && prev.pending_failure,
        _ => false,
    }
}

/// What the emitter remembers once `state` is reported. A repeat changes nothing. Otherwise the
/// latches go with the turn they belong to: being blocked is no turn boundary, so it keeps both.
pub open spec fn next_snapshot(
    prev: EmitterStateSnapshot,
    state: WarpAgentState,
) -> EmitterStateSnapshot {
    if is_repeat(prev, state) {
        prev
    } else {
        EmitterStateSnapshot {
            session_started: true,
            last_state: Some(state),
            pending_failure: state == WarpAgentState::Blocked && prev.pending_failure,
            has_pending_blocked: state == WarpAgentState::Blocked && prev.has_pending_blocked,
        }
    }
}

/// Pure transition machine. Given the prior snapshot and the target state, decide what to emit and
/// the next snapshot. No side effects.
pub fn decide_transition(prev: EmitterStateSnapshot, state: WarpAgentState) -> (decision:
    TransitionDecision)
    ensures
        decision.emit_session_start == !prev.session_started,
        payload::text_of(decision.event) == status_event(prev, state),
        decision.is_failure == reports_failure(prev, state),
        decision.next == next_snapshot(prev, state),
{
    let need_session_start = !prev.session_started;
    let blocked = match state {
        WarpAgentState::Blocked => true,
        _ => false,
    };
    let same = match prev.last_state {
        Some(last) => last == state,
        None => false,
    };

    // Suppress no-op repeats. Blocked re-entry is always allowed through since its summary may
    // differ.
    if same && !need_session_start && !blocked {
        return TransitionDecision {
            emit_session_start: false,
            event: None,
            is_failure: false,
            next: prev,
        };
    }
    // An idle report only means "turn finished" when a turn is under way.

    let turn_under_way = match prev.last_state {
        Some(WarpAgentState::Working) | Some(WarpAgentState::Blocked) => true,
        _ => false,
    };
    let (event, is_failure): (Option<&'static str>, bool) = match state {
        WarpAgentState::Working => (Some("prompt_submit"), false),
        WarpAgentState::Blocked => (Some("permission_request"), false),
        WarpAgentState::Failed => (Some("stop_failure"), true),
        WarpAgentState::Idle => {
            if !turn_under_way {
                (None, false)
            } else if prev.pending_failure {
                (Some("stop_failure"), true)
            } else {
                (Some("stop"), false)
            }
        },
    };

    TransitionDecision {
        emit_session_start: need_session_start,
        event,
        is_failure,
        next: EmitterStateSnapshot {
            session_started: true,
            last_state: Some(state),
            pending_failure: blocked && prev.pending_failure,
            has_pending_blocked: blocked && prev.has_pending_blocked,
        },
    }
}

// ---------------------------------------------------------------------------
// Notifications
// ---------------------------------------------------------------------------

/// Context passed to [`sync_processing`], describing the current turn.
#[derive(Debug, Clone)]
pub struct WarpSyncContext<'a> {
    pub session_id: Option<&'a str>,
    pub cwd: Option<&'a str>,
    /// The user's latest prompt (shown as the tab/notification title in Warp).
    pub query: Option<&'a str>,
    /// The agent's latest response text (shown in the completion notification).
    pub response: Option<&'a str>,
}

impl<'a> Default for WarpSyncContext<'a> {
    fn default() -> (ctx: Self)
        ensures
            ctx.session_id is None,
            ctx.cwd is None,
            ctx.query is None,
            ctx.response is None,
    {
        WarpSyncContext { session_id: None, cwd: None, query: None, response: None }
    }
}

/// What a turn's context says, with the project name that goes with its working directory.
#[verifier::ext_equal]
pub struct ContextView {
    pub session_id: Option<Seq<char>>,
    pub cwd: Option<Seq<char>>,
    pub project: Option<Seq<char>>,
    pub query: Option<Seq<char>>,
    pub response: Option<Seq<char>>,
}

impl ContextView {
    /// The project name is one of the working directory's.
    pub open spec fn valid(self) -> bool {
        is_project_of(self.project, self.cwd)
    }
}

/// What `ctx` says, with a project name.
pub open spec fn context_of(ctx: WarpSyncContext<'_>, project: Option<Seq<char>>) -> ContextView {
    ContextView {
        session_id: payload::text_of(ctx.session_id),
        cwd: payload::text_of(ctx.cwd),
        project,
        query: payload::text_of(ctx.query),
        response: payload::text_of(ctx.response),
    }
}

/// A context that says nothing.
pub open spec fn empty_context() -> ContextView {
    ContextView { session_id: None, cwd: None, project: None, query: None, response: None }
}

/// User or assistant text as a payload shows it.
pub open spec fn shown(text: Option<Seq<char>>) -> Option<Seq<char>> {
    match text {
        Some(text) => Some(text::truncated(text, TEXT_MAX_CHARS as int)),
        None => None,
    }
}

fn show(text: Option<&str>) -> (short: Option<String>)
    ensures
        payload::owned_text_of(short) == shown(payload::text_of(text)),
{
    match text {
        Some(text) => Some(text::truncate(text, TEXT_MAX_CHARS)),
        None => None,
    }
}

/// The one-time `session_start` handshake.
pub open spec fn handshake(
    settings: WarpSettings,
    ctx: ContextView,
) -> payload::NotificationView {
    payload::NotificationView {
        v: PROTOCOL_VERSION,
        agent: settings.identity(),
        event: "session_start"@,
        session_id: ctx.session_id,
        cwd: ctx.cwd,
        project: ctx.project,
        query: None,
        response: None,
        summary: None,
        plugin_version: Some(settings.plugin_version@),
        error_type: None,
    }
}

/// The notification of a status event: the response goes with the end of a turn, the summary with
/// a block, and the error type with a failure.
pub open spec fn status_note(
    settings: WarpSettings,
    prev: EmitterView,
    state: WarpAgentState,
    ctx: ContextView,
    event: Seq<char>,
) -> payload::NotificationView {
    payload::NotificationView {
        v: PROTOCOL_VERSION,
        agent: settings.identity(),
        event,
        session_id: ctx.session_id,
        cwd: ctx.cwd,
        project: ctx.project,
        query: shown(ctx.query),
        response: if state == WarpAgentState::Idle || state == WarpAgentState::Failed {
            shown(ctx.response)
        } else {
            None
        },
        summary: if state == WarpAgentState::Blocked {
            prev.pending_blocked
        } else {
            None
        },
        plugin_version: None,
        error_type: if reports_failure(snapshot_of(prev), state) {
            Some("error"@)
        } else {
            None
        },
    }
}

/// What reporting `state` tells Warp: the handshake where it is still due, then the status event
/// where there is one.
pub open spec fn transition_notes(
    settings: WarpSettings,
    prev: EmitterView,
    state: WarpAgentState,
    ctx: ContextView,
) -> Seq<payload::NotificationView> {
    let opening = if prev.session_started {
        seq![]
    } else {
        seq![handshake(settings, ctx)]
    };
    match status_event(snapshot_of(prev), state) {
        Some(event) => opening.push(status_note(settings, prev, state, ctx, event)),
        None => opening,
    }
}

/// What the emitter remembers once `state` is reported.
pub open spec fn transition_next(prev: EmitterView, state: WarpAgentState) -> EmitterView {
    let next = next_snapshot(snapshot_of(prev), state);
    EmitterView {
        session_started: next.session_started,
        last_state: next.last_state,
        pending_failure: next.pending_failure,
        pending_blocked: if next.has_pending_blocked {
            prev.pending_blocked
        } else {
            None
        },
    }
}

/// The sequences carry exactly `notes`, each as one complete escape sequence whose payload reads
/// back as the notification.
pub open spec fn carries(
    sequences: Seq<Seq<char>>,
    notes: Seq<payload::NotificationView>,
) -> bool {
    &&& sequences == payload::sequences_of(notes)
    &&& forall|i: int|
        0 <= i < sequences.len() ==> payload::is_one_sequence(#[trigger] sequences[i])
            && payload::reads_as(payload::payload_text(notes[i]), notes[i])
}

/// Appends a notification's sequence.
fn emit_next(
    sequences: &mut Vec<String>,
    note: &WarpNotification<'_>,
    Ghost(notes): Ghost<Seq<payload::NotificationView>>,
)
    requires
        carries(old(sequences).deep_view(), notes),
    ensures
        carries(final(sequences).deep_view(), notes.push(note@)),
{
    payload::emit(sequences, note);
    assert(payload::sequences_of(notes.push(note@)) =~= payload::sequences_of(notes).push(
        payload::sequence_of(note@),
    ));
}

/// Shared transition machine: emits the appropriate Warp event when `state` differs from the last
/// reported state, consuming the failure/blocked latches.
pub fn emit_transition(
    emitter: &mut EmitterState,
    settings: &WarpSettings,
    state: WarpAgentState,
    ctx: &WarpSyncContext<'_>,
) -> (sequences: Vec<String>)
    ensures
        final(emitter)@ == transition_next(old(emitter)@, state),
        exists|project: Option<Seq<char>>| #[trigger]
            context_of(*ctx, project).valid() && carries(
                sequences.deep_view(),
                transition_notes(*settings, old(emitter)@, state, context_of(*ctx, project)),
            ),
{
    let ghost before = emitter@;
    let prev = EmitterStateSnapshot {
        session_started: emitter.session_started,
        last_state: emitter.last_state,
        pending_failure: emitter.pending_failure,
        has_pending_blocked: emitter.pending_blocked.is_some(),
    };
    let decision = decide_transition(prev, state);
    let blocked_summary = emitter.pending_blocked.clone();

    // Commit the next snapshot back into the live state.
    emitter.session_started = decision.next.session_started;
    emitter.last_state = decision.next.last_state;
    emitter.pending_failure = decision.next.pending_failure;
    if !decision.next.has_pending_blocked {
        emitter.pending_blocked = None;
    }
    let identity = agent_identity(settings);
    let project = project_from_cwd(ctx.cwd);
    let ghost view = context_of(*ctx, payload::owned_text_of(project));
    let ghost mut notes: Seq<payload::NotificationView> = seq![];

    let mut sequences: Vec<String> = Vec::new();
    assert(sequences.deep_view() =~= payload::sequences_of(notes));

    // Always emit the one-time handshake so the toolbelt shows up, even when the triggering
    // status event itself is suppressed.
    if decision.emit_session_start {
        let note = WarpNotification {
            v: PROTOCOL_VERSION,
            agent: identity.as_str(),
            event: "session_start",
            session_id: ctx.session_id,
            cwd: cwd_string(ctx.cwd),
            project: project.clone(),
            query: None,
            response: None,
            summary: None,
            plugin_version: Some(settings.plugin_version.as_str()),
            error_type: None,
        };
        emit_next(&mut sequences, &note, Ghost(notes));
        proof {
            assert(note@ =~= handshake(*settings, view));
            notes = notes.push(note@);
        }
    }
    assert(notes =~= if before.session_started {
        seq![]
    } else {
        seq![handshake(*settings, view)]
    });

    if let Some(event) = decision.event {
        let ended = match state {
            WarpAgentState::Idle | WarpAgentState::Failed => true,
            _ => false,
        };
        let blocked = match state {
            WarpAgentState::Blocked => true,
            _ => false,
        };
        let note = WarpNotification {
            v: PROTOCOL_VERSION,
            agent: identity.as_str(),
            event,
            session_id: ctx.session_id,
            cwd: cwd_string(ctx.cwd),
            project,
            query: show(ctx.query),
            response: if ended {
                show(ctx.response)
            } else {
                None
            },
            summary: if blocked {
                blocked_summary
            } else {
                None
            },
            plugin_version: None,
            error_type: if decision.is_failure {
                Some("error")
            } else {
                None
            },
        };
        emit_next(&mut sequences, &note, Ghost(notes));
        assert(note@ =~= status_note(*settings, before, state, view, event@));
    }
    assert(view.valid());
    sequences
}

// ---------------------------------------------------------------------------
// Entry points
// ---------------------------------------------------------------------------

/// The context of a handshake: there is no turn yet.
pub open spec fn session_context(
    session_id: Option<&str>,
    cwd: Option<&str>,
    project: Option<Seq<char>>,
) -> ContextView {
    ContextView {
        session_id: payload::text_of(session_id),
        cwd: payload::text_of(cwd),
        project,
        query: None,
        response: None,
    }
}

/// What the emitter remembers once the session is announced.
pub open spec fn announce_next(settings: WarpSettings, prev: EmitterView) -> EmitterView {
    if settings.active() {
        EmitterView { session_started: true, ..prev }
    } else {
        prev
    }
}

/// The handshake is to be sent: the integration runs and it was not sent yet.
pub open spec fn announce_is_due(settings: WarpSettings, prev: EmitterView) -> bool {
    settings.active() && !prev.session_started
}

/// What announcing the session tells Warp: the handshake, once.
pub open spec fn announce_notes(
    settings: WarpSettings,
    prev: EmitterView,
    ctx: ContextView,
) -> Seq<payload::NotificationView> {
    if announce_is_due(settings, prev) {
        seq![handshake(settings, ctx)]
    } else {
        seq![]
    }
}

/// Emit the one-time `session_start` handshake so Warp shows the agent toolbelt as soon as jcode
/// launches, before the first turn. Idempotent and safe to call repeatedly.
pub fn announce_session_start(
    emitter: &mut EmitterState,
    settings: &WarpSettings,
    session_id: Option<&str>,
    cwd: Option<&str>,
) -> (sequences: Vec<String>)
    ensures
        final(emitter)@ == announce_next(*settings, old(emitter)@),
        !announce_is_due(*settings, old(emitter)@) ==> sequences@.len() == 0,
        announce_is_due(*settings, old(emitter)@) ==> exists|project: Option<Seq<char>>| #[trigger]
            session_context(session_id, cwd, project).valid() && carries(
                sequences.deep_view(),
                announce_notes(
                    *settings,
                    old(emitter)@,
                    session_context(session_id, cwd, project),
                ),
            ),
{
    let ghost none: Seq<payload::NotificationView> = seq![];
    let mut sequences: Vec<String> = Vec::new();
    assert(sequences.deep_view() =~= payload::sequences_of(none));
    if !integration_active(settings) {
        return sequences;
    }
    if emitter.session_started {
        return sequences;
    }
    emitter.session_started = true;
    let identity = agent_identity(settings);
    let project = project_from_cwd(cwd);
    let ghost view = session_context(session_id, cwd, payload::owned_text_of(project));
    assert(view.valid());
    let note = WarpNotification {
        v: PROTOCOL_VERSION,
        agent: identity.as_str(),
        event: "session_start",
        session_id,
        cwd: cwd_string(cwd),
        project,
        query: None,
        response: None,
        summary: None,
        plugin_version: Some(settings.plugin_version.as_str()),
        error_type: None,
    };
    emit_next(&mut sequences, &note, Ghost(none));
    assert(note@ =~= handshake(*settings, view));
    assert(none.push(note@) =~= seq![handshake(*settings, view)]);
    sequences
}

/// What the emitter remembers once a turn is known to have failed.
pub open spec fn turn_failed_next(settings: WarpSettings, prev: EmitterView) -> EmitterView {
    if settings.supported() {
        EmitterView { pending_failure: true, ..prev }
    } else {
        prev
    }
}

/// Latch that the current/just-finished turn ended in an error. Consumed on the next transition to
/// idle, which is then reported to Warp as `stop_failure` instead of `stop`. Safe to call outside
/// Warp, where it does nothing.
pub fn note_turn_failed(emitter: &mut EmitterState, settings: &WarpSettings)
    ensures
        final(emitter)@ == turn_failed_next(*settings, old(emitter)@),
{
    if !warp_supports_structured(settings) {
        return;
    }
    emitter.pending_failure = true;
}

/// What a block is said to wait for.
pub open spec fn block_summary(summary: Option<Seq<char>>) -> Seq<char> {
    match summary {
        Some(summary) => summary,
        None => "Waiting for your input"@,
    }
}

/// The emitter with the reason of a block on record.
pub open spec fn with_block(prev: EmitterView, summary: Option<Seq<char>>) -> EmitterView {
    EmitterView { pending_blocked: Some(block_summary(summary)), ..prev }
}

/// What the emitter remembers once the agent is blocked.
pub open spec fn blocked_next(
    settings: WarpSettings,
    prev: EmitterView,
    summary: Option<Seq<char>>,
) -> EmitterView {
    if settings.active() {
        transition_next(with_block(prev, summary), WarpAgentState::Blocked)
    } else {
        prev
    }
}

/// What being blocked tells Warp.
pub open spec fn blocked_notes(
    settings: WarpSettings,
    prev: EmitterView,
    summary: Option<Seq<char>>,
) -> Seq<payload::NotificationView> {
    if settings.active() {
        transition_notes(
            settings,
            with_block(prev, summary),
            WarpAgentState::Blocked,
            empty_context(),
        )
    } else {
        seq![]
    }
}

/// Mark the agent as blocked awaiting the user (e.g. a tool-approval prompt), with an optional
/// human-readable summary. Emits a `permission_request` event so Warp shows the tab as needing
/// attention and fires a request notification.
pub fn note_blocked(
    emitter: &mut EmitterState,
    settings: &WarpSettings,
    summary: Option<&str>,
) -> (sequences: Vec<String>)
    ensures
        final(emitter)@ == blocked_next(*settings, old(emitter)@, payload::text_of(summary)),
        carries(
            sequences.deep_view(),
            blocked_notes(*settings, old(emitter)@, payload::text_of(summary)),
        ),
{
    if !integration_active(settings) {
        let sequences: Vec<String> = Vec::new();
        assert(sequences.deep_view() =~= payload::sequences_of(seq![]));
        return sequences;
    }
    // Record the reason so a later idle transition can clear cleanly, and drive an immediate
    // blocked emission through the shared transition path.
    emitter.pending_blocked =
    Some(
        match summary {
            Some(summary) => summary.to_owned(),
            None => "Waiting for your input".to_owned(),
        },
    );
    assert(emitter@ =~= with_block(old(emitter)@, payload::text_of(summary)));
    let ctx = WarpSyncContext::default();
    assert(forall|project: Option<Seq<char>>| #[trigger]
        context_of(ctx, project).valid() ==> context_of(ctx, project) =~= empty_context());
    emit_transition(emitter, settings, WarpAgentState::Blocked, &ctx)
}

/// The coarse state that a processing flag stands for.
pub open spec fn processing_state(is_processing: bool) -> WarpAgentState {
    if is_processing {
        WarpAgentState::Working
    } else {
        WarpAgentState::Idle
    }
}

/// What the emitter remembers once the processing flag is reconciled.
pub open spec fn sync_next(
    settings: WarpSettings,
    prev: EmitterView,
    is_processing: bool,
) -> EmitterView {
    if settings.active() {
        transition_next(prev, processing_state(is_processing))
    } else {
        prev
    }
}

/// What reconciling the processing flag tells Warp.
pub open spec fn sync_notes(
    settings: WarpSettings,
    prev: EmitterView,
    is_processing: bool,
    ctx: ContextView,
) -> Seq<payload::NotificationView> {
    if settings.active() {
        transition_notes(settings, prev, processing_state(is_processing), ctx)
    } else {
        seq![]
    }
}

/// Reconcile the reported Warp agent state with the interactive session's processing flag. Call
/// once per UI tick with `is_processing`; the emitter tracks the last reported state and a Warp
/// event is emitted only on a transition:
///
/// - idle -> working: `prompt_submit` (Warp shows the tab as working)
/// - working -> idle: `stop` (success) or `stop_failure` if [`note_turn_failed`] was latched during
///   the turn
pub fn sync_processing(
    emitter: &mut EmitterState,
    settings: &WarpSettings,
    is_processing: bool,
    ctx: &WarpSyncContext<'_>,
) -> (sequences: Vec<String>)
    ensures
        final(emitter)@ == sync_next(*settings, old(emitter)@, is_processing),
        !settings.active() ==> sequences@.len() == 0,
        settings.active() ==> exists|project: Option<Seq<char>>| #[trigger]
            context_of(*ctx, project).valid() && carries(
                sequences.deep_view(),
                sync_notes(*settings, old(emitter)@, is_processing, context_of(*ctx, project)),
            ),
{
    if !integration_active(settings) {
        return Vec::new();
    }
    let state = if is_processing {
        WarpAgentState::Working
    } else {
        WarpAgentState::Idle
    };
    emit_transition(emitter, settings, state, ctx)
}

} // verus!
