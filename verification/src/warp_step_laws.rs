//! What each call of the Warp integration tells and remembers, event by event and field by field.

use vstd::prelude::*;

use crate::text;
use crate::warp_agent;
use crate::warp_agent::EmitterState;
use crate::warp_agent::EmitterStateSnapshot;
use crate::warp_agent::WarpAgentState;
use crate::warp_agent::WarpSettings;
use crate::warp_agent::WarpSyncContext;

verus! {

// ---------------------------------------------------------------------------
// Settings
// ---------------------------------------------------------------------------

/// The variable's presence is the signal, whatever its value, and the configuration can only switch
/// the integration off.
pub proof fn law_settings_switch_the_integration(settings: WarpSettings)
    ensures
        settings.supported() <==> settings.protocol_version is Some,
        settings.active() <==> settings.protocol_version is Some && settings.cli_agent_integration,
{
}

/// The identity is the configured one without white space around it, and `pi` where that is nothing.
pub proof fn law_identity_is_never_blank(settings: WarpSettings)
    ensures
        text::trimmed(settings.cli_agent_identity@).len() > 0 ==> settings.identity()
            == text::trimmed(settings.cli_agent_identity@),
        text::trimmed(settings.cli_agent_identity@).len() == 0 ==> settings.identity() == seq![
            'p',
            'i',
        ],
        settings.identity().len() > 0,
{
    reveal_strlit("pi");
    assert("pi"@ =~= seq!['p', 'i']);
}

// ---------------------------------------------------------------------------
// Events
// ---------------------------------------------------------------------------

/// A report that the agent works tells `prompt_submit`, after whatever was told last but another
/// such report: at the start, after a turn, and right after a block.
pub proof fn law_work_is_told(
    settings: WarpSettings,
    prev: warp_agent::EmitterView,
    ctx: warp_agent::ContextView,
)
    requires
        settings.protocol_version is Some,
        settings.cli_agent_integration,
    ensures
        ({
            let notes = warp_agent::sync_notes(settings, prev, true, ctx);
            if prev.session_started && prev.last_state == Some(WarpAgentState::Working) {
                notes.len() == 0
            } else {
                &&& notes.len() == if prev.session_started {
                    1int
                } else {
                    2
                }
                &&& notes.last().event == "prompt_submit"@
                &&& !prev.session_started ==> notes[0].event == "session_start"@
            }
        }),
{
}

/// A report that the agent is idle ends the turn that is under way, in `stop_failure` exactly where
/// a failure is latched. Outside a turn it tells no end.
pub proof fn law_the_end_of_a_turn_is_told(
    settings: WarpSettings,
    prev: warp_agent::EmitterView,
    ctx: warp_agent::ContextView,
)
    requires
        settings.protocol_version is Some,
        settings.cli_agent_integration,
    ensures
        ({
            let notes = warp_agent::sync_notes(settings, prev, false, ctx);
            &&& !prev.session_started ==> notes.len() > 0 && notes[0].event == "session_start"@
            &&& if prev.last_state == Some(WarpAgentState::Working) || prev.last_state == Some(
                WarpAgentState::Blocked,
            ) {
                &&& notes.len() == if prev.session_started {
                    1int
                } else {
                    2
                }
                &&& notes.last().event == if prev.pending_failure {
                    "stop_failure"@
                } else {
                    "stop"@
                }
            } else {
                notes.len() == if prev.session_started {
                    0int
                } else {
                    1
                }
            }
        }),
{
}

/// A block is told every time, whatever was told before.
pub proof fn law_a_block_is_told(
    settings: WarpSettings,
    prev: warp_agent::EmitterView,
    summary: Option<Seq<char>>,
)
    requires
        settings.protocol_version is Some,
        settings.cli_agent_integration,
    ensures
        ({
            let notes = warp_agent::blocked_notes(settings, prev, summary);
            &&& notes.len() == if prev.session_started {
                1int
            } else {
                2
            }
            &&& !prev.session_started ==> notes[0].event == "session_start"@
            &&& notes.last().event == "permission_request"@
            &&& notes.last().summary == Some(
                match summary {
                    Some(summary) => summary,
                    None => "Waiting for your input"@,
                },
            )
        }),
{
}

/// An announcement tells the handshake where it was not told yet, and nothing else.
pub proof fn law_an_announcement_is_told_once(
    settings: WarpSettings,
    prev: warp_agent::EmitterView,
    ctx: warp_agent::ContextView,
)
    ensures
        warp_agent::announce_is_due(settings, prev) <==> settings.protocol_version is Some
            && settings.cli_agent_integration && !prev.session_started,
        ({
            let notes = warp_agent::announce_notes(settings, prev, ctx);
            if settings.protocol_version is Some && settings.cli_agent_integration
                && !prev.session_started {
                notes.len() == 1 && notes[0].event == "session_start"@
            } else {
                notes.len() == 0
            }
        }),
{
}

/// Without the variable, or switched off, nothing is told.
pub proof fn law_nothing_is_told_when_off(
    settings: WarpSettings,
    prev: warp_agent::EmitterView,
    is_processing: bool,
    summary: Option<Seq<char>>,
    ctx: warp_agent::ContextView,
)
    requires
        settings.protocol_version is None || !settings.cli_agent_integration,
    ensures
        warp_agent::sync_notes(settings, prev, is_processing, ctx).len() == 0,
        warp_agent::blocked_notes(settings, prev, summary).len() == 0,
        warp_agent::announce_notes(settings, prev, ctx).len() == 0,
        warp_agent::sync_next(settings, prev, is_processing) == prev,
        warp_agent::blocked_next(settings, prev, summary) == prev,
        warp_agent::announce_next(settings, prev) == prev,
{
}

/// The whole decision, state by state.
pub proof fn law_every_transition_is_decided(prev: EmitterStateSnapshot, state: WarpAgentState)
    ensures
        ({
            let event = warp_agent::status_event(prev, state);
            let next = warp_agent::next_snapshot(prev, state);
            let failure = warp_agent::reports_failure(prev, state);
            let told_before = prev.session_started && prev.last_state == Some(state);
            &&& state == WarpAgentState::Working ==> event == if told_before {
                None
            } else {
                Some("prompt_submit"@)
            }
            &&& state == WarpAgentState::Failed ==> event == if told_before {
                None
            } else {
                Some("stop_failure"@)
            }
            &&& state == WarpAgentState::Blocked ==> event == Some("permission_request"@)
            &&& state == WarpAgentState::Idle ==> event == if prev.last_state == Some(
                WarpAgentState::Working,
            ) || prev.last_state == Some(WarpAgentState::Blocked) {
                if prev.pending_failure {
                    Some("stop_failure"@)
                } else {
                    Some("stop"@)
                }
            } else {
                None
            }
            &&& failure <==> event == Some("stop_failure"@)
            &&& next.session_started
            &&& next.last_state == Some(state)
            &&& state == WarpAgentState::Blocked ==> next.pending_failure == prev.pending_failure
                && next.has_pending_blocked == prev.has_pending_blocked
            &&& state != WarpAgentState::Blocked && !told_before ==> !next.pending_failure
                && !next.has_pending_blocked
            &&& state != WarpAgentState::Blocked && told_before ==> next == prev
        }),
{
    reveal_strlit("prompt_submit");
    reveal_strlit("permission_request");
    reveal_strlit("stop");
    reveal_strlit("stop_failure");
    assert("prompt_submit"@.len() == 13 && "permission_request"@.len() == 18 && "stop"@.len() == 4
        && "stop_failure"@.len() == 12);
}

// ---------------------------------------------------------------------------
// Memory
// ---------------------------------------------------------------------------

/// After a report of the processing flag that state is the last one told. The latches go, unless
/// the report repeats the last one: then nothing changes.
pub proof fn law_sync_is_remembered(
    settings: WarpSettings,
    prev: warp_agent::EmitterView,
    is_processing: bool,
)
    requires
        settings.protocol_version is Some,
        settings.cli_agent_integration,
    ensures
        ({
            let next = warp_agent::sync_next(settings, prev, is_processing);
            let state = if is_processing {
                WarpAgentState::Working
            } else {
                WarpAgentState::Idle
            };
            if prev.session_started && prev.last_state == Some(state) {
                next == prev
            } else {
                &&& next.session_started
                &&& next.last_state == Some(state)
                &&& !next.pending_failure
                &&& next.pending_blocked is None
            }
        }),
{
}

/// After a block that is the last state told, its reason is on record, and a latched failure stays.
pub proof fn law_a_block_is_remembered(
    settings: WarpSettings,
    prev: warp_agent::EmitterView,
    summary: Option<Seq<char>>,
)
    requires
        settings.protocol_version is Some,
        settings.cli_agent_integration,
    ensures
        ({
            let next = warp_agent::blocked_next(settings, prev, summary);
            &&& next.session_started
            &&& next.last_state == Some(WarpAgentState::Blocked)
            &&& next.pending_failure == prev.pending_failure
            &&& next.pending_blocked == Some(
                match summary {
                    Some(summary) => summary,
                    None => "Waiting for your input"@,
                },
            )
        }),
{
}

/// An announcement is remembered as the handshake and touches nothing else. A failure is latched
/// wherever Warp is there, also with the integration switched off, and touches nothing else.
pub proof fn law_announcement_and_failure_are_remembered(
    settings: WarpSettings,
    prev: warp_agent::EmitterView,
)
    ensures
        ({
            let announced = warp_agent::announce_next(settings, prev);
            let failed = warp_agent::turn_failed_next(settings, prev);
            &&& announced.session_started <==> prev.session_started || (settings.protocol_version
                is Some && settings.cli_agent_integration)
            &&& announced.last_state == prev.last_state
            &&& announced.pending_failure == prev.pending_failure
            &&& announced.pending_blocked == prev.pending_blocked
            &&& failed.pending_failure <==> prev.pending_failure || settings.protocol_version
                is Some
            &&& failed.session_started == prev.session_started
            &&& failed.last_state == prev.last_state
            &&& failed.pending_blocked == prev.pending_blocked
        }),
{
}

/// A fresh emitter has told nothing and has nothing latched.
pub proof fn law_fresh_emitter_remembers_nothing()
    ensures
        !warp_agent::fresh_emitter().session_started,
        warp_agent::fresh_emitter().last_state is None,
        !warp_agent::fresh_emitter().pending_failure,
        warp_agent::fresh_emitter().pending_blocked is None,
{
}

// ---------------------------------------------------------------------------
// Fields
// ---------------------------------------------------------------------------

/// A text as a notification shows it: trimmed, whole up to 200 characters, and otherwise its first
/// 197 with three dots.
pub open spec fn is_shown_as(shown: Option<Seq<char>>, given: Option<Seq<char>>) -> bool {
    match given {
        None => shown is None,
        Some(given) => shown == Some(
            if text::trimmed(given).len() <= 200 {
                text::trimmed(given)
            } else {
                text::trimmed(given).take(197) + seq!['.', '.', '.']
            },
        ),
    }
}

proof fn lemma_shown(given: Option<Seq<char>>)
    ensures
        is_shown_as(warp_agent::shown(given), given),
{
    reveal_strlit("...");
    assert("..."@ =~= seq!['.', '.', '.']);
}

/// Every status notification of a report carries the turn it is about: the context's session,
/// directory, project and query, and with the end of a turn its response. Each is absent exactly
/// where the context has none.
pub proof fn law_status_notes_carry_the_turn(
    settings: WarpSettings,
    prev: warp_agent::EmitterView,
    is_processing: bool,
    ctx: warp_agent::ContextView,
    i: int,
)
    requires
        0 <= i < warp_agent::sync_notes(settings, prev, is_processing, ctx).len(),
        warp_agent::sync_notes(settings, prev, is_processing, ctx)[i].event != "session_start"@,
    ensures
        ({
            let note = warp_agent::sync_notes(settings, prev, is_processing, ctx)[i];
            &&& note.v == 1
            &&& note.agent == settings.identity()
            &&& note.session_id == ctx.session_id
            &&& note.cwd == ctx.cwd
            &&& note.project == ctx.project
            &&& is_shown_as(note.query, ctx.query)
            &&& is_processing ==> note.response is None
            &&& !is_processing ==> is_shown_as(note.response, ctx.response)
            &&& note.summary is None
            &&& note.plugin_version is None
            &&& note.error_type is Some <==> !is_processing && prev.pending_failure
            &&& note.error_type matches Some(error) ==> error == "error"@
        }),
{
    lemma_shown(ctx.query);
    lemma_shown(ctx.response);
}

/// The same of every transition, whichever state is reported: the response goes with idle and
/// failed, the recorded reason with a block, and the error with what is told as `stop_failure`.
#[verifier::spinoff_prover]
#[verifier::rlimit(60)]
pub proof fn law_transition_notes_carry_the_turn(
    settings: WarpSettings,
    prev: warp_agent::EmitterView,
    state: WarpAgentState,
    ctx: warp_agent::ContextView,
    i: int,
)
    requires
        0 <= i < warp_agent::transition_notes(settings, prev, state, ctx).len(),
    ensures
        ({
            let notes = warp_agent::transition_notes(settings, prev, state, ctx);
            let note = notes[i];
            &&& note.v == 1
            &&& note.agent == settings.identity()
            &&& note.session_id == ctx.session_id
            &&& note.cwd == ctx.cwd
            &&& note.project == ctx.project
            &&& note.event == "session_start"@ <==> i == 0 && !prev.session_started
            &&& note.event == "session_start"@ ==> {
                &&& note.query is None && note.response is None
                &&& note.summary is None && note.error_type is None
                &&& note.plugin_version == Some(settings.plugin_version@)
            }
            &&& note.event != "session_start"@ ==> {
                &&& i == notes.len() - 1
                &&& is_shown_as(note.query, ctx.query)
                &&& is_shown_as(
                    note.response,
                    if state == WarpAgentState::Idle || state == WarpAgentState::Failed {
                        ctx.response
                    } else {
                        None
                    },
                )
                &&& note.summary == if state == WarpAgentState::Blocked {
                    prev.pending_blocked
                } else {
                    None
                }
                &&& note.plugin_version is None
                &&& note.error_type == if note.event == "stop_failure"@ {
                    Some("error"@)
                } else {
                    None
                }
            }
        }),
{
    lemma_shown(ctx.query);
    lemma_shown(ctx.response);
    law_every_transition_is_decided(warp_agent::snapshot_of(prev), state);
    reveal_strlit("session_start");
    reveal_strlit("prompt_submit");
    reveal_strlit("permission_request");
    reveal_strlit("stop");
    reveal_strlit("stop_failure");
    assert("session_start"@[0] == 's' && "session_start"@.len() == 13);
    assert("prompt_submit"@[0] == 'p' && "permission_request"@.len() == 18);
    assert("stop"@.len() == 4 && "stop_failure"@.len() == 12);
}

/// The handshake carries the session, its directory and project, and the version, and no turn.
pub proof fn law_handshakes_carry_the_session(
    settings: WarpSettings,
    prev: warp_agent::EmitterView,
    is_processing: bool,
    ctx: warp_agent::ContextView,
)
    requires
        settings.protocol_version is Some,
        settings.cli_agent_integration,
        !prev.session_started,
    ensures
        ({
            let first = warp_agent::sync_notes(settings, prev, is_processing, ctx)[0];
            &&& first.v == 1
            &&& first.agent == settings.identity()
            &&& first.event == "session_start"@
            &&& first.session_id == ctx.session_id
            &&& first.cwd == ctx.cwd
            &&& first.project == ctx.project
            &&& first.query is None && first.response is None
            &&& first.summary is None && first.error_type is None
            &&& first.plugin_version == Some(settings.plugin_version@)
            &&& warp_agent::announce_notes(settings, prev, ctx)[0] == first
        }),
{
}

/// What a block tells is about no turn: it names the reason and leaves everything else out.
pub proof fn law_block_notes_carry_the_reason_alone(
    settings: WarpSettings,
    prev: warp_agent::EmitterView,
    summary: Option<Seq<char>>,
    i: int,
)
    requires
        0 <= i < warp_agent::blocked_notes(settings, prev, summary).len(),
    ensures
        ({
            let note = warp_agent::blocked_notes(settings, prev, summary)[i];
            &&& note.v == 1
            &&& note.agent == settings.identity()
            &&& note.session_id is None
            &&& note.cwd is None
            &&& note.project is None
            &&& note.query is None
            &&& note.response is None
            &&& note.error_type is None
        }),
{
}

// ---------------------------------------------------------------------------
// Views
// ---------------------------------------------------------------------------

/// A context says what its fields hold.
pub proof fn law_context_says_what_it_holds(ctx: WarpSyncContext<'_>, project: Option<Seq<char>>)
    ensures
        ({
            let view = warp_agent::context_of(ctx, project);
            &&& view.session_id == match ctx.session_id {
                Some(id) => Some(id@),
                None => None,
            }
            &&& view.cwd == match ctx.cwd {
                Some(path) => Some(path@),
                None => None,
            }
            &&& view.query == match ctx.query {
                Some(query) => Some(query@),
                None => None,
            }
            &&& view.response == match ctx.response {
                Some(response) => Some(response@),
                None => None,
            }
            &&& view.project == project
        }),
{
}

/// A handshake's context holds what it is given, and no turn.
pub proof fn law_session_context_holds_no_turn(
    session_id: Option<&str>,
    cwd: Option<&str>,
    project: Option<Seq<char>>,
)
    ensures
        ({
            let view = warp_agent::session_context(session_id, cwd, project);
            &&& view.session_id == match session_id {
                Some(id) => Some(id@),
                None => None,
            }
            &&& view.cwd == match cwd {
                Some(path) => Some(path@),
                None => None,
            }
            &&& view.project == project
            &&& view.query is None
            &&& view.response is None
        }),
{
}

/// The emitter's memory is what its fields hold, and its snapshot forgets only the reason's words.
pub proof fn law_emitter_is_what_it_holds(emitter: EmitterState)
    ensures
        emitter@.session_started == emitter.session_started,
        emitter@.last_state == emitter.last_state,
        emitter@.pending_failure == emitter.pending_failure,
        emitter@.pending_blocked == match emitter.pending_blocked {
            Some(reason) => Some(reason@),
            None => None,
        },
        warp_agent::snapshot_of(emitter@).session_started == emitter.session_started,
        warp_agent::snapshot_of(emitter@).last_state == emitter.last_state,
        warp_agent::snapshot_of(emitter@).pending_failure == emitter.pending_failure,
        warp_agent::snapshot_of(emitter@).has_pending_blocked == (emitter.pending_blocked is Some),
{
}

// ---------------------------------------------------------------------------
// Projects
// ---------------------------------------------------------------------------

/// The project of a directory is its own name, with or without a slash behind it: on every path that
/// all platforms split alike.
#[verifier::spinoff_prover]
#[verifier::rlimit(60)]
pub proof fn law_project_is_the_directory_s_name(
    parent: Seq<char>,
    name: Seq<char>,
    project: Option<Seq<char>>,
    slashed: Option<Seq<char>>,
)
    requires
        name.len() > 0,
        forall|i: int| 0 <= i < name.len() ==> #[trigger] name[i] != '/',
        name != seq!['.'],
        name != seq!['.', '.'],
        text::is_plain_path(parent + seq!['/'] + name + seq!['/']),
        warp_agent::is_project_of(project, Some(parent + seq!['/'] + name)),
        warp_agent::is_project_of(slashed, Some(parent + seq!['/'] + name + seq!['/'])),
    ensures
        project == Some(name),
        slashed == Some(name),
{
    reveal_strlit(".");
    reveal_strlit("..");
    assert("."@ =~= seq!['.']);
    assert(".."@ =~= seq!['.', '.']);
    let path = parent + seq!['/'] + name;
    let longer = path + seq!['/'];
    assert forall|i: int| 0 <= i < path.len() implies #[trigger] path[i] != '\\' && path[i]
        != ':' by {
        assert(longer[i] == path[i]);
    }
    assert(path.len() >= 2 ==> path[0] == longer[0] && path[1] == longer[1]);
    lemma_last_segment(parent + seq!['/'], name);
    assert(text::last_segment(longer) =~= seq![]);
    assert(longer.take(longer.len() - 1) =~= path);
}

/// What stands behind the last slash is the last segment.
proof fn lemma_last_segment(front: Seq<char>, name: Seq<char>)
    requires
        front.len() > 0,
        front.last() == '/',
        forall|i: int| 0 <= i < name.len() ==> #[trigger] name[i] != '/',
    ensures
        text::last_segment(front + name) == name,
    decreases name.len(),
{
    let path = front + name;
    if name.len() == 0 {
        assert(path =~= front);
    } else {
        assert(path.drop_last() =~= front + name.drop_last());
        lemma_last_segment(front, name.drop_last());
        assert(name.drop_last().push(name.last()) =~= name);
    }
}

/// Without a directory there is no project, and a project is never made up: it is the platform's
/// name for the directory.
pub proof fn law_project_is_the_platform_s(project: Option<Seq<char>>, cwd: Option<Seq<char>>)
    requires
        warp_agent::is_project_of(project, cwd),
    ensures
        cwd is None ==> project is None,
        cwd matches Some(path) ==> text::names_file(path, project),
{
}

} // verus!
