//! What holds of the Warp integration over whole runs: any row of calls to the entry points of
//! [`crate::warp_agent`], whatever the settings are at each of them.

use vstd::prelude::*;

use crate::payload;
use crate::payload::PROTOCOL_VERSION;
use crate::text;
use crate::warp_agent;
use crate::warp_agent::WarpAgentState;
use crate::warp_agent::WarpSettings;
use crate::warp_agent::TEXT_MAX_CHARS;

verus! {

// ---------------------------------------------------------------------------
// Runs
// ---------------------------------------------------------------------------

/// A call of an entry point.
pub ghost enum WarpCall {
    AnnounceSessionStart { ctx: warp_agent::ContextView },
    NoteTurnFailed,
    NoteBlocked { summary: Option<Seq<char>> },
    SyncProcessing { is_processing: bool, ctx: warp_agent::ContextView },
}

/// A call and the settings that it finds.
pub ghost struct WarpStep {
    pub settings: WarpSettings,
    pub call: WarpCall,
}

/// What the emitter remembers after a call.
pub open spec fn step_next(
    prev: warp_agent::EmitterView,
    step: WarpStep,
) -> warp_agent::EmitterView {
    match step.call {
        WarpCall::AnnounceSessionStart { .. } => warp_agent::announce_next(step.settings, prev),
        WarpCall::NoteTurnFailed => warp_agent::turn_failed_next(step.settings, prev),
        WarpCall::NoteBlocked { summary } => warp_agent::blocked_next(
            step.settings,
            prev,
            summary,
        ),
        WarpCall::SyncProcessing { is_processing, .. } => warp_agent::sync_next(
            step.settings,
            prev,
            is_processing,
        ),
    }
}

/// What a call tells Warp.
pub open spec fn step_notes(prev: warp_agent::EmitterView, step: WarpStep) -> Seq<
    payload::NotificationView,
> {
    match step.call {
        WarpCall::AnnounceSessionStart { ctx } => warp_agent::announce_notes(
            step.settings,
            prev,
            ctx,
        ),
        WarpCall::NoteTurnFailed => seq![],
        WarpCall::NoteBlocked { summary } => warp_agent::blocked_notes(
            step.settings,
            prev,
            summary,
        ),
        WarpCall::SyncProcessing { is_processing, ctx } => warp_agent::sync_notes(
            step.settings,
            prev,
            is_processing,
            ctx,
        ),
    }
}

/// What the emitter remembers after a row of calls.
pub open spec fn run_state(start: warp_agent::EmitterView, steps: Seq<WarpStep>) -> (
    warp_agent::EmitterView)
    decreases steps.len(),
{
    if steps.len() == 0 {
        start
    } else {
        step_next(run_state(start, steps.drop_last()), steps.last())
    }
}

/// Everything that a row of calls tells Warp, in order.
pub open spec fn run_notes(start: warp_agent::EmitterView, steps: Seq<WarpStep>) -> Seq<
    payload::NotificationView,
>
    decreases steps.len(),
{
    if steps.len() == 0 {
        seq![]
    } else {
        run_notes(start, steps.drop_last()) + step_notes(
            run_state(start, steps.drop_last()),
            steps.last(),
        )
    }
}

// ---------------------------------------------------------------------------
// The invariant
// ---------------------------------------------------------------------------

/// What is always true of the emitter's memory: a status was only ever reported after the
/// handshake, and a reason for a block is on record only during the block.
pub open spec fn is_emitter(emitter: warp_agent::EmitterView) -> bool {
    &&& emitter.last_state is Some ==> emitter.session_started
    &&& emitter.pending_blocked is Some ==> emitter.last_state == Some(WarpAgentState::Blocked)
}

/// Every run of calls keeps the emitter's memory in order.
pub proof fn law_runs_keep_the_emitter_in_order(
    start: warp_agent::EmitterView,
    steps: Seq<WarpStep>,
)
    requires
        is_emitter(start),
    ensures
        is_emitter(run_state(start, steps)),
    decreases steps.len(),
{
    if steps.len() > 0 {
        law_runs_keep_the_emitter_in_order(start, steps.drop_last());
    }
}

// ---------------------------------------------------------------------------
// Events
// ---------------------------------------------------------------------------

/// The end of a turn.
pub open spec fn is_stop(event: Seq<char>) -> bool {
    event == "stop"@ || event == "stop_failure"@
}

/// The begin of a turn, or a question within one.
pub open spec fn is_in_turn(event: Seq<char>) -> bool {
    event == "prompt_submit"@ || event == "permission_request"@
}

/// The event names are told apart by their length.
proof fn lemma_event_names()
    ensures
        "session_start"@.len() == 13 && "session_start"@[1] == 'e',
        "prompt_submit"@.len() == 13 && "prompt_submit"@[1] == 'r',
        "permission_request"@.len() == 18,
        "stop"@.len() == 4,
        "stop_failure"@.len() == 12,
{
    reveal_strlit("session_start");
    reveal_strlit("prompt_submit");
    reveal_strlit("permission_request");
    reveal_strlit("stop");
    reveal_strlit("stop_failure");
}

/// Warp hears of the session exactly once, before anything else: of all that a fresh emitter ever
/// tells, the first notification is the handshake and no other is.
pub proof fn law_handshake_comes_first_and_once(steps: Seq<WarpStep>, i: int)
    requires
        0 <= i < run_notes(warp_agent::fresh_emitter(), steps).len(),
    ensures
        run_notes(warp_agent::fresh_emitter(), steps)[i].event == "session_start"@ <==> i == 0,
{
    lemma_handshake_in_run(steps);
}

proof fn lemma_handshake_in_run(steps: Seq<WarpStep>)
    ensures
        ({
            let notes = run_notes(warp_agent::fresh_emitter(), steps);
            &&& run_state(warp_agent::fresh_emitter(), steps).session_started <==> notes.len() > 0
            &&& forall|i: int|
                0 <= i < notes.len() ==> ((#[trigger] notes[i]).event == "session_start"@ <==> i
                    == 0)
        }),
    decreases steps.len(),
{
    if steps.len() > 0 {
        lemma_event_names();
        lemma_handshake_in_run(steps.drop_last());
    }
}

/// No phantom success or failure: whatever a fresh emitter is asked to report, the end of a turn is
/// only ever told right after the turn's begin or a question within it.
pub proof fn law_no_stop_without_a_turn(steps: Seq<WarpStep>, i: int)
    requires
        0 <= i < run_notes(warp_agent::fresh_emitter(), steps).len(),
        is_stop(run_notes(warp_agent::fresh_emitter(), steps)[i].event),
    ensures
        i > 0,
        is_in_turn(run_notes(warp_agent::fresh_emitter(), steps)[i - 1].event),
{
    lemma_stops_in_run(steps);
}

proof fn lemma_stops_in_run(steps: Seq<WarpStep>)
    ensures
        ({
            let state = run_state(warp_agent::fresh_emitter(), steps);
            let notes = run_notes(warp_agent::fresh_emitter(), steps);
            &&& is_emitter(state)
            &&& warp_agent::in_turn(warp_agent::snapshot_of(state)) ==> notes.len() > 0
                && is_in_turn(notes.last().event)
            &&& forall|i: int|
                0 <= i < notes.len() && is_stop((#[trigger] notes[i]).event) ==> i > 0
                    && is_in_turn(notes[i - 1].event)
        }),
    decreases steps.len(),
{
    if steps.len() > 0 {
        lemma_event_names();
        lemma_stops_in_run(steps.drop_last());
    }
}

// ---------------------------------------------------------------------------
// Turns
// ---------------------------------------------------------------------------

/// No call of the run reports a block.
pub open spec fn is_unblocked(steps: Seq<WarpStep>) -> bool {
    forall|i: int| 0 <= i < steps.len() ==> (#[trigger] steps[i]).call !is NoteBlocked
}

/// What the call at `at` tells, in a run of a fresh emitter.
pub open spec fn told_at(steps: Seq<WarpStep>, at: int) -> Seq<payload::NotificationView> {
    step_notes(run_state(warp_agent::fresh_emitter(), steps.take(at)), steps[at])
}

/// The call at `at` begins a turn.
pub open spec fn begins_turn(steps: Seq<WarpStep>, at: int) -> bool {
    told_at(steps, at).len() > 0 && told_at(steps, at).last().event == "prompt_submit"@
}

/// The call notes a failure, inside a capable Warp build.
pub open spec fn notes_failure(step: WarpStep) -> bool {
    step.call is NoteTurnFailed && step.settings.supported()
}

/// A failure is noted between two calls.
pub open spec fn fails_between(steps: Seq<WarpStep>, from: int, to: int) -> bool {
    exists|at: int| from < at < to && notes_failure(#[trigger] steps[at])
}

/// A turn begins at `begin`, and nothing is told from there up to `end`.
pub open spec fn is_turn(steps: Seq<WarpStep>, begin: int, end: int) -> bool {
    &&& 0 <= begin < end <= steps.len()
    &&& begins_turn(steps, begin)
    &&& forall|at: int| begin < at < end ==> (#[trigger] told_at(steps, at)).len() == 0
}

/// Without blocks the events of a run are the handshake and then, in strict alternation, the begin
/// and the end of a turn.
pub proof fn law_turns_alternate(steps: Seq<WarpStep>, i: int)
    requires
        is_unblocked(steps),
        0 <= i < run_notes(warp_agent::fresh_emitter(), steps).len(),
    ensures
        ({
            let event = run_notes(warp_agent::fresh_emitter(), steps)[i].event;
            &&& i == 0 ==> event == "session_start"@
            &&& i % 2 == 1 ==> event == "prompt_submit"@
            &&& i > 0 && i % 2 == 0 ==> is_stop(event)
        }),
{
    lemma_turns_in_run(steps);
}

/// Without blocks a turn ends as it went: the call that tells its end tells nothing else, and what
/// it tells is `stop_failure` exactly where a failure was noted since the turn's begin.
pub proof fn law_turn_ends_as_it_went(steps: Seq<WarpStep>, end: int) -> (begin: int)
    requires
        is_unblocked(steps),
        0 <= end < steps.len(),
        told_at(steps, end).len() > 0,
        is_stop(told_at(steps, end).last().event),
    ensures
        is_turn(steps, begin, end),
        told_at(steps, end).len() == 1,
        told_at(steps, end)[0].event == if fails_between(steps, begin, end) {
            "stop_failure"@
        } else {
            "stop"@
        },
{
    let run = steps.take(end);
    lemma_event_names();
    lemma_turns_in_run(run);
    let begin = choose|begin: int|
        #![trigger is_turn(run, begin, run.len() as int)]
        is_turn(run, begin, run.len() as int) && (run_state(
            warp_agent::fresh_emitter(),
            run,
        ).pending_failure <==> fails_between(run, begin, run.len() as int));
    lemma_same_turn(run, steps, begin);
    begin
}

/// A turn of a run is one of every longer run, with the same failures.
proof fn lemma_same_turn(run: Seq<WarpStep>, longer: Seq<WarpStep>, begin: int)
    requires
        run.len() <= longer.len(),
        run == longer.take(run.len() as int),
        is_turn(run, begin, run.len() as int),
    ensures
        is_turn(longer, begin, run.len() as int),
        fails_between(longer, begin, run.len() as int) <==> fails_between(
            run,
            begin,
            run.len() as int,
        ),
{
    assert forall|at: int| 0 <= at < run.len() implies told_at(run, at) == #[trigger] told_at(
        longer,
        at,
    ) by {
        assert(run.take(at) =~= longer.take(at));
        assert(run[at] == longer[at]);
    }
    assert(begins_turn(longer, begin));
    if fails_between(longer, begin, run.len() as int) {
        let at = choose|at: int| begin < at < run.len() && notes_failure(#[trigger] longer[at]);
        assert(run[at] == longer[at]);
    }
    if fails_between(run, begin, run.len() as int) {
        let at = choose|at: int| begin < at < run.len() && notes_failure(#[trigger] run[at]);
        assert(run[at] == longer[at]);
    }
}

/// Where a run without blocks stands: what was told so far alternates, and while a turn is under way
/// it began at some call, and the latch says whether a failure was noted since.
proof fn lemma_turns_in_run(steps: Seq<WarpStep>)
    requires
        is_unblocked(steps),
    ensures
        ({
            let state = run_state(warp_agent::fresh_emitter(), steps);
            let notes = run_notes(warp_agent::fresh_emitter(), steps);
            &&& is_emitter(state)
            &&& state.session_started <==> notes.len() > 0
            &&& state.last_state is None || state.last_state == Some(WarpAgentState::Working)
                || state.last_state == Some(WarpAgentState::Idle)
            &&& state.last_state == Some(WarpAgentState::Working) <==> notes.len() > 0
                && notes.len() % 2 == 0
            &&& forall|i: int|
                0 <= i < notes.len() ==> {
                    let event = (#[trigger] notes[i]).event;
                    &&& i == 0 ==> event == "session_start"@
                    &&& i % 2 == 1 ==> event == "prompt_submit"@
                    &&& i > 0 && i % 2 == 0 ==> is_stop(event)
                }
            &&& state.last_state == Some(WarpAgentState::Working) ==> exists|begin: int|
                #![trigger is_turn(steps, begin, steps.len() as int)]
                is_turn(steps, begin, steps.len() as int) && (state.pending_failure
                    <==> fails_between(steps, begin, steps.len() as int))
        }),
    decreases steps.len(),
{
    if steps.len() > 0 {
        let rest = steps.drop_last();
        let last = steps.len() - 1;
        let before = run_state(warp_agent::fresh_emitter(), rest);
        let after = run_state(warp_agent::fresh_emitter(), steps);
        lemma_event_names();
        lemma_turns_in_run(rest);
        assert(steps.take(last) =~= rest);
        assert(steps.last().call !is NoteBlocked) by {
            assert(steps[last].call !is NoteBlocked);
        }
        if after.last_state == Some(WarpAgentState::Working) {
            if before.last_state == Some(WarpAgentState::Working) {
                let begin = choose|begin: int|
                    #![trigger is_turn(rest, begin, rest.len() as int)]
                    is_turn(rest, begin, rest.len() as int) && (before.pending_failure
                        <==> fails_between(rest, begin, rest.len() as int));
                lemma_same_turn(rest, steps, begin);
                assert(told_at(steps, last).len() == 0);
                assert(is_turn(steps, begin, steps.len() as int));
                assert(fails_between(steps, begin, steps.len() as int) <==> fails_between(
                    steps,
                    begin,
                    last,
                ) || notes_failure(steps[last]));
            } else {
                assert(is_turn(steps, last, steps.len() as int));
            }
        }
    }
}

// ---------------------------------------------------------------------------
// Repeats
// ---------------------------------------------------------------------------

/// Reporting the same processing flag again is silent and changes nothing, so calling once per UI
/// tick emits on transitions alone.
pub proof fn law_repeated_sync_is_silent(
    settings: WarpSettings,
    prev: warp_agent::EmitterView,
    is_processing: bool,
    ctx: warp_agent::ContextView,
)
    ensures
        ({
            let once = warp_agent::sync_next(settings, prev, is_processing);
            &&& warp_agent::sync_next(settings, once, is_processing) == once
            &&& warp_agent::sync_notes(settings, once, is_processing, ctx).len() == 0
        }),
{
}

/// Announcing the session again is silent and changes nothing.
pub proof fn law_announcing_is_idempotent(
    settings: WarpSettings,
    prev: warp_agent::EmitterView,
    ctx: warp_agent::ContextView,
)
    ensures
        ({
            let once = warp_agent::announce_next(settings, prev);
            &&& warp_agent::announce_next(settings, once) == once
            &&& warp_agent::announce_notes(settings, once, ctx).len() == 0
        }),
{
}

// ---------------------------------------------------------------------------
// The failure latch
// ---------------------------------------------------------------------------

/// A call that neither ends the turn nor begins another: anything but a report of the processing
/// flag, or a report that the agent works while that is what was told last.
pub open spec fn stays_in_turn(state: warp_agent::EmitterView, step: WarpStep) -> bool {
    match step.call {
        WarpCall::SyncProcessing { is_processing, .. } => is_processing && (
        !step.settings.active() || (state.session_started && state.last_state == Some(
            WarpAgentState::Working,
        ))),
        _ => true,
    }
}

/// Every call of a run stays in the turn that is under way.
pub open spec fn run_stays_in_turn(start: warp_agent::EmitterView, steps: Seq<WarpStep>) -> bool {
    forall|i: int|
        0 <= i < steps.len() ==> stays_in_turn(
            run_state(start, steps.take(i)),
            #[trigger] steps[i],
        )
}

/// A turn that was noted as failed ends in one `stop_failure` with an error type, whatever is
/// called in between that stays in the turn: blocks, announcements, further notes of failure, UI
/// ticks. The latch goes with the turn: a second idle report is silent, and the next turn ends in
/// `stop`.
pub proof fn law_failed_turn_ends_in_stop_failure(
    settings: WarpSettings,
    prev: warp_agent::EmitterView,
    between: Seq<WarpStep>,
    ctx: warp_agent::ContextView,
)
    requires
        settings.active(),
        is_emitter(prev),
        warp_agent::in_turn(warp_agent::snapshot_of(prev)),
        run_stays_in_turn(warp_agent::turn_failed_next(settings, prev), between),
    ensures
        ({
            let failed = warp_agent::turn_failed_next(settings, prev);
            let late = run_state(failed, between);
            let notes = warp_agent::sync_notes(settings, late, false, ctx);
            let done = warp_agent::sync_next(settings, late, false);
            let again = warp_agent::sync_next(settings, done, true);
            let next_notes = warp_agent::sync_notes(settings, again, false, ctx);
            &&& notes.len() == 1
            &&& notes[0].event == "stop_failure"@
            &&& notes[0].error_type == Some("error"@)
            &&& warp_agent::sync_notes(settings, done, false, ctx).len() == 0
            &&& next_notes.len() == 1
            &&& next_notes[0].event == "stop"@
            &&& next_notes[0].error_type is None
        }),
{
    let failed = warp_agent::turn_failed_next(settings, prev);
    lemma_turn_goes_on(failed, between);
}

/// A turn during which no failure is noted ends in one `stop` without an error type.
pub proof fn law_unfailed_turn_ends_in_stop(
    settings: WarpSettings,
    prev: warp_agent::EmitterView,
    between: Seq<WarpStep>,
    ctx: warp_agent::ContextView,
)
    requires
        settings.active(),
        is_emitter(prev),
        prev.last_state != Some(WarpAgentState::Working),
        run_stays_in_turn(warp_agent::sync_next(settings, prev, true), between),
        forall|i: int|
            0 <= i < between.len() ==> (#[trigger] between[i]).call !is NoteTurnFailed,
    ensures
        ({
            let begun = warp_agent::sync_next(settings, prev, true);
            let notes = warp_agent::sync_notes(settings, run_state(begun, between), false, ctx);
            &&& notes.len() == 1
            &&& notes[0].event == "stop"@
            &&& notes[0].error_type is None
        }),
{
    let begun = warp_agent::sync_next(settings, prev, true);
    lemma_turn_goes_on(begun, between);
}

/// Calls that stay in the turn keep it under way, keep a latched failure, and latch none unless one
/// is noted.
proof fn lemma_turn_goes_on(start: warp_agent::EmitterView, steps: Seq<WarpStep>)
    requires
        is_emitter(start),
        warp_agent::in_turn(warp_agent::snapshot_of(start)),
        run_stays_in_turn(start, steps),
    ensures
        is_emitter(run_state(start, steps)),
        warp_agent::in_turn(warp_agent::snapshot_of(run_state(start, steps))),
        start.pending_failure ==> run_state(start, steps).pending_failure,
        !start.pending_failure && (forall|i: int|
            0 <= i < steps.len() ==> (#[trigger] steps[i]).call !is NoteTurnFailed)
            ==> !run_state(start, steps).pending_failure,
    decreases steps.len(),
{
    if steps.len() > 0 {
        let rest = steps.drop_last();
        let last = steps.len() - 1;
        assert forall|i: int| 0 <= i < rest.len() implies stays_in_turn(
            run_state(start, rest.take(i)),
            #[trigger] rest[i],
        ) by {
            assert(rest.take(i) =~= steps.take(i));
            assert(stays_in_turn(run_state(start, steps.take(i)), steps[i]));
        }
        lemma_turn_goes_on(start, rest);
        assert(steps.take(last) =~= rest);
        assert(stays_in_turn(run_state(start, steps.take(last)), steps[last]));
        assert(forall|i: int| 0 <= i < rest.len() ==> #[trigger] rest[i] == steps[i]);
    }
}

/// A failure that was noted before a turn does not taint it: the turn's begin drops the latch.
pub proof fn law_new_turn_drops_the_failure_latch(
    settings: WarpSettings,
    prev: warp_agent::EmitterView,
)
    requires
        settings.active(),
        prev.last_state != Some(WarpAgentState::Working),
    ensures
        !warp_agent::sync_next(settings, prev, true).pending_failure,
        warp_agent::sync_next(settings, prev, true).pending_blocked is None,
{
}

// ---------------------------------------------------------------------------
// Blocks
// ---------------------------------------------------------------------------

/// Being blocked always asks for attention, also while the agent is blocked already, and names the
/// reason.
pub proof fn law_block_always_asks(
    settings: WarpSettings,
    prev: warp_agent::EmitterView,
    summary: Option<Seq<char>>,
)
    requires
        settings.active(),
    ensures
        ({
            let notes = warp_agent::blocked_notes(settings, prev, summary);
            &&& notes.len() > 0
            &&& notes.last().event == "permission_request"@
            &&& notes.last().summary == Some(warp_agent::block_summary(summary))
        }),
        warp_agent::blocked_next(settings, prev, summary).pending_blocked == Some(
            warp_agent::block_summary(summary),
        ),
{
}

// ---------------------------------------------------------------------------
// Off
// ---------------------------------------------------------------------------

/// Outside a capable Warp build every call is silent and forgets itself. Inside one with the
/// integration disabled every call is silent, and only the failure latch can change.
pub proof fn law_integration_is_inert_unless_active(
    prev: warp_agent::EmitterView,
    step: WarpStep,
)
    requires
        !step.settings.active(),
    ensures
        step_notes(prev, step).len() == 0,
        !step.settings.supported() ==> step_next(prev, step) == prev,
        step_next(prev, step) == (warp_agent::EmitterView {
            pending_failure: step_next(prev, step).pending_failure,
            ..prev
        }),
{
}

// ---------------------------------------------------------------------------
// The shape of notifications
// ---------------------------------------------------------------------------

/// Texts that fit a notification banner.
pub open spec fn is_short(text: Option<Seq<char>>) -> bool {
    text matches Some(text) ==> text.len() <= TEXT_MAX_CHARS
}

/// Whatever is told follows the protocol: its version, the configured agent, an error type with
/// failures and only there, the plugin's version with the handshake and only there, a summary with
/// blocks and only there, and texts that are kept short.
pub proof fn law_notes_follow_the_protocol(
    prev: warp_agent::EmitterView,
    step: WarpStep,
    i: int,
)
    requires
        0 <= i < step_notes(prev, step).len(),
    ensures
        ({
            let note = step_notes(prev, step)[i];
            &&& note.v == PROTOCOL_VERSION
            &&& note.agent == step.settings.identity()
            &&& note.error_type == if note.event == "stop_failure"@ {
                Some("error"@)
            } else {
                None
            }
            &&& note.plugin_version == if note.event == "session_start"@ {
                Some(step.settings.plugin_version@)
            } else {
                None
            }
            &&& note.summary is Some <==> note.event == "permission_request"@
            &&& is_short(note.query)
            &&& is_short(note.response)
        }),
{
    lemma_event_names();
    if let WarpCall::SyncProcessing { ctx, .. } = step.call {
        lemma_shown_is_short(ctx.query);
        lemma_shown_is_short(ctx.response);
    }
}

proof fn lemma_shown_is_short(text: Option<Seq<char>>)
    ensures
        is_short(warp_agent::shown(text)),
{
    if let Some(text) = text {
        text::law_truncated_keeps_to_the_limit(text, TEXT_MAX_CHARS as int);
    }
}

} // verus!
