//! Bridge between the interactive session's state and the Warp CLI-agent emitter
//! ([`crate::warp_agent`]).
//!
//! The emitter tracks the last reported processing state and writes only on a real transition. So
//! the bridge just needs [`App::sync_warp_agent`] once per UI tick; everything else (Warp
//! detection, config gate, deduplication, handshake) is handled downstream.

use vstd::prelude::*;

use crate::payload;
use crate::text;
use crate::warp_agent;
use crate::warp_agent::EmitterState;
use crate::warp_agent::WarpSettings;
use crate::warp_agent::WarpSyncContext;

verus! {

/// A message in the session's transcript.
#[derive(Debug, Clone)]
pub struct DisplayMessage {
    pub role: String,
    pub content: String,
}

/// The part of the interactive session's state that the bridge reads.
#[derive(Debug)]
pub struct App {
    /// A replay or export instance rather than a live session.
    pub is_replay: bool,
    /// A turn is running.
    pub is_processing: bool,
    /// The session that this client has open.
    pub active_client_session_id: Option<String>,
    /// The latest prompt.
    pub last_submitted_input: Option<String>,
    /// The transcript, oldest first.
    pub display_messages: Vec<DisplayMessage>,
}

/// Owned backing store for the borrowed [`WarpSyncContext`], so the caller can assemble strings that
/// outlive the call.
#[derive(Debug)]
pub struct WarpOwnedContext {
    pub session_id: Option<String>,
    pub cwd: Option<String>,
    pub query: Option<String>,
    pub response: Option<String>,
}

/// Assistant text that is worth showing.
pub open spec fn is_response(message: DisplayMessage) -> bool {
    message.role@ == "assistant"@ && !text::is_blank(message.content@)
}

/// The most recent assistant text.
pub open spec fn latest_response(messages: Seq<DisplayMessage>) -> Option<Seq<char>>
    decreases messages.len(),
{
    if messages.len() == 0 {
        None
    } else if is_response(messages.last()) {
        Some(messages.last().content@)
    } else {
        latest_response(messages.drop_last())
    }
}

/// A response is the content of a message whose role is `assistant` and whose content is more than
/// white space, and no later message has that role and such content. Without a response no message
/// of the transcript has them.
pub proof fn law_latest_response_is_the_last_that_counts(messages: Seq<DisplayMessage>)
    ensures
        match latest_response(messages) {
            Some(content) => exists|at: int|
                0 <= at < messages.len() && (#[trigger] messages[at]).role@ == "assistant"@
                    && text::trimmed(messages[at].content@).len() > 0 && messages[at].content@
                    == content && forall|later: int|
                    at < later < messages.len() ==> (#[trigger] messages[later]).role@
                        != "assistant"@ || text::trimmed(messages[later].content@).len() == 0,
            None => forall|at: int|
                0 <= at < messages.len() ==> (#[trigger] messages[at]).role@ != "assistant"@
                    || text::trimmed(messages[at].content@).len() == 0,
        },
    decreases messages.len(),
{
    if messages.len() > 0 {
        let last = messages.len() - 1;
        if messages[last].role@ == "assistant"@ && text::trimmed(messages[last].content@).len()
            > 0 {
            assert(messages[last].content@ == latest_response(messages)->0);
        } else {
            let rest = messages.drop_last();
            law_latest_response_is_the_last_that_counts(rest);
            if let Some(content) = latest_response(rest) {
                let at = choose|at: int|
                    0 <= at < rest.len() && (#[trigger] rest[at]).role@ == "assistant"@
                        && text::trimmed(rest[at].content@).len() > 0 && rest[at].content@
                        == content && forall|later: int|
                        at < later < rest.len() ==> (#[trigger] rest[later]).role@ != "assistant"@
                            || text::trimmed(rest[later].content@).len() == 0;
                assert forall|later: int| at < later < messages.len() implies (
                #[trigger] messages[later]).role@ != "assistant"@ || text::trimmed(
                    messages[later].content@,
                ).len() == 0 by {
                    if later < last {
                        assert(messages[later] == rest[later]);
                    }
                }
                assert(messages[at] == rest[at]);
            } else {
                assert forall|at: int| 0 <= at < messages.len() implies (
                #[trigger] messages[at]).role@ != "assistant"@ || text::trimmed(
                    messages[at].content@,
                ).len() == 0 by {
                    if at < last {
                        assert(messages[at] == rest[at]);
                    }
                }
            }
        }
    }
}

/// What follows the latest assistant text does not matter: messages of other roles and blank ones
/// leave the response as it is, and further assistant text replaces it.
pub proof fn law_only_assistant_text_moves_the_response(
    messages: Seq<DisplayMessage>,
    message: DisplayMessage,
)
    ensures
        message.role@ != "assistant"@ || text::trimmed(message.content@).len() == 0
            ==> latest_response(messages.push(message)) == latest_response(messages),
        message.role@ == "assistant"@ && text::trimmed(message.content@).len() > 0
            ==> latest_response(messages.push(message)) == Some(message.content@),
{
    assert(messages.push(message).drop_last() =~= messages);
}

/// The context is the session's: its id, its latest prompt, the given directory, and its latest
/// response, each absent where the session has none.
pub proof fn law_context_is_the_sessions(app: App, cwd: Option<&str>, project: Option<Seq<char>>)
    ensures
        ({
            let ctx = turn_context(app, cwd, project);
            &&& ctx.session_id == match app.active_client_session_id {
                Some(id) => Some(id@),
                None => None,
            }
            &&& ctx.query == match app.last_submitted_input {
                Some(input) => Some(input@),
                None => None,
            }
            &&& ctx.cwd == match cwd {
                Some(path) => Some(path@),
                None => None,
            }
            &&& ctx.project == project
            &&& ctx.response == latest_response(app.display_messages@)
        }),
{
}

/// The turn as the session's state describes it, with the project name that goes with `cwd`.
pub open spec fn turn_context(
    app: App,
    cwd: Option<&str>,
    project: Option<Seq<char>>,
) -> warp_agent::ContextView {
    warp_agent::ContextView {
        session_id: payload::owned_text_of(app.active_client_session_id),
        cwd: payload::text_of(cwd),
        project,
        query: payload::owned_text_of(app.last_submitted_input),
        response: latest_response(app.display_messages@),
    }
}

impl App {
    /// Build the per-turn context (session id, cwd, latest prompt + response) shared by the Warp
    /// status events.
    pub fn warp_sync_context(&self, cwd: Option<&str>) -> (ctx: WarpOwnedContext)
        ensures
            payload::owned_text_of(ctx.session_id) == payload::owned_text_of(
                self.active_client_session_id,
            ),
            payload::owned_text_of(ctx.cwd) == payload::text_of(cwd),
            payload::owned_text_of(ctx.query) == payload::owned_text_of(self.last_submitted_input),
            payload::owned_text_of(ctx.response) == latest_response(self.display_messages@),
    {
        // The most recent assistant text becomes the completion-notification body in Warp. Only
        // meaningful once a turn has produced output.
        let assistant = "assistant".to_owned();
        let mut response: Option<String> = None;
        let mut rest: usize = self.display_messages.len();
        assert(self.display_messages@.take(rest as int) =~= self.display_messages@);
        while rest > 0 && response.is_none()
            invariant
                rest <= self.display_messages@.len(),
                assistant@ == "assistant"@,
                latest_response(self.display_messages@) == match response {
                    Some(content) => Some(content@),
                    None => latest_response(self.display_messages@.take(rest as int)),
                },
            decreases rest,
        {
            let ghost seen = self.display_messages@.take(rest as int);
            rest -= 1;
            let message = &self.display_messages[rest];
            assert(seen.last() == *message);
            assert(seen.drop_last() =~= self.display_messages@.take(rest as int));
            if message.role == assistant && !message.content.as_str().trim().is_empty() {
                response = Some(message.content.clone());
            }
        }
        WarpOwnedContext {
            session_id: self.active_client_session_id.clone(),
            cwd: warp_agent::cwd_string(cwd),
            query: self.last_submitted_input.clone(),
            response,
        }
    }

    /// Reconcile Warp's per-tab agent status with this client's processing state. Silent outside
    /// Warp or when disabled in config, and in replay/export instances, which must never write
    /// control sequences to a live terminal they don't own.
    pub fn sync_warp_agent(
        &self,
        emitter: &mut EmitterState,
        settings: &WarpSettings,
        cwd: Option<&str>,
    ) -> (sequences: Vec<String>)
        ensures
            self.is_replay ==> final(emitter)@ == old(emitter)@,
            !self.is_replay ==> final(emitter)@ == warp_agent::sync_next(
                *settings,
                old(emitter)@,
                self.is_processing,
            ),
            self.is_replay || !settings.active() ==> sequences@.len() == 0,
            !self.is_replay && settings.active() ==> exists|project: Option<Seq<char>>| #[trigger]
                turn_context(*self, cwd, project).valid() && warp_agent::carries(
                    sequences.deep_view(),
                    warp_agent::sync_notes(
                        *settings,
                        old(emitter)@,
                        self.is_processing,
                        turn_context(*self, cwd, project),
                    ),
                ),
    {
        if self.is_replay {
            return Vec::new();
        }
        let owned = self.warp_sync_context(cwd);
        let ctx = WarpSyncContext {
            session_id: payload::borrowed(&owned.session_id),
            cwd: payload::borrowed(&owned.cwd),
            query: payload::borrowed(&owned.query),
            response: payload::borrowed(&owned.response),
        };
        assert(forall|project: Option<Seq<char>>| #[trigger]
            warp_agent::context_of(ctx, project).valid() ==> warp_agent::context_of(ctx, project)
                =~= turn_context(*self, cwd, project));
        warp_agent::sync_processing(emitter, settings, self.is_processing, &ctx)
    }

    /// Emit the one-time Warp `session_start` handshake so the agent toolbelt appears immediately on
    /// launch. Silent outside Warp or when disabled, and in replay/export instances.
    pub fn announce_warp_agent_session_start(
        &self,
        emitter: &mut EmitterState,
        settings: &WarpSettings,
        cwd: Option<&str>,
    ) -> (sequences: Vec<String>)
        ensures
            self.is_replay ==> final(emitter)@ == old(emitter)@,
            !self.is_replay ==> final(emitter)@ == warp_agent::announce_next(
                *settings,
                old(emitter)@,
            ),
            self.is_replay || !warp_agent::announce_is_due(*settings, old(emitter)@)
                ==> sequences@.len() == 0,
            !self.is_replay && warp_agent::announce_is_due(*settings, old(emitter)@) ==> exists|ctx: warp_agent::ContextView| #[trigger]
                ctx.valid() && ctx.session_id == payload::owned_text_of(
                    self.active_client_session_id,
                ) && ctx.cwd == payload::text_of(cwd) && warp_agent::carries(
                    sequences.deep_view(),
                    warp_agent::announce_notes(*settings, old(emitter)@, ctx),
                ),
    {
        if self.is_replay {
            return Vec::new();
        }
        let session_id = payload::borrowed(&self.active_client_session_id);
        warp_agent::announce_session_start(emitter, settings, session_id, cwd)
    }
}

} // verus!
