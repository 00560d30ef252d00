//! The life of a headless session: reserved, started stage by stage, registered,
//! and stopped in order.

use crate::json::{value_null, Json};
use crate::meet_headless::caption;
use crate::meet_headless::cdp::{self, session_command, CdpCommand, CommandView};
use crate::name_map::NameMap;
use crate::text::concat;
use vstd::prelude::*;

verus! {

pub const LOG_PREFIX: &'static str = "[meet-headless]";

/// The rate at which the meeting agent hears and speaks.
pub const AGENT_SAMPLE_RATE_HZ: u32 = 16_000;

/// What is told of a session that was stopped.
#[derive(Debug, Clone)]
pub struct SessionSummary {
    pub request_id: String,
    pub captions_seen: u64,
}

/// What a [`SessionSummary`] holds.
pub struct SummaryView {
    pub request_id: Seq<char>,
    pub captions_seen: u64,
}

impl View for SessionSummary {
    type V = SummaryView;

    open spec fn view(&self) -> SummaryView {
        SummaryView { request_id: self.request_id@, captions_seen: self.captions_seen }
    }
}

/// What is told of a stopped session: its request, and how many captions it
/// handed on.
pub open spec fn summary(request_id: Seq<char>, captions_seen: u64) -> SummaryView {
    SummaryView { request_id, captions_seen }
}

/// What is told of the session of a request, now that it is stopped.
pub fn stopped(request_id: &str, captions_seen: u64) -> (r: SessionSummary)
    ensures
        r.request_id@ == request_id@,
        r.captions_seen == captions_seen,
        r@ == summary(request_id@, captions_seen),
{
    SessionSummary { request_id: request_id.to_string(), captions_seen }
}

// ---------------------------------------------------------------------------
// The registry
// ---------------------------------------------------------------------------

/// What is registered under a request: a start that is under way, or a session.
pub enum SessionEntry<S> {
    Pending,
    Active(S),
}

/// The sessions by request. A start holds its place from the beginning, so that
/// no other start of the same request gets in between.
pub struct HeadlessState<S> {
    sessions: NameMap<SessionEntry<S>>,
}

impl<S> View for HeadlessState<S> {
    type V = Map<Seq<char>, SessionEntry<S>>;

    closed spec fn view(&self) -> Map<Seq<char>, SessionEntry<S>> {
        self.sessions@
    }
}

/// How a start ended.
pub enum StartEnd<S> {
    /// The session is registered.
    Registered,
    /// The place was taken away meanwhile. The session is given back, to be torn
    /// down, and the agent's session is to be stopped.
    Cancelled { error: String, session: S },
    /// There is no session.
    Failed(String),
}

/// The error of a start of a request that is registered.
pub open spec fn already_running(id: Seq<char>) -> Seq<char> {
    "session already running: "@ + id
}

/// The error of a start whose place was taken away.
pub open spec fn cancelled(id: Seq<char>) -> Seq<char> {
    "session "@ + id + " was cancelled during start"@
}

/// The error of a stop of a request that is not registered.
pub open spec fn not_found(id: Seq<char>) -> Seq<char> {
    "session not found: "@ + id
}

/// The error of a stop of a request whose start is under way.
pub open spec fn still_starting(id: Seq<char>) -> Seq<char> {
    "session "@ + id + " is still starting; retry shortly"@
}

/// What a request can ask of the registry.
pub enum RegistryCall<S> {
    Reserve(Seq<char>),
    FinishStart(Seq<char>, Option<S>),
    Take(Seq<char>),
}

/// The request that a call is about.
pub open spec fn call_id<S>(call: RegistryCall<S>) -> Seq<char> {
    match call {
        RegistryCall::Reserve(id) => id,
        RegistryCall::FinishStart(id, _) => id,
        RegistryCall::Take(id) => id,
    }
}

/// The registry after a call.
pub open spec fn after_call<S>(
    sessions: Map<Seq<char>, SessionEntry<S>>,
    call: RegistryCall<S>,
) -> Map<Seq<char>, SessionEntry<S>> {
    match call {
        RegistryCall::Reserve(id) => if sessions.contains_key(id) {
            sessions
        } else {
            sessions.insert(id, SessionEntry::Pending)
        },
        RegistryCall::FinishStart(id, Some(session)) => if sessions.contains_key(id)
            && sessions[id] is Pending {
            sessions.insert(id, SessionEntry::Active(session))
        } else {
            sessions
        },
        RegistryCall::FinishStart(id, None) => sessions.remove(id),
        RegistryCall::Take(id) => if sessions.contains_key(id) && sessions[id] is Active {
            sessions.remove(id)
        } else {
            sessions
        },
    }
}

/// What a stop finds: the session, or the error where there is none to stop.
pub open spec fn found<S>(sessions: Map<Seq<char>, SessionEntry<S>>, id: Seq<char>) -> Result<
    S,
    Seq<char>,
> {
    if !sessions.contains_key(id) {
        Err(not_found(id))
    } else {
        match sessions[id] {
            SessionEntry::Pending => Err(still_starting(id)),
            SessionEntry::Active(session) => Ok(session),
        }
    }
}

impl<S> HeadlessState<S> {
    /// No session.
    pub fn new() -> (r: Self)
        ensures
            r@ == Map::<Seq<char>, SessionEntry<S>>::empty(),
    {
        HeadlessState { sessions: NameMap::new() }
    }

    /// Holds a place for the start of a request, unless it is registered.
    pub fn reserve(&mut self, request_id: &str) -> (r: Result<(), String>)
        ensures
            r is Err <==> old(self)@.contains_key(request_id@),
            r is Err ==> r->Err_0@ == already_running(request_id@),
            r is Err ==> r->Err_0@ == "session already running: "@ + request_id@,
            final(self)@ == after_call(old(self)@, RegistryCall::Reserve(request_id@)),
    {
        if self.sessions.contains_key(request_id) {
            return Err(concat("session already running: ", request_id));
        }
        let _before: Option<SessionEntry<S>> = self.sessions.insert(
            request_id.to_string(),
            SessionEntry::Pending,
        );
        Ok(())
    }

    /// Ends a start: registers its session where its place is still held, and
    /// gives the place up where there is no session.
    pub fn finish_start(&mut self, request_id: &str, outcome: Result<S, String>) -> (r: StartEnd<S>)
        ensures
            match outcome {
                Err(e) => r == StartEnd::<S>::Failed(e),
                Ok(session) => if old(self)@.contains_key(request_id@)
                    && old(self)@[request_id@] is Pending {
                    r is Registered
                } else {
                    r is Cancelled && r->session == session && r->error@ == cancelled(request_id@)
                },
            },
            r is Cancelled ==> r->error@ == "session "@ + request_id@
                + " was cancelled during start"@,
            final(self)@ == after_call(
                old(self)@,
                RegistryCall::FinishStart(
                    request_id@,
                    match outcome {
                        Ok(session) => Some(session),
                        Err(_) => None,
                    },
                ),
            ),
    {
        match outcome {
            Err(e) => {
                let _pending: Option<SessionEntry<S>> = self.sessions.remove(request_id);
                StartEnd::Failed(e)
            },
            Ok(session) => {
                let held: bool = match self.sessions.get(request_id) {
                    Some(SessionEntry::Pending) => true,
                    _ => false,
                };
                if held {
                    let _pending: Option<SessionEntry<S>> = self.sessions.insert(
                        request_id.to_string(),
                        SessionEntry::Active(session),
                    );
                    StartEnd::Registered
                } else {
                    let mut error: String = concat("session ", request_id);
                    error.append(" was cancelled during start");
                    StartEnd::Cancelled { error, session }
                }
            },
        }
    }

    /// Takes the session of a request out of the registry, to be stopped. A start
    /// that is under way keeps its place.
    pub fn take(&mut self, request_id: &str) -> (r: Result<S, String>)
        ensures
            match r {
                Ok(session) => found(old(self)@, request_id@) == Ok::<S, Seq<char>>(session),
                Err(e) => found(old(self)@, request_id@) == Err::<S, Seq<char>>(e@),
            },
            r is Ok <==> old(self)@.contains_key(request_id@) && old(self)@[request_id@] is Active,
            r is Ok ==> r->Ok_0 == old(self)@[request_id@]->Active_0,
            r is Err && !old(self)@.contains_key(request_id@) ==> r->Err_0@ == "session not found: "@
                + request_id@,
            r is Err && old(self)@.contains_key(request_id@) ==> r->Err_0@ == "session "@
                + request_id@ + " is still starting; retry shortly"@,
            final(self)@ == after_call(old(self)@, RegistryCall::Take(request_id@)),
    {
        let active: bool = match self.sessions.get(request_id) {
            None => return Err(concat("session not found: ", request_id)),
            Some(SessionEntry::Pending) => false,
            Some(SessionEntry::Active(_)) => true,
        };
        if active {
            match self.sessions.remove(request_id) {
                Some(SessionEntry::Active(session)) => return Ok(session),
                _ => {},
            }
        }
        let mut e: String = concat("session ", request_id);
        e.append(" is still starting; retry shortly");
        Err(e)
    }

    /// How many requests are registered.
    pub fn live_count(&self) -> (r: usize)
        ensures
            self@.dom().finite(),
            r == self@.dom().len(),
    {
        self.sessions.len()
    }
}

/// A session leaves the registry only when it is taken, or when a start of its
/// own request fails; no call puts another session in its place, and a call about
/// one request leaves all others as they are.
pub proof fn law_sessions_are_not_clobbered<S>(
    sessions: Map<Seq<char>, SessionEntry<S>>,
    call: RegistryCall<S>,
    id: Seq<char>,
)
    requires
        sessions.contains_key(id),
    ensures
        call_id(call) != id ==> after_call(sessions, call).contains_key(id) && after_call(
            sessions,
            call,
        )[id] == sessions[id],
        sessions[id] is Active && after_call(sessions, call).contains_key(id) ==> after_call(
            sessions,
            call,
        )[id] == sessions[id],
        sessions[id] is Active && !after_call(sessions, call).contains_key(id) ==> call
            == RegistryCall::<S>::Take(id) || call == RegistryCall::<S>::FinishStart(id, None),
        sessions[id] is Pending && call == RegistryCall::<S>::Take(id) ==> after_call(sessions, call)
            == sessions,
{
}

/// Two starts of one request cannot both hold a place: after the first, the
/// second changes nothing, until the first has ended.
pub proof fn law_one_start_at_a_time<S>(sessions: Map<Seq<char>, SessionEntry<S>>, id: Seq<char>)
    ensures
        ({
            let held = after_call(sessions, RegistryCall::<S>::Reserve(id));
            held.contains_key(id) && after_call(held, RegistryCall::<S>::Reserve(id)) == held
        }),
{
}

/// A stop ends a session once: the session is found, a second stop of the request
/// finds nothing, and the request can start anew. Every other request is left as
/// it was, and a stop of it would find what it would have found before.
pub proof fn law_stop_once<S>(
    sessions: Map<Seq<char>, SessionEntry<S>>,
    id: Seq<char>,
    other: Seq<char>,
)
    requires
        sessions.contains_key(id),
        sessions[id] is Active,
    ensures
        ({
            let stopped = after_call(sessions, RegistryCall::<S>::Take(id));
            &&& found(sessions, id) == Ok::<S, Seq<char>>(sessions[id]->Active_0)
            &&& found(stopped, id) == Err::<S, Seq<char>>(not_found(id))
            &&& after_call(stopped, RegistryCall::<S>::Take(id)) == stopped
            &&& after_call(stopped, RegistryCall::<S>::Reserve(id)) == sessions.insert(
                id,
                SessionEntry::Pending,
            )
            &&& other != id ==> found(stopped, other) == found(sessions, other) && (
            stopped.contains_key(other) <==> sessions.contains_key(other))
        }),
{
    let stopped = after_call(sessions, RegistryCall::<S>::Take(id));
    assert(after_call(stopped, RegistryCall::<S>::Reserve(id)) =~= sessions.insert(
        id,
        SessionEntry::Pending,
    ));
}

/// A request that was never started has nothing to stop.
pub proof fn law_unknown_is_not_found<S>(sessions: Map<Seq<char>, SessionEntry<S>>, id: Seq<char>)
    requires
        !sessions.contains_key(id),
    ensures
        found(sessions, id) == Err::<S, Seq<char>>(not_found(id)),
        after_call(sessions, RegistryCall::<S>::Take(id)) == sessions,
{
}

/// A session that was started and then stopped: the start succeeds and its session
/// is the one that is stopped, the registry is as it was before, a second stop is
/// told that there is none, and the summary names the request and the captions
/// that were counted for it, which are then forgotten.
pub proof fn law_start_then_stop<S>(
    before: Map<Seq<char>, SessionEntry<S>>,
    id: Seq<char>,
    session: S,
    counts: Map<Seq<char>, u64>,
)
    requires
        !before.contains_key(id),
    ensures
        ({
            let held = after_call(before, RegistryCall::<S>::Reserve(id));
            let started = after_call(held, RegistryCall::FinishStart(id, Some(session)));
            let stopped = after_call(started, RegistryCall::<S>::Take(id));
            let told = summary(id, caption::seen_in(counts, id));
            &&& found(held, id) == Err::<S, Seq<char>>(still_starting(id))
            &&& found(started, id) == Ok::<S, Seq<char>>(session)
            &&& stopped == before
            &&& found(stopped, id) == Err::<S, Seq<char>>(not_found(id))
            &&& told.request_id == id
            &&& counts.contains_key(id) ==> told.captions_seen == counts[id]
            &&& caption::seen_in(counts.remove(id), id) == 0
        }),
{
    let held = after_call(before, RegistryCall::<S>::Reserve(id));
    let started = after_call(held, RegistryCall::FinishStart(id, Some(session)));
    let stopped = after_call(started, RegistryCall::<S>::Take(id));
    assert(stopped =~= before);
}

// ---------------------------------------------------------------------------
// Starting
// ---------------------------------------------------------------------------

/// The stages of a start, in order.
#[derive(Debug, Clone, Copy, PartialEq, Eq, Structural)]
pub enum LaunchStage {
    /// Start the browser and learn its address.
    LaunchBrowser,
    /// Open a tab on the call.
    OpenTab,
    /// Turn the page events on.
    EnablePage,
    /// Turn evaluation on.
    EnableRuntime,
    /// Join the call.
    Join,
    /// Start the agent's session.
    StartAgent,
    /// Attach to the tab for the captions.
    OpenCaptionPage,
    /// Start to watch the captions.
    StartCaptions,
    /// Attach to the tab for the audio.
    OpenAudioPage,
    /// Set the audio bridge up in the page.
    InjectAudio,
    /// Start the audio bridge.
    StartAudio,
}

/// What follows a stage.
#[derive(Debug)]
pub enum LaunchStep {
    /// Another stage.
    Next(LaunchStage),
    /// The session is ready.
    Ready,
    /// The start failed. The agent's session is to be stopped where it was
    /// started; what else was started goes down with the session.
    Failed { error: String, stop_agent: bool },
}

/// What a [`LaunchStep`] holds.
pub enum LaunchStepView {
    Next(LaunchStage),
    Ready,
    Failed { error: Seq<char>, stop_agent: bool },
}

impl View for LaunchStep {
    type V = LaunchStepView;

    open spec fn view(&self) -> LaunchStepView {
        match *self {
            LaunchStep::Next(stage) => LaunchStepView::Next(stage),
            LaunchStep::Ready => LaunchStepView::Ready,
            LaunchStep::Failed { error, stop_agent } => LaunchStepView::Failed {
                error: error@,
                stop_agent,
            },
        }
    }
}

/// What came of a stage: done, or the reason why not.
pub open spec fn unit_result(r: Result<(), String>) -> Result<(), Seq<char>> {
    match r {
        Ok(_) => Ok(()),
        Err(e) => Err(e@),
    }
}

/// What follows a stage that was done.
pub open spec fn after_done(stage: LaunchStage) -> LaunchStepView {
    match stage {
        LaunchStage::LaunchBrowser => LaunchStepView::Next(LaunchStage::OpenTab),
        LaunchStage::OpenTab => LaunchStepView::Next(LaunchStage::EnablePage),
        LaunchStage::EnablePage => LaunchStepView::Next(LaunchStage::EnableRuntime),
        LaunchStage::EnableRuntime => LaunchStepView::Next(LaunchStage::Join),
        LaunchStage::Join => LaunchStepView::Next(LaunchStage::StartAgent),
        LaunchStage::StartAgent => LaunchStepView::Next(LaunchStage::OpenCaptionPage),
        LaunchStage::OpenCaptionPage => LaunchStepView::Next(LaunchStage::StartCaptions),
        LaunchStage::StartCaptions => LaunchStepView::Next(LaunchStage::OpenAudioPage),
        LaunchStage::OpenAudioPage => LaunchStepView::Next(LaunchStage::InjectAudio),
        LaunchStage::InjectAudio => LaunchStepView::Next(LaunchStage::StartAudio),
        LaunchStage::StartAudio => LaunchStepView::Ready,
    }
}

/// What follows a stage that was not done. Without a browser, a tab, the agent or
/// the captions there is no session. A call that was not joined can still be
/// joined by hand, and without audio the captions still work.
pub open spec fn after_error(stage: LaunchStage, e: Seq<char>) -> LaunchStepView {
    match stage {
        LaunchStage::LaunchBrowser | LaunchStage::OpenTab => LaunchStepView::Failed {
            error: e,
            stop_agent: false,
        },
        LaunchStage::StartAgent => LaunchStepView::Failed {
            error: "meet_agent.start_session: "@ + e,
            stop_agent: false,
        },
        LaunchStage::OpenCaptionPage => LaunchStepView::Failed {
            error: "open caption page: "@ + e,
            stop_agent: true,
        },
        LaunchStage::OpenAudioPage | LaunchStage::InjectAudio => LaunchStepView::Ready,
        _ => after_done(stage),
    }
}

/// What follows a stage.
pub open spec fn launch_next(stage: LaunchStage, outcome: Result<(), Seq<char>>) -> LaunchStepView {
    match outcome {
        Ok(_) => after_done(stage),
        Err(e) => after_error(stage, e),
    }
}

/// What follows a stage of a start.
pub fn after_stage(stage: LaunchStage, outcome: Result<(), String>) -> (r: LaunchStep)
    ensures
        r@ == launch_next(stage, unit_result(outcome)),
{
    match outcome {
        Ok(_) => {},
        Err(e) => match stage {
            LaunchStage::LaunchBrowser | LaunchStage::OpenTab => return LaunchStep::Failed {
                error: e,
                stop_agent: false,
            },
            LaunchStage::StartAgent => return LaunchStep::Failed {
                error: concat("meet_agent.start_session: ", e.as_str()),
                stop_agent: false,
            },
            LaunchStage::OpenCaptionPage => return LaunchStep::Failed {
                error: concat("open caption page: ", e.as_str()),
                stop_agent: true,
            },
            LaunchStage::OpenAudioPage | LaunchStage::InjectAudio => return LaunchStep::Ready,
            _ => {},
        },
    }
    match stage {
        LaunchStage::LaunchBrowser => LaunchStep::Next(LaunchStage::OpenTab),
        LaunchStage::OpenTab => LaunchStep::Next(LaunchStage::EnablePage),
        LaunchStage::EnablePage => LaunchStep::Next(LaunchStage::EnableRuntime),
        LaunchStage::EnableRuntime => LaunchStep::Next(LaunchStage::Join),
        LaunchStage::Join => LaunchStep::Next(LaunchStage::StartAgent),
        LaunchStage::StartAgent => LaunchStep::Next(LaunchStage::OpenCaptionPage),
        LaunchStage::OpenCaptionPage => LaunchStep::Next(LaunchStage::StartCaptions),
        LaunchStage::StartCaptions => LaunchStep::Next(LaunchStage::OpenAudioPage),
        LaunchStage::OpenAudioPage => LaunchStep::Next(LaunchStage::InjectAudio),
        LaunchStage::InjectAudio => LaunchStep::Next(LaunchStage::StartAudio),
        LaunchStage::StartAudio => LaunchStep::Ready,
    }
}

/// The command that a stage consists of, where it is one command.
pub open spec fn stage_command(stage: LaunchStage, session: Seq<char>) -> Option<CommandView> {
    match stage {
        LaunchStage::EnablePage => Some(cdp::command("Page.enable"@, Json::Null, session)),
        LaunchStage::EnableRuntime => Some(cdp::command("Runtime.enable"@, Json::Null, session)),
        _ => None,
    }
}

/// The command that a stage consists of, where it is one command: those that turn
/// something on in the session of the tab.
pub fn launch_command(stage: LaunchStage, session_id: &str) -> (r: Option<CdpCommand>)
    ensures
        match r {
            Some(command) => stage_command(stage, session_id@) == Some(command@),
            None => stage_command(stage, session_id@) is None,
        },
{
    match stage {
        LaunchStage::EnablePage => Some(session_command("Page.enable", value_null(), session_id)),
        LaunchStage::EnableRuntime => Some(
            session_command("Runtime.enable", value_null(), session_id),
        ),
        _ => None,
    }
}

/// How far a stage is from the beginning.
pub open spec fn rank(stage: LaunchStage) -> nat {
    match stage {
        LaunchStage::LaunchBrowser => 0,
        LaunchStage::OpenTab => 1,
        LaunchStage::EnablePage => 2,
        LaunchStage::EnableRuntime => 3,
        LaunchStage::Join => 4,
        LaunchStage::StartAgent => 5,
        LaunchStage::OpenCaptionPage => 6,
        LaunchStage::StartCaptions => 7,
        LaunchStage::OpenAudioPage => 8,
        LaunchStage::InjectAudio => 9,
        LaunchStage::StartAudio => 10,
    }
}

/// What a whole start does, from a stage on, when each stage has the outcome that
/// `outcomes` gives it: the stages that are done, and how it ends.
pub open spec fn launch_course(
    stage: LaunchStage,
    outcomes: spec_fn(LaunchStage) -> Result<(), Seq<char>>,
) -> (Set<LaunchStage>, LaunchStepView)
    decreases 11 - rank(stage),
{
    let done = if outcomes(stage) is Ok {
        set![stage]
    } else {
        Set::empty()
    };
    match launch_next(stage, outcomes(stage)) {
        LaunchStepView::Next(next) => if rank(next) > rank(stage) {
            let rest = launch_course(next, outcomes);
            (done.union(rest.0), rest.1)
        } else {
            (done, LaunchStepView::Ready)
        },
        end => (done, end),
    }
}

/// A start always moves on, so it ends.
pub proof fn law_launch_moves_on(stage: LaunchStage, outcome: Result<(), Seq<char>>)
    ensures
        launch_next(stage, outcome) is Next ==> rank(launch_next(stage, outcome)->Next_0) == rank(
            stage,
        ) + 1,
{
}

/// A start fails only for want of the browser, the tab, the agent or the tab of
/// the captions. Then the agent's session is stopped exactly where it was
/// started: none is left behind. A start that is ready has the agent and the
/// captions; it has the audio bridge where nothing about the audio failed.
pub proof fn law_launch(outcomes: spec_fn(LaunchStage) -> Result<(), Seq<char>>)
    ensures
        ({
            let needed = outcomes(LaunchStage::LaunchBrowser) is Ok && outcomes(
                LaunchStage::OpenTab,
            ) is Ok && outcomes(LaunchStage::StartAgent) is Ok && outcomes(
                LaunchStage::OpenCaptionPage,
            ) is Ok;
            let (done, end) = launch_course(LaunchStage::LaunchBrowser, outcomes);
            &&& end is Ready <==> needed
            &&& !(end is Next)
            &&& end is Failed ==> end->stop_agent == done.contains(LaunchStage::StartAgent)
            &&& end is Failed ==> !done.contains(LaunchStage::StartCaptions) && !done.contains(
                LaunchStage::StartAudio,
            )
            &&& end is Ready ==> done.contains(LaunchStage::StartAgent) && (done.contains(
                LaunchStage::StartCaptions,
            ) <==> outcomes(LaunchStage::StartCaptions) is Ok) && (done.contains(
                LaunchStage::StartAudio,
            ) <==> outcomes(LaunchStage::OpenAudioPage) is Ok && outcomes(
                LaunchStage::InjectAudio,
            ) is Ok && outcomes(LaunchStage::StartAudio) is Ok)
        }),
{
    reveal_with_fuel(launch_course, 12);
}

// ---------------------------------------------------------------------------
// Stopping
// ---------------------------------------------------------------------------

/// What a session holds that has to be let go.
#[derive(Debug, Clone, Copy, PartialEq, Eq, Structural)]
pub struct SessionParts {
    pub captions: bool,
    pub audio: bool,
    pub browser: bool,
    pub profile: bool,
}

/// What is done to let a session go.
#[derive(Debug, Clone, Copy, PartialEq, Eq, Structural)]
pub enum StopAction {
    StopCaptions,
    StopAudio,
    StopAgent,
    KillBrowser,
    RemoveProfile,
}

/// An action, where it is needed.
pub open spec fn when(needed: bool, action: StopAction) -> Seq<StopAction> {
    if needed {
        seq![action]
    } else {
        Seq::empty()
    }
}

/// What a stop does, in order. Captions and audio end first, so that they no
/// longer reach an agent's session that is going.
pub open spec fn stopping(parts: SessionParts) -> Seq<StopAction> {
    when(parts.captions, StopAction::StopCaptions) + when(parts.audio, StopAction::StopAudio)
        + seq![StopAction::StopAgent] + when(parts.browser, StopAction::KillBrowser) + when(
        parts.profile,
        StopAction::RemoveProfile,
    )
}

/// What is done, in order, where a session goes without being stopped. The
/// browser goes with its handle.
pub open spec fn dropping(parts: SessionParts) -> Seq<StopAction> {
    when(parts.captions, StopAction::StopCaptions) + when(parts.audio, StopAction::StopAudio)
        + when(parts.profile, StopAction::RemoveProfile)
}

fn push_when(actions: &mut Vec<StopAction>, needed: bool, action: StopAction)
    ensures
        final(actions)@ == old(actions)@ + when(needed, action),
{
    let ghost before = actions@;
    if needed {
        actions.push(action);
    }
    assert(actions@ =~= before + when(needed, action));
}

/// What a stop does, in order.
pub fn stop_actions(parts: SessionParts) -> (r: Vec<StopAction>)
    ensures
        r@ == stopping(parts),
{
    let mut actions: Vec<StopAction> = Vec::new();
    push_when(&mut actions, parts.captions, StopAction::StopCaptions);
    push_when(&mut actions, parts.audio, StopAction::StopAudio);
    actions.push(StopAction::StopAgent);
    push_when(&mut actions, parts.browser, StopAction::KillBrowser);
    push_when(&mut actions, parts.profile, StopAction::RemoveProfile);
    assert(actions@ =~= stopping(parts));
    actions
}

/// What is done, in order, where a session goes without being stopped.
pub fn drop_actions(parts: SessionParts) -> (r: Vec<StopAction>)
    ensures
        r@ == dropping(parts),
{
    let mut actions: Vec<StopAction> = Vec::new();
    push_when(&mut actions, parts.captions, StopAction::StopCaptions);
    push_when(&mut actions, parts.audio, StopAction::StopAudio);
    push_when(&mut actions, parts.profile, StopAction::RemoveProfile);
    assert(actions@ =~= dropping(parts));
    actions
}

/// Nothing that reaches the agent's session outlives it: whatever a session
/// holds, captions and audio are stopped before the agent is, and a session that
/// holds nothing any more has nothing left to do when it is dropped.
pub proof fn law_agent_goes_after_its_callers(parts: SessionParts, i: int, j: int)
    requires
        0 <= i < stopping(parts).len(),
        0 <= j < stopping(parts).len(),
        stopping(parts)[j] is StopAgent,
    ensures
        stopping(parts)[i] is StopCaptions || stopping(parts)[i] is StopAudio ==> i < j,
        dropping(
            SessionParts { captions: false, audio: false, browser: false, profile: false },
        ) == Seq::<StopAction>::empty(),
{
    assert(dropping(
        SessionParts { captions: false, audio: false, browser: false, profile: false },
    ) =~= Seq::empty());
}

/// What each call does to the sessions. A reservation holds a free name, and leaves a
/// taken one as it is. A start that ends well makes the session that was held active,
/// and touches nothing where none is held; one that ends badly gives the name up. A
/// stop takes an active session away, and leaves one that is still starting.
pub proof fn law_registry<S>(sessions: Map<Seq<char>, SessionEntry<S>>, id: Seq<char>, session: S)
    ensures
        after_call(sessions, RegistryCall::<S>::Reserve(id)) == if sessions.contains_key(id) {
            sessions
        } else {
            sessions.insert(id, SessionEntry::Pending)
        },
        after_call(sessions, RegistryCall::FinishStart(id, Some(session))) == if sessions.contains_key(
            id,
        ) && sessions[id] is Pending {
            sessions.insert(id, SessionEntry::Active(session))
        } else {
            sessions
        },
        after_call(sessions, RegistryCall::<S>::FinishStart(id, None)) == sessions.remove(id),
        after_call(sessions, RegistryCall::<S>::Take(id)) == if sessions.contains_key(id)
            && sessions[id] is Active {
            sessions.remove(id)
        } else {
            sessions
        },
{
}

/// What is found under a name: the active session, or, for one that is still starting
/// and for one that is not there, the error that says so.
pub proof fn law_lookup<S>(sessions: Map<Seq<char>, SessionEntry<S>>, id: Seq<char>, session: S)
    ensures
        sessions.contains_key(id) && sessions[id] == SessionEntry::Active(session) ==> found(
            sessions,
            id,
        ) == Ok::<S, Seq<char>>(session),
        sessions.contains_key(id) && sessions[id] is Pending ==> found(sessions, id) == Err::<
            S,
            Seq<char>,
        >("session "@ + id + " is still starting; retry shortly"@),
        !sessions.contains_key(id) ==> found(sessions, id) == Err::<S, Seq<char>>(
            "session not found: "@ + id,
        ),
{
}

/// The stages of a launch, each after the one before it is done.
pub proof fn law_launch_order()
    ensures
        launch_next(LaunchStage::LaunchBrowser, Ok(())) == LaunchStepView::Next(
            LaunchStage::OpenTab,
        ),
        launch_next(LaunchStage::OpenTab, Ok(())) == LaunchStepView::Next(LaunchStage::EnablePage),
        launch_next(LaunchStage::EnablePage, Ok(())) == LaunchStepView::Next(
            LaunchStage::EnableRuntime,
        ),
        launch_next(LaunchStage::EnableRuntime, Ok(())) == LaunchStepView::Next(LaunchStage::Join),
        launch_next(LaunchStage::Join, Ok(())) == LaunchStepView::Next(LaunchStage::StartAgent),
        launch_next(LaunchStage::StartAgent, Ok(())) == LaunchStepView::Next(
            LaunchStage::OpenCaptionPage,
        ),
        launch_next(LaunchStage::OpenCaptionPage, Ok(())) == LaunchStepView::Next(
            LaunchStage::StartCaptions,
        ),
        launch_next(LaunchStage::StartCaptions, Ok(())) == LaunchStepView::Next(
            LaunchStage::OpenAudioPage,
        ),
        launch_next(LaunchStage::OpenAudioPage, Ok(())) == LaunchStepView::Next(
            LaunchStage::InjectAudio,
        ),
        launch_next(LaunchStage::InjectAudio, Ok(())) == LaunchStepView::Next(
            LaunchStage::StartAudio,
        ),
        launch_next(LaunchStage::StartAudio, Ok(())) == LaunchStepView::Ready,
{
}

/// What an error does to a launch. Without a browser, a tab, an agent or a page for the
/// captions it fails with that error, and an agent that was started is stopped. Without
/// a page for the audio, or its scripts, it is ready and stays mute. Any other error is
/// passed over, as if the stage were done.
pub proof fn law_launch_errors(stage: LaunchStage, e: Seq<char>)
    ensures
        stage is LaunchBrowser || stage is OpenTab ==> launch_next(stage, Err(e)) == (
        LaunchStepView::Failed { error: e, stop_agent: false }),
        stage is StartAgent ==> launch_next(stage, Err(e)) == (LaunchStepView::Failed {
            error: "meet_agent.start_session: "@ + e,
            stop_agent: false,
        }),
        stage is OpenCaptionPage ==> launch_next(stage, Err(e)) == (LaunchStepView::Failed {
            error: "open caption page: "@ + e,
            stop_agent: true,
        }),
        stage is OpenAudioPage || stage is InjectAudio ==> launch_next(stage, Err(e))
            == LaunchStepView::Ready,
        stage is EnablePage || stage is EnableRuntime || stage is Join || stage is StartCaptions
            || stage is StartAudio ==> launch_next(stage, Err(e)) == launch_next(stage, Ok(())),
{
}

/// Two stages are a command to the page each: its page events and its scripts are
/// switched on.
pub proof fn law_launch_commands(stage: LaunchStage, session: Seq<char>)
    ensures
        stage is EnablePage ==> stage_command(stage, session) == Some(
            CommandView {
                method: "Page.enable"@,
                params: Json::Null,
                session_id: Some(session),
            },
        ),
        stage is EnableRuntime ==> stage_command(stage, session) == Some(
            CommandView {
                method: "Runtime.enable"@,
                params: Json::Null,
                session_id: Some(session),
            },
        ),
        !(stage is EnablePage) && !(stage is EnableRuntime) ==> stage_command(stage, session) is None,
{
}

/// A stop ends each part that there is, once, and the agent in any case: the captions
/// and the audio first, then the agent, then the browser, and the profile last.
/// A session that is dropped ends its captions and its audio and removes its profile.
pub proof fn law_stop_ends_every_part(parts: SessionParts)
    ensures
        ({
            let captions = if parts.captions {
                seq![StopAction::StopCaptions]
            } else {
                Seq::empty()
            };
            let audio = if parts.audio {
                seq![StopAction::StopAudio]
            } else {
                Seq::empty()
            };
            let browser = if parts.browser {
                seq![StopAction::KillBrowser]
            } else {
                Seq::empty()
            };
            let profile = if parts.profile {
                seq![StopAction::RemoveProfile]
            } else {
                Seq::empty()
            };
            &&& stopping(parts) == captions + audio + seq![StopAction::StopAgent] + browser + profile
            &&& dropping(parts) == captions + audio + profile
        }),
{
}

/// The summary of a session names it and tells how many captions it was given.
pub proof fn law_summary_tells_the_count(request_id: Seq<char>, captions_seen: u64)
    ensures
        summary(request_id, captions_seen).request_id == request_id,
        summary(request_id, captions_seen).captions_seen == captions_seen,
{
}

/// A step of a launch is modelled by what it holds.
pub proof fn law_model_is_what_is_held(step: LaunchStep)
    ensures
        match step {
            LaunchStep::Next(stage) => step@ == LaunchStepView::Next(stage),
            LaunchStep::Ready => step@ == LaunchStepView::Ready,
            LaunchStep::Failed { error, stop_agent } => step@ == (LaunchStepView::Failed {
                error: error@,
                stop_agent,
            }),
        },
{
}

} // verus!
