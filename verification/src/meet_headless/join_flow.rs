//! Joining a call: past the device check, with a name, by the join button.
//!
//! The device check may not show up at all, so whatever becomes of it, the flow
//! goes on. Without a name it does not.

use crate::json::{
    self, encode_json, value_array, value_as_bool, value_as_str, value_str, value_text, Json,
};
use crate::meet_headless::cdp::{
    self, evaluate_command, evaluated_value, session_command, string_param, CdpCommand, CommandView,
};
use crate::text::{self, concat};
use serde_json::Value;
use vstd::prelude::*;

verus! {

/// How long the device check is looked for.
pub const DEVICE_CHECK_BUDGET_MS: u64 = 8_000;

/// How long the name input is looked for.
pub const NAME_INPUT_BUDGET_MS: u64 = 30_000;

/// How long the join button is looked for.
pub const JOIN_BUTTON_BUDGET_MS: u64 = 30_000;

/// How long to wait before looking again.
pub const POLL_INTERVAL_MS: u64 = 500;

/// What the name input is known by.
pub const NAME_HINT: &'static str = "Your name";

/// The script that clicks a button by its text, up to its list of texts. It
/// gives the text of the button, or null where there is none.
pub const CLICK_SCRIPT_HEAD: &'static str = r#"
        (() => {
          const labels = "#;

/// The script that clicks a button by its text, from its list of texts on.
pub const CLICK_SCRIPT_TAIL: &'static str = r#";
          const want = labels.map(l => l.toLowerCase());
          const candidates = document.querySelectorAll(
            'button, [role="button"], a[role="button"]'
          );
          for (const el of candidates) {
            if (el.disabled || el.getAttribute('aria-disabled') === 'true') continue;
            const text = ((el.innerText || el.textContent) || '').trim().toLowerCase();
            if (!text) continue;
            if (!want.some(w => text.includes(w))) continue;
            const rect = el.getBoundingClientRect();
            if (rect.width === 0 || rect.height === 0) continue;
            el.scrollIntoView({ block: 'center', inline: 'center' });
            el.click();
            return text;
          }
          return null;
        })()
        "#;

/// The script that puts the cursor in an input, up to what the input is known
/// by. It gives whether there is such an input.
pub const FOCUS_SCRIPT_HEAD: &'static str = r#"
        (() => {
          const hint = "#;

/// The script that puts the cursor in an input, from what it is known by on.
pub const FOCUS_SCRIPT_TAIL: &'static str = r#".toLowerCase();
          const inputs = document.querySelectorAll('input');
          for (const inp of inputs) {
            const t = (inp.getAttribute('type') || 'text').toLowerCase();
            if (t !== 'text' && t !== 'search') continue;
            const aria = (inp.getAttribute('aria-label') || '').toLowerCase();
            const ph = (inp.placeholder || '').toLowerCase();
            if (!aria.includes(hint) && !ph.includes(hint)) continue;
            inp.focus();
            inp.click();
            try { inp.select(); } catch (_) {}
            return true;
          }
          return false;
        })()
        "#;

// ---------------------------------------------------------------------------
// Phases
// ---------------------------------------------------------------------------

/// What the flow looks for, one after the other.
#[derive(Debug, Clone, Copy, PartialEq, Eq, Structural)]
pub enum JoinPhase {
    /// A button that goes on without a microphone or a camera.
    DeviceCheck,
    /// The input for the name.
    Name,
    /// The button that joins.
    JoinButton,
}

/// How long a phase may look.
pub open spec fn budget_ms(phase: JoinPhase) -> u64 {
    match phase {
        JoinPhase::DeviceCheck => DEVICE_CHECK_BUDGET_MS,
        JoinPhase::Name => NAME_INPUT_BUDGET_MS,
        JoinPhase::JoinButton => JOIN_BUTTON_BUDGET_MS,
    }
}

/// The texts of the buttons that a phase may click.
pub open spec fn labels(phase: JoinPhase) -> Seq<Seq<char>> {
    match phase {
        JoinPhase::DeviceCheck => seq![
            "Continue without microphone and camera"@,
            "Continue without microphone"@,
            "Continue without camera"@,
        ],
        JoinPhase::Name => Seq::empty(),
        JoinPhase::JoinButton => seq!["Ask to join"@, "Join now"@],
    }
}

/// The texts of the buttons as an error shows them.
pub open spec fn shown_labels(phase: JoinPhase) -> Seq<char> {
    match phase {
        JoinPhase::DeviceCheck => "[\"Continue without microphone and camera\", \"Continue without microphone\", \"Continue without camera\"]"@,
        JoinPhase::Name => "[]"@,
        JoinPhase::JoinButton => "[\"Ask to join\", \"Join now\"]"@,
    }
}

/// Strings as a JSON array.
pub open spec fn strings_json(strings: Seq<Seq<char>>) -> Json {
    Json::Array(Seq::new(strings.len(), |i: int| Json::Str(strings[i])))
}

/// The script of a phase, or the reason why there is none.
pub open spec fn phase_script(phase: JoinPhase) -> Result<Seq<char>, Seq<char>> {
    match phase {
        JoinPhase::Name => match json::json_encoded(Json::Str(NAME_HINT@)) {
            Ok(hint) => Ok(FOCUS_SCRIPT_HEAD@ + hint + FOCUS_SCRIPT_TAIL@),
            Err(e) => Err("hint json: "@ + e),
        },
        _ => match json::json_encoded(strings_json(labels(phase))) {
            Ok(list) => Ok(CLICK_SCRIPT_HEAD@ + list + CLICK_SCRIPT_TAIL@),
            Err(e) => Err("labels json: "@ + e),
        },
    }
}

/// Whether what the script of a phase gave says that it found what it looked
/// for.
pub open spec fn found(phase: JoinPhase, value: Json) -> bool {
    match phase {
        JoinPhase::Name => value == Json::Bool(true),
        _ => value is Str,
    }
}

/// The error of a phase whose time is up.
pub open spec fn timeout_text(phase: JoinPhase, last: Json) -> Seq<char> {
    match phase {
        JoinPhase::Name => "timeout waiting for input matching hint="@ + NAME_HINT@,
        _ => "timeout waiting for clickable element matching "@ + shown_labels(phase) + " (last="@
            + json::json_text(last) + ")"@,
    }
}

// ---------------------------------------------------------------------------
// Steps
// ---------------------------------------------------------------------------

/// Who joins, and in which session of the browser.
#[derive(Debug)]
pub struct JoinContext {
    pub session_id: String,
    pub display_name: String,
}

/// What a [`JoinContext`] holds.
pub struct ContextView {
    pub session_id: Seq<char>,
    pub display_name: Seq<char>,
}

impl View for JoinContext {
    type V = ContextView;

    open spec fn view(&self) -> ContextView {
        ContextView { session_id: self.session_id@, display_name: self.display_name@ }
    }
}

/// A phase that looks: when it began, and its script.
#[derive(Debug)]
pub struct Search {
    pub phase: JoinPhase,
    pub started_ms: u64,
    pub script: String,
}

/// What a [`Search`] holds.
pub struct SearchView {
    pub phase: JoinPhase,
    pub started_ms: u64,
    pub script: Seq<char>,
}

impl View for Search {
    type V = SearchView;

    open spec fn view(&self) -> SearchView {
        SearchView { phase: self.phase, started_ms: self.started_ms, script: self.script@ }
    }
}

/// What the flow waits for after a call.
#[derive(Debug)]
pub enum Waiting {
    /// Whether the script found what it looked for.
    Found(Search),
    /// Whether the name was typed.
    Typed,
}

/// What a [`Waiting`] holds.
pub enum WaitingView {
    Found(SearchView),
    Typed,
}

impl View for Waiting {
    type V = WaitingView;

    open spec fn view(&self) -> WaitingView {
        match *self {
            Waiting::Found(search) => WaitingView::Found(search@),
            Waiting::Typed => WaitingView::Typed,
        }
    }
}

/// A phase that rests before it looks again, and what its script gave last.
#[derive(Debug)]
pub struct Resting {
    pub search: Search,
    pub last: Value,
}

/// What a [`Resting`] holds.
pub struct RestingView {
    pub search: SearchView,
    pub last: Json,
}

impl View for Resting {
    type V = RestingView;

    open spec fn view(&self) -> RestingView {
        RestingView { search: self.search@, last: json::json_of(self.last) }
    }
}

/// What the flow does next.
#[derive(Debug)]
pub enum JoinStep {
    /// Make a call. The reply goes to [`replied`].
    Call { command: CdpCommand, waiting: Waiting },
    /// Wait this many milliseconds, then go on with [`woken`].
    Sleep { ms: u64, resting: Resting },
    /// End.
    Finish(Result<(), String>),
}

/// What a [`JoinStep`] holds.
pub enum JoinStepView {
    Call { command: CommandView, waiting: WaitingView },
    Sleep { ms: u64, resting: RestingView },
    Finish(Result<(), Seq<char>>),
}

impl View for JoinStep {
    type V = JoinStepView;

    open spec fn view(&self) -> JoinStepView {
        match *self {
            JoinStep::Call { command, waiting } => JoinStepView::Call {
                command: command@,
                waiting: waiting@,
            },
            JoinStep::Sleep { ms, resting } => JoinStepView::Sleep { ms, resting: resting@ },
            JoinStep::Finish(r) => JoinStepView::Finish(
                match r {
                    Ok(_) => Ok(()),
                    Err(e) => Err(e@),
                },
            ),
        }
    }
}

/// Whether a phase that began at `started_ms` has time left.
pub open spec fn has_time(phase: JoinPhase, started_ms: u64, now_ms: u64) -> bool {
    now_ms < started_ms + budget_ms(phase)
}

/// The call that looks once.
pub open spec fn looking(ctx: ContextView, search: SearchView) -> JoinStepView {
    JoinStepView::Call {
        command: cdp::evaluation(
            search.script,
            if search.phase is Name {
                None
            } else {
                Some(false)
            },
            ctx.session_id,
        ),
        waiting: WaitingView::Found(search),
    }
}

/// Whether a step is the call that looks for what a phase needs.
pub open spec fn looks_for(step: JoinStepView, phase: JoinPhase) -> bool {
    step is Call && step->waiting is Found && step->waiting->Found_0.phase == phase
}

/// The end of the flow where a phase fails. The device check does not end it.
pub open spec fn phase_error(phase: JoinPhase, e: Seq<char>) -> JoinStepView {
    match phase {
        JoinPhase::Name => JoinStepView::Finish(Err("name input phase: "@ + e)),
        _ => JoinStepView::Finish(Err("join button phase: "@ + e)),
    }
}

/// The first step of the last phase.
pub open spec fn joining(ctx: ContextView, now_ms: u64) -> JoinStepView {
    match phase_script(JoinPhase::JoinButton) {
        Err(e) => phase_error(JoinPhase::JoinButton, e),
        Ok(script) => looking(
            ctx,
            SearchView { phase: JoinPhase::JoinButton, started_ms: now_ms, script },
        ),
    }
}

/// The first step of the phase for the name.
pub open spec fn naming(ctx: ContextView, now_ms: u64) -> JoinStepView {
    match phase_script(JoinPhase::Name) {
        Err(e) => phase_error(JoinPhase::Name, e),
        Ok(script) => looking(
            ctx,
            SearchView { phase: JoinPhase::Name, started_ms: now_ms, script },
        ),
    }
}

/// The first step of the flow.
pub open spec fn join_opening(ctx: ContextView, now_ms: u64) -> JoinStepView {
    match phase_script(JoinPhase::DeviceCheck) {
        Err(_) => naming(ctx, now_ms),
        Ok(script) => looking(
            ctx,
            SearchView { phase: JoinPhase::DeviceCheck, started_ms: now_ms, script },
        ),
    }
}

/// The step after a phase that failed.
pub open spec fn after_failure(
    ctx: ContextView,
    phase: JoinPhase,
    e: Seq<char>,
    now_ms: u64,
) -> JoinStepView {
    match phase {
        JoinPhase::DeviceCheck => naming(ctx, now_ms),
        _ => phase_error(phase, e),
    }
}

/// The step after a script that found what it looked for. An input is typed
/// into; a button has been clicked.
pub open spec fn after_find(ctx: ContextView, phase: JoinPhase, now_ms: u64) -> JoinStepView {
    match phase {
        JoinPhase::DeviceCheck => naming(ctx, now_ms),
        JoinPhase::Name => JoinStepView::Call {
            command: cdp::command(
                "Input.insertText"@,
                cdp::one_field("text"@, Json::Str(ctx.display_name)),
                ctx.session_id,
            ),
            waiting: WaitingView::Typed,
        },
        JoinPhase::JoinButton => JoinStepView::Finish(Ok(())),
    }
}

/// The step after a reply.
pub open spec fn join_replied(
    ctx: ContextView,
    waiting: WaitingView,
    reply: Result<Json, Seq<char>>,
    now_ms: u64,
) -> JoinStepView {
    match (waiting, reply) {
        (WaitingView::Typed, Err(e)) => phase_error(JoinPhase::Name, e),
        (WaitingView::Typed, Ok(_)) => joining(ctx, now_ms),
        (WaitingView::Found(search), Err(e)) => after_failure(ctx, search.phase, e, now_ms),
        (WaitingView::Found(search), Ok(v)) => if found(search.phase, cdp::evaluated(v)) {
            after_find(ctx, search.phase, now_ms)
        } else {
            JoinStepView::Sleep {
                ms: POLL_INTERVAL_MS,
                resting: RestingView { search, last: cdp::evaluated(v) },
            }
        },
    }
}

/// The step after a rest: look again while there is time.
pub open spec fn join_woken(ctx: ContextView, resting: RestingView, now_ms: u64) -> JoinStepView {
    let search = resting.search;
    if has_time(search.phase, search.started_ms, now_ms) {
        looking(ctx, search)
    } else {
        after_failure(ctx, search.phase, timeout_text(search.phase, resting.last), now_ms)
    }
}

fn label_list(phase: JoinPhase) -> (r: Value)
    ensures
        json::json_of(r) == strings_json(labels(phase)),
{
    let mut list: Vec<Value> = Vec::new();
    match phase {
        JoinPhase::DeviceCheck => {
            list.push(value_str("Continue without microphone and camera"));
            list.push(value_str("Continue without microphone"));
            list.push(value_str("Continue without camera"));
        },
        JoinPhase::Name => {},
        JoinPhase::JoinButton => {
            list.push(value_str("Ask to join"));
            list.push(value_str("Join now"));
        },
    }
    assert(json::contents(list@) =~= strings_json(labels(phase))->Array_0);
    value_array(list)
}

fn script_of(phase: JoinPhase) -> (r: Result<String, String>)
    ensures
        r is Ok,
        text::text_result(r) == phase_script(phase),
{
    match phase {
        JoinPhase::Name => {
            let hint: Value = value_str(NAME_HINT);
            match encode_json(&hint) {
                Ok(hint) => {
                    let mut script: String = concat(FOCUS_SCRIPT_HEAD, hint.as_str());
                    script.append(FOCUS_SCRIPT_TAIL);
                    Ok(script)
                },
                Err(e) => Err(concat("hint json: ", e.as_str())),
            }
        },
        _ => {
            let list: Value = label_list(phase);
            match encode_json(&list) {
                Ok(list) => {
                    let mut script: String = concat(CLICK_SCRIPT_HEAD, list.as_str());
                    script.append(CLICK_SCRIPT_TAIL);
                    Ok(script)
                },
                Err(e) => Err(concat("labels json: ", e.as_str())),
            }
        },
    }
}

fn look(ctx: &JoinContext, search: Search) -> (r: JoinStep)
    ensures
        r@ == looking(ctx@, search@),
{
    let await_promise: Option<bool> = match search.phase {
        JoinPhase::Name => None,
        _ => Some(false),
    };
    let command: CdpCommand = evaluate_command(
        search.script.as_str(),
        await_promise,
        ctx.session_id.as_str(),
    );
    JoinStep::Call { command, waiting: Waiting::Found(search) }
}

fn fail(phase: JoinPhase, e: &str) -> (r: JoinStep)
    ensures
        r@ == phase_error(phase, e@),
{
    match phase {
        JoinPhase::Name => JoinStep::Finish(Err(concat("name input phase: ", e))),
        _ => JoinStep::Finish(Err(concat("join button phase: ", e))),
    }
}

fn begin_joining(ctx: &JoinContext, now_ms: u64) -> (r: JoinStep)
    ensures
        r@ == joining(ctx@, now_ms),
        looks_for(r@, JoinPhase::JoinButton),
{
    match script_of(JoinPhase::JoinButton) {
        Err(e) => fail(JoinPhase::JoinButton, e.as_str()),
        Ok(script) => look(
            ctx,
            Search { phase: JoinPhase::JoinButton, started_ms: now_ms, script },
        ),
    }
}

fn begin_naming(ctx: &JoinContext, now_ms: u64) -> (r: JoinStep)
    ensures
        r@ == naming(ctx@, now_ms),
        looks_for(r@, JoinPhase::Name),
{
    match script_of(JoinPhase::Name) {
        Err(e) => fail(JoinPhase::Name, e.as_str()),
        Ok(script) => look(ctx, Search { phase: JoinPhase::Name, started_ms: now_ms, script }),
    }
}

fn give_up(ctx: &JoinContext, phase: JoinPhase, e: &str, now_ms: u64) -> (r: JoinStep)
    ensures
        r@ == after_failure(ctx@, phase, e@, now_ms),
        phase is DeviceCheck ==> looks_for(r@, JoinPhase::Name),
{
    match phase {
        JoinPhase::DeviceCheck => begin_naming(ctx, now_ms),
        _ => fail(phase, e),
    }
}

/// Begins the flow: it looks for the device check. All times are of one clock.
pub fn begin_join(ctx: &JoinContext, now_ms: u64) -> (r: JoinStep)
    ensures
        r@ == join_opening(ctx@, now_ms),
        looks_for(r@, JoinPhase::DeviceCheck),
{
    match script_of(JoinPhase::DeviceCheck) {
        Err(_) => begin_naming(ctx, now_ms),
        Ok(script) => look(
            ctx,
            Search { phase: JoinPhase::DeviceCheck, started_ms: now_ms, script },
        ),
    }
}

/// Goes on after the reply to a call. Whatever becomes of the device check, the
/// flow goes on with the name; once that is typed, with the join button.
pub fn replied(ctx: &JoinContext, waiting: Waiting, reply: Result<Value, String>, now_ms: u64) -> (r:
    JoinStep)
    ensures
        r@ == join_replied(ctx@, waiting@, json::json_result(reply), now_ms),
        waiting@ is Found && waiting@->Found_0.phase is DeviceCheck && (reply is Err
            || cdp::evaluated(json::json_result(reply)->Ok_0) is Str) ==> looks_for(
            r@,
            JoinPhase::Name,
        ),
        waiting@ is Typed && reply is Ok ==> looks_for(r@, JoinPhase::JoinButton),
{
    match (waiting, reply) {
        (Waiting::Typed, Err(e)) => fail(JoinPhase::Name, e.as_str()),
        (Waiting::Typed, Ok(_)) => begin_joining(ctx, now_ms),
        (Waiting::Found(search), Err(e)) => give_up(ctx, search.phase, e.as_str(), now_ms),
        (Waiting::Found(search), Ok(v)) => {
            let value: Value = evaluated_value(&v);
            let hit: bool = match search.phase {
                JoinPhase::Name => match value_as_bool(&value) {
                    Some(b) => b,
                    None => false,
                },
                _ => value_as_str(&value).is_some(),
            };
            if !hit {
                return JoinStep::Sleep {
                    ms: POLL_INTERVAL_MS,
                    resting: Resting { search, last: value },
                };
            }
            match search.phase {
                JoinPhase::DeviceCheck => begin_naming(ctx, now_ms),
                JoinPhase::Name => {
                    let params: Value = string_param("text", ctx.display_name.as_str());
                    let command: CdpCommand = session_command(
                        "Input.insertText",
                        params,
                        ctx.session_id.as_str(),
                    );
                    JoinStep::Call { command, waiting: Waiting::Typed }
                },
                JoinPhase::JoinButton => JoinStep::Finish(Ok(())),
            }
        },
    }
}

/// Goes on after a rest. A device check whose time is up gives way to the name.
pub fn woken(ctx: &JoinContext, resting: Resting, now_ms: u64) -> (r: JoinStep)
    ensures
        r@ == join_woken(ctx@, resting@, now_ms),
        resting@.search.phase is DeviceCheck ==> looks_for(
            r@,
            if has_time(JoinPhase::DeviceCheck, resting@.search.started_ms, now_ms) {
                JoinPhase::DeviceCheck
            } else {
                JoinPhase::Name
            },
        ),
        // A phase is looked for again up to its own limit, and no longer.
        (r@ is Call && r@->waiting == WaitingView::Found(resting@.search)) <==> now_ms
            < resting@.search.started_ms + match resting@.search.phase {
            JoinPhase::DeviceCheck => 8_000int,
            JoinPhase::Name => 30_000int,
            JoinPhase::JoinButton => 30_000int,
        },
        resting@.search.phase is Name && now_ms >= resting@.search.started_ms + 30_000
            ==> r@ is Finish,
        resting@.search.phase is JoinButton && now_ms >= resting@.search.started_ms + 30_000
            ==> r@ is Finish,
{
    let phase: JoinPhase = resting.search.phase;
    let started_ms: u64 = resting.search.started_ms;
    let budget: u64 = match phase {
        JoinPhase::DeviceCheck => DEVICE_CHECK_BUDGET_MS,
        JoinPhase::Name => NAME_INPUT_BUDGET_MS,
        JoinPhase::JoinButton => JOIN_BUTTON_BUDGET_MS,
    };
    if now_ms < started_ms || now_ms - started_ms < budget {
        return look(ctx, resting.search);
    }
    let e: String = match phase {
        JoinPhase::Name => concat("timeout waiting for input matching hint=", NAME_HINT),
        _ => {
            let shown: &str = match phase {
                JoinPhase::DeviceCheck => "[\"Continue without microphone and camera\", \"Continue without microphone\", \"Continue without camera\"]",
                JoinPhase::Name => "[]",
                JoinPhase::JoinButton => "[\"Ask to join\", \"Join now\"]",
            };
            let mut e: String = concat(
                "timeout waiting for clickable element matching ",
                shown,
            );
            e.append(" (last=");
            let last: String = value_text(&resting.last);
            e.append(last.as_str());
            e.append(")");
            e
        },
    };
    give_up(ctx, phase, e.as_str(), now_ms)
}

// ---------------------------------------------------------------------------
// Laws
// ---------------------------------------------------------------------------

/// Whether a step is no error, or an error that names the phase it comes from.
pub open spec fn names_its_phase(step: JoinStepView) -> bool {
    match step {
        JoinStepView::Finish(Err(e)) => "name input phase: "@.is_prefix_of(e)
            || "join button phase: "@.is_prefix_of(e),
        _ => true,
    }
}

/// Every error of the flow names the phase it comes from, which is never the
/// device check.
pub proof fn law_errors_name_their_phase(
    ctx: ContextView,
    waiting: WaitingView,
    reply: Result<Json, Seq<char>>,
    resting: RestingView,
    now_ms: u64,
)
    ensures
        names_its_phase(join_opening(ctx, now_ms)),
        names_its_phase(join_replied(ctx, waiting, reply, now_ms)),
        names_its_phase(join_woken(ctx, resting, now_ms)),
{
    assert forall|phase: JoinPhase, e: Seq<char>| names_its_phase(#[trigger] phase_error(phase, e)) by {
        assert(("name input phase: "@ + e).take("name input phase: "@.len() as int)
            =~= "name input phase: "@);
        assert(("join button phase: "@ + e).take("join button phase: "@.len() as int)
            =~= "join button phase: "@);
    }
}

/// The flow succeeds only when a join button was clicked: by the reply to the
/// script of the last phase that gives the button's text.
pub proof fn law_success_is_a_click(
    ctx: ContextView,
    waiting: WaitingView,
    reply: Result<Json, Seq<char>>,
    resting: RestingView,
    now_ms: u64,
)
    ensures
        join_opening(ctx, now_ms) != JoinStepView::Finish(Ok::<(), Seq<char>>(())),
        join_woken(ctx, resting, now_ms) != JoinStepView::Finish(Ok::<(), Seq<char>>(())),
        join_replied(ctx, waiting, reply, now_ms) == JoinStepView::Finish(Ok::<(), Seq<char>>(()))
            <==> waiting is Found && waiting->Found_0.phase is JoinButton && reply is Ok
            && cdp::evaluated(reply->Ok_0) is Str,
{
}

/// A phase that rests looks again only while it has time left, and whatever
/// becomes of the device check, the flow goes on with the name.
pub proof fn law_phases_keep_time(
    ctx: ContextView,
    resting: RestingView,
    reply: Result<Json, Seq<char>>,
    now_ms: u64,
)
    ensures
        has_time(resting.search.phase, resting.search.started_ms, now_ms) ==> join_woken(
            ctx,
            resting,
            now_ms,
        ) == looking(ctx, resting.search),
        !has_time(resting.search.phase, resting.search.started_ms, now_ms)
            && resting.search.phase is DeviceCheck ==> join_woken(ctx, resting, now_ms) == naming(
            ctx,
            now_ms,
        ),
        !has_time(resting.search.phase, resting.search.started_ms, now_ms)
            && !(resting.search.phase is DeviceCheck) ==> join_woken(ctx, resting, now_ms) is Finish,
        resting.search.phase is DeviceCheck && (reply is Err || cdp::evaluated(
            reply->Ok_0,
        ) is Str) ==> join_replied(ctx, WaitingView::Found(resting.search), reply, now_ms)
            == naming(ctx, now_ms),
{
}

/// A call whose buttons and input are all there is joined with four commands:
/// past the device check, to the name input, the name itself, and the join
/// button.
pub proof fn law_join_takes_three_phases(
    ctx: ContextView,
    clicked: Seq<char>,
    typed: Json,
    joined: Seq<char>,
    found_device: Json,
    found_name: Json,
    found_join: Json,
    now_ms: u64,
)
    requires
        cdp::evaluated(found_device) == Json::Str(clicked),
        cdp::evaluated(found_name) == Json::Bool(true),
        cdp::evaluated(found_join) == Json::Str(joined),
    ensures
        phase_script(JoinPhase::DeviceCheck) is Ok && phase_script(JoinPhase::Name) is Ok
            && phase_script(JoinPhase::JoinButton) is Ok ==> {
            let device = join_opening(ctx, now_ms);
            let name = join_replied(ctx, device->waiting, Ok(found_device), now_ms);
            let typing = join_replied(ctx, name->waiting, Ok(found_name), now_ms);
            let join = join_replied(ctx, typing->waiting, Ok(typed), now_ms);
            let end = join_replied(ctx, join->waiting, Ok(found_join), now_ms);
            &&& device is Call && device->command == cdp::evaluation(
                phase_script(JoinPhase::DeviceCheck)->Ok_0,
                Some(false),
                ctx.session_id,
            )
            &&& name is Call && name->command == cdp::evaluation(
                phase_script(JoinPhase::Name)->Ok_0,
                None,
                ctx.session_id,
            )
            &&& typing is Call && typing->command == cdp::command(
                "Input.insertText"@,
                cdp::one_field("text"@, Json::Str(ctx.display_name)),
                ctx.session_id,
            )
            &&& join is Call && join->command == cdp::evaluation(
                phase_script(JoinPhase::JoinButton)->Ok_0,
                Some(false),
                ctx.session_id,
            )
            &&& end == JoinStepView::Finish(Ok::<(), Seq<char>>(()))
        },
{
}

/// A phase that found nothing is looked for again, with the same script and the same
/// start, up to 8 seconds from that start in the device check, and up to 30 seconds
/// for the name and for the join button. After that the device check gives way to the
/// name, and the other two end the join with an error that says what was not there.
pub proof fn law_each_phase_has_its_time(ctx: ContextView, resting: RestingView, now_ms: u64)
    ensures
        ({
            let search = resting.search;
            let limit: int = match search.phase {
                JoinPhase::DeviceCheck => 8_000,
                JoinPhase::Name => 30_000,
                JoinPhase::JoinButton => 30_000,
            };
            let step = join_woken(ctx, resting, now_ms);
            &&& now_ms < search.started_ms + limit ==> step is Call && step->waiting
                == WaitingView::Found(search) && step->command == cdp::evaluation(
                search.script,
                if search.phase == JoinPhase::Name {
                    None
                } else {
                    Some(false)
                },
                ctx.session_id,
            )
            &&& now_ms >= search.started_ms + limit && search.phase == JoinPhase::DeviceCheck ==> step
                == join_replied(ctx, WaitingView::Found(search), Err(Seq::empty()), now_ms)
            &&& now_ms >= search.started_ms + limit && search.phase == JoinPhase::Name ==> step
                == JoinStepView::Finish(
                Err(
                    "name input phase: "@ + ("timeout waiting for input matching hint="@
                        + "Your name"@),
                ),
            )
            &&& now_ms >= search.started_ms + limit && search.phase == JoinPhase::JoinButton ==> step
                == JoinStepView::Finish(
                Err(
                    "join button phase: "@ + ("timeout waiting for clickable element matching "@
                        + "[\"Ask to join\", \"Join now\"]"@ + " (last="@ + json::json_text(
                        resting.last,
                    ) + ")"@),
                ),
            )
        }),
{
}

/// What each phase looks for, from the moment it begins: first one of the three
/// buttons that go on without devices, then, whatever came of that, the field for the
/// name, and then, once the name is typed, one of the two buttons to join.
pub proof fn law_what_each_phase_looks_for(
    ctx: ContextView,
    search: SearchView,
    e: Seq<char>,
    v: Json,
    now_ms: u64,
)
    ensures
        json::json_encoded(
            Json::Array(
                seq![
                    Json::Str("Continue without microphone and camera"@),
                    Json::Str("Continue without microphone"@),
                    Json::Str("Continue without camera"@),
                ],
            ),
        ) matches Ok(list) ==> {
            let script = CLICK_SCRIPT_HEAD@ + list + CLICK_SCRIPT_TAIL@;
            join_opening(ctx, now_ms) == (JoinStepView::Call {
                command: cdp::evaluation(script, Some(false), ctx.session_id),
                waiting: WaitingView::Found(
                    SearchView { phase: JoinPhase::DeviceCheck, started_ms: now_ms, script },
                ),
            })
        },
        json::json_encoded(Json::Str("Your name"@)) matches Ok(hint) ==> {
            let script = FOCUS_SCRIPT_HEAD@ + hint + FOCUS_SCRIPT_TAIL@;
            let name = JoinStepView::Call {
                command: cdp::evaluation(script, None, ctx.session_id),
                waiting: WaitingView::Found(
                    SearchView { phase: JoinPhase::Name, started_ms: now_ms, script },
                ),
            };
            search.phase == JoinPhase::DeviceCheck ==> {
                &&& join_replied(ctx, WaitingView::Found(search), Err(e), now_ms) == name
                &&& cdp::evaluated(v) is Str ==> join_replied(
                    ctx,
                    WaitingView::Found(search),
                    Ok(v),
                    now_ms,
                ) == name
            }
        },
        json::json_encoded(
            Json::Array(seq![Json::Str("Ask to join"@), Json::Str("Join now"@)]),
        ) matches Ok(list) ==> {
            let script = CLICK_SCRIPT_HEAD@ + list + CLICK_SCRIPT_TAIL@;
            join_replied(ctx, WaitingView::Typed, Ok(v), now_ms) == (JoinStepView::Call {
                command: cdp::evaluation(script, Some(false), ctx.session_id),
                waiting: WaitingView::Found(
                    SearchView { phase: JoinPhase::JoinButton, started_ms: now_ms, script },
                ),
            })
        },
{
    assert(strings_json(labels(JoinPhase::DeviceCheck))->Array_0 =~= seq![
        Json::Str("Continue without microphone and camera"@),
        Json::Str("Continue without microphone"@),
        Json::Str("Continue without camera"@),
    ]);
    assert(strings_json(labels(JoinPhase::JoinButton))->Array_0 =~= seq![
        Json::Str("Ask to join"@),
        Json::Str("Join now"@),
    ]);
}

/// A look that finds nothing is followed by half a second of rest, and by another
/// look for the same thing. The name field is found where its script answers true, a
/// button where its script answers with the button's text. In the found field the
/// display name is typed, as it is; a found join button ends the join. A call that
/// fails outside of the device check ends the join with its reason.
pub proof fn law_what_follows_a_look(
    ctx: ContextView,
    search: SearchView,
    v: Json,
    e: Seq<char>,
    now_ms: u64,
)
    ensures
        ({
            let value = cdp::evaluated(v);
            let missed = if search.phase == JoinPhase::Name {
                value != Json::Bool(true)
            } else {
                !(value is Str)
            };
            let step = join_replied(ctx, WaitingView::Found(search), Ok(v), now_ms);
            let failed = join_replied(ctx, WaitingView::Found(search), Err(e), now_ms);
            &&& missed ==> step == (JoinStepView::Sleep {
                ms: 500,
                resting: RestingView { search, last: value },
            })
            &&& !missed && search.phase == JoinPhase::Name ==> step is Call && step->waiting
                == WaitingView::Typed && step->command.method == "Input.insertText"@
                && step->command.params.get("text"@) == Some(Json::Str(ctx.display_name))
                && step->command.session_id == Some(ctx.session_id)
            &&& !missed && search.phase == JoinPhase::JoinButton ==> step == JoinStepView::Finish(
                Ok(()),
            )
            &&& search.phase == JoinPhase::Name ==> failed == JoinStepView::Finish(
                Err("name input phase: "@ + e),
            )
            &&& search.phase == JoinPhase::JoinButton ==> failed == JoinStepView::Finish(
                Err("join button phase: "@ + e),
            )
            &&& join_replied(ctx, WaitingView::Typed, Err(e), now_ms) == JoinStepView::Finish(
                Err("name input phase: "@ + e),
            )
        }),
{
}

/// A step is modelled by what it holds.
pub proof fn law_model_is_what_is_held(ctx: JoinContext, step: JoinStep)
    ensures
        ctx@.session_id == ctx.session_id@ && ctx@.display_name == ctx.display_name@,
        match step {
            JoinStep::Call { command, waiting } => {
                &&& step@ is Call
                &&& step@->command == command@
                &&& match waiting {
                    Waiting::Found(search) => step@->waiting == WaitingView::Found(
                        SearchView {
                            phase: search.phase,
                            started_ms: search.started_ms,
                            script: search.script@,
                        },
                    ),
                    Waiting::Typed => step@->waiting == WaitingView::Typed,
                }
            },
            JoinStep::Sleep { ms, resting } => {
                &&& step@ is Sleep
                &&& step@->ms == ms
                &&& step@->resting.last == json::json_of(resting.last)
                &&& step@->resting.search.phase == resting.search.phase
                &&& step@->resting.search.started_ms == resting.search.started_ms
                &&& step@->resting.search.script == resting.search.script@
            },
            JoinStep::Finish(Ok(_)) => step@ == JoinStepView::Finish(Ok(())),
            JoinStep::Finish(Err(e)) => step@ == JoinStepView::Finish(Err(e@)),
        },
{
}

} // verus!
