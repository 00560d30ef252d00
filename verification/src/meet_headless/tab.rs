//! Tabs of the browser: opening one on a call, and attaching to one that is
//! open.

use crate::json::{
    self, value_as_array, value_bool, value_get, value_null, value_object, value_set, value_str,
    value_str_field, value_text, Json,
};
use crate::meet_headless::cdp::{
    self, result_str, root_command, session_command, string_param, CdpCommand, CommandView,
};
use crate::meet_headless::fake_camera::{self, inject_fake_camera_command};
use crate::text::{self, concat, str_eq, str_starts_with};
use serde_json::Value;
use vstd::prelude::*;

verus! {

/// How long an open tab is looked for.
pub const PAGE_BUDGET_MS: u64 = 10_000;

/// How long to wait before looking for it again.
pub const PAGE_POLL_MS: u64 = 200;

/// The command that attaches a session to a tab.
pub open spec fn attaching(target: Seq<char>) -> CommandView {
    cdp::browser_command(
        "Target.attachToTarget"@,
        Json::Object(
            Map::empty().insert("targetId"@, Json::Str(target)).insert("flatten"@, Json::Bool(true)),
        ),
    )
}

fn attach_command(target_id: &str) -> (r: CdpCommand)
    ensures
        r@ == attaching(target_id@),
{
    let mut params: Value = value_object();
    value_set(&mut params, "targetId", value_str(target_id));
    value_set(&mut params, "flatten", value_bool(true));
    root_command("Target.attachToTarget", params)
}

/// The session in the reply to [`attaching`].
pub open spec fn attached(reply: Json) -> Result<Seq<char>, Seq<char>> {
    match cdp::str_at(reply, seq!["sessionId"@]) {
        Some(session) => Ok(session),
        None => Err("Target.attachToTarget missing sessionId: "@ + json::json_text(reply)),
    }
}

fn attached_session(reply: &Value) -> (r: Result<String, String>)
    ensures
        text::text_result(r) == attached(json::json_of(*reply)),
{
    let path: [&str; 1] = ["sessionId"];
    assert(json::path_names(path@) =~= seq!["sessionId"@]);
    match result_str(reply, &path) {
        Some(session) => Ok(session),
        None => {
            let shown: String = value_text(reply);
            Err(concat("Target.attachToTarget missing sessionId: ", shown.as_str()))
        },
    }
}

// ---------------------------------------------------------------------------
// A new tab
// ---------------------------------------------------------------------------

/// What the opening of a tab waits for.
#[derive(Debug)]
pub enum TabWaiting {
    /// The empty tab.
    Created,
    /// A session in it.
    Attached,
    /// The page events of that session.
    PageEnabled(String),
    /// The fake camera in it.
    CameraInPlace(String),
    /// The call's page.
    Navigated(String),
}

/// What a [`TabWaiting`] holds.
pub enum TabWaitingView {
    Created,
    Attached,
    PageEnabled(Seq<char>),
    CameraInPlace(Seq<char>),
    Navigated(Seq<char>),
}

impl View for TabWaiting {
    type V = TabWaitingView;

    open spec fn view(&self) -> TabWaitingView {
        match *self {
            TabWaiting::Created => TabWaitingView::Created,
            TabWaiting::Attached => TabWaitingView::Attached,
            TabWaiting::PageEnabled(s) => TabWaitingView::PageEnabled(s@),
            TabWaiting::CameraInPlace(s) => TabWaitingView::CameraInPlace(s@),
            TabWaiting::Navigated(s) => TabWaitingView::Navigated(s@),
        }
    }
}

/// What the opening of a tab does next.
#[derive(Debug)]
pub enum TabStep {
    /// Make a call. The reply goes to [`tab_replied`].
    Call { command: CdpCommand, waiting: TabWaiting },
    /// End, with the session in the tab.
    Done(Result<String, String>),
}

/// What a [`TabStep`] holds.
pub enum TabStepView {
    Call { command: CommandView, waiting: TabWaitingView },
    Done(Result<Seq<char>, Seq<char>>),
}

impl View for TabStep {
    type V = TabStepView;

    open spec fn view(&self) -> TabStepView {
        match *self {
            TabStep::Call { command, waiting } => TabStepView::Call {
                command: command@,
                waiting: waiting@,
            },
            TabStep::Done(r) => TabStepView::Done(text::text_result(r)),
        }
    }
}

/// The first step: an empty tab. The call's page is loaded only once the fake
/// camera is in place, so that none of its scripts sees the real one.
pub open spec fn tab_opening() -> TabStepView {
    TabStepView::Call {
        command: cdp::browser_command(
            "Target.createTarget"@,
            cdp::one_field("url"@, Json::Str("about:blank"@)),
        ),
        waiting: TabWaitingView::Created,
    }
}

/// The step after a reply. From the session on, no failure ends the opening.
pub open spec fn tab_next(
    meet_url: Seq<char>,
    waiting: TabWaitingView,
    reply: Result<Json, Seq<char>>,
) -> TabStepView {
    match waiting {
        TabWaitingView::Created => match reply {
            Err(e) => TabStepView::Done(Err(e)),
            Ok(v) => match cdp::str_at(v, seq!["targetId"@]) {
                Some(target) => TabStepView::Call {
                    command: attaching(target),
                    waiting: TabWaitingView::Attached,
                },
                None => TabStepView::Done(
                    Err("Target.createTarget missing targetId: "@ + json::json_text(v)),
                ),
            },
        },
        TabWaitingView::Attached => match reply {
            Err(e) => TabStepView::Done(Err(e)),
            Ok(v) => match attached(v) {
                Ok(session) => TabStepView::Call {
                    command: cdp::command("Page.enable"@, Json::Null, session),
                    waiting: TabWaitingView::PageEnabled(session),
                },
                Err(e) => TabStepView::Done(Err(e)),
            },
        },
        TabWaitingView::PageEnabled(session) => TabStepView::Call {
            command: fake_camera::camera_command(Some(session)),
            waiting: TabWaitingView::CameraInPlace(session),
        },
        TabWaitingView::CameraInPlace(session) => TabStepView::Call {
            command: cdp::command(
                "Page.navigate"@,
                cdp::one_field("url"@, Json::Str(meet_url)),
                session,
            ),
            waiting: TabWaitingView::Navigated(session),
        },
        TabWaitingView::Navigated(session) => TabStepView::Done(Ok(session)),
    }
}

/// Begins to open a tab.
pub fn begin_tab() -> (r: TabStep)
    ensures
        r@ == tab_opening(),
{
    TabStep::Call {
        command: root_command("Target.createTarget", string_param("url", "about:blank")),
        waiting: TabWaiting::Created,
    }
}

/// Goes on after the reply to a call.
pub fn tab_replied(meet_url: &str, waiting: TabWaiting, reply: Result<Value, String>) -> (r: TabStep)
    ensures
        r@ == tab_next(meet_url@, waiting@, json::json_result(reply)),
{
    match waiting {
        TabWaiting::Created => match reply {
            Err(e) => TabStep::Done(Err(e)),
            Ok(v) => {
                let path: [&str; 1] = ["targetId"];
                assert(json::path_names(path@) =~= seq!["targetId"@]);
                match result_str(&v, &path) {
                    Some(target) => TabStep::Call {
                        command: attach_command(target.as_str()),
                        waiting: TabWaiting::Attached,
                    },
                    None => {
                        let shown: String = value_text(&v);
                        TabStep::Done(
                            Err(concat("Target.createTarget missing targetId: ", shown.as_str())),
                        )
                    },
                }
            },
        },
        TabWaiting::Attached => match reply {
            Err(e) => TabStep::Done(Err(e)),
            Ok(v) => match attached_session(&v) {
                Ok(session) => TabStep::Call {
                    command: session_command("Page.enable", value_null(), session.as_str()),
                    waiting: TabWaiting::PageEnabled(session),
                },
                Err(e) => TabStep::Done(Err(e)),
            },
        },
        TabWaiting::PageEnabled(session) => TabStep::Call {
            command: inject_fake_camera_command(Some(session.clone())),
            waiting: TabWaiting::CameraInPlace(session),
        },
        TabWaiting::CameraInPlace(session) => TabStep::Call {
            command: session_command(
                "Page.navigate",
                string_param("url", meet_url),
                session.as_str(),
            ),
            waiting: TabWaiting::Navigated(session),
        },
        TabWaiting::Navigated(session) => TabStep::Done(Ok(session)),
    }
}

/// The commands that are sent from a step on when they get these replies, in
/// order, and how the opening ends; nothing where the replies do not reach that
/// far.
pub open spec fn tab_course(
    meet_url: Seq<char>,
    step: TabStepView,
    replies: Seq<Result<Json, Seq<char>>>,
) -> (Seq<CommandView>, Option<Result<Seq<char>, Seq<char>>>)
    decreases replies.len(),
{
    match step {
        TabStepView::Done(r) => (Seq::empty(), Some(r)),
        TabStepView::Call { command, waiting } => if replies.len() == 0 {
            (seq![command], None)
        } else {
            let rest = tab_course(
                meet_url,
                tab_next(meet_url, waiting, replies[0]),
                replies.drop_first(),
            );
            (seq![command] + rest.0, rest.1)
        },
    }
}

/// Once there is a tab and a session in it, the opening succeeds whatever else
/// is answered, and the fake camera is put in place before the call's page is
/// loaded.
pub proof fn law_camera_before_page(
    meet_url: Seq<char>,
    replies: Seq<Result<Json, Seq<char>>>,
    target: Seq<char>,
    session: Seq<char>,
)
    requires
        replies.len() >= 5,
        replies[0] is Ok,
        cdp::str_at(replies[0]->Ok_0, seq!["targetId"@]) == Some(target),
        replies[1] is Ok,
        cdp::str_at(replies[1]->Ok_0, seq!["sessionId"@]) == Some(session),
    ensures
        tab_course(meet_url, tab_opening(), replies) == (
            seq![
                cdp::browser_command(
                    "Target.createTarget"@,
                    cdp::one_field("url"@, Json::Str("about:blank"@)),
                ),
                attaching(target),
                cdp::command("Page.enable"@, Json::Null, session),
                fake_camera::camera_command(Some(session)),
                cdp::command(
                    "Page.navigate"@,
                    cdp::one_field("url"@, Json::Str(meet_url)),
                    session,
                ),
            ],
            Some(Ok::<Seq<char>, Seq<char>>(session)),
        ),
{
    let r1 = replies.drop_first();
    let r2 = r1.drop_first();
    let r3 = r2.drop_first();
    let r4 = r3.drop_first();
    assert(r1[0] == replies[1] && r2.len() > 0 && r3.len() > 0 && r4.len() > 0);
    let s1 = tab_next(meet_url, TabWaitingView::Created, replies[0]);
    let s2 = tab_next(meet_url, TabWaitingView::Attached, r1[0]);
    let s3 = tab_next(meet_url, TabWaitingView::PageEnabled(session), r2[0]);
    let s4 = tab_next(meet_url, TabWaitingView::CameraInPlace(session), r3[0]);
    let s5 = tab_next(meet_url, TabWaitingView::Navigated(session), r4[0]);
    let c5 = tab_course(meet_url, s5, r4.drop_first());
    assert(c5.0 =~= Seq::empty());
    let c4 = tab_course(meet_url, s4, r4);
    let c3 = tab_course(meet_url, s3, r3);
    let c2 = tab_course(meet_url, s2, r2);
    let c1 = tab_course(meet_url, s1, r1);
    let c0 = tab_course(meet_url, tab_opening(), replies);
    assert(c4.0 =~= seq![
        cdp::command("Page.navigate"@, cdp::one_field("url"@, Json::Str(meet_url)), session),
    ]);
    assert(c0.0 =~= seq![
        cdp::browser_command(
            "Target.createTarget"@,
            cdp::one_field("url"@, Json::Str("about:blank"@)),
        ),
        attaching(target),
        cdp::command("Page.enable"@, Json::Null, session),
        fake_camera::camera_command(Some(session)),
        cdp::command("Page.navigate"@, cdp::one_field("url"@, Json::Str(meet_url)), session),
    ]);
}

// ---------------------------------------------------------------------------
// A tab that is open
// ---------------------------------------------------------------------------

/// The string at a field, empty where there is none.
pub open spec fn str_or_empty(value: Json, key: Seq<char>) -> Seq<char> {
    match value.get(key) {
        Some(v) => match v.as_str() {
            Some(s) => s,
            None => Seq::empty(),
        },
        None => Seq::empty(),
    }
}

/// Whether a target is a page whose address begins with that of the call.
pub open spec fn is_call_page(target: Json, meet_url: Seq<char>) -> bool {
    str_or_empty(target, "type"@) == "page"@ && meet_url.is_prefix_of(
        str_or_empty(target, "url"@),
    )
}

/// The identity of the first target that is a page of the call.
pub open spec fn first_call_page(targets: Seq<Json>, meet_url: Seq<char>) -> Option<Seq<char>>
    decreases targets.len(),
{
    if targets.len() == 0 {
        None
    } else if is_call_page(targets[0], meet_url) {
        match targets[0].get("targetId"@) {
            Some(v) => v.as_str(),
            None => None,
        }
    } else {
        first_call_page(targets.drop_first(), meet_url)
    }
}

/// The identity of the call's tab in a list of targets.
pub open spec fn call_page(reply: Json, meet_url: Seq<char>) -> Option<Seq<char>> {
    match reply.get("targetInfos"@) {
        Some(list) => match list.as_array() {
            Some(targets) => first_call_page(targets, meet_url),
            None => None,
        },
        None => None,
    }
}

fn field_or_empty<'a>(value: &'a Value, key: &str) -> (r: &'a str)
    ensures
        r@ == str_or_empty(json::json_of(*value), key@),
{
    match value_str_field(value, key) {
        Some(s) => s,
        None => {
            proof {
                reveal_strlit("");
            }
            assert(""@ =~= Seq::empty());
            ""
        },
    }
}

/// The identity of the call's tab in a list of targets: the first page whose
/// address begins with `meet_url`.
pub fn find_page_target(reply: &Value, meet_url: &str) -> (r: Option<String>)
    ensures
        text::opt_text(r) == call_page(json::json_of(*reply), meet_url@),
{
    let list: &Value = match value_get(reply, "targetInfos") {
        Some(v) => v,
        None => return None,
    };
    let targets: &Vec<Value> = match value_as_array(list) {
        Some(items) => items,
        None => return None,
    };
    let ghost all = json::contents(targets@);
    let mut i: usize = 0;
    assert(all.skip(0) =~= all);
    while i < targets.len()
        invariant
            i <= targets@.len(),
            all == json::contents(targets@),
            call_page(json::json_of(*reply), meet_url@) == first_call_page(all, meet_url@),
            first_call_page(all, meet_url@) == first_call_page(all.skip(i as int), meet_url@),
        decreases targets@.len() - i,
    {
        let target: &Value = &targets[i];
        assert(all.skip(i as int)[0] == json::json_of(*target));
        assert(all.skip(i as int).drop_first() =~= all.skip(i + 1));
        if str_eq(field_or_empty(target, "type"), "page") && str_starts_with(
            field_or_empty(target, "url"),
            meet_url,
        ) {
            return match value_str_field(target, "targetId") {
                Some(id) => Some(id.to_string()),
                None => None,
            };
        }
        i = i + 1;
    }
    None
}

/// What the search for an open tab waits for.
#[derive(Debug, Clone, Copy, PartialEq, Eq, Structural)]
pub enum PageWaiting {
    /// The list of targets, in a search that began at this time.
    Listed(u64),
    /// A session in the tab.
    Attached,
}

/// What the search for an open tab does next.
#[derive(Debug)]
pub enum PageStep {
    /// Make a call. The reply goes to [`page_replied`].
    Call { command: CdpCommand, waiting: PageWaiting },
    /// Wait this many milliseconds, then go on with [`page_woken`].
    Sleep { ms: u64, started_ms: u64 },
    /// End, with the session in the tab.
    Done(Result<String, String>),
}

/// What a [`PageStep`] holds.
pub enum PageStepView {
    Call { command: CommandView, waiting: PageWaiting },
    Sleep { ms: u64, started_ms: u64 },
    Done(Result<Seq<char>, Seq<char>>),
}

impl View for PageStep {
    type V = PageStepView;

    open spec fn view(&self) -> PageStepView {
        match *self {
            PageStep::Call { command, waiting } => PageStepView::Call { command: command@, waiting },
            PageStep::Sleep { ms, started_ms } => PageStepView::Sleep { ms, started_ms },
            PageStep::Done(r) => PageStepView::Done(text::text_result(r)),
        }
    }
}

/// The call that lists the targets, in a search that began at `started_ms`.
pub open spec fn listing(started_ms: u64) -> PageStepView {
    PageStepView::Call {
        command: cdp::browser_command("Target.getTargets"@, Json::Null),
        waiting: PageWaiting::Listed(started_ms),
    }
}

/// The step after a reply.
pub open spec fn page_next(
    meet_url: Seq<char>,
    waiting: PageWaiting,
    reply: Result<Json, Seq<char>>,
) -> PageStepView {
    match reply {
        Err(e) => PageStepView::Done(Err(e)),
        Ok(v) => match waiting {
            PageWaiting::Listed(started_ms) => match call_page(v, meet_url) {
                Some(target) => PageStepView::Call {
                    command: attaching(target),
                    waiting: PageWaiting::Attached,
                },
                None => PageStepView::Sleep { ms: PAGE_POLL_MS, started_ms },
            },
            PageWaiting::Attached => PageStepView::Done(attached(v)),
        },
    }
}

/// The step after a wait: look again while there is time.
pub open spec fn page_after_wait(meet_url: Seq<char>, started_ms: u64, now_ms: u64) -> PageStepView {
    if now_ms < started_ms + PAGE_BUDGET_MS {
        listing(started_ms)
    } else {
        PageStepView::Done(
            Err("no page target matching "@ + meet_url + " after Target.getTargets"@),
        )
    }
}

fn list_targets(started_ms: u64) -> (r: PageStep)
    ensures
        r@ == listing(started_ms),
{
    PageStep::Call {
        command: root_command("Target.getTargets", value_null()),
        waiting: PageWaiting::Listed(started_ms),
    }
}

/// Begins to look for the call's tab. All times are of one clock.
pub fn begin_page(now_ms: u64) -> (r: PageStep)
    ensures
        r@ == listing(now_ms),
{
    list_targets(now_ms)
}

/// Goes on after the reply to a call.
pub fn page_replied(meet_url: &str, waiting: PageWaiting, reply: Result<Value, String>) -> (r:
    PageStep)
    ensures
        r@ == page_next(meet_url@, waiting, json::json_result(reply)),
{
    let v: Value = match reply {
        Err(e) => return PageStep::Done(Err(e)),
        Ok(v) => v,
    };
    match waiting {
        PageWaiting::Listed(started_ms) => match find_page_target(&v, meet_url) {
            Some(target) => PageStep::Call {
                command: attach_command(target.as_str()),
                waiting: PageWaiting::Attached,
            },
            None => PageStep::Sleep { ms: PAGE_POLL_MS, started_ms },
        },
        PageWaiting::Attached => PageStep::Done(attached_session(&v)),
    }
}

/// Goes on after a wait.
pub fn page_woken(meet_url: &str, started_ms: u64, now_ms: u64) -> (r: PageStep)
    ensures
        r@ == page_after_wait(meet_url@, started_ms, now_ms),
{
    if now_ms < started_ms || now_ms - started_ms < PAGE_BUDGET_MS {
        return list_targets(started_ms);
    }
    let mut e: String = concat("no page target matching ", meet_url);
    e.append(" after Target.getTargets");
    PageStep::Done(Err(e))
}

/// The tab that is found is a page of the call, and the first one in the list:
/// none before it is one.
pub proof fn law_found_page_is_the_first(targets: Seq<Json>, meet_url: Seq<char>)
    ensures
        match first_call_page(targets, meet_url) {
            Some(id) => exists|i: int|
                0 <= i < targets.len() && #[trigger] is_call_page(targets[i], meet_url)
                    && targets[i].get("targetId"@) == Some(Json::Str(id)) && forall|j: int|
                    0 <= j < i ==> !#[trigger] is_call_page(targets[j], meet_url),
            None => true,
        },
    decreases targets.len(),
{
    if targets.len() > 0 {
        if is_call_page(targets[0], meet_url) {
            if first_call_page(targets, meet_url) is Some {
                assert(is_call_page(targets[0], meet_url));
            }
        } else {
            let rest = targets.drop_first();
            law_found_page_is_the_first(rest, meet_url);
            match first_call_page(rest, meet_url) {
                Some(id) => {
                    let i = choose|i: int|
                        0 <= i < rest.len() && #[trigger] is_call_page(rest[i], meet_url)
                            && rest[i].get("targetId"@) == Some(Json::Str(id)) && forall|j: int|
                            0 <= j < i ==> !#[trigger] is_call_page(rest[j], meet_url);
                    assert(rest[i] == targets[i + 1]);
                    assert(is_call_page(targets[i + 1], meet_url));
                    assert forall|j: int| 0 <= j < i + 1 implies !#[trigger] is_call_page(
                        targets[j],
                        meet_url,
                    ) by {
                        if j > 0 {
                            assert(rest[j - 1] == targets[j]);
                        }
                    }
                },
                None => {},
            }
        }
    }
}

/// A target is attached to by its own id, over the connection that is there.
pub proof fn law_target_is_attached_flat(target: Seq<char>, reply: Json)
    ensures
        attaching(target).method == "Target.attachToTarget"@,
        attaching(target).session_id is None,
        attaching(target).params.get("targetId"@) == Some(Json::Str(target)),
        attaching(target).params.get("flatten"@) == Some(Json::Bool(true)),
        forall|key: Seq<char>| #[trigger]
            attaching(target).params.get(key) is Some ==> key == "targetId"@ || key == "flatten"@,
        match reply.get("sessionId"@) {
            Some(Json::Str(session)) => attached(reply) == Ok::<Seq<char>, Seq<char>>(session),
            _ => attached(reply) == Err::<Seq<char>, Seq<char>>(
                "Target.attachToTarget missing sessionId: "@ + json::json_text(reply),
            ),
        },
{
    reveal_strlit("targetId");
    reveal_strlit("flatten");
    assert("targetId"@.len() == 8 && "flatten"@.len() == 7);
    cdp::law_path_is_followed(reply, "sessionId"@, Seq::empty());
}

/// What a tab does next. A blank target is made, and attached to by the id that the
/// browser gave it; an answer without that id, or without a session, ends it with an
/// error that shows the answer. In the session, the page is enabled, then the camera
/// is put in place, and then the page goes to the call, whatever came of the step
/// before; the session is what comes of it all.
pub proof fn law_tab_goes_step_by_step(
    meet_url: Seq<char>,
    session: Seq<char>,
    v: Json,
    e: Seq<char>,
    reply: Result<Json, Seq<char>>,
)
    ensures
        tab_opening() is Call && tab_opening()->waiting == TabWaitingView::Created,
        tab_opening()->command.method == "Target.createTarget"@,
        tab_opening()->command.session_id is None,
        tab_opening()->command.params.get("url"@) == Some(Json::Str("about:blank"@)),
        tab_next(meet_url, TabWaitingView::Created, Err(e)) == TabStepView::Done(Err(e)),
        tab_next(meet_url, TabWaitingView::Attached, Err(e)) == TabStepView::Done(Err(e)),
        match v.get("targetId"@) {
            Some(Json::Str(target)) => tab_next(meet_url, TabWaitingView::Created, Ok(v)) == (
            TabStepView::Call { command: attaching(target), waiting: TabWaitingView::Attached }),
            _ => tab_next(meet_url, TabWaitingView::Created, Ok(v)) == TabStepView::Done(
                Err("Target.createTarget missing targetId: "@ + json::json_text(v)),
            ),
        },
        match v.get("sessionId"@) {
            Some(Json::Str(s)) => tab_next(meet_url, TabWaitingView::Attached, Ok(v)) == (
            TabStepView::Call {
                command: CommandView {
                    method: "Page.enable"@,
                    params: Json::Null,
                    session_id: Some(s),
                },
                waiting: TabWaitingView::PageEnabled(s),
            }),
            _ => tab_next(meet_url, TabWaitingView::Attached, Ok(v)) == TabStepView::Done(
                Err("Target.attachToTarget missing sessionId: "@ + json::json_text(v)),
            ),
        },
        ({
            let step = tab_next(meet_url, TabWaitingView::PageEnabled(session), reply);
            &&& step is Call
            &&& step->waiting == TabWaitingView::CameraInPlace(session)
            &&& step->command == fake_camera::camera_command(Some(session))
        }),
        ({
            let step = tab_next(meet_url, TabWaitingView::CameraInPlace(session), reply);
            &&& step is Call
            &&& step->waiting == TabWaitingView::Navigated(session)
            &&& step->command.method == "Page.navigate"@
            &&& step->command.session_id == Some(session)
            &&& step->command.params.get("url"@) == Some(Json::Str(meet_url))
        }),
        tab_next(meet_url, TabWaitingView::Navigated(session), reply) == TabStepView::Done(
            Ok(session),
        ),
{
    cdp::law_path_is_followed(v, "targetId"@, Seq::empty());
    cdp::law_path_is_followed(v, "sessionId"@, Seq::empty());
}

/// A target that is a page, and whose address begins with that of the call.
pub open spec fn shows_the_call(target: Json, meet_url: Seq<char>) -> bool {
    let url = match target.get("url"@) {
        Some(Json::Str(u)) => u,
        _ => Seq::empty(),
    };
    &&& target.get("type"@) == Some(Json::Str("page"@))
    &&& url.len() >= meet_url.len()
    &&& forall|i: int| 0 <= i < meet_url.len() ==> url[i] == #[trigger] meet_url[i]
}

proof fn lemma_shows_the_call(target: Json, meet_url: Seq<char>)
    ensures
        shows_the_call(target, meet_url) <==> is_call_page(target, meet_url),
{
    reveal_strlit("page");
    assert("page"@.len() == 4);
    let kind = str_or_empty(target, "type"@);
    assert(kind == "page"@ <==> target.get("type"@) == Some(Json::Str("page"@))) by {
        if kind == "page"@ {
            assert(kind.len() == 4);
            assert(target.get("type"@) is Some);
        }
    }
    let url = str_or_empty(target, "url"@);
    if is_call_page(target, meet_url) {
        assert forall|i: int| 0 <= i < meet_url.len() implies url[i] == #[trigger] meet_url[i] by {
            assert(url.subrange(0, meet_url.len() as int)[i] == url[i]);
        }
    }
    if shows_the_call(target, meet_url) {
        assert(meet_url =~= url.subrange(0, meet_url.len() as int));
    }
}

/// The page of the call is the first target that shows it, wherever in the list it
/// stands; where none does, there is none.
pub proof fn law_page_is_found_wherever_it_is(
    reply: Json,
    before: Seq<Json>,
    target: Json,
    after: Seq<Json>,
    meet_url: Seq<char>,
    id: Seq<char>,
)
    requires
        forall|i: int| 0 <= i < before.len() ==> !shows_the_call(#[trigger] before[i], meet_url),
    ensures
        reply.get("targetInfos"@) == Some(Json::Array(before + seq![target] + after))
            && shows_the_call(target, meet_url) && target.get("targetId"@) == Some(Json::Str(id))
            ==> call_page(reply, meet_url) == Some(id),
        reply.get("targetInfos"@) == Some(Json::Array(before)) ==> call_page(reply, meet_url) is None,
        !(reply.get("targetInfos"@) is Some && reply.get("targetInfos"@)->0 is Array) ==> call_page(
            reply,
            meet_url,
        ) is None,
    decreases before.len(),
{
    let all = before + seq![target] + after;
    lemma_shows_the_call(target, meet_url);
    if before.len() == 0 {
        assert(all[0] == target);
    } else {
        lemma_shows_the_call(before[0], meet_url);
        assert(!shows_the_call(before[0], meet_url));
        let rest = before.drop_first();
        assert forall|i: int| 0 <= i < rest.len() implies !shows_the_call(
            #[trigger] rest[i],
            meet_url,
        ) by {
            assert(rest[i] == before[i + 1]);
        }
        let longer = Json::Object(
            Map::empty().insert("targetInfos"@, Json::Array(rest + seq![target] + after)),
        );
        let shorter = Json::Object(Map::empty().insert("targetInfos"@, Json::Array(rest)));
        law_page_is_found_wherever_it_is(longer, rest, target, after, meet_url, id);
        law_page_is_found_wherever_it_is(shorter, rest, target, after, meet_url, id);
        assert(all[0] == before[0]);
        assert(all.drop_first() =~= rest + seq![target] + after);
    }
}

/// The targets are listed every 200 ms, for up to 10 seconds from the start, until
/// the page of the call is among them; then it is attached to. After that time, and
/// where a call fails, the search ends with an error.
pub proof fn law_page_is_awaited(
    meet_url: Seq<char>,
    started_ms: u64,
    now_ms: u64,
    v: Json,
    e: Seq<char>,
    waiting: PageWaiting,
)
    ensures
        listing(started_ms) == (PageStepView::Call {
            command: CommandView {
                method: "Target.getTargets"@,
                params: Json::Null,
                session_id: None,
            },
            waiting: PageWaiting::Listed(started_ms),
        }),
        now_ms < started_ms + 10_000 ==> page_after_wait(meet_url, started_ms, now_ms) == listing(
            started_ms,
        ),
        now_ms >= started_ms + 10_000 ==> page_after_wait(meet_url, started_ms, now_ms)
            == PageStepView::Done(
            Err("no page target matching "@ + meet_url + " after Target.getTargets"@),
        ),
        page_next(meet_url, waiting, Err(e)) == PageStepView::Done(Err(e)),
        page_next(meet_url, PageWaiting::Attached, Ok(v)) == PageStepView::Done(attached(v)),
        call_page(v, meet_url) is None ==> page_next(
            meet_url,
            PageWaiting::Listed(started_ms),
            Ok(v),
        ) == (PageStepView::Sleep { ms: 200, started_ms }),
        call_page(v, meet_url) matches Some(target) ==> page_next(
            meet_url,
            PageWaiting::Listed(started_ms),
            Ok(v),
        ) == (PageStepView::Call { command: attaching(target), waiting: PageWaiting::Attached }),
{
}

/// A step is modelled by what it holds.
pub proof fn law_model_is_what_is_held(tab: TabStep, page: PageStep)
    ensures
        match tab {
            TabStep::Call { command, waiting } => tab@ == (TabStepView::Call {
                command: command@,
                waiting: waiting@,
            }),
            TabStep::Done(Ok(session)) => tab@ == TabStepView::Done(Ok(session@)),
            TabStep::Done(Err(e)) => tab@ == TabStepView::Done(Err(e@)),
        },
        match page {
            PageStep::Call { command, waiting } => page@ == (PageStepView::Call {
                command: command@,
                waiting,
            }),
            PageStep::Sleep { ms, started_ms } => page@ == (PageStepView::Sleep { ms, started_ms }),
            PageStep::Done(Ok(session)) => page@ == PageStepView::Done(Ok(session@)),
            PageStep::Done(Err(e)) => page@ == PageStepView::Done(Err(e@)),
        },
{
}

} // verus!
