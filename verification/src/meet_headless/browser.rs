//! The browser process: where it is found, how it is started, and how it says
//! where it can be reached.

use crate::text::{
    self, chars_of, concat, first_word, starts_with, str_eq, str_starts_with, string_of,
};
use vstd::prelude::*;

verus! {

/// How long the browser may take to say where it can be reached.
pub const BOOT_BUDGET_SECS: u64 = 20;

/// What stands in front of the address on the browser's error output.
pub const DEVTOOLS_BANNER: &'static str = "DevTools listening on ";

/// What the name of every profile directory begins with.
pub const PROFILE_PREFIX: &'static str = "openhuman-meet-headless-";

// ---------------------------------------------------------------------------
// The address
// ---------------------------------------------------------------------------

/// A text up to its last slash, with the slash; nothing of it where it has none.
pub open spec fn up_to_slash(s: Seq<char>) -> Seq<char>
    decreases s.len(),
{
    if s.len() == 0 || s.last() == '/' {
        s
    } else {
        up_to_slash(s.drop_last())
    }
}

/// An address with its secret last part struck out.
pub open spec fn redacted(url: Seq<char>) -> Seq<char> {
    up_to_slash(url) + "*****"@
}

/// An address as it may be logged: the last part, whoever knows which drives the
/// browser, is struck out.
pub fn redact_ws_url(url: &str) -> (r: String)
    ensures
        r@ == redacted(url@),
{
    let chars: Vec<char> = chars_of(url);
    let mut n: usize = chars.len();
    assert(chars@.take(n as int) =~= chars@);
    while n > 0 && chars[n - 1] != '/'
        invariant
            n <= chars@.len(),
            up_to_slash(chars@) == up_to_slash(chars@.take(n as int)),
        decreases n,
    {
        assert(chars@.take(n as int).drop_last() =~= chars@.take(n - 1));
        n = n - 1;
    }
    let head: &[char] = vstd::slice::slice_subrange(chars.as_slice(), 0, n);
    assert(head@ =~= chars@.take(n as int));
    let shown: String = string_of(head);
    concat(shown.as_str(), "*****")
}

/// Of an address, nothing behind the last slash shows: whatever stands there,
/// the text is the same.
pub proof fn law_secret_never_shows(front: Seq<char>, secret: Seq<char>)
    requires
        !secret.contains('/'),
    ensures
        redacted(front.push('/') + secret) == front.push('/') + "*****"@,
        redacted(secret) == "*****"@,
    decreases secret.len(),
{
    let url = front.push('/') + secret;
    if secret.len() == 0 {
        assert(url =~= front.push('/'));
        assert(url.last() == '/');
        assert(secret + "*****"@ =~= "*****"@);
    } else {
        let less = secret.drop_last();
        assert(!less.contains('/')) by {
            if less.contains('/') {
                let i = choose|i: int| 0 <= i < less.len() && less[i] == '/';
                assert(secret[i] == '/');
            }
        }
        assert(secret[secret.len() - 1] != '/');
        law_secret_never_shows(front, less);
        assert(url.drop_last() =~= front.push('/') + less);
        assert(url.last() == secret.last());
    }
}

/// The address in a line of the browser's error output, where the line is the
/// one that tells it.
pub open spec fn devtools_url(line: Seq<char>) -> Option<Seq<char>> {
    if !DEVTOOLS_BANNER@.is_prefix_of(line) {
        None
    } else {
        match text::first_word_of(line.skip(DEVTOOLS_BANNER@.len() as int)) {
            Some(url) => if "ws://"@.is_prefix_of(url) || "wss://"@.is_prefix_of(url) {
                Some(url)
            } else {
                None
            },
            None => None,
        }
    }
}

/// The address in a line of the browser's error output, where the line is the
/// one that tells it.
pub fn parse_devtools_line(line: &str) -> (r: Option<String>)
    ensures
        text::opt_text(r) == devtools_url(line@),
{
    let chars: Vec<char> = chars_of(line);
    let banner: Vec<char> = chars_of(DEVTOOLS_BANNER);
    if !starts_with(chars.as_slice(), banner.as_slice()) {
        return None;
    }
    let rest: &[char] = vstd::slice::slice_subrange(chars.as_slice(), banner.len(), chars.len());
    assert(rest@ =~= line@.skip(DEVTOOLS_BANNER@.len() as int));
    match first_word(rest) {
        Some(word) => {
            let url: String = string_of(word);
            if str_starts_with(url.as_str(), "ws://") || str_starts_with(url.as_str(), "wss://") {
                Some(url)
            } else {
                None
            }
        },
        None => None,
    }
}

/// The line that tells an address gives the address back, and only an address
/// of a socket is ever given.
pub proof fn law_banner_tells_address(url: Seq<char>, line: Seq<char>)
    requires
        "ws://"@.is_prefix_of(url) || "wss://"@.is_prefix_of(url),
        forall|i: int| 0 <= i < url.len() ==> !text::is_white(#[trigger] url[i]),
    ensures
        devtools_url(DEVTOOLS_BANNER@ + url) == Some(url),
        devtools_url(line) is Some ==> DEVTOOLS_BANNER@.is_prefix_of(line) && ("ws://"@.is_prefix_of(
            devtools_url(line)->0,
        ) || "wss://"@.is_prefix_of(devtools_url(line)->0)),
{
    reveal_strlit("ws://");
    reveal_strlit("wss://");
    let whole = DEVTOOLS_BANNER@ + url;
    assert(whole.subrange(0, DEVTOOLS_BANNER@.len() as int) =~= DEVTOOLS_BANNER@);
    assert(whole.skip(DEVTOOLS_BANNER@.len() as int) =~= url);
    text::lemma_one_word(url);
}

/// What was read from the browser's error output.
#[derive(Debug)]
pub enum BootRead {
    /// A line.
    Line(String),
    /// Its end.
    Closed,
    /// An error.
    Failed(String),
    /// Nothing, until the time was up.
    Timeout,
}

/// What a [`BootRead`] holds.
pub enum BootReadView {
    Line(Seq<char>),
    Closed,
    Failed(Seq<char>),
    Timeout,
}

impl View for BootRead {
    type V = BootReadView;

    open spec fn view(&self) -> BootReadView {
        match *self {
            BootRead::Line(l) => BootReadView::Line(l@),
            BootRead::Closed => BootReadView::Closed,
            BootRead::Failed(e) => BootReadView::Failed(e@),
            BootRead::Timeout => BootReadView::Timeout,
        }
    }
}

/// How the wait for the address ends after a read; nothing where it goes on.
pub open spec fn booted(read: BootReadView) -> Option<Result<Seq<char>, Seq<char>>> {
    match read {
        BootReadView::Line(line) => match devtools_url(line) {
            Some(url) => Some(Ok(url)),
            None => None,
        },
        BootReadView::Closed => Some(Err("chromium stderr closed before DevTools banner"@)),
        BootReadView::Failed(e) => Some(Err("chromium stderr read: "@ + e)),
        BootReadView::Timeout => Some(Err("timeout waiting for chromium DevTools banner"@)),
    }
}

/// How many milliseconds are left for the browser to say where it can be reached;
/// nothing where its time is up. Both times are of one clock.
pub fn boot_time_left(started_ms: u64, now_ms: u64) -> (r: Option<u64>)
    requires
        started_ms + 1000 * BOOT_BUDGET_SECS - now_ms <= u64::MAX,
    ensures
        r is None <==> now_ms >= started_ms + 1000 * BOOT_BUDGET_SECS,
        r is Some ==> r->0 == started_ms + 1000 * BOOT_BUDGET_SECS - now_ms,
        r is Some <==> now_ms < started_ms + 20_000,
        r is Some ==> now_ms + r->0 == started_ms + 20_000,
{
    let budget: u64 = 1000 * BOOT_BUDGET_SECS;
    if now_ms < started_ms {
        Some(started_ms - now_ms + budget)
    } else if now_ms - started_ms >= budget {
        None
    } else {
        Some(budget - (now_ms - started_ms))
    }
}

/// How the wait for the address ends after a read; nothing where it goes on.
pub fn boot_step(read: &BootRead) -> (r: Option<Result<String, String>>)
    ensures
        match r {
            Some(end) => booted(read@) == Some(text::text_result(end)),
            None => booted(read@) is None,
        },
{
    match read {
        BootRead::Line(line) => match parse_devtools_line(line.as_str()) {
            Some(url) => Some(Ok(url)),
            None => None,
        },
        BootRead::Closed => Some(Err("chromium stderr closed before DevTools banner".to_string())),
        BootRead::Failed(e) => Some(Err(concat("chromium stderr read: ", e.as_str()))),
        BootRead::Timeout => Some(Err("timeout waiting for chromium DevTools banner".to_string())),
    }
}

// ---------------------------------------------------------------------------
// The profile directory
// ---------------------------------------------------------------------------

/// A digit of a number in base 16, in lower case.
pub open spec fn is_hex(c: char) -> bool {
    '0' <= c <= '9' || 'a' <= c <= 'f'
}

/// What a fresh token looks like, whatever was drawn: 32 digits in base 16, of
/// which one tells the version and one the variant.
pub open spec fn is_token(token: Seq<char>) -> bool {
    &&& token.len() == 32
    &&& forall|i: int| 0 <= i < 32 ==> is_hex(#[trigger] token[i])
    &&& token[12] == '4'
    &&& token[16] == '8' || token[16] == '9' || token[16] == 'a' || token[16] == 'b'
}

/// `Uuid::new_v4`, as `Uuid::simple` shows it: 32 hexadecimal digits in lower
/// case, without hyphens. The digits are random, but for the one that tells the
/// version and the one that tells the variant.
#[verifier::external_body]
fn new_token() -> (r: String)
    ensures
        is_token(r@),
{
    uuid::Uuid::new_v4().simple().to_string()
}

/// Whether a name is that of a profile directory.
pub open spec fn is_profile_name(name: Seq<char>) -> bool {
    PROFILE_PREFIX@.is_prefix_of(name)
}

/// The name of the profile directory with this token.
pub fn profile_name(token: &str) -> (r: String)
    ensures
        r@ == PROFILE_PREFIX@ + token@,
        r@ == "openhuman-meet-headless-"@ + token@,
        is_profile_name(r@),
{
    let name: String = concat(PROFILE_PREFIX, token);
    assert(name@.subrange(0, PROFILE_PREFIX@.len() as int) =~= PROFILE_PREFIX@);
    name
}

/// The name of a fresh profile directory: [`profile_name`] of a token that is
/// drawn at random.
pub fn new_profile_name() -> (r: String)
    ensures
        is_profile_name(r@),
        is_token(r@.skip(PROFILE_PREFIX@.len() as int)),
{
    let token: String = new_token();
    let name: String = profile_name(token.as_str());
    assert(name@.skip(PROFILE_PREFIX@.len() as int) =~= token@);
    name
}

/// What a list of strings holds.
pub open spec fn string_views(strings: Seq<String>) -> Seq<Seq<char>> {
    Seq::new(strings.len(), |i: int| strings[i]@)
}

/// Whether a directory of this name is a profile that an earlier run left
/// behind: it is named like a profile, and is none of those in use now. `live`
/// has to name the profiles of all sessions, and of the starts under way.
pub fn is_stale_profile(name: &str, live: &[String]) -> (r: bool)
    ensures
        r == (is_profile_name(name@) && !string_views(live@).contains(name@)),
        r <==> "openhuman-meet-headless-"@.is_prefix_of(name@) && (forall|i: int|
            0 <= i < live@.len() ==> (#[trigger] live@[i])@ != name@),
{
    if !str_starts_with(name, PROFILE_PREFIX) {
        return false;
    }
    let mut i: usize = 0;
    while i < live.len()
        invariant
            i <= live@.len(),
            forall|j: int| 0 <= j < i ==> (#[trigger] string_views(live@)[j]) != name@,
            forall|j: int| 0 <= j < i ==> (#[trigger] live@[j])@ != name@,
        decreases live@.len() - i,
    {
        if str_eq(live[i].as_str(), name) {
            assert(string_views(live@)[i as int] == name@);
            return false;
        }
        i = i + 1;
    }
    true
}

// ---------------------------------------------------------------------------
// Starting
// ---------------------------------------------------------------------------

/// The arguments that start the browser, with its profile in a directory. The
/// permission to use camera and microphone is given without asking, and the
/// system picks the port.
pub fn chromium_args(user_data_dir: &str) -> (r: Vec<String>)
    ensures
        string_views(r@) == seq![
            "--headless=new"@,
            "--no-sandbox"@,
            "--disable-gpu"@,
            "--disable-dev-shm-usage"@,
            "--use-fake-ui-for-media-stream"@,
            "--use-fake-device-for-media-stream"@,
            "--remote-debugging-port=0"@,
            "--user-data-dir="@ + user_data_dir@,
            "about:blank"@,
        ],
{
    let mut args: Vec<String> = Vec::new();
    args.push("--headless=new".to_string());
    args.push("--no-sandbox".to_string());
    args.push("--disable-gpu".to_string());
    args.push("--disable-dev-shm-usage".to_string());
    args.push("--use-fake-ui-for-media-stream".to_string());
    args.push("--use-fake-device-for-media-stream".to_string());
    args.push("--remote-debugging-port=0".to_string());
    args.push(concat("--user-data-dir=", user_data_dir));
    args.push("about:blank".to_string());
    assert(string_views(args@) =~= seq![
        "--headless=new"@,
        "--no-sandbox"@,
        "--disable-gpu"@,
        "--disable-dev-shm-usage"@,
        "--use-fake-ui-for-media-stream"@,
        "--use-fake-device-for-media-stream"@,
        "--remote-debugging-port=0"@,
        "--user-data-dir="@ + user_data_dir@,
        "about:blank"@,
    ]);
    args
}

/// The error where the profile directory cannot be made.
pub fn profile_dir_failure(dir: &str, err: &str) -> (r: String)
    ensures
        r@ == "create user_data_dir "@ + dir@ + ": "@ + err@,
{
    let mut e: String = concat("create user_data_dir ", dir);
    e.append(": ");
    e.append(err);
    e
}

/// The error where the browser cannot be started.
pub fn spawn_failure(exe: &str, err: &str) -> (r: String)
    ensures
        r@ == "spawn chromium at "@ + exe@ + ": "@ + err@,
{
    let mut e: String = concat("spawn chromium at ", exe);
    e.append(": ");
    e.append(err);
    e
}

// ---------------------------------------------------------------------------
// Finding
// ---------------------------------------------------------------------------

/// The environment variables that may name the browser, the first one first.
pub const ENV_VARS: [&'static str; 3] = ["CHROME", "CHROMIUM_PATH", "PUPPETEER_EXECUTABLE_PATH"];

/// An operating system, as far as the browser's place depends on it.
#[derive(Debug, Clone, Copy, PartialEq, Eq, Structural)]
pub enum Platform {
    MacOs,
    Linux,
    Windows,
    Other,
}

/// Where the browser is usually found, the first place first.
pub open spec fn usual_places(platform: Platform) -> Seq<Seq<char>> {
    match platform {
        Platform::MacOs => seq![
            "/Applications/Google Chrome.app/Contents/MacOS/Google Chrome"@,
            "/Applications/Google Chrome Canary.app/Contents/MacOS/Google Chrome Canary"@,
            "/Applications/Chromium.app/Contents/MacOS/Chromium"@,
        ],
        Platform::Linux => seq![
            "/usr/bin/google-chrome"@,
            "/usr/bin/google-chrome-stable"@,
            "/usr/bin/chromium"@,
            "/usr/bin/chromium-browser"@,
            "/snap/bin/chromium"@,
        ],
        Platform::Windows => seq![
            "C:\\Program Files\\Google\\Chrome\\Application\\chrome.exe"@,
            "C:\\Program Files (x86)\\Google\\Chrome\\Application\\chrome.exe"@,
        ],
        Platform::Other => Seq::empty(),
    }
}

/// The texts that are there, in order.
pub open spec fn present(texts: Seq<Option<String>>) -> Seq<Seq<char>>
    decreases texts.len(),
{
    if texts.len() == 0 {
        Seq::empty()
    } else {
        match texts.last() {
            Some(t) => present(texts.drop_last()).push(t@),
            None => present(texts.drop_last()),
        }
    }
}

fn push_all(out: &mut Vec<String>, places: &[&str])
    ensures
        string_views(final(out)@) == string_views(old(out)@) + Seq::new(
            places@.len(),
            |i: int| places@[i]@,
        ),
{
    let ghost before = string_views(out@);
    let ghost all = Seq::new(places@.len(), |i: int| places@[i]@);
    let mut i: usize = 0;
    assert(before + all.take(0) =~= before);
    while i < places.len()
        invariant
            i <= places@.len(),
            all == Seq::new(places@.len(), |i: int| places@[i]@),
            string_views(out@) == before + all.take(i as int),
        decreases places@.len() - i,
    {
        let ghost so_far = string_views(out@);
        out.push(places[i].to_string());
        assert(string_views(out@) =~= so_far.push(places@[i as int]@));
        assert(all.take(i + 1) =~= all.take(i as int).push(all[i as int]));
        i = i + 1;
        assert(string_views(out@) =~= before + all.take(i as int));
    }
    assert(all.take(i as int) =~= all);
}

/// The places to look for the browser, in order: what the environment names,
/// variable by variable, then the usual places of the platform.
pub fn chromium_candidates(env_paths: &[Option<String>], platform: Platform) -> (r: Vec<String>)
    ensures
        string_views(r@) == present(env_paths@) + usual_places(platform),
{
    let mut out: Vec<String> = Vec::new();
    let mut i: usize = 0;
    assert(string_views(out@) =~= present(env_paths@.take(0)));
    while i < env_paths.len()
        invariant
            i <= env_paths@.len(),
            string_views(out@) == present(env_paths@.take(i as int)),
        decreases env_paths@.len() - i,
    {
        assert(env_paths@.take(i + 1).drop_last() =~= env_paths@.take(i as int));
        match &env_paths[i] {
            Some(p) => {
                let ghost before = string_views(out@);
                out.push(p.clone());
                assert(string_views(out@) =~= before.push(p@));
            },
            None => {},
        }
        i = i + 1;
    }
    assert(env_paths@.take(i as int) =~= env_paths@);
    let ghost named = string_views(out@);
    match platform {
        Platform::MacOs => push_all(
            &mut out,
            &[
                "/Applications/Google Chrome.app/Contents/MacOS/Google Chrome",
                "/Applications/Google Chrome Canary.app/Contents/MacOS/Google Chrome Canary",
                "/Applications/Chromium.app/Contents/MacOS/Chromium",
            ],
        ),
        Platform::Linux => push_all(
            &mut out,
            &[
                "/usr/bin/google-chrome",
                "/usr/bin/google-chrome-stable",
                "/usr/bin/chromium",
                "/usr/bin/chromium-browser",
                "/snap/bin/chromium",
            ],
        ),
        Platform::Windows => push_all(
            &mut out,
            &[
                "C:\\Program Files\\Google\\Chrome\\Application\\chrome.exe",
                "C:\\Program Files (x86)\\Google\\Chrome\\Application\\chrome.exe",
            ],
        ),
        Platform::Other => {},
    }
    assert(string_views(out@) =~= named + usual_places(platform));
    out
}

/// The error where the browser is nowhere.
pub const NOT_FOUND: &'static str = "could not locate chrome/chromium — set $CHROME to the binary path (e.g. /Applications/Google Chrome.app/Contents/MacOS/Google Chrome)";

/// The first place at which there is something.
pub open spec fn first_existing(candidates: Seq<String>, exists: Seq<bool>) -> Result<
    Seq<char>,
    Seq<char>,
>
    decreases candidates.len(),
{
    if candidates.len() == 0 {
        Err(NOT_FOUND@)
    } else if exists[0] {
        Ok(candidates[0]@)
    } else {
        first_existing(candidates.drop_first(), exists.drop_first())
    }
}

/// The browser: the first candidate that exists, where `exists` tells which do.
pub fn locate_chromium(candidates: &[String], exists: &[bool]) -> (r: Result<String, String>)
    requires
        candidates@.len() == exists@.len(),
    ensures
        text::text_result(r) == first_existing(candidates@, exists@),
{
    let mut i: usize = 0;
    assert(candidates@.skip(0) =~= candidates@ && exists@.skip(0) =~= exists@);
    while i < candidates.len()
        invariant
            i <= candidates@.len(),
            candidates@.len() == exists@.len(),
            first_existing(candidates@, exists@) == first_existing(
                candidates@.skip(i as int),
                exists@.skip(i as int),
            ),
        decreases candidates@.len() - i,
    {
        if exists[i] {
            return Ok(candidates[i].clone());
        }
        assert(candidates@.skip(i as int).drop_first() =~= candidates@.skip(i + 1));
        assert(exists@.skip(i as int).drop_first() =~= exists@.skip(i + 1));
        i = i + 1;
    }
    Err(NOT_FOUND.to_string())
}

/// The first candidate that exists is found, whatever comes after it. So what the
/// environment names comes before the usual places.
pub proof fn law_first_existing_is_found(candidates: Seq<String>, exists: Seq<bool>, i: int)
    requires
        candidates.len() == exists.len(),
        0 <= i < candidates.len(),
        exists[i],
        forall|j: int| 0 <= j < i ==> !#[trigger] exists[j],
    ensures
        first_existing(candidates, exists) == Ok::<Seq<char>, Seq<char>>(candidates[i]@),
    decreases i,
{
    if i > 0 {
        let rest = exists.drop_first();
        assert(!exists[0]);
        assert(rest[i - 1] == exists[i]);
        assert forall|j: int| 0 <= j < i - 1 implies !#[trigger] rest[j] by {
            assert(rest[j] == exists[j + 1]);
        }
        law_first_existing_is_found(candidates.drop_first(), rest, i - 1);
    }
}

/// Where no candidate exists, none is found.
pub proof fn law_nothing_is_found_where_nothing_is(candidates: Seq<String>, exists: Seq<bool>)
    requires
        candidates.len() == exists.len(),
        forall|j: int| 0 <= j < exists.len() ==> !#[trigger] exists[j],
    ensures
        first_existing(candidates, exists) == Err::<Seq<char>, Seq<char>>(NOT_FOUND@),
    decreases candidates.len(),
{
    if candidates.len() > 0 {
        let rest = exists.drop_first();
        assert(!exists[0]);
        assert forall|j: int| 0 <= j < rest.len() implies !#[trigger] rest[j] by {
            assert(rest[j] == exists[j + 1]);
        }
        law_nothing_is_found_where_nothing_is(candidates.drop_first(), rest);
    }
}

/// A line tells where the DevTools listen where it begins with their banner and the
/// first word after that is the address of a web socket: then it is that word, and
/// nothing around it. Any other line tells nothing.
pub proof fn law_address_is_the_word_after_the_banner(
    line: Seq<char>,
    space: Seq<char>,
    url: Seq<char>,
    rest: Seq<char>,
)
    requires
        forall|i: int| 0 <= i < space.len() ==> text::is_white(#[trigger] space[i]),
        forall|i: int| 0 <= i < url.len() ==> !text::is_white(#[trigger] url[i]),
        rest.len() > 0 ==> text::is_white(rest[0]),
        url.len() == 0 ==> rest.len() == 0,
    ensures
        "ws://"@.is_prefix_of(url) || "wss://"@.is_prefix_of(url) ==> devtools_url(
            "DevTools listening on "@ + (space + url + rest),
        ) == Some(url),
        !("ws://"@.is_prefix_of(url) || "wss://"@.is_prefix_of(url)) ==> devtools_url(
            "DevTools listening on "@ + (space + url + rest),
        ) is None,
        !"DevTools listening on "@.is_prefix_of(line) ==> devtools_url(line) is None,
{
    reveal_strlit("ws://");
    reveal_strlit("wss://");
    let banner = "DevTools listening on "@;
    let whole = banner + (space + url + rest);
    assert(whole.subrange(0, banner.len() as int) =~= banner);
    assert(whole.skip(banner.len() as int) =~= space + url + rest);
    text::law_first_word(space, url, rest);
}

/// The wait for the browser ends at the first line that tells where its DevTools
/// listen, with that address, and goes on at any other line. It ends with an error
/// where the output ends or fails first, and where it takes too long.
pub proof fn law_boot_ends_with_the_banner(line: Seq<char>, e: Seq<char>)
    ensures
        devtools_url(line) matches Some(url) ==> booted(BootReadView::Line(line)) == Some(
            Ok::<Seq<char>, Seq<char>>(url),
        ),
        devtools_url(line) is None ==> booted(BootReadView::Line(line)) is None,
        booted(BootReadView::Closed) == Some(
            Err::<Seq<char>, Seq<char>>("chromium stderr closed before DevTools banner"@),
        ),
        booted(BootReadView::Failed(e)) == Some(
            Err::<Seq<char>, Seq<char>>("chromium stderr read: "@ + e),
        ),
        booted(BootReadView::Timeout) == Some(
            Err::<Seq<char>, Seq<char>>("timeout waiting for chromium DevTools banner"@),
        ),
{
}

/// The paths that are named are all tried, in their order, and a variable that is not
/// set names none.
pub proof fn law_named_paths_are_kept(texts: Seq<Option<String>>, path: String)
    ensures
        present(Seq::empty()) == Seq::<Seq<char>>::empty(),
        present(texts.push(Some(path))) == present(texts).push(path@),
        present(texts.push(None)) == present(texts),
{
    assert(texts.push(Some(path)).drop_last() =~= texts);
    assert(texts.push(None).drop_last() =~= texts);
}

/// Where browsers are usually found, those of the vendor before the free ones.
pub proof fn law_usual_places(platform: Platform)
    ensures
        platform is MacOs ==> usual_places(platform) == seq![
            "/Applications/Google Chrome.app/Contents/MacOS/Google Chrome"@,
            "/Applications/Google Chrome Canary.app/Contents/MacOS/Google Chrome Canary"@,
            "/Applications/Chromium.app/Contents/MacOS/Chromium"@,
        ],
        platform is Linux ==> usual_places(platform) == seq![
            "/usr/bin/google-chrome"@,
            "/usr/bin/google-chrome-stable"@,
            "/usr/bin/chromium"@,
            "/usr/bin/chromium-browser"@,
            "/snap/bin/chromium"@,
        ],
        platform is Windows ==> usual_places(platform) == seq![
            "C:\\Program Files\\Google\\Chrome\\Application\\chrome.exe"@,
            "C:\\Program Files (x86)\\Google\\Chrome\\Application\\chrome.exe"@,
        ],
        platform is Other ==> usual_places(platform) == Seq::<Seq<char>>::empty(),
{
}

/// What was read from the browser, and a list of strings, are modelled by what they
/// hold.
pub proof fn law_model_is_what_is_held(read: BootRead, strings: Seq<String>, i: int)
    ensures
        match read {
            BootRead::Line(line) => read@ == BootReadView::Line(line@),
            BootRead::Closed => read@ == BootReadView::Closed,
            BootRead::Failed(e) => read@ == BootReadView::Failed(e@),
            BootRead::Timeout => read@ == BootReadView::Timeout,
        },
        string_views(strings).len() == strings.len(),
        0 <= i < strings.len() ==> string_views(strings)[i] == strings[i]@,
{
}

} // verus!
