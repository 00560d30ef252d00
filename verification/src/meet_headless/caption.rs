//! Captions: reading them off the page, and handing each on once.
//!
//! Meet grows the line that is being spoken word by word, so a page shows the
//! same rows again and again. A row is handed on when it is not among the last
//! rows that were.

use crate::json::{
    self, value_as_array, value_as_str, value_get, value_str_field, Json,
};
use crate::meet_headless::cdp::{self, evaluate_command, evaluated_value, CdpCommand};
use crate::name_map::NameMap;
use crate::text::{self, str_eq, str_trim};
use serde_json::Value;
use vstd::prelude::*;

verus! {

pub const LOG_PREFIX: &'static str = "[meet-headless-caption]";

/// How often the page is asked for captions.
pub const POLL_INTERVAL_MS: u64 = 500;

/// How many errors in a row end the watch. The waits between them grow, so that
/// this is about a minute of patience.
pub const MAX_CONSECUTIVE_ERRORS: u32 = 10;

/// How many rows are remembered. Meet shows a few at a time, so a long call does
/// not hand on a row twice, and the memory stays bounded.
pub const MAX_SEEN_ROWS: usize = 200;

/// The script that gives the caption rows on the page as an array of
/// `{speaker, text}`, without the toolbar's tooltips and notices.
pub const DRAIN_SCRIPT: &'static str = r#"
(() => {
  function looksLikeIconLigature(text) {
    if (!text) return true;
    const t = text.trim();
    if (!t) return true;
    if (/^[a-z0-9_]+$/.test(t) && t.length < 40) return true;
    return false;
  }
  function looksLikeCaptionLine(text) {
    if (!text) return false;
    const t = text.trim();
    if (t.length < 3) return false;
    if (looksLikeIconLigature(t)) return false;
    if (t.length < 20 && !/\s/.test(t)) return false;
    if (/^([a-z]+)([A-Z][a-z]*)$/.test(t)) {
      const m = /^([a-z]+)([A-Z][a-z]*)$/.exec(t);
      if (m && m[2].toLowerCase() === m[1]) return false;
    }
    if (/\b[a-z]+_[a-z]+\b/.test(t)) return false;
    if (/Your meeting is safe|Your meeting's ready|Copy link|Meeting details|Add people|Add others|Jump to bottom|Jump to most recent/i.test(t)) return false;
    if (/([a-z]{3,})\1/i.test(t)) return false;
    return true;
  }
  function rowSpeaker(row) {
    try {
      const img = row.querySelector('img[alt]');
      if (img) {
        const alt = (img.getAttribute('alt') || '').trim();
        if (alt && alt.length > 1 && !looksLikeIconLigature(alt) && !/^avatar$/i.test(alt)) {
          return alt;
        }
      }
      const self = row.querySelector('[data-self-name]');
      if (self) {
        const name = (self.getAttribute('data-self-name') || '').trim();
        if (name) return name;
      }
      const spans = row.querySelectorAll('span');
      for (let i = 0; i < spans.length; i++) {
        const t = (spans[i].textContent || '').replace(/\s+/g, ' ').trim();
        if (!t) continue;
        if (looksLikeIconLigature(t)) continue;
        if (t.length > 40) continue;
        return t;
      }
    } catch (_) {}
    return '';
  }
  function rowText(row) {
    try {
      const full = (row.textContent || '').replace(/\s+/g, ' ').trim();
      if (!full) return '';
      const spans = row.querySelectorAll('span');
      let prefix = '';
      for (let i = 0; i < spans.length; i++) {
        const t = (spans[i].textContent || '').replace(/\s+/g, ' ').trim();
        if (t) { prefix = t; break; }
      }
      let stripped = full;
      if (prefix && full.toLowerCase().startsWith(prefix.toLowerCase())) {
        stripped = full.slice(prefix.length).trim();
      }
      stripped = stripped.replace(/\s*arrow_downward\s*Jump to bottom\s*$/i, '').trim();
      return stripped;
    } catch (_) { return ''; }
  }
  let region = null;
  try { region = document.querySelector('[jsname="tgaKEf"]'); } catch (_) {}
  if (!region) {
    try {
      const labelled = document.querySelectorAll('[role="region"][aria-label],[aria-label]');
      for (let i = 0; i < labelled.length; i++) {
        const lbl = (labelled[i].getAttribute('aria-label') || '').trim();
        if (/^(captions|sous-titres|untertitel|leyendas|字幕)$/i.test(lbl)) {
          region = labelled[i];
          break;
        }
      }
    } catch (_) {}
  }
  if (!region) return [];
  const out = [];
  try {
    const children = region.children;
    for (let i = 0; i < children.length; i++) {
      const row = children[i];
      const speaker = rowSpeaker(row);
      const text = rowText(row);
      if (!text) continue;
      if (!looksLikeCaptionLine(text)) continue;
      if (!speaker && text.length < 12) continue;
      out.push({ speaker: speaker, text: text });
    }
  } catch (_) {}
  return out;
})()
"#;

// ---------------------------------------------------------------------------
// Reading
// ---------------------------------------------------------------------------

/// One row of captions.
#[derive(Debug, Clone, PartialEq, Eq)]
pub struct CaptionRow {
    pub speaker: String,
    pub text: String,
}

/// Who speaks in a row, and what is said.
pub struct RowView {
    pub speaker: Seq<char>,
    pub text: Seq<char>,
}

impl View for CaptionRow {
    type V = RowView;

    open spec fn view(&self) -> RowView {
        RowView { speaker: self.speaker@, text: self.text@ }
    }
}

/// What a list of rows holds.
pub open spec fn row_views(rows: Seq<CaptionRow>) -> Seq<RowView> {
    Seq::new(rows.len(), |i: int| rows[i]@)
}

/// The row that an item stands for: its trimmed text, where that is not empty,
/// and its speaker, who may be missing.
pub open spec fn row_of(item: Json) -> Option<RowView> {
    let said = match item.get("text"@) {
        Some(v) => v.as_str(),
        None => None,
    };
    let speaker = match item.get("speaker"@) {
        Some(v) => match v.as_str() {
            Some(s) => s,
            None => Seq::empty(),
        },
        None => Seq::empty(),
    };
    match said {
        Some(t) => if text::trimmed(t).len() == 0 {
            None
        } else {
            Some(RowView { speaker, text: text::trimmed(t) })
        },
        None => None,
    }
}

/// The rows that some items stand for.
pub open spec fn rows_of(items: Seq<Json>) -> Seq<RowView>
    decreases items.len(),
{
    if items.len() == 0 {
        Seq::empty()
    } else {
        match row_of(items.last()) {
            Some(row) => rows_of(items.drop_last()).push(row),
            None => rows_of(items.drop_last()),
        }
    }
}

/// The rows in what the script gave; none where it is no array.
pub open spec fn caption_rows(value: Json) -> Seq<RowView> {
    match value.as_array() {
        Some(items) => rows_of(items),
        None => Seq::empty(),
    }
}

fn parse_row(item: &Value) -> (r: Option<CaptionRow>)
    ensures
        match r {
            Some(row) => row_of(json::json_of(*item)) == Some(row@),
            None => row_of(json::json_of(*item)) is None,
        },
{
    let speaker: String = match value_get(item, "speaker") {
        Some(v) => match value_as_str(v) {
            Some(s) => s.to_string(),
            None => String::new(),
        },
        None => String::new(),
    };
    let said: String = match value_str_field(item, "text") {
        Some(s) => str_trim(s),
        None => return None,
    };
    if said.as_str().is_empty() {
        None
    } else {
        Some(CaptionRow { speaker, text: said })
    }
}

/// The caption rows in what [`DRAIN_SCRIPT`] gave.
pub fn parse_caption_rows(value: &Value) -> (r: Vec<CaptionRow>)
    ensures
        row_views(r@) == caption_rows(json::json_of(*value)),
{
    let mut out: Vec<CaptionRow> = Vec::new();
    let items: &Vec<Value> = match value_as_array(value) {
        Some(items) => items,
        None => {
            assert(row_views(out@) =~= Seq::empty());
            return out;
        },
    };
    let ghost all = json::contents(items@);
    let mut i: usize = 0;
    assert(row_views(out@) =~= rows_of(all.take(0)));
    while i < items.len()
        invariant
            i <= items@.len(),
            all == json::contents(items@),
            row_views(out@) == rows_of(all.take(i as int)),
        decreases items@.len() - i,
    {
        assert(all.take(i + 1).drop_last() =~= all.take(i as int));
        match parse_row(&items[i]) {
            Some(row) => {
                let ghost before = row_views(out@);
                out.push(row);
                assert(row_views(out@) =~= before.push(row@));
            },
            None => {},
        }
        i = i + 1;
    }
    assert(all.take(i as int) =~= all);
    out
}

/// Every row says something, and has no white space at either end.
pub proof fn law_rows_say_something(value: Json)
    ensures
        forall|i: int|
            0 <= i < caption_rows(value).len() ==> (#[trigger] caption_rows(value)[i]).text.len()
                > 0 && text::trimmed(caption_rows(value)[i].text) == caption_rows(value)[i].text,
{
    match value.as_array() {
        Some(items) => lemma_rows_say_something(items),
        None => {},
    }
}

proof fn lemma_rows_say_something(items: Seq<Json>)
    ensures
        forall|i: int|
            0 <= i < rows_of(items).len() ==> (#[trigger] rows_of(items)[i]).text.len() > 0
                && text::trimmed(rows_of(items)[i].text) == rows_of(items)[i].text,
    decreases items.len(),
{
    if items.len() > 0 {
        let before = rows_of(items.drop_last());
        lemma_rows_say_something(items.drop_last());
        match items.last().get("text"@) {
            Some(v) => match v.as_str() {
                Some(t) => text::lemma_trimmed_twice(t),
                None => {},
            },
            None => {},
        }
        assert forall|i: int| 0 <= i < rows_of(items).len() implies (
        #[trigger] rows_of(items)[i]).text.len() > 0 && text::trimmed(rows_of(items)[i].text)
            == rows_of(items)[i].text by {
            if i < before.len() {
                assert(rows_of(items)[i] == before[i]);
            }
        }
    }
}

/// The command that asks the page of a session for its captions.
pub fn drain_command(session_id: &str) -> (r: CdpCommand)
    ensures
        r@ == cdp::evaluation(DRAIN_SCRIPT@, Some(false), session_id@),
{
    evaluate_command(DRAIN_SCRIPT, Some(false), session_id)
}

/// The rows in the reply to [`drain_command`].
pub fn drained_rows(reply: &Value) -> (r: Vec<CaptionRow>)
    ensures
        row_views(r@) == caption_rows(cdp::evaluated(json::json_of(*reply))),
{
    let value: Value = evaluated_value(reply);
    parse_caption_rows(&value)
}

// ---------------------------------------------------------------------------
// Handing each row on once
// ---------------------------------------------------------------------------

/// The last of the rows, as many as are remembered.
pub open spec fn latest(rows: Seq<RowView>) -> Seq<RowView> {
    if rows.len() > MAX_SEEN_ROWS {
        rows.skip(rows.len() - MAX_SEEN_ROWS)
    } else {
        rows
    }
}

/// One pass over the rows on the page, where `seen` is remembered, oldest first,
/// and at most `accepted` rows are taken: what is remembered then, and the rows
/// that were handed on and taken. A row that is remembered is passed over. The
/// first row that is not taken ends the pass.
pub open spec fn forwarding(seen: Seq<RowView>, rows: Seq<RowView>, accepted: nat) -> (
    Seq<RowView>,
    Seq<RowView>,
)
    decreases rows.len(),
{
    if rows.len() == 0 {
        (seen, Seq::empty())
    } else if seen.contains(rows[0]) {
        forwarding(seen, rows.drop_first(), accepted)
    } else if accepted == 0 {
        (seen, Seq::empty())
    } else {
        let rest = forwarding(
            latest(seen.push(rows[0])),
            rows.drop_first(),
            (accepted - 1) as nat,
        );
        (rest.0, seq![rows[0]] + rest.1)
    }
}

/// The rows that were handed on last, oldest first.
pub struct CaptionDedup {
    order: Vec<CaptionRow>,
}

fn same_row(a: &CaptionRow, b: &CaptionRow) -> (r: bool)
    ensures
        r == (a@ == b@),
{
    str_eq(a.speaker.as_str(), b.speaker.as_str()) && str_eq(a.text.as_str(), b.text.as_str())
}

fn copy_row(row: &CaptionRow) -> (r: CaptionRow)
    ensures
        r@ == row@,
{
    CaptionRow { speaker: row.speaker.clone(), text: row.text.clone() }
}

fn knows(order: &Vec<CaptionRow>, row: &CaptionRow) -> (r: bool)
    ensures
        r == row_views(order@).contains(row@),
{
    let mut i: usize = 0;
    while i < order.len()
        invariant
            i <= order@.len(),
            forall|j: int| 0 <= j < i ==> (#[trigger] row_views(order@)[j]) != row@,
        decreases order@.len() - i,
    {
        if same_row(&order[i], row) {
            assert(row_views(order@)[i as int] == row@);
            return true;
        }
        i = i + 1;
    }
    false
}

fn remember(order: &mut Vec<CaptionRow>, row: CaptionRow)
    requires
        old(order)@.len() <= MAX_SEEN_ROWS,
    ensures
        row_views(final(order)@) == latest(row_views(old(order)@).push(row@)),
        final(order)@.len() <= MAX_SEEN_ROWS,
{
    let ghost before = order@;
    order.push(row);
    if order.len() > MAX_SEEN_ROWS {
        let _oldest: CaptionRow = order.remove(0);
    }
    assert(row_views(order@) =~= latest(row_views(before).push(row@)));
}

fn copy_rows(rows: &Vec<CaptionRow>) -> (r: Vec<CaptionRow>)
    ensures
        row_views(r@) == row_views(rows@),
{
    let mut out: Vec<CaptionRow> = Vec::new();
    let mut i: usize = 0;
    while i < rows.len()
        invariant
            i <= rows@.len(),
            row_views(out@) == row_views(rows@).take(i as int),
        decreases rows@.len() - i,
    {
        let ghost before = row_views(out@);
        let row: CaptionRow = copy_row(&rows[i]);
        out.push(row);
        assert(row_views(out@) =~= before.push(rows@[i as int]@));
        i = i + 1;
        assert(row_views(out@) =~= row_views(rows@).take(i as int));
    }
    assert(row_views(rows@).take(i as int) =~= row_views(rows@));
    out
}

/// Walks over `rows` as [`forwarding`] says, from what `order` remembers.
fn walk(order: &mut Vec<CaptionRow>, rows: &[CaptionRow], accepted: usize) -> (r: Vec<CaptionRow>)
    requires
        old(order)@.len() <= MAX_SEEN_ROWS,
    ensures
        final(order)@.len() <= MAX_SEEN_ROWS,
        row_views(final(order)@) == forwarding(
            row_views(old(order)@),
            row_views(rows@),
            accepted as nat,
        ).0,
        row_views(r@) == forwarding(
            row_views(old(order)@),
            row_views(rows@),
            accepted as nat,
        ).1,
{
    let ghost all = row_views(rows@);
    let ghost goal = forwarding(row_views(order@), all, accepted as nat);
    let mut out: Vec<CaptionRow> = Vec::new();
    let mut left: usize = accepted;
    let mut i: usize = 0;
    assert(all.skip(0) =~= all);
    assert(row_views(out@) + goal.1 =~= goal.1);
    while i < rows.len()
        invariant
            i <= rows@.len(),
            all == row_views(rows@),
            goal == forwarding(row_views(old(order)@), all, accepted as nat),
            order@.len() <= MAX_SEEN_ROWS,
            ({
                let rest = forwarding(row_views(order@), all.skip(i as int), left as nat);
                goal.0 == rest.0 && goal.1 == row_views(out@) + rest.1
            }),
        decreases rows@.len() - i,
    {
        let ghost before = row_views(out@);
        let ghost rest = all.skip(i as int);
        assert(rest[0] == rows@[i as int]@);
        assert(rest.drop_first() =~= all.skip(i + 1));
        if !knows(order, &rows[i]) {
            if left == 0 {
                assert(row_views(out@) + Seq::empty() =~= row_views(out@));
                return out;
            }
            let row: CaptionRow = copy_row(&rows[i]);
            remember(order, row);
            let row: CaptionRow = copy_row(&rows[i]);
            let ghost tail = forwarding(
                row_views(order@),
                rest.drop_first(),
                (left - 1) as nat,
            ).1;
            assert(before + (seq![rest[0]] + tail) =~= before.push(rest[0]) + tail);
            out.push(row);
            assert(row_views(out@) =~= before.push(rest[0]));
            left = left - 1;
        }
        i = i + 1;
    }
    assert(row_views(out@) + Seq::empty() =~= row_views(out@));
    out
}

impl View for CaptionDedup {
    type V = Seq<RowView>;

    closed spec fn view(&self) -> Seq<RowView> {
        row_views(self.order@)
    }
}

impl CaptionDedup {
    #[verifier::type_invariant]
    spec fn well_formed(self) -> bool {
        self.order@.len() <= MAX_SEEN_ROWS && row_views(self.order@).no_duplicates()
    }

    /// Nothing handed on yet.
    pub fn new() -> (r: Self)
        ensures
            r@ == Seq::<RowView>::empty(),
    {
        let r = CaptionDedup { order: Vec::new() };
        assert(r@ =~= Seq::empty());
        r
    }

    /// The rows to hand on, in order, of those that the page shows. The first one
    /// that is refused ends the pass; how many were taken goes to
    /// [`CaptionDedup::accept`].
    pub fn new_rows(&self, rows: &[CaptionRow]) -> (r: Vec<CaptionRow>)
        ensures
            row_views(r@) == forwarding(self@, row_views(rows@), rows@.len()).1,
    {
        proof {
            use_type_invariant(self);
        }
        let mut order: Vec<CaptionRow> = copy_rows(&self.order);
        assert(row_views(order@).len() == row_views(self.order@).len());
        walk(&mut order, rows, rows.len())
    }

    /// The first `accepted` of the new rows were taken: they are remembered from
    /// now on, and the oldest are forgotten. Gives the number of rows that were
    /// handed on.
    pub fn accept(&mut self, rows: &[CaptionRow], accepted: usize) -> (r: u64)
        ensures
            final(self)@ == forwarding(old(self)@, row_views(rows@), accepted as nat).0,
            r == forwarding(old(self)@, row_views(rows@), accepted as nat).1.len(),
            final(self)@.len() <= MAX_SEEN_ROWS,
            final(self)@.no_duplicates(),
    {
        proof {
            use_type_invariant(&*self);
            law_no_row_twice(self@, row_views(rows@), accepted as nat);
        }
        let mut order: Vec<CaptionRow> = Vec::new();
        std::mem::swap(&mut order, &mut self.order);
        let taken: Vec<CaptionRow> = walk(&mut order, rows, accepted);
        self.order = order;
        assert(row_views(taken@).len() == taken@.len());
        taken.len() as u64
    }
}

// ---------------------------------------------------------------------------
// Laws
// ---------------------------------------------------------------------------

/// Of the rows that are handed on one after the other, two equal ones are more
/// than [`MAX_SEEN_ROWS`] apart, and what is remembered is always the last of
/// them, as many as fit: the oldest are forgotten first. `seen` is what was
/// handed on last before the pass.
pub proof fn law_no_row_twice(seen: Seq<RowView>, rows: Seq<RowView>, accepted: nat)
    requires
        seen.len() <= MAX_SEEN_ROWS,
        seen.no_duplicates(),
    ensures
        ({
            let (after, taken) = forwarding(seen, rows, accepted);
            &&& after == latest(seen + taken)
            &&& after.no_duplicates()
            &&& forall|i: int, j: int|
                0 <= i < j < (seen + taken).len() && j - i <= MAX_SEEN_ROWS ==> (#[trigger] (seen
                    + taken)[i]) != (#[trigger] (seen + taken)[j])
        }),
    decreases rows.len(),
{
    let (after, taken) = forwarding(seen, rows, accepted);
    if rows.len() == 0 {
        assert(seen + taken =~= seen);
    } else if seen.contains(rows[0]) {
        law_no_row_twice(seen, rows.drop_first(), accepted);
    } else if accepted == 0 {
        assert(seen + taken =~= seen);
    } else {
        let row = rows[0];
        let next = latest(seen.push(row));
        assert(next.no_duplicates());
        law_no_row_twice(next, rows.drop_first(), (accepted - 1) as nat);
        let tail = forwarding(next, rows.drop_first(), (accepted - 1) as nat).1;
        let all = seen + taken;
        if seen.len() < MAX_SEEN_ROWS {
            assert(all =~= next + tail);
        } else {
            assert(all =~= seq![seen[0]] + (next + tail));
            assert forall|i: int, j: int|
                0 <= i < j < all.len() && j - i <= MAX_SEEN_ROWS implies (#[trigger] all[i]) != (
            #[trigger] all[j]) by {
                if i > 0 {
                    assert(all[i] == (next + tail)[i - 1]);
                    assert(all[j] == (next + tail)[j - 1]);
                }
            }
            assert(latest(all) =~= latest(next + tail));
        }
    }
}

/// However many of the rows are taken, they are the first of those that are
/// handed on when all are taken.
pub proof fn law_rows_are_taken_in_order(seen: Seq<RowView>, rows: Seq<RowView>, accepted: nat)
    ensures
        ({
            let all = forwarding(seen, rows, rows.len()).1;
            let taken = forwarding(seen, rows, accepted).1;
            taken == all.take(if accepted < all.len() {
                accepted as int
            } else {
                all.len() as int
            })
        }),
{
    lemma_more_accepted(seen, rows, accepted, rows.len());
}

proof fn lemma_more_accepted(seen: Seq<RowView>, rows: Seq<RowView>, few: nat, many: nat)
    requires
        rows.len() <= many,
    ensures
        ({
            let all = forwarding(seen, rows, many).1;
            let taken = forwarding(seen, rows, few).1;
            all.len() <= rows.len() && taken == all.take(if few < all.len() {
                few as int
            } else {
                all.len() as int
            })
        }),
    decreases rows.len(),
{
    if rows.len() == 0 {
        assert(Seq::<RowView>::empty().take(0) =~= Seq::empty());
    } else if seen.contains(rows[0]) {
        lemma_more_accepted(seen, rows.drop_first(), few, many);
    } else if few == 0 {
        lemma_more_accepted(
            latest(seen.push(rows[0])),
            rows.drop_first(),
            0,
            (many - 1) as nat,
        );
        let all = forwarding(seen, rows, many).1;
        assert(all.take(0) =~= Seq::empty());
    } else {
        let next = latest(seen.push(rows[0]));
        lemma_more_accepted(next, rows.drop_first(), (few - 1) as nat, (many - 1) as nat);
        let tail = forwarding(next, rows.drop_first(), (many - 1) as nat).1;
        let n: int = if few - 1 < tail.len() {
            few - 1
        } else {
            tail.len() as int
        };
        assert((seq![rows[0]] + tail).take(n + 1) =~= seq![rows[0]] + tail.take(n));
    }
}

/// A page that still shows the same rows hands on nothing more, however many would
/// be taken: exactly where every one of them is still remembered.
pub proof fn law_second_look_is_quiet(seen: Seq<RowView>, rows: Seq<RowView>, accepted: nat)
    requires
        accepted > 0,
    ensures
        ({
            let after = forwarding(seen, rows, rows.len()).0;
            forwarding(after, rows, accepted) == (after, Seq::<RowView>::empty()) <==> (forall|i: int|
                0 <= i < rows.len() ==> after.contains(#[trigger] rows[i]))
        }),
{
    let after = forwarding(seen, rows, rows.len()).0;
    if forall|i: int| 0 <= i < rows.len() ==> after.contains(#[trigger] rows[i]) {
        lemma_nothing_new(after, rows, accepted);
    } else {
        lemma_something_new(after, rows, accepted);
    }
}

/// The rows on a page are remembered after a pass in which all were taken, unless
/// there were more of them than fit in, or one that was handed on long before
/// went out of memory for the new ones.
pub proof fn law_rows_on_the_page_are_remembered(seen: Seq<RowView>, rows: Seq<RowView>)
    requires
        seen.len() <= MAX_SEEN_ROWS,
        seen.no_duplicates(),
        forwarding(seen, rows, rows.len()).1.len() <= MAX_SEEN_ROWS,
        ({
            let taken = forwarding(seen, rows, rows.len()).1.len();
            let lost = seen.len() + taken - MAX_SEEN_ROWS;
            forall|i: int|
                0 <= i < rows.len() && lost > 0 ==> !seen.take(lost).contains(#[trigger] rows[i])
        }),
    ensures
        forall|i: int|
            0 <= i < rows.len() ==> forwarding(seen, rows, rows.len()).0.contains(
                #[trigger] rows[i],
            ),
{
    let (after, taken) = forwarding(seen, rows, rows.len());
    let lost: int = seen.len() + taken.len() - MAX_SEEN_ROWS;
    law_no_row_twice(seen, rows, rows.len());
    lemma_seen_or_taken(seen, rows, rows.len());
    let all = seen + taken;
    let from: int = if lost > 0 {
        lost
    } else {
        0
    };
    assert(after =~= all.skip(from));
    assert forall|i: int| 0 <= i < rows.len() implies after.contains(#[trigger] rows[i]) by {
        if taken.contains(rows[i]) {
            let k = choose|k: int| 0 <= k < taken.len() && taken[k] == rows[i];
            assert(all[seen.len() + k] == rows[i]);
            assert(after[seen.len() + k - from] == rows[i]);
        } else {
            let k = choose|k: int| 0 <= k < seen.len() && seen[k] == rows[i];
            if k < from {
                assert(seen.take(lost)[k] == rows[i]);
            }
            assert(after[k - from] == rows[i]);
        }
    }
}

proof fn lemma_seen_or_taken(seen: Seq<RowView>, rows: Seq<RowView>, accepted: nat)
    requires
        rows.len() <= accepted,
    ensures
        forall|i: int|
            0 <= i < rows.len() ==> seen.contains(#[trigger] rows[i]) || forwarding(
                seen,
                rows,
                accepted,
            ).1.contains(rows[i]),
    decreases rows.len(),
{
    if rows.len() > 0 {
        let row = rows[0];
        let rest = rows.drop_first();
        let taken = forwarding(seen, rows, accepted).1;
        if seen.contains(row) {
            lemma_seen_or_taken(seen, rest, accepted);
            assert forall|i: int| 0 <= i < rows.len() implies seen.contains(#[trigger] rows[i])
                || taken.contains(rows[i]) by {
                if i > 0 {
                    assert(rest[i - 1] == rows[i]);
                }
            }
        } else {
            let next = latest(seen.push(row));
            let tail = forwarding(next, rest, (accepted - 1) as nat).1;
            lemma_seen_or_taken(next, rest, (accepted - 1) as nat);
            assert(taken[0] == row);
            assert forall|i: int| 0 <= i < rows.len() implies seen.contains(#[trigger] rows[i])
                || taken.contains(rows[i]) by {
                if i > 0 {
                    assert(rest[i - 1] == rows[i]);
                    if tail.contains(rows[i]) {
                        let k = choose|k: int| 0 <= k < tail.len() && tail[k] == rows[i];
                        assert(taken[k + 1] == rows[i]);
                    } else {
                        let k = choose|k: int| 0 <= k < next.len() && next[k] == rows[i];
                        let shift: int = seen.len() + 1 - next.len();
                        assert(next[k] == seen.push(row)[k + shift]);
                        if k + shift < seen.len() {
                            assert(seen[k + shift] == rows[i]);
                        }
                    }
                }
            }
        }
    }
}

proof fn lemma_something_new(seen: Seq<RowView>, rows: Seq<RowView>, accepted: nat)
    requires
        accepted > 0,
        exists|i: int| 0 <= i < rows.len() && !seen.contains(#[trigger] rows[i]),
    ensures
        forwarding(seen, rows, accepted).1.len() > 0,
    decreases rows.len(),
{
    let i = choose|i: int| 0 <= i < rows.len() && !seen.contains(#[trigger] rows[i]);
    if seen.contains(rows[0]) {
        let rest = rows.drop_first();
        assert(rest[i - 1] == rows[i]);
        lemma_something_new(seen, rest, accepted);
    }
}

proof fn lemma_nothing_new(seen: Seq<RowView>, rows: Seq<RowView>, accepted: nat)
    requires
        forall|i: int| 0 <= i < rows.len() ==> seen.contains(#[trigger] rows[i]),
    ensures
        forwarding(seen, rows, accepted) == (seen, Seq::<RowView>::empty()),
    decreases rows.len(),
{
    if rows.len() > 0 {
        let rest = rows.drop_first();
        assert(seen.contains(rows[0]));
        assert forall|i: int| 0 <= i < rest.len() implies seen.contains(#[trigger] rest[i]) by {
            assert(rest[i] == rows[i + 1]);
        }
        lemma_nothing_new(seen, rest, accepted);
    }
}

// ---------------------------------------------------------------------------
// Counting
// ---------------------------------------------------------------------------

/// The count of a session; zero where it is not open.
pub open spec fn seen_in(counts: Map<Seq<char>, u64>, request_id: Seq<char>) -> u64 {
    if counts.contains_key(request_id) {
        counts[request_id]
    } else {
        0
    }
}

/// How many captions were handed on, by session.
pub struct CaptionCounters {
    counts: NameMap<u64>,
}

impl View for CaptionCounters {
    type V = Map<Seq<char>, u64>;

    closed spec fn view(&self) -> Map<Seq<char>, u64> {
        self.counts@
    }
}

impl CaptionCounters {
    /// No session.
    pub fn new() -> (r: Self)
        ensures
            r@ == Map::<Seq<char>, u64>::empty(),
    {
        CaptionCounters { counts: NameMap::new() }
    }

    /// Starts the count of a session, at zero.
    pub fn open(&mut self, request_id: &str)
        ensures
            final(self)@ == old(self)@.insert(request_id@, 0),
    {
        let _before: Option<u64> = self.counts.insert(request_id.to_string(), 0);
    }

    /// The count of a session; zero where it is not open.
    pub fn seen_count(&self, request_id: &str) -> (r: u64)
        ensures
            r == seen_in(self@, request_id@),
            self@.contains_key(request_id@) ==> r == self@[request_id@],
            !self@.contains_key(request_id@) ==> r == 0,
    {
        match self.counts.get(request_id) {
            Some(n) => *n,
            None => 0,
        }
    }

    /// Counts rows of a session; those of a session that is not open are not
    /// counted.
    pub fn count(&mut self, request_id: &str, rows: u64)
        requires
            old(self)@.contains_key(request_id@) ==> old(self)@[request_id@] + rows <= u64::MAX,
        ensures
            final(self)@ == if old(self)@.contains_key(request_id@) {
                old(self)@.insert(request_id@, (old(self)@[request_id@] + rows) as u64)
            } else {
                old(self)@
            },
    {
        let counted: u64 = match self.counts.get(request_id) {
            Some(n) => *n,
            None => return,
        };
        let _before: Option<u64> = self.counts.insert(request_id.to_string(), counted + rows);
    }

    /// Ends the count of a session and gives it; zero where it is not open.
    pub fn take_seen_count(&mut self, request_id: &str) -> (r: u64)
        ensures
            r == seen_in(old(self)@, request_id@),
            old(self)@.contains_key(request_id@) ==> r == old(self)@[request_id@],
            !old(self)@.contains_key(request_id@) ==> r == 0,
            final(self)@ == old(self)@.remove(request_id@),
    {
        match self.counts.remove(request_id) {
            Some(n) => n,
            None => 0,
        }
    }
}

// ---------------------------------------------------------------------------
// No caption is lost
// ---------------------------------------------------------------------------

/// An item gives a row where its text is a string that holds something other than
/// white space, whatever that is: the text without the white space at its ends, with
/// the item's speaker, or with none where that is no string. Any other item gives no
/// row, nor does a value that is no array.
pub proof fn law_row_of_an_item(item: Json, value: Json)
    ensures
        ({
            let rows = caption_rows(Json::Array(seq![item]));
            let speaker = match item.get("speaker"@) {
                Some(Json::Str(name)) => name,
                _ => Seq::empty(),
            };
            match item.get("text"@) {
                Some(Json::Str(t)) => if forall|i: int|
                    0 <= i < t.len() ==> text::is_white(#[trigger] t[i]) {
                    rows == Seq::<RowView>::empty()
                } else {
                    rows == seq![RowView { speaker, text: text::trimmed(t) }]
                },
                _ => rows == Seq::<RowView>::empty(),
            }
        }),
        !(value is Array) ==> caption_rows(value) == Seq::<RowView>::empty(),
{
    let one = seq![item];
    assert(one.drop_last() =~= Seq::empty());
    reveal_with_fuel(rows_of, 2);
    match item.get("text"@) {
        Some(Json::Str(t)) => text::lemma_blank(t),
        _ => {},
    }
    match row_of(item) {
        Some(row) => {
            assert(rows_of(one) =~= seq![row]);
        },
        None => {},
    }
}

/// The rows of an array are those of its first items and then those of its last
/// ones, wherever it is parted.
pub proof fn law_items_are_read_in_order(first: Seq<Json>, second: Seq<Json>)
    ensures
        caption_rows(Json::Array(first + second)) == caption_rows(Json::Array(first))
            + caption_rows(Json::Array(second)),
{
    lemma_rows_of_both(first, second);
}

proof fn lemma_rows_of_both(first: Seq<Json>, second: Seq<Json>)
    ensures
        rows_of(first + second) == rows_of(first) + rows_of(second),
    decreases second.len(),
{
    let both = first + second;
    if second.len() == 0 {
        assert(both =~= first);
        assert(rows_of(first) + rows_of(second) =~= rows_of(first));
    } else {
        lemma_rows_of_both(first, second.drop_last());
        assert(both.drop_last() =~= first + second.drop_last());
        assert(both.last() == second.last());
        assert(rows_of(both) =~= rows_of(first) + rows_of(second));
    }
}

/// A text that holds something other than white space.
pub open spec fn says_something(t: Seq<char>) -> bool {
    exists|j: int| 0 <= j < t.len() && !text::is_white(#[trigger] t[j])
}

/// An array of items that all say something gives a row for each of them, in order:
/// its text without the white space at its ends, and its speaker.
pub proof fn law_every_caption_is_a_row(
    items: Seq<Json>,
    speakers: Seq<Seq<char>>,
    texts: Seq<Seq<char>>,
)
    requires
        speakers.len() == items.len(),
        texts.len() == items.len(),
        forall|i: int|
            0 <= i < items.len() ==> (#[trigger] items[i]).get("text"@) == Some(Json::Str(texts[i]))
                && items[i].get("speaker"@) == Some(Json::Str(speakers[i])),
        forall|i: int|
            0 <= i < items.len() ==> says_something(#[trigger] texts[i]),
    ensures
        ({
            let rows = caption_rows(Json::Array(items));
            &&& rows.len() == items.len()
            &&& forall|i: int|
                0 <= i < items.len() ==> (#[trigger] rows[i]).text == text::trimmed(texts[i])
                    && rows[i].speaker == speakers[i]
        }),
    decreases items.len(),
{
    if items.len() > 0 {
        let n = items.len() - 1;
        let a = items.drop_last();
        let b = seq![items.last()];
        let s = speakers.drop_last();
        let t = texts.drop_last();
        assert forall|i: int| 0 <= i < a.len() implies (#[trigger] a[i]).get("text"@) == Some(
            Json::Str(t[i]),
        ) && a[i].get("speaker"@) == Some(Json::Str(s[i])) by {
            assert(a[i] == items[i]);
        }
        assert forall|i: int| 0 <= i < a.len() implies says_something(#[trigger] t[i]) by {
            assert(t[i] == texts[i]);
        }
        assert(says_something(texts[n]));
        law_every_caption_is_a_row(a, s, t);
        law_items_are_read_in_order(a, b);
        law_row_of_an_item(items[n], Json::Null);
        assert(a + b =~= items);
        let rows = caption_rows(Json::Array(items));
        assert(rows[n].text == text::trimmed(texts[n]));
        assert forall|i: int| 0 <= i < items.len() implies (#[trigger] rows[i]).text == text::trimmed(
            texts[i],
        ) && rows[i].speaker == speakers[i] by {
            if i < n {
                assert(rows[i] == caption_rows(Json::Array(a))[i]);
                assert(t[i] == texts[i] && s[i] == speakers[i]);
            }
        }
    }
}

/// Rows are weighed in turn. One that is remembered is passed over. Any other is
/// handed on, while rows are accepted, and remembered; no more than 200 rows are
/// remembered, and the oldest is forgotten first.
pub proof fn law_new_row_is_handed_on(
    seen: Seq<RowView>,
    row: RowView,
    rest: Seq<RowView>,
    accepted: nat,
)
    requires
        seen.len() <= 200,
    ensures
        ({
            let (after, taken) = forwarding(seen, seq![row] + rest, accepted);
            let kept = if seen.len() < 200 {
                seen.push(row)
            } else {
                seen.drop_first().push(row)
            };
            &&& seen.contains(row) ==> (after, taken) == forwarding(seen, rest, accepted)
            &&& !seen.contains(row) && accepted == 0 ==> after == seen && taken.len() == 0
            &&& !seen.contains(row) && accepted > 0 ==> after == forwarding(
                kept,
                rest,
                (accepted - 1) as nat,
            ).0 && taken == seq![row] + forwarding(kept, rest, (accepted - 1) as nat).1
        }),
{
    let rows = seq![row] + rest;
    assert(rows[0] == row);
    assert(rows.drop_first() =~= rest);
    if seen.len() == 200 {
        assert(latest(seen.push(row)) =~= seen.drop_first().push(row));
    }
}

/// No row is lost: each row on the page is remembered from before or is handed on.
pub proof fn law_no_row_is_lost(seen: Seq<RowView>, rows: Seq<RowView>)
    ensures
        forall|i: int|
            0 <= i < rows.len() ==> seen.contains(#[trigger] rows[i]) || forwarding(
                seen,
                rows,
                rows.len(),
            ).1.contains(rows[i]),
{
    lemma_seen_or_taken(seen, rows, rows.len());
}

/// Rows that are all new, and no two of them alike, are handed on just as they are,
/// as many as are accepted.
pub proof fn law_fresh_rows_are_handed_on(seen: Seq<RowView>, rows: Seq<RowView>, accepted: nat)
    requires
        rows.no_duplicates(),
        forall|i: int| 0 <= i < rows.len() ==> !seen.contains(#[trigger] rows[i]),
    ensures
        forwarding(seen, rows, accepted).1 == if accepted < rows.len() {
            rows.take(accepted as int)
        } else {
            rows
        },
    decreases rows.len(),
{
    let n: int = if accepted < rows.len() {
        accepted as int
    } else {
        rows.len() as int
    };
    if rows.len() == 0 {
        assert(rows =~= Seq::empty());
    } else if accepted == 0 {
        assert(!seen.contains(rows[0]));
        assert(rows.take(0) =~= Seq::empty());
    } else {
        let row = rows[0];
        let rest = rows.drop_first();
        let next = latest(seen.push(row));
        assert(!seen.contains(rows[0]));
        assert forall|i: int| 0 <= i < rest.len() implies !next.contains(#[trigger] rest[i]) by {
            assert(rest[i] == rows[i + 1]);
            assert(!seen.contains(rows[i + 1]));
            if next.contains(rest[i]) {
                let k = choose|k: int| 0 <= k < next.len() && next[k] == rest[i];
                let p = seen.push(row);
                let j: int = k + (p.len() - next.len());
                assert(p[j] == rest[i]);
                if j < seen.len() {
                    assert(seen[j] == rest[i]);
                } else {
                    assert(rows[0] == rows[i + 1]);
                }
            }
        }
        law_fresh_rows_are_handed_on(next, rest, (accepted - 1) as nat);
        assert(rows =~= seq![row] + rest);
        assert(seq![row] + rest.take(n - 1) =~= rows.take(n));
        assert(rest.take(rest.len() as int) =~= rest);
        assert(rows.take(rows.len() as int) =~= rows);
    }
}

/// The captions are read while fewer than ten looks in a row have failed; the tenth
/// ends it.
pub proof fn law_captions_bear_nine_errors(outcomes: Seq<bool>)
    ensures
        crate::meet_headless::polling::after_rounds(
            MAX_CONSECUTIVE_ERRORS as nat,
            outcomes,
        ).state is Idle <==> (forall|n: int|
            0 <= n <= outcomes.len() ==> crate::meet_headless::polling::failing_streak(
                #[trigger] outcomes.take(n),
            ) < 10),
{
    crate::meet_headless::polling::law_gives_up_at_the_limit(
        MAX_CONSECUTIVE_ERRORS as nat,
        outcomes,
    );
}

/// Rows are modelled by what they hold, in their order.
pub proof fn law_model_is_what_is_held(rows: Seq<CaptionRow>, i: int)
    ensures
        row_views(rows).len() == rows.len(),
        0 <= i < rows.len() ==> row_views(rows)[i].speaker == rows[i].speaker@ && row_views(
            rows,
        )[i].text == rows[i].text@,
{
}

} // verus!
