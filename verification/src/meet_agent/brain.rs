//! What the meeting agent goes by in a turn: its limits, its system prompt, the
//! conversation it remembers and the acknowledgements it falls back on.

use crate::meet_agent::providers::{self, ConversationTurn, TurnText};
use crate::meet_agent::types::{SessionEvent, SessionEventKind};
use crate::text::{self, chars_of, str_is_blank, string_of, trim};
use vstd::prelude::*;

verus! {

/// How many of the most recent heard or spoken entries are given to the
/// language model as context.
pub const CONTEXT_EVENT_WINDOW: usize = 12;

/// The ceiling of a spoken reply, in tokens: about half a minute of speech.
pub const REPLY_MAX_TOKENS: u32 = 220;

/// The fewest samples that make a turn: 250 ms at 16 kHz. Anything shorter is
/// a cough or a click.
pub const MIN_TURN_SAMPLES: usize = 4_000;

/// The sample rate of everything heard and spoken.
pub const SAMPLE_RATE_HZ: u32 = 16_000;

/// How long to wait between the wake word and reading the prompt, so that an
/// utterance that arrives as several captions can come together.
pub const CAPTION_TURN_DELAY_MS: u64 = 1_500;

/// The system prompt of the meeting agent: decide first whether the latest
/// utterance is meant for the agent, stay silent where it is not, and answer
/// briefly where it is.
pub const MEETING_SYSTEM_PROMPT: &'static str = "\
You are OpenHuman, an AI assistant joining a live Google Meet call as a participant. \
The meeting transcript is provided as prior turns where `user` lines are captions \
spoken by humans on the call (sometimes prefixed with their name) and `assistant` \
lines are things you previously said out loud. The latest `user` message is the \
utterance you are deciding how to respond to.\n\
\n\
Decide first: was this latest utterance actually directed at you? Strong signals: \
the speaker addresses you by name (\"OpenHuman\", \"hey openhuman\"), asks a direct \
question, or asks you to do something (note this, summarise, look up, remember, \
remind, draft). Weak signals (do NOT respond): chit-chat between humans, \
side conversation, your name appearing inside a longer thought aimed at someone \
else, ambient transcription noise.\n\
\n\
If it is NOT directed at you, output exactly the empty string. Stay silent. \n\
\n\
If it IS directed at you:\n\
  • Reply in 1–2 spoken sentences. Conversational, warm, direct. No filler.\n\
  • Pronounce naturally — write the way a person speaks, not the way they type. \
No markdown, no bullet lists, no code blocks, no emoji.\n\
  • For dictation / note requests (\"remember…\", \"action item…\", \"follow up on…\"), \
the note is already captured in the transcript log, so just acknowledge briefly \
(\"Got it.\", \"Adding that.\") — don't read the note back.\n\
  • For questions, answer directly with what you know; if you don't know, say so \
in one sentence rather than guessing.\n\
  • Never repeat verbatim what was said. Never describe what you're about to do — \
just do it.\n\
";

// ---------------------------------------------------------------------------
// Dialog history
// ---------------------------------------------------------------------------

/// The conversation turn that a log entry stands for: heard entries are the
/// user's, spoken ones the assistant's. Notes and blank entries stand for none.
pub open spec fn dialog_turn(event: SessionEvent) -> Option<TurnText> {
    let content = text::trimmed(event.text@);
    if content.len() == 0 {
        None
    } else {
        match event.kind {
            SessionEventKind::Heard => Some(TurnText { role: "user"@, content }),
            SessionEventKind::Spoke => Some(TurnText { role: "assistant"@, content }),
            SessionEventKind::Note => None,
        }
    }
}

/// The conversation that a log holds, oldest turn first.
pub open spec fn dialog(events: Seq<SessionEvent>) -> Seq<TurnText>
    decreases events.len(),
{
    if events.len() == 0 {
        Seq::empty()
    } else {
        match dialog_turn(events.last()) {
            Some(turn) => dialog(events.drop_last()).push(turn),
            None => dialog(events.drop_last()),
        }
    }
}

/// The last `n` items of `s`, or all of them where there are fewer.
pub open spec fn last_of(s: Seq<TurnText>, n: nat) -> Seq<TurnText> {
    if s.len() <= n {
        s
    } else {
        s.skip(s.len() - n)
    }
}

/// The turn that one log entry stands for.
fn event_turn(event: &SessionEvent) -> (r: Option<ConversationTurn>)
    ensures
        match r {
            Some(turn) => dialog_turn(*event) == Some(turn@),
            None => dialog_turn(*event) is None,
        },
{
    let role: &str = match event.kind {
        SessionEventKind::Heard => "user",
        SessionEventKind::Spoke => "assistant",
        SessionEventKind::Note => {
            return None;
        },
    };
    let chars: Vec<char> = chars_of(event.text.as_str());
    let content: &[char] = trim(chars.as_slice());
    if content.len() == 0 {
        return None;
    }
    Some(ConversationTurn { role: role.to_string(), content: string_of(content) })
}

/// The last `window` turns of the conversation that `events` holds, oldest
/// first.
pub fn recent_dialog_history(events: &[SessionEvent], window: usize) -> (r: Vec<ConversationTurn>)
    ensures
        providers::turn_texts(r@) == last_of(dialog(events@), window as nat),
{
    let mut newest_first: Vec<ConversationTurn> = Vec::new();
    let mut i: usize = events.len();
    assert(events@.take(events@.len() as int) =~= events@);
    while i > 0 && newest_first.len() < window
        invariant
            i <= events.len(),
            newest_first@.len() <= window,
            dialog(events@) =~= dialog(events@.take(i as int)) + providers::turn_texts(
                newest_first@,
            ).reverse(),
        decreases i,
    {
        let ghost before = newest_first@;
        i = i - 1;
        assert(events@.take(i + 1).drop_last() =~= events@.take(i as int));
        match event_turn(&events[i]) {
            Some(turn) => {
                newest_first.push(turn);
                assert(providers::turn_texts(newest_first@) =~= providers::turn_texts(before).push(
                    turn@,
                ));
                assert(providers::turn_texts(newest_first@).reverse() =~= seq![turn@]
                    + providers::turn_texts(before).reverse());
            },
            None => {},
        }
    }
    assert(i == 0 ==> events@.take(0) =~= Seq::empty());
    let ghost rev = providers::turn_texts(newest_first@).reverse();
    assert(last_of(dialog(events@), window as nat) =~= rev);
    let mut out: Vec<ConversationTurn> = Vec::new();
    let ghost n = newest_first@.len();
    while newest_first.len() > 0
        invariant
            n == newest_first@.len() + out@.len(),
            rev.len() == n,
            forall|j: int| 0 <= j < out@.len() ==> (#[trigger] out@[j])@ == rev[j],
            forall|j: int|
                0 <= j < newest_first@.len() ==> (#[trigger] newest_first@[j])@ == rev[n - 1 - j],
        decreases newest_first@.len(),
    {
        match newest_first.pop() {
            Some(turn) => {
                out.push(turn);
            },
            None => {},
        }
    }
    assert(providers::turn_texts(out@) =~= rev);
    out
}

/// A history holds at most as many turns as asked for, the last ones of the
/// conversation. Each is the user's or the assistant's, and says something: notes
/// and blank entries never get in.
pub proof fn law_history_is_the_end_of_the_dialog(events: Seq<SessionEvent>, window: nat)
    ensures
        ({
            let history = last_of(dialog(events), window);
            &&& history.len() <= window
            &&& history.len() == window || history == dialog(events)
            &&& history.is_suffix_of(dialog(events))
            &&& forall|i: int|
                0 <= i < history.len() ==> ((#[trigger] history[i]).role == "user"@
                    || history[i].role == "assistant"@) && history[i].content.len() > 0
                    && history[i].content == text::trimmed(history[i].content)
        }),
{
    lemma_dialog_says_something(events);
    let all = dialog(events);
    let history = last_of(all, window);
    if all.len() > window {
        assert forall|i: int| 0 <= i < history.len() implies (#[trigger] history[i]) == all[all.len()
            - window + i] by {}
    }
    assert(all.subrange(all.len() - history.len(), all.len() as int) =~= history);
}

proof fn lemma_dialog_says_something(events: Seq<SessionEvent>)
    ensures
        forall|i: int|
            0 <= i < dialog(events).len() ==> ((#[trigger] dialog(events)[i]).role == "user"@
                || dialog(events)[i].role == "assistant"@) && dialog(events)[i].content.len() > 0
                && dialog(events)[i].content == text::trimmed(dialog(events)[i].content),
    decreases events.len(),
{
    if events.len() > 0 {
        let before = dialog(events.drop_last());
        lemma_dialog_says_something(events.drop_last());
        text::lemma_trimmed_twice(events.last().text@);
        assert forall|i: int| 0 <= i < dialog(events).len() implies ((
        #[trigger] dialog(events)[i]).role == "user"@ || dialog(events)[i].role == "assistant"@)
            && dialog(events)[i].content.len() > 0 && dialog(events)[i].content == text::trimmed(
            dialog(events)[i].content,
        ) by {
            if i < before.len() {
                assert(dialog(events)[i] == before[i]);
            }
        }
    }
}

// ---------------------------------------------------------------------------
// Acknowledgements
// ---------------------------------------------------------------------------

/// The sum of some bytes.
pub open spec fn byte_sum(bytes: Seq<u8>) -> nat
    decreases bytes.len(),
{
    if bytes.len() == 0 {
        0
    } else {
        byte_sum(bytes.drop_last()) + bytes.last() as nat
    }
}

/// The canned acknowledgements.
pub open spec fn ack(i: int) -> Seq<char> {
    if i == 0 {
        "Got it."@
    } else if i == 1 {
        "Noted."@
    } else if i == 2 {
        "Adding that."@
    } else if i == 3 {
        "On it."@
    } else {
        "Captured."@
    }
}

/// The acknowledgement for a prompt: none for a blank one, and otherwise one
/// of the canned five, picked by the sum of the prompt's UTF-8 bytes.
pub open spec fn ack_for(prompt: Seq<char>) -> Seq<char> {
    if text::is_blank(prompt) {
        ""@
    } else {
        ack((byte_sum(vstd::utf8::encode_utf8(prompt)) % 0x1_0000_0000) as int % 5)
    }
}

/// The acknowledgement for `prompt`. The same prompt always gets the same one.
pub fn pick_ack_phrase(prompt: &str) -> (r: &'static str)
    ensures
        r@ == ack_for(prompt@),
{
    if str_is_blank(prompt) {
        return "";
    }
    let bytes: &[u8] = prompt.as_bytes();
    let mut h: u32 = 0;
    let mut i: usize = 0;
    while i < bytes.len()
        invariant
            i <= bytes.len(),
            h == byte_sum(bytes@.take(i as int)) % 0x1_0000_0000,
        decreases bytes.len() - i,
    {
        assert(bytes@.take(i + 1).drop_last() =~= bytes@.take(i as int));
        h = h.wrapping_add(bytes[i] as u32);
        i = i + 1;
    }
    assert(bytes@.take(bytes@.len() as int) =~= bytes@);
    match h % 5 {
        0 => "Got it.",
        1 => "Noted.",
        2 => "Adding that.",
        3 => "On it.",
        _ => "Captured.",
    }
}

/// A prompt that says something gets one of the canned phrases; a blank one gets
/// nothing.
pub proof fn law_ack_is_canned(prompt: Seq<char>)
    ensures
        text::is_blank(prompt) ==> ack_for(prompt) == ""@,
        !text::is_blank(prompt) ==> exists|i: int| 0 <= i < 5 && ack_for(prompt) == #[trigger] ack(i),
{
    if !text::is_blank(prompt) {
        let i = (byte_sum(vstd::utf8::encode_utf8(prompt)) % 0x1_0000_0000) as int % 5;
        assert(ack_for(prompt) == ack(i));
    }
}

/// The conversation takes in each event of the log in its order: what was heard as
/// the user's line, what was spoken as the assistant's, each without the white
/// space at its ends. Notes, and events of white space alone, are no part of it.
pub proof fn law_dialog_keeps_what_was_said(events: Seq<SessionEvent>, event: SessionEvent)
    ensures
        dialog(Seq::empty()) == Seq::<TurnText>::empty(),
        ({
            let before = dialog(events);
            let after = dialog(events.push(event));
            let silent = forall|i: int|
                0 <= i < event.text@.len() ==> text::is_white(#[trigger] event.text@[i]);
            &&& event.kind == SessionEventKind::Note || silent ==> after == before
            &&& event.kind == SessionEventKind::Heard && !silent ==> after == before.push(
                TurnText { role: "user"@, content: text::trimmed(event.text@) },
            )
            &&& event.kind == SessionEventKind::Spoke && !silent ==> after == before.push(
                TurnText { role: "assistant"@, content: text::trimmed(event.text@) },
            )
        }),
{
    text::lemma_blank(event.text@);
    assert(events.push(event).drop_last() =~= events);
}

/// The bytes of a prompt that is not blank choose among five acknowledgements, by
/// the remainder of their sum, kept to 32 bits, by five. A blank prompt has none.
pub proof fn law_ack_goes_by_the_bytes(prompt: Seq<char>, bytes: Seq<u8>, byte: u8)
    ensures
        byte_sum(Seq::empty()) == 0,
        byte_sum(bytes.push(byte)) == byte_sum(bytes) + byte,
        ({
            let said = !(forall|i: int|
                0 <= i < prompt.len() ==> text::is_white(#[trigger] prompt[i]));
            let turn = (byte_sum(vstd::utf8::encode_utf8(prompt)) % 4_294_967_296) % 5;
            &&& !said ==> ack_for(prompt).len() == 0
            &&& said && turn == 0 ==> ack_for(prompt) == "Got it."@
            &&& said && turn == 1 ==> ack_for(prompt) == "Noted."@
            &&& said && turn == 2 ==> ack_for(prompt) == "Adding that."@
            &&& said && turn == 3 ==> ack_for(prompt) == "On it."@
            &&& said && turn == 4 ==> ack_for(prompt) == "Captured."@
        }),
{
    text::lemma_blank(prompt);
    reveal_strlit("");
    assert(bytes.push(byte).drop_last() =~= bytes);
}

} // verus!
