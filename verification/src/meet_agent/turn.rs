//! The course of one turn: speech to text, reply, text to speech.
//!
//! A turn alternates calls to the providers with decisions. The decisions are
//! here: [`begin_turn`] and [`begin_caption_turn`] open a turn, and [`advance`]
//! takes what a provider answered and says what to write to the session and
//! what to do next. A provider that fails does not end the turn: the failure
//! is noted in the session log and a stub takes the provider's place.

use crate::meet_agent::brain::{
    self, pick_ack_phrase, recent_dialog_history, CONTEXT_EVENT_WINDOW, MEETING_SYSTEM_PROMPT,
    MIN_TURN_SAMPLES, REPLY_MAX_TOKENS, SAMPLE_RATE_HZ,
};
use crate::meet_agent::providers::{self, ConversationTurn, TurnText};
use crate::meet_agent::types::{SessionEvent, SessionEventKind};
use crate::pcm;
use crate::text::{self, concat, str_is_blank};
use vstd::prelude::*;

verus! {

/// What a turn was started by.
#[derive(Debug, Clone, Copy, PartialEq, Eq, Structural)]
pub enum TurnKind {
    /// The end of an utterance in the audio.
    Audio,
    /// A wake word in the captions.
    Caption,
}

/// Something to write to the session.
#[derive(Debug)]
pub enum SessionEffect {
    /// Add an entry to the log.
    Record { kind: SessionEventKind, text: String },
    /// Queue speech; `done` marks the end of the utterance.
    Enqueue { samples: Vec<i16>, done: bool },
    /// Count one more turn.
    CountTurn,
}

/// What a [`SessionEffect`] holds.
pub enum EffectView {
    Record { kind: SessionEventKind, text: Seq<char> },
    Enqueue { samples: Seq<i16>, done: bool },
    CountTurn,
}

impl View for SessionEffect {
    type V = EffectView;

    open spec fn view(&self) -> EffectView {
        match *self {
            SessionEffect::Record { kind, text } => EffectView::Record { kind, text: text@ },
            SessionEffect::Enqueue { samples, done } => EffectView::Enqueue {
                samples: samples@,
                done,
            },
            SessionEffect::CountTurn => EffectView::CountTurn,
        }
    }
}

/// What a list of effects holds.
pub open spec fn effect_views(effects: Seq<SessionEffect>) -> Seq<EffectView> {
    Seq::new(effects.len(), |i: int| effects[i]@)
}

/// Where a turn stands: which answer it waits for.
#[derive(Debug)]
pub enum TurnState {
    /// Waits for the transcript of the utterance.
    AwaitTranscript { history: Vec<ConversationTurn> },
    /// Waits for the stub's transcript, after the transcriber failed.
    AwaitStubTranscript { history: Vec<ConversationTurn> },
    /// Waits for the reply to the prompt.
    AwaitReply { kind: TurnKind, prompt: String },
    /// Waits for the spoken reply.
    AwaitSpeech { prompt: String, reply: String },
    /// Waits for the stub's speech, after the synthesizer failed.
    AwaitStubSpeech { prompt: String, reply: String },
    /// Nothing is awaited any more.
    Finished,
}

/// What a [`TurnState`] holds.
pub enum StateView {
    AwaitTranscript { history: Seq<TurnText> },
    AwaitStubTranscript { history: Seq<TurnText> },
    AwaitReply { kind: TurnKind, prompt: Seq<char> },
    AwaitSpeech { prompt: Seq<char>, reply: Seq<char> },
    AwaitStubSpeech { prompt: Seq<char>, reply: Seq<char> },
    Finished,
}

impl View for TurnState {
    type V = StateView;

    open spec fn view(&self) -> StateView {
        match *self {
            TurnState::AwaitTranscript { history } => StateView::AwaitTranscript {
                history: providers::turn_texts(history@),
            },
            TurnState::AwaitStubTranscript { history } => StateView::AwaitStubTranscript {
                history: providers::turn_texts(history@),
            },
            TurnState::AwaitReply { kind, prompt } => StateView::AwaitReply {
                kind,
                prompt: prompt@,
            },
            TurnState::AwaitSpeech { prompt, reply } => StateView::AwaitSpeech {
                prompt: prompt@,
                reply: reply@,
            },
            TurnState::AwaitStubSpeech { prompt, reply } => StateView::AwaitStubSpeech {
                prompt: prompt@,
                reply: reply@,
            },
            TurnState::Finished => StateView::Finished,
        }
    }
}

/// What to do next.
#[derive(Debug)]
pub enum TurnAction {
    /// Have the utterance transcribed.
    Transcribe { sample_rate: u32 },
    /// Have the stub stand in for the transcriber.
    StubTranscript,
    /// Ask the language model for a reply.
    Reply {
        prompt: String,
        history: Vec<ConversationTurn>,
        system_prompt: &'static str,
        max_tokens: u32,
    },
    /// Have the reply spoken.
    Synthesize { text: String, sample_rate: u32 },
    /// Have the stub stand in for the synthesizer.
    StubSpeech { text: String },
    /// Nothing: the turn is over. `ran` tells whether it came to anything.
    Finish { ran: bool },
}

/// What a [`TurnAction`] holds.
pub enum ActionView {
    Transcribe { sample_rate: u32 },
    StubTranscript,
    Reply {
        prompt: Seq<char>,
        history: Seq<TurnText>,
        system_prompt: Seq<char>,
        max_tokens: u32,
    },
    Synthesize { text: Seq<char>, sample_rate: u32 },
    StubSpeech { text: Seq<char> },
    Finish { ran: bool },
}

impl View for TurnAction {
    type V = ActionView;

    open spec fn view(&self) -> ActionView {
        match *self {
            TurnAction::Transcribe { sample_rate } => ActionView::Transcribe { sample_rate },
            TurnAction::StubTranscript => ActionView::StubTranscript,
            TurnAction::Reply { prompt, history, system_prompt, max_tokens } => ActionView::Reply {
                prompt: prompt@,
                history: providers::turn_texts(history@),
                system_prompt: system_prompt@,
                max_tokens,
            },
            TurnAction::Synthesize { text, sample_rate } => ActionView::Synthesize {
                text: text@,
                sample_rate,
            },
            TurnAction::StubSpeech { text } => ActionView::StubSpeech { text: text@ },
            TurnAction::Finish { ran } => ActionView::Finish { ran },
        }
    }
}

/// What a provider, or the stub in its place, answered.
#[derive(Debug)]
pub enum TurnEvent {
    Transcribed(Result<String, String>),
    StubTranscribed(String),
    Replied(Result<String, String>),
    Synthesized(Result<Vec<i16>, String>),
    StubSynthesized(Vec<i16>),
}

/// What a [`TurnEvent`] holds.
pub enum EventView {
    Transcribed(Result<Seq<char>, Seq<char>>),
    StubTranscribed(Seq<char>),
    Replied(Result<Seq<char>, Seq<char>>),
    Synthesized(Result<Seq<i16>, Seq<char>>),
    StubSynthesized(Seq<i16>),
}

impl View for TurnEvent {
    type V = EventView;

    open spec fn view(&self) -> EventView {
        match *self {
            TurnEvent::Transcribed(r) => EventView::Transcribed(text::text_result(r)),
            TurnEvent::StubTranscribed(s) => EventView::StubTranscribed(s@),
            TurnEvent::Replied(r) => EventView::Replied(text::text_result(r)),
            TurnEvent::Synthesized(r) => EventView::Synthesized(pcm::pcm_result(r)),
            TurnEvent::StubSynthesized(s) => EventView::StubSynthesized(s@),
        }
    }
}

/// One step of a turn.
#[derive(Debug)]
pub struct TurnStep {
    /// What to write to the session, in order, before anything else.
    pub effects: Vec<SessionEffect>,
    /// Whether the turn fails where the effects cannot be written. Where this
    /// is not set, a session that is gone is passed over.
    pub must_apply: bool,
    /// Where the turn stands now.
    pub state: TurnState,
    /// What to do next.
    pub action: TurnAction,
}

/// What a [`TurnStep`] holds.
pub struct StepView {
    pub effects: Seq<EffectView>,
    pub must_apply: bool,
    pub state: StateView,
    pub action: ActionView,
}

impl View for TurnStep {
    type V = StepView;

    open spec fn view(&self) -> StepView {
        StepView {
            effects: effect_views(self.effects@),
            must_apply: self.must_apply,
            state: self.state@,
            action: self.action@,
        }
    }
}

// ---------------------------------------------------------------------------
// What each step is
// ---------------------------------------------------------------------------

/// A note in the session log.
pub open spec fn note(text: Seq<char>) -> EffectView {
    EffectView::Record { kind: SessionEventKind::Note, text }
}

/// The turn is over and left nothing behind.
pub open spec fn skipped() -> StepView {
    StepView {
        effects: Seq::empty(),
        must_apply: false,
        state: StateView::Finished,
        action: ActionView::Finish { ran: false },
    }
}

/// The language model is asked.
pub open spec fn asking(
    effects: Seq<EffectView>,
    kind: TurnKind,
    prompt: Seq<char>,
    history: Seq<TurnText>,
) -> StepView {
    StepView {
        effects,
        must_apply: false,
        state: StateView::AwaitReply { kind, prompt },
        action: ActionView::Reply {
            prompt,
            history,
            system_prompt: MEETING_SYSTEM_PROMPT@,
            max_tokens: REPLY_MAX_TOKENS,
        },
    }
}

/// What a finished turn writes: what was heard, then what was said and its
/// speech, or that the agent kept silent; and one more turn counted.
pub open spec fn outcome(prompt: Seq<char>, reply: Seq<char>, speech: Seq<i16>) -> Seq<EffectView> {
    let heard = EffectView::Record { kind: SessionEventKind::Heard, text: prompt };
    let spoke = EffectView::Record { kind: SessionEventKind::Spoke, text: reply };
    if reply.len() == 0 {
        seq![heard, note("agent declined to respond"@), EffectView::CountTurn]
    } else if speech.len() == 0 {
        seq![heard, spoke, EffectView::CountTurn]
    } else {
        seq![heard, spoke, EffectView::Enqueue { samples: speech, done: true }, EffectView::CountTurn]
    }
}

/// The turn is over and its outcome is written.
pub open spec fn concluded(
    effects: Seq<EffectView>,
    prompt: Seq<char>,
    reply: Seq<char>,
    speech: Seq<i16>,
) -> StepView {
    StepView {
        effects: effects + outcome(prompt, reply, speech),
        must_apply: true,
        state: StateView::Finished,
        action: ActionView::Finish { ran: true },
    }
}

/// A reply is there: it is spoken, or, where there is nothing to speak, the
/// turn is over.
pub open spec fn answered(effects: Seq<EffectView>, prompt: Seq<char>, reply: Seq<char>) -> StepView {
    if text::is_blank(reply) {
        concluded(effects, prompt, reply, Seq::empty())
    } else {
        StepView {
            effects,
            must_apply: false,
            state: StateView::AwaitSpeech { prompt, reply },
            action: ActionView::Synthesize { text: reply, sample_rate: SAMPLE_RATE_HZ },
        }
    }
}

/// What is said in the place of a reply where the language model failed: a
/// stub in an audio turn, an acknowledgement in a caption turn.
pub open spec fn stub_reply(kind: TurnKind, prompt: Seq<char>) -> Seq<char> {
    match kind {
        TurnKind::Audio => "I'm listening."@,
        TurnKind::Caption => brain::ack_for(prompt),
    }
}

/// The note on a language model that failed.
pub open spec fn llm_failure(kind: TurnKind, err: Seq<char>) -> EffectView {
    match kind {
        TurnKind::Audio => note("LLM failure (using stub): "@ + err),
        TurnKind::Caption => note("LLM failure (using ack): "@ + err),
    }
}

/// How a turn opens on `samples` samples of audio.
pub open spec fn opening(samples: nat, history: Seq<TurnText>) -> StepView {
    if samples < MIN_TURN_SAMPLES {
        skipped()
    } else {
        StepView {
            effects: Seq::empty(),
            must_apply: false,
            state: StateView::AwaitTranscript { history },
            action: ActionView::Transcribe { sample_rate: SAMPLE_RATE_HZ },
        }
    }
}

/// How a turn opens on a prompt from the captions.
pub open spec fn caption_opening(prompt: Option<Seq<char>>, history: Seq<TurnText>) -> StepView {
    match prompt {
        Some(p) => asking(Seq::empty(), TurnKind::Caption, p, history),
        None => skipped(),
    }
}

/// How a turn goes on from `state` once `event` is there. An answer that the turn
/// does not wait for ends it and leaves nothing behind.
pub open spec fn next_step(state: StateView, event: EventView) -> StepView {
    match (state, event) {
        (StateView::AwaitTranscript { history }, EventView::Transcribed(Ok(heard))) =>
            if text::is_blank(heard) {
                skipped()
            } else {
                asking(Seq::empty(), TurnKind::Audio, heard, history)
            },
        (StateView::AwaitTranscript { history }, EventView::Transcribed(Err(err))) => StepView {
            effects: seq![note("STT failure (using stub): "@ + err)],
            must_apply: false,
            state: StateView::AwaitStubTranscript { history },
            action: ActionView::StubTranscript,
        },
        (StateView::AwaitStubTranscript { history }, EventView::StubTranscribed(heard)) => asking(
            Seq::empty(),
            TurnKind::Audio,
            heard,
            history,
        ),
        (StateView::AwaitReply { kind, prompt }, EventView::Replied(Ok(reply))) => answered(
            Seq::empty(),
            prompt,
            reply,
        ),
        (StateView::AwaitReply { kind, prompt }, EventView::Replied(Err(err))) => answered(
            seq![llm_failure(kind, err)],
            prompt,
            stub_reply(kind, prompt),
        ),
        (StateView::AwaitSpeech { prompt, reply }, EventView::Synthesized(Ok(speech))) => concluded(
            Seq::empty(),
            prompt,
            reply,
            speech,
        ),
        (StateView::AwaitSpeech { prompt, reply }, EventView::Synthesized(Err(err))) => StepView {
            effects: seq![note("TTS failure (using stub): "@ + err)],
            must_apply: false,
            state: StateView::AwaitStubSpeech { prompt, reply },
            action: ActionView::StubSpeech { text: reply },
        },
        (StateView::AwaitStubSpeech { prompt, reply }, EventView::StubSynthesized(speech)) =>
            concluded(Seq::empty(), prompt, reply, speech),
        _ => skipped(),
    }
}

// ---------------------------------------------------------------------------
// The steps
// ---------------------------------------------------------------------------

fn skip() -> (r: TurnStep)
    ensures
        r@ == skipped(),
{
    let effects: Vec<SessionEffect> = Vec::new();
    assert(effect_views(effects@) =~= Seq::empty());
    TurnStep {
        effects,
        must_apply: false,
        state: TurnState::Finished,
        action: TurnAction::Finish { ran: false },
    }
}

fn ask(
    kind: TurnKind,
    prompt: String,
    history: Vec<ConversationTurn>,
) -> (r: TurnStep)
    ensures
        r@ == asking(Seq::empty(), kind, prompt@, providers::turn_texts(history@)),
{
    let effects: Vec<SessionEffect> = Vec::new();
    assert(effect_views(effects@) =~= Seq::empty());
    TurnStep {
        effects,
        must_apply: false,
        state: TurnState::AwaitReply { kind, prompt: prompt.clone() },
        action: TurnAction::Reply {
            prompt,
            history,
            system_prompt: MEETING_SYSTEM_PROMPT,
            max_tokens: REPLY_MAX_TOKENS,
        },
    }
}

fn record(effects: &mut Vec<SessionEffect>, kind: SessionEventKind, text: String)
    ensures
        effect_views(final(effects)@) == effect_views(old(effects)@).push(
            EffectView::Record { kind, text: text@ },
        ),
{
    effects.push(SessionEffect::Record { kind, text });
    assert(effect_views(effects@) =~= effect_views(old(effects)@).push(
        EffectView::Record { kind, text: text@ },
    ));
}

fn conclude(
    before: Vec<SessionEffect>,
    prompt: String,
    reply: String,
    speech: Vec<i16>,
) -> (r: TurnStep)
    ensures
        r@ == concluded(effect_views(before@), prompt@, reply@, speech@),
{
    let ghost said = reply@;
    let ghost spoken = speech@;
    let ghost heard = prompt@;
    let ghost b = effect_views(before@);
    let mut effects: Vec<SessionEffect> = before;
    record(&mut effects, SessionEventKind::Heard, prompt);
    if !reply.as_str().is_empty() {
        record(&mut effects, SessionEventKind::Spoke, reply);
        if speech.len() > 0 {
            let ghost e = effects@;
            effects.push(SessionEffect::Enqueue { samples: speech, done: true });
            assert(effect_views(effects@) =~= effect_views(e).push(
                EffectView::Enqueue { samples: spoken, done: true },
            ));
        }
    } else {
        record(&mut effects, SessionEventKind::Note, "agent declined to respond".to_string());
    }
    let ghost e = effects@;
    effects.push(SessionEffect::CountTurn);
    assert(effect_views(effects@) =~= effect_views(e).push(EffectView::CountTurn));
    assert(effect_views(effects@) =~= b + outcome(heard, said, spoken));
    TurnStep {
        effects,
        must_apply: true,
        state: TurnState::Finished,
        action: TurnAction::Finish { ran: true },
    }
}

fn answer(before: Vec<SessionEffect>, prompt: String, reply: String) -> (r: TurnStep)
    ensures
        r@ == answered(effect_views(before@), prompt@, reply@),
{
    if str_is_blank(reply.as_str()) {
        let silence: Vec<i16> = Vec::new();
        assert(silence@ =~= Seq::empty());
        conclude(before, prompt, reply, silence)
    } else {
        TurnStep {
            effects: before,
            must_apply: false,
            state: TurnState::AwaitSpeech { prompt, reply: reply.clone() },
            action: TurnAction::Synthesize { text: reply, sample_rate: SAMPLE_RATE_HZ },
        }
    }
}

/// Opens a turn on the audio that was taken from the session, with the
/// conversation that the session log holds. Audio below the floor makes no
/// turn.
pub fn begin_turn(samples: &[i16], events: &[SessionEvent]) -> (r: TurnStep)
    ensures
        r@ == opening(
            samples@.len(),
            brain::last_of(brain::dialog(events@), CONTEXT_EVENT_WINDOW as nat),
        ),
        r@.state == if samples@.len() < 4_000 {
            StateView::Finished
        } else {
            StateView::AwaitTranscript { history: brain::last_of(brain::dialog(events@), 12) }
        },
{
    if samples.len() < MIN_TURN_SAMPLES {
        return skip();
    }
    let history: Vec<ConversationTurn> = recent_dialog_history(events, CONTEXT_EVENT_WINDOW);
    let effects: Vec<SessionEffect> = Vec::new();
    assert(effect_views(effects@) =~= Seq::empty());
    TurnStep {
        effects,
        must_apply: false,
        state: TurnState::AwaitTranscript { history },
        action: TurnAction::Transcribe { sample_rate: SAMPLE_RATE_HZ },
    }
}

/// Opens a turn on the prompt that was taken from the session, with the
/// conversation that the session log holds. Without a prompt there is no turn.
pub fn begin_caption_turn(prompt: Option<String>, events: &[SessionEvent]) -> (r: TurnStep)
    ensures
        r@ == caption_opening(
            text::opt_text(prompt),
            brain::last_of(brain::dialog(events@), CONTEXT_EVENT_WINDOW as nat),
        ),
        prompt matches Some(p) ==> r@.action == (ActionView::Reply {
            prompt: p@,
            history: brain::last_of(brain::dialog(events@), 12),
            system_prompt: MEETING_SYSTEM_PROMPT@,
            max_tokens: 220,
        }),
{
    match prompt {
        Some(p) => {
            let history: Vec<ConversationTurn> = recent_dialog_history(
                events,
                CONTEXT_EVENT_WINDOW,
            );
            ask(TurnKind::Caption, p, history)
        },
        None => skip(),
    }
}

fn failure(what: &str, err: &str) -> (r: Vec<SessionEffect>)
    ensures
        effect_views(r@) == seq![note(what@ + err@)],
{
    let mut effects: Vec<SessionEffect> = Vec::new();
    let text: String = concat(what, err);
    record(&mut effects, SessionEventKind::Note, text);
    assert(effect_views(effects@) =~= seq![note(what@ + err@)]);
    effects
}

/// Takes the turn one step further with the answer that came.
pub fn advance(state: TurnState, event: TurnEvent) -> (r: TurnStep)
    ensures
        r@ == next_step(state@, event@),
        (state matches TurnState::AwaitReply { prompt, .. } && event matches TurnEvent::Replied(
            Ok(reply),
        ) && !text::is_blank(reply@)) ==> {
            &&& r@.effects.len() == 0
            &&& r@.state == (StateView::AwaitSpeech {
                prompt: state->AwaitReply_prompt@,
                reply: (event->Replied_0)->Ok_0@,
            })
            &&& r@.action == (ActionView::Synthesize {
                text: (event->Replied_0)->Ok_0@,
                sample_rate: 16_000,
            })
        },
{
    match (state, event) {
        (TurnState::AwaitTranscript { history }, TurnEvent::Transcribed(Ok(heard))) => {
            if str_is_blank(heard.as_str()) {
                skip()
            } else {
                ask(TurnKind::Audio, heard, history)
            }
        },
        (TurnState::AwaitTranscript { history }, TurnEvent::Transcribed(Err(err))) => TurnStep {
            effects: failure("STT failure (using stub): ", err.as_str()),
            must_apply: false,
            state: TurnState::AwaitStubTranscript { history },
            action: TurnAction::StubTranscript,
        },
        (TurnState::AwaitStubTranscript { history }, TurnEvent::StubTranscribed(heard)) => {
            ask(TurnKind::Audio, heard, history)
        },
        (TurnState::AwaitReply { kind, prompt }, TurnEvent::Replied(Ok(reply))) => {
            let effects: Vec<SessionEffect> = Vec::new();
            assert(effect_views(effects@) =~= Seq::empty());
            answer(effects, prompt, reply)
        },
        (TurnState::AwaitReply { kind, prompt }, TurnEvent::Replied(Err(err))) => {
            match kind {
                TurnKind::Audio => answer(
                    failure("LLM failure (using stub): ", err.as_str()),
                    prompt,
                    "I'm listening.".to_string(),
                ),
                TurnKind::Caption => {
                    let ack: String = pick_ack_phrase(prompt.as_str()).to_string();
                    answer(failure("LLM failure (using ack): ", err.as_str()), prompt, ack)
                },
            }
        },
        (TurnState::AwaitSpeech { prompt, reply }, TurnEvent::Synthesized(Ok(speech))) => {
            let effects: Vec<SessionEffect> = Vec::new();
            assert(effect_views(effects@) =~= Seq::empty());
            conclude(effects, prompt, reply, speech)
        },
        (TurnState::AwaitSpeech { prompt, reply }, TurnEvent::Synthesized(Err(err))) => TurnStep {
            effects: failure("TTS failure (using stub): ", err.as_str()),
            must_apply: false,
            state: TurnState::AwaitStubSpeech { prompt, reply: reply.clone() },
            action: TurnAction::StubSpeech { text: reply },
        },
        (TurnState::AwaitStubSpeech { prompt, reply }, TurnEvent::StubSynthesized(speech)) => {
            let effects: Vec<SessionEffect> = Vec::new();
            assert(effect_views(effects@) =~= Seq::empty());
            conclude(effects, prompt, reply, speech)
        },
        _ => skip(),
    }
}

// ---------------------------------------------------------------------------
// Whole turns
// ---------------------------------------------------------------------------

/// What the providers, and the stubs in their places, answer in one turn.
pub struct Answers {
    pub transcript: Result<Seq<char>, Seq<char>>,
    pub stub_transcript: Seq<char>,
    pub reply: Result<Seq<char>, Seq<char>>,
    pub speech: Result<Seq<i16>, Seq<char>>,
    pub stub_speech: Seq<i16>,
}

/// The answer to an action. A turn that is over asks for none.
pub open spec fn answer_to(action: ActionView, a: Answers) -> EventView {
    match action {
        ActionView::Transcribe { .. } => EventView::Transcribed(a.transcript),
        ActionView::StubTranscript => EventView::StubTranscribed(a.stub_transcript),
        ActionView::Reply { .. } => EventView::Replied(a.reply),
        ActionView::Synthesize { .. } => EventView::Synthesized(a.speech),
        ActionView::StubSpeech { .. } => EventView::StubSynthesized(a.stub_speech),
        ActionView::Finish { .. } => EventView::StubTranscribed(Seq::empty()),
    }
}

/// All that a turn writes from `step` on, given at most `answers_left` answers,
/// and how it ends; nothing where it does not end with those.
pub open spec fn course(step: StepView, a: Answers, answers_left: nat) -> Option<
    (Seq<EffectView>, bool),
>
    decreases answers_left,
{
    match step.action {
        ActionView::Finish { ran } => Some((step.effects, ran)),
        _ => if answers_left == 0 {
            None
        } else {
            match course(
                next_step(step.state, answer_to(step.action, a)),
                a,
                (answers_left - 1) as nat,
            ) {
                Some((effects, ran)) => Some((step.effects + effects, ran)),
                None => None,
            }
        },
    }
}

/// The note on a provider that failed, if it did.
pub open spec fn noted<T>(what: Seq<char>, answer: Result<T, Seq<char>>) -> Seq<EffectView> {
    match answer {
        Ok(_) => Seq::empty(),
        Err(err) => seq![note(what + err)],
    }
}

/// The reply that a turn goes by: the model's, or what stands in for it.
pub open spec fn reply_of(kind: TurnKind, prompt: Seq<char>, a: Answers) -> Seq<char> {
    match a.reply {
        Ok(reply) => reply,
        Err(_) => stub_reply(kind, prompt),
    }
}

/// What a turn writes once its prompt is known.
pub open spec fn replying(kind: TurnKind, prompt: Seq<char>, a: Answers) -> Seq<EffectView> {
    let reply = reply_of(kind, prompt, a);
    let llm_note = match a.reply {
        Ok(_) => Seq::empty(),
        Err(err) => seq![llm_failure(kind, err)],
    };
    if text::is_blank(reply) {
        llm_note + outcome(prompt, reply, Seq::empty())
    } else {
        llm_note + noted("TTS failure (using stub): "@, a.speech) + outcome(
            prompt,
            reply,
            match a.speech {
                Ok(speech) => speech,
                Err(_) => a.stub_speech,
            },
        )
    }
}

proof fn lemma_replying(
    before: Seq<EffectView>,
    kind: TurnKind,
    prompt: Seq<char>,
    history: Seq<TurnText>,
    a: Answers,
)
    ensures
        course(asking(before, kind, prompt, history), a, 3) == Some(
            (before + replying(kind, prompt, a), true),
        ),
{
    reveal_with_fuel(course, 4);
    let s1 = next_step(StateView::AwaitReply { kind, prompt }, EventView::Replied(a.reply));
    let reply = reply_of(kind, prompt, a);
    if !text::is_blank(reply) {
        let s2 = next_step(
            StateView::AwaitSpeech { prompt, reply },
            EventView::Synthesized(a.speech),
        );
        assert((course(s2, a, 1)->0).0 =~= noted("TTS failure (using stub): "@, a.speech) + outcome(
            prompt,
            reply,
            match a.speech {
                Ok(speech) => speech,
                Err(_) => a.stub_speech,
            },
        ));
    }
    assert((course(s1, a, 2)->0).0 =~= replying(kind, prompt, a));
}

/// An audio turn on too little audio, or with nothing in the transcript, leaves
/// nothing behind. Any other comes to its end with at most five answers,
/// whatever the providers do: each failure is noted when it happens, and then
/// the outcome is written.
pub proof fn law_audio_turn(samples: nat, history: Seq<TurnText>, a: Answers)
    ensures
        course(opening(samples, history), a, 5) == if samples < MIN_TURN_SAMPLES || (
        a.transcript matches Ok(heard) && text::is_blank(heard)) {
            Some((Seq::<EffectView>::empty(), false))
        } else {
            let heard = match a.transcript {
                Ok(heard) => heard,
                Err(_) => a.stub_transcript,
            };
            Some(
                (
                    noted("STT failure (using stub): "@, a.transcript) + replying(
                        TurnKind::Audio,
                        heard,
                        a,
                    ),
                    true,
                ),
            )
        },
{
    reveal_with_fuel(course, 3);
    if samples >= MIN_TURN_SAMPLES {
        match a.transcript {
            Ok(heard) => {
                if text::is_blank(heard) {
                    assert(Seq::<EffectView>::empty() + Seq::<EffectView>::empty()
                        =~= Seq::<EffectView>::empty());
                } else {
                    lemma_replying(Seq::empty(), TurnKind::Audio, heard, history, a);
                    lemma_more_answers(
                        asking(Seq::empty(), TurnKind::Audio, heard, history),
                        a,
                        3,
                        4,
                    );
                    let w = replying(TurnKind::Audio, heard, a);
                    assert(Seq::<EffectView>::empty() + (Seq::<EffectView>::empty() + w) =~= Seq::<
                        EffectView,
                    >::empty() + w);
                }
            },
            Err(err) => {
                lemma_replying(Seq::empty(), TurnKind::Audio, a.stub_transcript, history, a);
                let w = replying(TurnKind::Audio, a.stub_transcript, a);
                let n = seq![note("STT failure (using stub): "@ + err)];
                assert(Seq::<EffectView>::empty() + (n + (Seq::<EffectView>::empty() + w)) =~= n + w);
            },
        }
    }
}

/// A turn that ends with some answers ends the same way with more allowed.
pub proof fn lemma_more_answers(step: StepView, a: Answers, n: nat, m: nat)
    requires
        n <= m,
        course(step, a, n) is Some,
    ensures
        course(step, a, m) == course(step, a, n),
    decreases n,
{
    if !(step.action is Finish) {
        let next = next_step(step.state, answer_to(step.action, a));
        lemma_more_answers(next, a, (n - 1) as nat, (m - 1) as nat);
    }
}

/// A caption turn without a prompt leaves nothing behind. Any other comes to
/// its end with at most three answers, whatever the providers do.
pub proof fn law_caption_turn(prompt: Option<Seq<char>>, history: Seq<TurnText>, a: Answers)
    ensures
        course(caption_opening(prompt, history), a, 3) == match prompt {
            None => Some((Seq::<EffectView>::empty(), false)),
            Some(p) => Some((replying(TurnKind::Caption, p, a), true)),
        },
{
    match prompt {
        Some(p) => {
            lemma_replying(Seq::empty(), TurnKind::Caption, p, history, a);
            assert(Seq::<EffectView>::empty() + replying(TurnKind::Caption, p, a) =~= replying(
                TurnKind::Caption,
                p,
                a,
            ));
        },
        None => {},
    }
}

/// What the providers are asked in the course of a turn, in order.
pub open spec fn asked(step: StepView, a: Answers, answers_left: nat) -> Seq<ActionView>
    decreases answers_left,
{
    if step.action is Finish {
        Seq::empty()
    } else if answers_left == 0 {
        seq![step.action]
    } else {
        seq![step.action] + asked(
            next_step(step.state, answer_to(step.action, a)),
            a,
            (answers_left - 1) as nat,
        )
    }
}

/// `x` alone where `answer` is a failure, and nothing otherwise.
pub open spec fn if_failed<T, X>(answer: Result<T, Seq<char>>, x: X) -> Seq<X> {
    if answer is Err {
        seq![x]
    } else {
        Seq::empty()
    }
}

/// The reply that the model gave, and nothing else, is given to the synthesizer, at
/// 16 kHz, and to the stub where the synthesizer fails. Where the model fails, its
/// place is taken by "I'm listening." in an audio turn, and by an acknowledgement in
/// a caption turn. A reply of white space is not spoken.
pub proof fn law_reply_is_what_is_spoken(
    start: StepView,
    kind: TurnKind,
    prompt: Seq<char>,
    reply: Seq<char>,
    a: Answers,
)
    requires
        start.state == (StateView::AwaitReply { kind, prompt }),
        start.action is Reply,
        a.reply is Ok ==> reply == a.reply->Ok_0,
        a.reply is Err && kind == TurnKind::Audio ==> reply == "I'm listening."@,
        a.reply is Err && kind == TurnKind::Caption ==> reply == brain::ack_for(prompt),
    ensures
        !(forall|i: int| 0 <= i < reply.len() ==> text::is_white(#[trigger] reply[i])) ==> asked(
            start,
            a,
            3,
        ) == seq![start.action, ActionView::Synthesize { text: reply, sample_rate: 16_000 }]
            + if_failed(a.speech, ActionView::StubSpeech { text: reply }),
        (forall|i: int| 0 <= i < reply.len() ==> text::is_white(#[trigger] reply[i])) ==> asked(
            start,
            a,
            3,
        ) == seq![start.action],
{
    reveal_with_fuel(asked, 4);
    text::lemma_blank(reply);
    if !text::is_blank(reply) {
        let s1 = next_step(StateView::AwaitReply { kind, prompt }, EventView::Replied(a.reply));
        let s2 = next_step(
            StateView::AwaitSpeech { prompt, reply },
            EventView::Synthesized(a.speech),
        );
        assert(s1.action == (ActionView::Synthesize { text: reply, sample_rate: 16_000 }));
        assert(asked(s2, a, 1) =~= if_failed(a.speech, ActionView::StubSpeech { text: reply }));
        assert(asked(start, a, 3) =~= seq![
            start.action,
            ActionView::Synthesize { text: reply, sample_rate: 16_000 },
        ] + if_failed(a.speech, ActionView::StubSpeech { text: reply }));
    } else {
        assert(asked(start, a, 3) =~= seq![start.action]);
    }
}

/// The session gets the prompt as heard, the reply as spoken, and just the speech
/// that the synthesizer, or the stub in its place, gave for it, marked as complete;
/// or, where there is no reply, that the agent declined. One turn is counted. Each
/// failure is noted with its reason, before all of that.
pub proof fn law_turn_is_written(
    start: StepView,
    kind: TurnKind,
    prompt: Seq<char>,
    reply: Seq<char>,
    speech: Seq<i16>,
    a: Answers,
)
    requires
        start.effects == Seq::<EffectView>::empty(),
        start.state == (StateView::AwaitReply { kind, prompt }),
        start.action is Reply,
        a.reply is Ok ==> reply == a.reply->Ok_0,
        a.reply is Err && kind == TurnKind::Audio ==> reply == "I'm listening."@,
        a.reply is Err && kind == TurnKind::Caption ==> reply == brain::ack_for(prompt),
        text::is_blank(reply) ==> speech.len() == 0,
        !text::is_blank(reply) && a.speech is Ok ==> speech == a.speech->Ok_0,
        !text::is_blank(reply) && a.speech is Err ==> speech == a.stub_speech,
    ensures
        ({
            let heard = EffectView::Record { kind: SessionEventKind::Heard, text: prompt };
            let spoke = EffectView::Record { kind: SessionEventKind::Spoke, text: reply };
            let declined = EffectView::Record {
                kind: SessionEventKind::Note,
                text: "agent declined to respond"@,
            };
            let failures = if_failed(
                a.reply,
                EffectView::Record {
                    kind: SessionEventKind::Note,
                    text: if kind == TurnKind::Audio {
                        "LLM failure (using stub): "@ + a.reply->Err_0
                    } else {
                        "LLM failure (using ack): "@ + a.reply->Err_0
                    },
                },
            ) + if text::is_blank(reply) {
                Seq::empty()
            } else {
                if_failed(
                    a.speech,
                    EffectView::Record {
                        kind: SessionEventKind::Note,
                        text: "TTS failure (using stub): "@ + a.speech->Err_0,
                    },
                )
            };
            let done = if reply.len() == 0 {
                seq![heard, declined, EffectView::CountTurn]
            } else if speech.len() == 0 {
                seq![heard, spoke, EffectView::CountTurn]
            } else {
                seq![
                    heard,
                    spoke,
                    EffectView::Enqueue { samples: speech, done: true },
                    EffectView::CountTurn,
                ]
            };
            course(start, a, 3) == Some((failures + done, true))
        }),
{
    let history = start.action->history;
    let other = asking(Seq::empty(), kind, prompt, history);
    lemma_replying(Seq::empty(), kind, prompt, history, a);
    assert(course(start, a, 3) == course(other, a, 3));
    let w = replying(kind, prompt, a);
    assert(Seq::<EffectView>::empty() + w =~= w);
    assert(outcome(prompt, reply, speech) == outcome(
        prompt,
        reply_of(kind, prompt, a),
        if text::is_blank(reply) {
            Seq::empty()
        } else {
            speech
        },
    )) by {
        if text::is_blank(reply) {
            assert(speech =~= Seq::empty());
        }
    }
    if text::is_blank(reply) {
        let n = if_failed(a.reply, llm_failure(kind, a.reply->Err_0));
        assert(n + Seq::<EffectView>::empty() =~= n);
    }
}

/// A turn opens on a quarter of a second of audio and more, and on nothing less.
/// The transcriber gets it at 16 kHz. Where it hears nothing, the turn is over and
/// nothing is written.
pub proof fn law_silence_is_no_turn(samples: nat, history: Seq<TurnText>, a: Answers)
    ensures
        samples < 4_000 ==> asked(opening(samples, history), a, 5) == Seq::<ActionView>::empty()
            && course(opening(samples, history), a, 5) == Some((Seq::<EffectView>::empty(), false)),
        samples >= 4_000 && a.transcript is Ok && (forall|i: int|
            0 <= i < a.transcript->Ok_0.len() ==> text::is_white(#[trigger] a.transcript->Ok_0[i]))
            ==> asked(opening(samples, history), a, 5) == seq![
            ActionView::Transcribe { sample_rate: 16_000 },
        ] && course(opening(samples, history), a, 5) == Some((Seq::<EffectView>::empty(), false)),
{
    law_audio_turn(samples, history, a);
    reveal_with_fuel(asked, 3);
    if samples >= 4_000 && a.transcript is Ok {
        text::lemma_blank(a.transcript->Ok_0);
        if text::is_blank(a.transcript->Ok_0) {
            assert(asked(opening(samples, history), a, 5) =~= seq![
                ActionView::Transcribe { sample_rate: 16_000 },
            ]);
        }
    }
}

/// What the transcriber hears, or what its stub hears where it fails, is asked of
/// the model as it is, for at most 220 tokens, with the conversation so far and the
/// meeting's system prompt; the turn then goes on as any turn that asks the model.
/// A transcriber that fails is noted with its reason.
pub proof fn law_transcript_is_what_is_asked(
    samples: nat,
    history: Seq<TurnText>,
    heard: Seq<char>,
    rest: StepView,
    a: Answers,
)
    requires
        samples >= 4_000,
        a.transcript is Ok ==> heard == a.transcript->Ok_0 && !(forall|i: int|
            0 <= i < heard.len() ==> text::is_white(#[trigger] heard[i])),
        a.transcript is Err ==> heard == a.stub_transcript,
        rest.effects == Seq::<EffectView>::empty(),
        rest.state == (StateView::AwaitReply { kind: TurnKind::Audio, prompt: heard }),
        rest.action == (ActionView::Reply {
            prompt: heard,
            history,
            system_prompt: MEETING_SYSTEM_PROMPT@,
            max_tokens: 220,
        }),
    ensures
        asked(opening(samples, history), a, 5) == seq![
            ActionView::Transcribe { sample_rate: 16_000 },
        ] + if_failed(a.transcript, ActionView::StubTranscript) + asked(rest, a, 3),
        course(rest, a, 3) is Some,
        course(opening(samples, history), a, 5) == Some(
            (
                if_failed(
                    a.transcript,
                    EffectView::Record {
                        kind: SessionEventKind::Note,
                        text: "STT failure (using stub): "@ + a.transcript->Err_0,
                    },
                ) + (course(rest, a, 3)->0).0,
                true,
            ),
        ),
{
    law_audio_turn(samples, history, a);
    text::lemma_blank(heard);
    let other = asking(Seq::empty(), TurnKind::Audio, heard, history);
    lemma_replying(Seq::empty(), TurnKind::Audio, heard, history, a);
    assert(course(rest, a, 3) == course(other, a, 3));
    assert(asked(rest, a, 3) == asked(other, a, 3));
    lemma_asked_more(other, a, 3, 4);
    let w = replying(TurnKind::Audio, heard, a);
    assert(Seq::<EffectView>::empty() + w =~= w);
    let start = opening(samples, history);
    let s1 = next_step(start.state, EventView::Transcribed(a.transcript));
    assert(asked(start, a, 5) == seq![start.action] + asked(s1, a, 4));
    if a.transcript is Err {
        let s2 = next_step(s1.state, EventView::StubTranscribed(heard));
        assert(s2 == other);
        assert(asked(s1, a, 4) == seq![s1.action] + asked(other, a, 3));
        assert(asked(start, a, 5) =~= seq![start.action] + seq![s1.action] + asked(rest, a, 3));
    } else {
        assert(s1 == other);
        assert(asked(start, a, 5) =~= seq![start.action] + Seq::<ActionView>::empty() + asked(
            rest,
            a,
            3,
        ));
    }
}

proof fn lemma_asked_more(step: StepView, a: Answers, n: nat, m: nat)
    requires
        n <= m,
        course(step, a, n) is Some,
    ensures
        asked(step, a, m) == asked(step, a, n),
    decreases n,
{
    if !(step.action is Finish) {
        lemma_asked_more(
            next_step(step.state, answer_to(step.action, a)),
            a,
            (n - 1) as nat,
            (m - 1) as nat,
        );
    }
}

/// A prompt from the captions is asked of the model as it is, with the
/// conversation so far; without one there is no turn.
pub proof fn law_caption_prompt_is_what_is_asked(prompt: Option<Seq<char>>, history: Seq<TurnText>)
    ensures
        ({
            let step = caption_opening(prompt, history);
            &&& step.effects == Seq::<EffectView>::empty()
            &&& prompt matches Some(p) ==> {
                &&& step.state == (StateView::AwaitReply { kind: TurnKind::Caption, prompt: p })
                &&& step.action == (ActionView::Reply {
                    prompt: p,
                    history,
                    system_prompt: MEETING_SYSTEM_PROMPT@,
                    max_tokens: 220,
                })
            }
            &&& prompt is None ==> step.action == (ActionView::Finish { ran: false })
        }),
{
}

/// What a turn writes must be written, and an answer that the turn does not wait
/// for ends it and writes nothing.
pub proof fn law_stray_answer_ends_the_turn(state: StateView, event: EventView)
    ensures
        ({
            let step = next_step(state, event);
            let waited_for = match state {
                StateView::AwaitTranscript { .. } => event is Transcribed,
                StateView::AwaitStubTranscript { .. } => event is StubTranscribed,
                StateView::AwaitReply { .. } => event is Replied,
                StateView::AwaitSpeech { .. } => event is Synthesized,
                StateView::AwaitStubSpeech { .. } => event is StubSynthesized,
                StateView::Finished => false,
            };
            &&& !waited_for ==> step.effects.len() == 0 && step.action == (ActionView::Finish {
                ran: false,
            })
            &&& step.must_apply <==> step.effects.contains(EffectView::CountTurn)
            &&& step.must_apply <==> step.action == (ActionView::Finish { ran: true })
        }),
{
    let step = next_step(state, event);
    if step.must_apply {
        assert(step.effects[step.effects.len() - 1] == EffectView::CountTurn);
    }
}

/// The agent is never left speechless by a language model that fails: what
/// stands in for the reply is not blank, unless the prompt is.
pub proof fn law_stub_reply_speaks(kind: TurnKind, prompt: Seq<char>)
    requires
        kind == TurnKind::Caption ==> !text::is_blank(prompt),
    ensures
        !text::is_blank(stub_reply(kind, prompt)),
{
    reveal_strlit("I'm listening.");
    reveal_strlit("Got it.");
    reveal_strlit("Noted.");
    reveal_strlit("Adding that.");
    reveal_strlit("On it.");
    reveal_strlit("Captured.");
    text::lemma_already_trimmed(stub_reply(kind, prompt));
}

/// Each step asks for just the answer that the turn then waits for.
pub proof fn law_action_fits_state(state: StateView, event: EventView)
    ensures
        ({
            let step = next_step(state, event);
            match step.state {
                StateView::AwaitTranscript { .. } => step.action is Transcribe,
                StateView::AwaitStubTranscript { .. } => step.action is StubTranscript,
                StateView::AwaitReply { .. } => step.action is Reply,
                StateView::AwaitSpeech { .. } => step.action is Synthesize,
                StateView::AwaitStubSpeech { .. } => step.action is StubSpeech,
                StateView::Finished => step.action is Finish,
            }
        }),
{
}

/// What a step says to its caller is what its model says: the effects in their order,
/// each with its own text or samples, and what to ask of whom.
pub proof fn law_step_says_what_it_holds(step: TurnStep, i: int)
    ensures
        step@.effects.len() == step.effects@.len(),
        step@.must_apply == step.must_apply,
        0 <= i < step.effects@.len() ==> match step.effects@[i] {
            SessionEffect::Record { kind, text } => step@.effects[i] == (EffectView::Record {
                kind,
                text: text@,
            }),
            SessionEffect::Enqueue { samples, done } => step@.effects[i] == (EffectView::Enqueue {
                samples: samples@,
                done,
            }),
            SessionEffect::CountTurn => step@.effects[i] == EffectView::CountTurn,
        },
        match step.action {
            TurnAction::Transcribe { sample_rate } => step@.action == (ActionView::Transcribe {
                sample_rate,
            }),
            TurnAction::StubTranscript => step@.action == ActionView::StubTranscript,
            TurnAction::Reply { prompt, history, system_prompt, max_tokens } => {
                &&& step@.action is Reply
                &&& step@.action->prompt == prompt@
                &&& step@.action->system_prompt == system_prompt@
                &&& step@.action->max_tokens == max_tokens
                &&& step@.action->history.len() == history@.len()
                &&& 0 <= i < history@.len() ==> step@.action->history[i].role == history@[i].role@
                    && step@.action->history[i].content == history@[i].content@
            },
            TurnAction::Synthesize { text, sample_rate } => step@.action == (
            ActionView::Synthesize { text: text@, sample_rate }),
            TurnAction::StubSpeech { text } => step@.action == (ActionView::StubSpeech {
                text: text@,
            }),
            TurnAction::Finish { ran } => step@.action == (ActionView::Finish { ran }),
        },
{
}

/// What an answer says to the turn is what its model says.
pub proof fn law_answer_says_what_it_holds(event: TurnEvent)
    ensures
        match event {
            TurnEvent::Transcribed(Ok(heard)) => event@ == EventView::Transcribed(Ok(heard@)),
            TurnEvent::Transcribed(Err(e)) => event@ == EventView::Transcribed(Err(e@)),
            TurnEvent::StubTranscribed(heard) => event@ == EventView::StubTranscribed(heard@),
            TurnEvent::Replied(Ok(reply)) => event@ == EventView::Replied(Ok(reply@)),
            TurnEvent::Replied(Err(e)) => event@ == EventView::Replied(Err(e@)),
            TurnEvent::Synthesized(Ok(speech)) => event@ == EventView::Synthesized(Ok(speech@)),
            TurnEvent::Synthesized(Err(e)) => event@ == EventView::Synthesized(Err(e@)),
            TurnEvent::StubSynthesized(speech) => event@ == EventView::StubSynthesized(speech@),
        },
{
}

} // verus!
