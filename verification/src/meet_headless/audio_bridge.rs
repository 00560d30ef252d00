//! The audio bridge: what the page plays goes to the meeting agent, and what the
//! agent says goes to the page. Audio crosses as 16-bit PCM in base64.

use crate::base64_text::{self, decode_base64, encode_base64};
use crate::json::{self, encode_json, value_get, value_str, value_str_field, value_text, Json};
use crate::meet_headless::cdp::{self, evaluate_command, CdpCommand, CommandView};
use crate::pcm::{self, bytes_to_samples, samples_to_bytes};
use crate::text::{self, concat, decimal_of};
use serde_json::Value;
use vstd::prelude::*;

verus! {

pub const LOG_PREFIX: &'static str = "[meet-headless-audio]";

/// How often audio is moved.
pub const POLL_INTERVAL_MS: u64 = 100;

/// How many errors in a row end the bridge.
pub const MAX_CONSECUTIVE_ERRORS: u32 = 30;

/// How many samples one round of audio holds, at 16 kHz.
pub const SAMPLES_PER_TICK: usize = 1600;

/// The script that defines `window.__openhuman_capture`. Its `start()` taps every
/// audio and video element on the page, those that come later too, and gathers
/// what they play as 16-bit samples at 16 kHz. Its `drain()` gives the samples
/// gathered so far in base64, and forgets them; it gives an empty string where
/// there are none.
pub const AUDIO_CAPTURE_SETUP_JS: &'static str = r#"
(() => {
  if (window.__openhuman_capture) return;

  let ctx = null;
  let processor = null;
  let chunks = [];       // accumulated Int16 chunks
  let totalLen = 0;      // total Int16 samples accumulated
  let connectedElements = new WeakSet(); // track already-connected media elements

  window.__openhuman_capture = {
    start: async function() {
      if (ctx) return;
      ctx = new (window.AudioContext || window.webkitAudioContext)({ sampleRate: 16000 });

      // ScriptProcessorNode for capturing PCM from page audio elements
      processor = ctx.createScriptProcessor(4096, 1, 1);
      processor.onaudioprocess = function(e) {
        const f32 = e.inputBuffer.getChannelData(0);
        const i16 = new Int16Array(f32.length);
        for (let i = 0; i < f32.length; i++) {
          let s = f32[i];
          s = s < 0 ? s * 0x8000 : s * 0x7FFF;
          s = Math.max(-32768, Math.min(32767, Math.round(s)));
          i16[i] = s;
        }
        chunks.push(i16);
        totalLen += i16.length;
      };

      // Connect the processor to the destination so the pipeline is live
      processor.connect(ctx.destination);

      // Scan for audio/video elements and connect them to the processor.
      // Google Meet plays remote participants' audio through <audio> elements.
      function connectMediaElements() {
        const elements = document.querySelectorAll('audio, video');
        elements.forEach(function(el) {
          if (connectedElements.has(el)) return;
          try {
            // MediaElementAudioSourceNode can only be created once per element
            if (!el._openhuman_source) {
              el._openhuman_source = ctx.createMediaElementSource(el);
            }
            el._openhuman_source.connect(processor);
            connectedElements.add(el);
          } catch(e) {
            // May already be connected or CORS restricted; skip silently
          }
        });
      }

      // Initial scan
      connectMediaElements();

      // Re-scan periodically — Meet may add new audio elements as participants join
      setInterval(connectMediaElements, 2000);
    },

    drain: function() {
      if (totalLen === 0) return "";
      const merged = new Int16Array(totalLen);
      let off = 0;
      for (let i = 0; i < chunks.length; i++) {
        merged.set(chunks[i], off);
        off += chunks[i].length;
      }
      chunks = [];
      totalLen = 0;
      // Convert to base64 efficiently using chunked fromCharCode
      const bytes = new Uint8Array(merged.buffer, merged.byteOffset, merged.byteLength);
      const chunkSize = 8192;
      let binary = "";
      for (let i = 0; i < bytes.length; i += chunkSize) {
        const end = Math.min(i + chunkSize, bytes.length);
        binary += String.fromCharCode.apply(null, bytes.subarray(i, end));
      }
      return btoa(binary);
    }
  };
})()
"#;

/// The script that defines `window.__openhuman_playback`. Its `init()` takes over
/// the audio destination of the fake microphone where there is one, or makes one.
/// Its `feed(b64)` plays samples there, each piece right after the one before.
/// Its `getStream()` gives the stream.
pub const AUDIO_PLAYBACK_SETUP_JS: &'static str = r#"
(() => {
  if (window.__openhuman_playback) return;

  let ctx = null;
  let dest = null;
  let nextStartTime = 0;

  window.__openhuman_playback = {
    init: function() {
      if (ctx) return;

      // Reuse the fake-camera's AudioContext + destination if available,
      // so playback audio flows through the same stream Meet consumes.
      if (window.__openhuman_fake_audio) {
        ctx = window.__openhuman_fake_audio.ctx;
        dest = window.__openhuman_fake_audio.dest;
        return;
      }

      ctx = new (window.AudioContext || window.webkitAudioContext)({ sampleRate: 16000 });
      dest = ctx.createMediaStreamDestination();
    },

    feed: function(b64) {
      if (!ctx || !dest) return;
      if (!b64 || b64.length === 0) return;
      try {
        // base64 → binary → Int16Array
        const binary = atob(b64);
        const bytes = new Uint8Array(binary.length);
        for (let i = 0; i < binary.length; i++) {
          bytes[i] = binary.charCodeAt(i);
        }
        const i16 = new Int16Array(bytes.buffer, bytes.byteOffset, bytes.byteLength / 2);

        // Int16 → Float32
        const f32 = new Float32Array(i16.length);
        for (let i = 0; i < i16.length; i++) {
          f32[i] = i16[i] / 32768.0;
        }

        // Create AudioBuffer and play with precise scheduling
        const buf = ctx.createBuffer(1, f32.length, 16000);
        buf.getChannelData(0).set(f32);
        const src = ctx.createBufferSource();
        src.buffer = buf;
        src.connect(dest);

        // Schedule seamlessly after the previous chunk, or immediately
        // if this is the first chunk or there's a gap.
        const now = ctx.currentTime;
        if (nextStartTime < now) {
          nextStartTime = now;
        }
        src.start(nextStartTime);
        nextStartTime += buf.duration;
      } catch (e) {
        // swallow — playback errors shouldn't crash the bridge
      }
    },

    getStream: function() {
      return dest ? dest.stream : null;
    }
  };
})()
"#;

// ---------------------------------------------------------------------------
// Samples in base64
// ---------------------------------------------------------------------------

/// The samples that a text holds, or the reason why it holds none.
pub open spec fn samples_in(b64: Seq<char>) -> Result<Seq<i16>, Seq<char>> {
    if b64.len() == 0 {
        Ok(Seq::empty())
    } else {
        match base64_text::base64_decoded(b64) {
            Err(e) => Err("base64: "@ + e),
            Ok(bytes) => if bytes.len() % 2 != 0 {
                Err("odd byte length "@ + text::decimal(bytes.len()))
            } else {
                Ok(pcm::pcm_samples(bytes))
            },
        }
    }
}

/// The base64 text of some samples. [`base64_to_pcm`] gives the samples back.
pub fn pcm_to_base64(samples: &[i16]) -> (r: String)
    requires
        base64_text::base64_len(2 * samples@.len()) <= isize::MAX,
    ensures
        r@ == base64_text::base64_encoded(pcm::pcm_bytes(samples@)),
        samples_in(r@) == Ok::<Seq<i16>, Seq<char>>(samples@),
{
    let bytes: Vec<u8> = samples_to_bytes(samples);
    proof {
        pcm::law_samples_survive_bytes(samples@);
    }
    let r: String = encode_base64(bytes.as_slice());
    assert(r@.len() == 0 ==> samples@ =~= Seq::empty());
    r
}

/// The samples that a base64 text holds: none in an empty text, and an error
/// where the text is no base64 or its last sample is cut off.
pub fn base64_to_pcm(b64: &str) -> (r: Result<Vec<i16>, String>)
    ensures
        pcm::pcm_result(r) == samples_in(b64@),
{
    if b64.is_empty() {
        let none: Vec<i16> = Vec::new();
        return Ok(none);
    }
    let bytes: Vec<u8> = match decode_base64(b64) {
        Ok(bytes) => bytes,
        Err(e) => return Err(concat("base64: ", e.as_str())),
    };
    if bytes.len() % 2 != 0 {
        let n: String = decimal_of(bytes.len() as u64);
        return Err(concat("odd byte length ", n.as_str()));
    }
    Ok(bytes_to_samples(bytes.as_slice()))
}

/// How loud a sample is.
pub open spec fn loudness(sample: i16) -> int {
    if sample < 0 {
        -sample
    } else {
        sample as int
    }
}

/// Whether no sample is louder than `threshold`.
pub fn is_silence(samples: &[i16], threshold: i16) -> (r: bool)
    ensures
        r == (forall|i: int| 0 <= i < samples@.len() ==> loudness(#[trigger] samples@[i]) <= threshold),
        r == (forall|i: int|
            0 <= i < samples@.len() ==> -(threshold as int) <= #[trigger] samples@[i] <= threshold),
{
    let mut i: usize = 0;
    while i < samples.len()
        invariant
            i <= samples@.len(),
            forall|j: int| 0 <= j < i ==> loudness(#[trigger] samples@[j]) <= threshold,
        decreases samples@.len() - i,
    {
        let s: i32 = samples[i] as i32;
        let loud: i32 = if s < 0 {
            -s
        } else {
            s
        };
        if loud > threshold as i32 {
            assert(loudness(samples@[i as int]) > threshold);
            return false;
        }
        i = i + 1;
    }
    true
}

// ---------------------------------------------------------------------------
// Evaluation
// ---------------------------------------------------------------------------

/// The text that an evaluation gave; empty where it gave something else.
pub open spec fn evaluated_str(reply: Json) -> Result<Seq<char>, Seq<char>> {
    match reply.get("exceptionDetails"@) {
        Some(exception) => Err("JS exception: "@ + json::json_text(exception)),
        None => match cdp::evaluated(reply) {
            Json::Str(s) => Ok(s),
            _ => Ok(Seq::empty()),
        },
    }
}

/// The text that the reply to an evaluation holds.
pub fn evaluated_text(reply: &Value) -> (r: Result<String, String>)
    ensures
        text::text_result(r) == evaluated_str(json::json_of(*reply)),
{
    match value_get(reply, "exceptionDetails") {
        Some(exception) => {
            let shown: String = value_text(exception);
            return Err(concat("JS exception: ", shown.as_str()));
        },
        None => {},
    }
    match value_get(reply, "result") {
        Some(result) => match value_str_field(result, "value") {
            Some(s) => Ok(s.to_string()),
            None => Ok(String::new()),
        },
        None => Ok(String::new()),
    }
}

/// What came of an evaluation: the text it gave, or why it failed.
pub open spec fn evaluation_outcome(reply: Result<Json, Seq<char>>) -> Result<Seq<char>, Seq<char>> {
    match reply {
        Ok(v) => evaluated_str(v),
        Err(e) => Err(e),
    }
}

fn outcome_of(reply: Result<Value, String>) -> (r: Result<String, String>)
    ensures
        text::text_result(r) == evaluation_outcome(json::json_result(reply)),
{
    match reply {
        Ok(v) => evaluated_text(&v),
        Err(e) => Err(e),
    }
}

// ---------------------------------------------------------------------------
// Setting up
// ---------------------------------------------------------------------------

/// What is set up in the page, one after the other.
#[derive(Debug, Clone, Copy, PartialEq, Eq, Structural)]
pub enum InjectStage {
    Capture,
    Playback,
    StartCapture,
    InitPlayback,
}

/// The command of a stage.
pub open spec fn stage_command(stage: InjectStage, session: Seq<char>) -> CommandView {
    match stage {
        InjectStage::Capture => cdp::evaluation(AUDIO_CAPTURE_SETUP_JS@, Some(false), session),
        InjectStage::Playback => cdp::evaluation(AUDIO_PLAYBACK_SETUP_JS@, Some(false), session),
        InjectStage::StartCapture => cdp::evaluation(
            "window.__openhuman_capture.start()"@,
            Some(true),
            session,
        ),
        InjectStage::InitPlayback => cdp::evaluation(
            "window.__openhuman_playback.init()"@,
            Some(false),
            session,
        ),
    }
}

/// The stage that follows, where one does.
pub open spec fn stage_after(stage: InjectStage) -> Option<InjectStage> {
    match stage {
        InjectStage::Capture => Some(InjectStage::Playback),
        InjectStage::Playback => Some(InjectStage::StartCapture),
        InjectStage::StartCapture => Some(InjectStage::InitPlayback),
        InjectStage::InitPlayback => None,
    }
}

/// What a stage is called in an error.
pub open spec fn stage_label(stage: InjectStage) -> Seq<char> {
    match stage {
        InjectStage::Capture => "[meet-headless-audio] inject capture"@,
        InjectStage::Playback => "[meet-headless-audio] inject playback"@,
        InjectStage::StartCapture => "[meet-headless-audio] capture.start()"@,
        InjectStage::InitPlayback => "[meet-headless-audio] playback.init()"@,
    }
}

/// Whether a script's own exception counts as a failure of the stage: it does
/// where a helper is defined.
pub open spec fn stage_must_not_throw(stage: InjectStage) -> bool {
    stage is Capture || stage is Playback
}

/// What follows a stage: the next one, the end, or an error.
pub open spec fn injected(stage: InjectStage, reply: Result<Json, Seq<char>>) -> Result<
    Option<InjectStage>,
    Seq<char>,
> {
    match reply {
        Err(e) => Err(stage_label(stage) + ": "@ + e),
        Ok(v) => match v.get("exceptionDetails"@) {
            Some(exception) => if stage_must_not_throw(stage) {
                Err(stage_label(stage) + " JS exception: "@ + json::json_text(exception))
            } else {
                Ok(stage_after(stage))
            },
            None => Ok(stage_after(stage)),
        },
    }
}

/// The command of a stage.
pub fn inject_command(stage: InjectStage, session_id: &str) -> (r: CdpCommand)
    ensures
        r@ == stage_command(stage, session_id@),
{
    match stage {
        InjectStage::Capture => evaluate_command(AUDIO_CAPTURE_SETUP_JS, Some(false), session_id),
        InjectStage::Playback => evaluate_command(AUDIO_PLAYBACK_SETUP_JS, Some(false), session_id),
        InjectStage::StartCapture => evaluate_command(
            "window.__openhuman_capture.start()",
            Some(true),
            session_id,
        ),
        InjectStage::InitPlayback => evaluate_command(
            "window.__openhuman_playback.init()",
            Some(false),
            session_id,
        ),
    }
}

/// What follows a stage, now that the reply to its command is there.
pub fn inject_next(stage: InjectStage, reply: Result<Value, String>) -> (r: Result<
    Option<InjectStage>,
    String,
>)
    ensures
        match r {
            Ok(next) => injected(stage, json::json_result(reply)) == Ok::<
                Option<InjectStage>,
                Seq<char>,
            >(next),
            Err(e) => injected(stage, json::json_result(reply)) == Err::<
                Option<InjectStage>,
                Seq<char>,
            >(e@),
        },
{
    let label: &str = match stage {
        InjectStage::Capture => "[meet-headless-audio] inject capture",
        InjectStage::Playback => "[meet-headless-audio] inject playback",
        InjectStage::StartCapture => "[meet-headless-audio] capture.start()",
        InjectStage::InitPlayback => "[meet-headless-audio] playback.init()",
    };
    let value: Value = match reply {
        Ok(v) => v,
        Err(e) => {
            let mut message: String = concat(label, ": ");
            message.append(e.as_str());
            return Err(message);
        },
    };
    match stage {
        InjectStage::Capture | InjectStage::Playback => match value_get(
            &value,
            "exceptionDetails",
        ) {
            Some(exception) => {
                let shown: String = value_text(exception);
                let mut message: String = concat(label, " JS exception: ");
                message.append(shown.as_str());
                return Err(message);
            },
            None => {},
        },
        _ => {},
    }
    match stage {
        InjectStage::Capture => Ok(Some(InjectStage::Playback)),
        InjectStage::Playback => Ok(Some(InjectStage::StartCapture)),
        InjectStage::StartCapture => Ok(Some(InjectStage::InitPlayback)),
        InjectStage::InitPlayback => Ok(None),
    }
}

/// The stages that run from `stage` on when their commands get these replies, in
/// order, and how it ends; nothing where the replies do not reach that far.
pub open spec fn injection(stage: InjectStage, replies: Seq<Result<Json, Seq<char>>>) -> (
    Seq<InjectStage>,
    Option<Result<(), Seq<char>>>,
)
    decreases replies.len(),
{
    if replies.len() == 0 {
        (seq![stage], None)
    } else {
        match injected(stage, replies[0]) {
            Err(e) => (seq![stage], Some(Err(e))),
            Ok(None) => (seq![stage], Some(Ok(()))),
            Ok(Some(next)) => {
                let rest = injection(next, replies.drop_first());
                (seq![stage] + rest.0, rest.1)
            },
        }
    }
}

/// When every command succeeds without an exception, the four stages run once
/// each, in order, and the bridge is set up.
pub proof fn law_injection_runs_every_stage(replies: Seq<Result<Json, Seq<char>>>)
    requires
        replies.len() >= 4,
        forall|i: int|
            0 <= i < replies.len() ==> (#[trigger] replies[i]) is Ok && replies[i]->Ok_0.get(
                "exceptionDetails"@,
            ) is None,
    ensures
        injection(InjectStage::Capture, replies) == (
            seq![
                InjectStage::Capture,
                InjectStage::Playback,
                InjectStage::StartCapture,
                InjectStage::InitPlayback,
            ],
            Some(Ok::<(), Seq<char>>(())),
        ),
{
    let r1 = replies.drop_first();
    let r2 = r1.drop_first();
    let r3 = r2.drop_first();
    assert(replies[0] is Ok && r1[0] == replies[1] && r2[0] == replies[2] && r3[0] == replies[3]);
    reveal_with_fuel(injection, 5);
    assert(injection(InjectStage::Capture, replies).0 =~= seq![
        InjectStage::Capture,
        InjectStage::Playback,
        InjectStage::StartCapture,
        InjectStage::InitPlayback,
    ]);
}

/// The first command that fails ends it: its stage is the last one that runs,
/// and the error names it.
pub proof fn law_injection_stops_at_failure(
    stage: InjectStage,
    replies: Seq<Result<Json, Seq<char>>>,
    e: Seq<char>,
)
    requires
        injection(stage, replies).1 == Some(Err::<(), Seq<char>>(e)),
    ensures
        injection(stage, replies).0.len() > 0,
        stage_label(injection(stage, replies).0.last()).is_prefix_of(e),
    decreases replies.len(),
{
    match injected(stage, replies[0]) {
        Err(_) => {},
        Ok(None) => {},
        Ok(Some(next)) => {
            law_injection_stops_at_failure(next, replies.drop_first(), e);
            let rest = injection(next, replies.drop_first());
            assert((seq![stage] + rest.0).last() == rest.0.last());
        },
    }
}

// ---------------------------------------------------------------------------
// One round
// ---------------------------------------------------------------------------

/// What a round of audio waits for.
#[derive(Debug, Clone, Copy, PartialEq, Eq, Structural)]
pub enum TickState {
    /// What the page played.
    Capturing,
    /// Whether the agent took it.
    Pushing,
    /// What the agent says.
    Polling,
    /// Whether the page plays it.
    Feeding,
    /// Nothing: the round is over.
    Over,
}

/// What a round of audio does next.
#[derive(Debug)]
pub enum TickAction {
    /// Evaluate this in the page.
    Evaluate(String),
    /// Push these samples to the agent's session.
    Push(Vec<i16>),
    /// Take from the agent's session what is to be said, in base64.
    Poll,
    /// End the round.
    Finish(Result<(), String>),
}

/// What a [`TickAction`] holds.
pub enum TickActionView {
    Evaluate(Seq<char>),
    Push(Seq<i16>),
    Poll,
    Finish(Result<(), Seq<char>>),
}

impl View for TickAction {
    type V = TickActionView;

    open spec fn view(&self) -> TickActionView {
        match *self {
            TickAction::Evaluate(expression) => TickActionView::Evaluate(expression@),
            TickAction::Push(samples) => TickActionView::Push(samples@),
            TickAction::Poll => TickActionView::Poll,
            TickAction::Finish(r) => TickActionView::Finish(
                match r {
                    Ok(_) => Ok(()),
                    Err(e) => Err(e@),
                },
            ),
        }
    }
}

/// What came of an action.
#[derive(Debug)]
pub enum TickEvent {
    /// The reply to an evaluation.
    Evaluated(Result<Value, String>),
    /// Whether the samples were taken, and then whether they end an utterance.
    Pushed(Result<bool, String>),
    /// What is to be said, in base64.
    Polled(Result<String, String>),
}

/// What a [`TickEvent`] holds.
pub enum TickEventView {
    Evaluated(Result<Json, Seq<char>>),
    Pushed(Result<bool, Seq<char>>),
    Polled(Result<Seq<char>, Seq<char>>),
}

impl View for TickEvent {
    type V = TickEventView;

    open spec fn view(&self) -> TickEventView {
        match *self {
            TickEvent::Evaluated(r) => TickEventView::Evaluated(json::json_result(r)),
            TickEvent::Pushed(r) => TickEventView::Pushed(
                match r {
                    Ok(end) => Ok(end),
                    Err(e) => Err(e@),
                },
            ),
            TickEvent::Polled(r) => TickEventView::Polled(text::text_result(r)),
        }
    }
}

/// A step of a round: whether the agent is to take its turn now, what to do, and
/// what the round waits for then.
#[derive(Debug)]
pub struct TickStep {
    pub start_turn: bool,
    pub action: TickAction,
    pub state: TickState,
}

/// What a [`TickStep`] holds.
pub struct TickStepView {
    pub start_turn: bool,
    pub action: TickActionView,
    pub state: TickState,
}

impl View for TickStep {
    type V = TickStepView;

    open spec fn view(&self) -> TickStepView {
        TickStepView { start_turn: self.start_turn, action: self.action@, state: self.state }
    }
}

/// The end of a round.
pub open spec fn finished(r: Result<(), Seq<char>>) -> TickStepView {
    TickStepView {
        start_turn: false,
        action: TickActionView::Finish(r),
        state: TickState::Over,
    }
}

/// The step that asks the agent what to say.
pub open spec fn asking_agent(start_turn: bool) -> TickStepView {
    TickStepView { start_turn, action: TickActionView::Poll, state: TickState::Polling }
}

/// The script that hands the page some base64, quoted, to play.
pub open spec fn feed_script(quoted: Seq<char>) -> Seq<char> {
    "window.__openhuman_playback.feed("@ + quoted + ")"@
}

/// The step that plays what the agent says; there may be nothing to play.
pub open spec fn playing(b64: Seq<char>) -> TickStepView {
    if b64.len() == 0 {
        finished(Ok(()))
    } else {
        match json::json_encoded(Json::Str(b64)) {
            Err(e) => finished(Err("quote b64: "@ + e)),
            Ok(quoted) => TickStepView {
                start_turn: false,
                action: TickActionView::Evaluate(feed_script(quoted)),
                state: TickState::Feeding,
            },
        }
    }
}

/// The step that takes what the page played to the agent; there may be nothing.
pub open spec fn hearing(b64: Seq<char>) -> TickStepView {
    match samples_in(b64) {
        Err(e) => finished(Err(e)),
        Ok(samples) => if samples.len() == 0 {
            asking_agent(false)
        } else {
            TickStepView {
                start_turn: false,
                action: TickActionView::Push(samples),
                state: TickState::Pushing,
            }
        },
    }
}

/// The first step of a round.
pub open spec fn tick_opening() -> TickStepView {
    TickStepView {
        start_turn: false,
        action: TickActionView::Evaluate("window.__openhuman_capture.drain()"@),
        state: TickState::Capturing,
    }
}

/// The step that follows an event. What the agent's session does with the
/// samples does not end the round, nor does a session that has gone. An event
/// that the round does not wait for ends it.
pub open spec fn tick_next(state: TickState, event: TickEventView) -> TickStepView {
    match (state, event) {
        (TickState::Capturing, TickEventView::Evaluated(reply)) => match evaluation_outcome(
            reply,
        ) {
            Err(e) => finished(Err(e)),
            Ok(b64) => hearing(b64),
        },
        (TickState::Pushing, TickEventView::Pushed(taken)) => asking_agent(
            taken == Ok::<bool, Seq<char>>(true),
        ),
        (TickState::Polling, TickEventView::Polled(said)) => match said {
            Ok(b64) => playing(b64),
            Err(_) => finished(Ok(())),
        },
        (TickState::Feeding, TickEventView::Evaluated(reply)) => match evaluation_outcome(reply) {
            Err(e) => finished(Err(e)),
            Ok(_) => finished(Ok(())),
        },
        _ => finished(Ok(())),
    }
}

fn finish(r: Result<(), String>) -> (step: TickStep)
    ensures
        step@ == finished(
            match r {
                Ok(_) => Ok(()),
                Err(e) => Err(e@),
            },
        ),
{
    TickStep { start_turn: false, action: TickAction::Finish(r), state: TickState::Over }
}

/// Begins a round of audio.
pub fn begin_tick() -> (r: TickStep)
    ensures
        r@ == tick_opening(),
{
    TickStep {
        start_turn: false,
        action: TickAction::Evaluate("window.__openhuman_capture.drain()".to_string()),
        state: TickState::Capturing,
    }
}

/// The command that evaluates a script of a round in the page of a session.
pub fn tick_command(script: &str, session_id: &str) -> (r: CdpCommand)
    ensures
        r@ == cdp::evaluation(script@, Some(false), session_id@),
{
    evaluate_command(script, Some(false), session_id)
}

/// The step that follows an event. What the agent says, where it says anything,
/// always goes to the page.
pub fn advance_tick(state: TickState, event: TickEvent) -> (r: TickStep)
    ensures
        r@ == tick_next(state, event@),
        state is Polling && event@ is Polled && event@->Polled_0 is Ok
            && event@->Polled_0->Ok_0.len() > 0 ==> r@.state is Feeding && r@.action is Evaluate,
{
    match (state, event) {
        (TickState::Capturing, TickEvent::Evaluated(reply)) => match outcome_of(reply) {
            Err(e) => finish(Err(e)),
            Ok(b64) => match base64_to_pcm(b64.as_str()) {
                Err(e) => finish(Err(e)),
                Ok(samples) => if samples.len() == 0 {
                    TickStep {
                        start_turn: false,
                        action: TickAction::Poll,
                        state: TickState::Polling,
                    }
                } else {
                    TickStep {
                        start_turn: false,
                        action: TickAction::Push(samples),
                        state: TickState::Pushing,
                    }
                },
            },
        },
        (TickState::Pushing, TickEvent::Pushed(taken)) => {
            let start_turn: bool = match taken {
                Ok(end) => end,
                Err(_) => false,
            };
            TickStep { start_turn, action: TickAction::Poll, state: TickState::Polling }
        },
        (TickState::Polling, TickEvent::Polled(said)) => match said {
            Err(_) => finish(Ok(())),
            Ok(b64) => if b64.as_str().is_empty() {
                finish(Ok(()))
            } else {
                let value: Value = value_str(b64.as_str());
                match encode_json(&value) {
                    Err(e) => finish(Err(concat("quote b64: ", e.as_str()))),
                    Ok(quoted) => {
                        let mut script: String = concat(
                            "window.__openhuman_playback.feed(",
                            quoted.as_str(),
                        );
                        script.append(")");
                        TickStep {
                            start_turn: false,
                            action: TickAction::Evaluate(script),
                            state: TickState::Feeding,
                        }
                    },
                }
            },
        },
        (TickState::Feeding, TickEvent::Evaluated(reply)) => match outcome_of(reply) {
            Err(e) => finish(Err(e)),
            Ok(_) => finish(Ok(())),
        },
        _ => finish(Ok(())),
    }
}

/// What the page and the agent's session answer in a round, each when asked.
pub struct TickAnswers {
    pub drained: Result<Json, Seq<char>>,
    pub pushed: Result<bool, Seq<char>>,
    pub polled: Result<Seq<char>, Seq<char>>,
    pub fed: Result<Json, Seq<char>>,
}

/// What a whole round does.
pub struct TickCourse {
    /// The samples that went to the agent, if any did.
    pub heard: Option<Seq<i16>>,
    /// Whether the agent was asked to take its turn.
    pub turn: bool,
    /// What went to the page to be played, if anything did.
    pub played: Option<Seq<char>>,
    /// How the round ended.
    pub end: Result<(), Seq<char>>,
}

/// The answer to an action.
pub open spec fn tick_answer(state: TickState, a: TickAnswers) -> TickEventView {
    match state {
        TickState::Pushing => TickEventView::Pushed(a.pushed),
        TickState::Polling => TickEventView::Polled(a.polled),
        TickState::Feeding => TickEventView::Evaluated(a.fed),
        _ => TickEventView::Evaluated(a.drained),
    }
}

/// What a round does from a step on, given the answers; nothing where it needs
/// more of them than `answers_left`.
pub open spec fn tick_course(step: TickStepView, a: TickAnswers, answers_left: nat) -> Option<
    TickCourse,
>
    decreases answers_left,
{
    match step.action {
        TickActionView::Finish(end) => Some(
            TickCourse { heard: None, turn: step.start_turn, played: None, end },
        ),
        _ => if answers_left == 0 {
            None
        } else {
            match tick_course(
                tick_next(step.state, tick_answer(step.state, a)),
                a,
                (answers_left - 1) as nat,
            ) {
                None => None,
                Some(rest) => Some(
                    TickCourse {
                        heard: match step.action {
                            TickActionView::Push(samples) => Some(samples),
                            _ => rest.heard,
                        },
                        turn: step.start_turn || rest.turn,
                        played: match (step.state, step.action) {
                            (TickState::Feeding, TickActionView::Evaluate(script)) => Some(script),
                            _ => rest.played,
                        },
                        end: rest.end,
                    },
                ),
            }
        },
    }
}

/// What a whole round does: a failure to hear ends it; samples, where there are
/// any, go to the agent, who takes its turn when they end an utterance; then
/// what the agent says, where there is anything, goes to the page, whatever
/// became of the samples.
pub open spec fn whole_tick(a: TickAnswers) -> TickCourse {
    let heard = match evaluation_outcome(a.drained) {
        Err(e) => Err(e),
        Ok(b64) => samples_in(b64),
    };
    match heard {
        Err(e) => TickCourse { heard: None, turn: false, played: None, end: Err(e) },
        Ok(samples) => {
            let pushed = samples.len() > 0;
            let quiet = TickCourse {
                heard: if pushed {
                    Some(samples)
                } else {
                    None
                },
                turn: pushed && a.pushed == Ok::<bool, Seq<char>>(true),
                played: None,
                end: Ok(()),
            };
            match a.polled {
                Ok(b64) => if b64.len() == 0 {
                    quiet
                } else {
                    match json::json_encoded(Json::Str(b64)) {
                        Err(e) => TickCourse { end: Err("quote b64: "@ + e), ..quiet },
                        Ok(quoted) => TickCourse {
                            played: Some(feed_script(quoted)),
                            end: match evaluation_outcome(a.fed) {
                                Ok(_) => Ok(()),
                                Err(e) => Err(e),
                            },
                            ..quiet
                        },
                    }
                },
                Err(_) => quiet,
            }
        },
    }
}

/// A round needs at most four answers, and does what [`whole_tick`] says.
pub proof fn law_tick(a: TickAnswers)
    ensures
        tick_course(tick_opening(), a, 4) == Some(whole_tick(a)),
{
    reveal_with_fuel(tick_course, 5);
}

/// What was captured is all of its samples. Nothing captured is no samples; half a
/// sample at the end, and what is no base64, are errors.
pub proof fn law_captured_audio_is_read(b64: Seq<char>, samples: Seq<i16>, bytes: Seq<u8>)
    ensures
        b64.len() == 0 ==> samples_in(b64) == Ok::<Seq<i16>, Seq<char>>(Seq::empty()),
        b64.len() > 0 && base64_text::base64_decoded(b64) == Ok::<Seq<u8>, Seq<char>>(
            pcm::pcm_bytes(samples),
        ) ==> samples_in(b64) == Ok::<Seq<i16>, Seq<char>>(samples),
        b64.len() > 0 && base64_text::base64_decoded(b64) == Ok::<Seq<u8>, Seq<char>>(bytes)
            && bytes.len() % 2 == 1 ==> samples_in(b64) == Err::<Seq<i16>, Seq<char>>(
            "odd byte length "@ + text::decimal(bytes.len()),
        ),
        b64.len() > 0 ==> (base64_text::base64_decoded(b64) matches Err(e) ==> samples_in(b64)
            == Err::<Seq<i16>, Seq<char>>("base64: "@ + e)),
{
    pcm::law_samples_survive_bytes(samples);
}

/// What a script answers with is the string under its result; nothing where that is
/// no string. A script that throws is an error that shows the exception, and a call
/// that fails is the error it failed with.
pub proof fn law_script_answers_with_its_string(reply: Json, result: Json, e: Seq<char>)
    ensures
        evaluation_outcome(Err(e)) == Err::<Seq<char>, Seq<char>>(e),
        reply.get("exceptionDetails"@) matches Some(exception) ==> evaluation_outcome(Ok(reply))
            == Err::<Seq<char>, Seq<char>>("JS exception: "@ + json::json_text(exception)),
        reply.get("exceptionDetails"@) is None && reply.get("result"@) == Some(result) ==> (
        match result.get("value"@) {
            Some(Json::Str(s)) => evaluation_outcome(Ok(reply)) == Ok::<Seq<char>, Seq<char>>(s),
            _ => evaluation_outcome(Ok(reply)) == Ok::<Seq<char>, Seq<char>>(Seq::empty()),
        }),
        reply.get("exceptionDetails"@) is None && reply.get("result"@) is None
            ==> evaluation_outcome(Ok(reply)) == Ok::<Seq<char>, Seq<char>>(Seq::empty()),
{
}

/// The bridges are put in place by four scripts, one after the other: that of the
/// capture, that of the playback, the start of the capture, which is waited for, and
/// the start of the playback.
pub proof fn law_bridge_scripts(session: Seq<char>, v: Json)
    ensures
        stage_command(InjectStage::Capture, session) == cdp::evaluation(
            AUDIO_CAPTURE_SETUP_JS@,
            Some(false),
            session,
        ),
        stage_command(InjectStage::Playback, session) == cdp::evaluation(
            AUDIO_PLAYBACK_SETUP_JS@,
            Some(false),
            session,
        ),
        stage_command(InjectStage::StartCapture, session) == cdp::evaluation(
            "window.__openhuman_capture.start()"@,
            Some(true),
            session,
        ),
        stage_command(InjectStage::InitPlayback, session) == cdp::evaluation(
            "window.__openhuman_playback.init()"@,
            Some(false),
            session,
        ),
        v.get("exceptionDetails"@) is None ==> {
            &&& injected(InjectStage::Capture, Ok(v)) == Ok::<Option<InjectStage>, Seq<char>>(
                Some(InjectStage::Playback),
            )
            &&& injected(InjectStage::Playback, Ok(v)) == Ok::<Option<InjectStage>, Seq<char>>(
                Some(InjectStage::StartCapture),
            )
        },
        injected(InjectStage::StartCapture, Ok(v)) == Ok::<Option<InjectStage>, Seq<char>>(
            Some(InjectStage::InitPlayback),
        ),
        injected(InjectStage::InitPlayback, Ok(v)) == Ok::<Option<InjectStage>, Seq<char>>(None),
{
}

/// A call that fails ends the injection with an error that names its stage. So does an
/// exception in one of the first two scripts; the other two may throw.
pub proof fn law_bridge_errors(v: Json, e: Seq<char>)
    ensures
        injected(InjectStage::Capture, Err(e)) == Err::<Option<InjectStage>, Seq<char>>(
            "[meet-headless-audio] inject capture"@ + ": "@ + e,
        ),
        injected(InjectStage::Playback, Err(e)) == Err::<Option<InjectStage>, Seq<char>>(
            "[meet-headless-audio] inject playback"@ + ": "@ + e,
        ),
        injected(InjectStage::StartCapture, Err(e)) == Err::<Option<InjectStage>, Seq<char>>(
            "[meet-headless-audio] capture.start()"@ + ": "@ + e,
        ),
        injected(InjectStage::InitPlayback, Err(e)) == Err::<Option<InjectStage>, Seq<char>>(
            "[meet-headless-audio] playback.init()"@ + ": "@ + e,
        ),
        v.get("exceptionDetails"@) matches Some(exception) ==> injected(InjectStage::Capture, Ok(v))
            == Err::<Option<InjectStage>, Seq<char>>(
            "[meet-headless-audio] inject capture"@ + " JS exception: "@ + json::json_text(
                exception,
            ),
        ) && injected(InjectStage::Playback, Ok(v)) == Err::<Option<InjectStage>, Seq<char>>(
            "[meet-headless-audio] inject playback"@ + " JS exception: "@ + json::json_text(
                exception,
            ),
        ),
{
}

/// A tick first drains what was captured. All of the samples that came are pushed to
/// the agent, which is then asked for what it has to say; where no samples came it is
/// asked at once. A turn starts just where the agent says that the utterance is over.
pub proof fn law_what_was_heard_is_pushed(
    reply: Result<Json, Seq<char>>,
    b64: Seq<char>,
    samples: Seq<i16>,
    over: bool,
    e: Seq<char>,
)
    requires
        evaluation_outcome(reply) == Ok::<Seq<char>, Seq<char>>(b64),
    ensures
        tick_opening().action == TickActionView::Evaluate("window.__openhuman_capture.drain()"@),
        tick_opening().state == TickState::Capturing,
        !tick_opening().start_turn,
        ({
            let step = tick_next(TickState::Capturing, TickEventView::Evaluated(reply));
            &&& samples_in(b64) == Ok::<Seq<i16>, Seq<char>>(samples) && samples.len() > 0 ==> step
                == (TickStepView {
                start_turn: false,
                action: TickActionView::Push(samples),
                state: TickState::Pushing,
            })
            &&& samples_in(b64) == Ok::<Seq<i16>, Seq<char>>(samples) && samples.len() == 0 ==> step
                == (TickStepView {
                start_turn: false,
                action: TickActionView::Poll,
                state: TickState::Polling,
            })
            &&& samples_in(b64) == Err::<Seq<i16>, Seq<char>>(e) ==> step.action
                == TickActionView::Finish(Err(e))
        }),
        tick_next(TickState::Pushing, TickEventView::Pushed(Ok(over))) == (TickStepView {
            start_turn: over,
            action: TickActionView::Poll,
            state: TickState::Polling,
        }),
        tick_next(TickState::Pushing, TickEventView::Pushed(Err(e))) == (TickStepView {
            start_turn: false,
            action: TickActionView::Poll,
            state: TickState::Polling,
        }),
{
}

/// What the agent has to say is fed to the page as it is, quoted. Where it has
/// nothing to say, or cannot be asked, the tick is over. A script that fails ends the
/// tick with its error, and an answer that the tick does not wait for ends it without
/// one.
pub proof fn law_what_the_agent_says_is_played(
    b64: Seq<char>,
    reply: Result<Json, Seq<char>>,
    e: Seq<char>,
    state: TickState,
    event: TickEventView,
)
    ensures
        b64.len() > 0 ==> (json::json_encoded(Json::Str(b64)) matches Ok(quoted) ==> tick_next(
            TickState::Polling,
            TickEventView::Polled(Ok(b64)),
        ) == (TickStepView {
            start_turn: false,
            action: TickActionView::Evaluate(
                "window.__openhuman_playback.feed("@ + quoted + ")"@,
            ),
            state: TickState::Feeding,
        })),
        b64.len() == 0 ==> tick_next(TickState::Polling, TickEventView::Polled(Ok(b64))).action
            == TickActionView::Finish(Ok(())),
        tick_next(TickState::Polling, TickEventView::Polled(Err(e))).action
            == TickActionView::Finish(Ok(())),
        evaluation_outcome(reply) is Ok ==> tick_next(
            TickState::Feeding,
            TickEventView::Evaluated(reply),
        ).action == TickActionView::Finish(Ok(())),
        evaluation_outcome(reply) matches Err(why) ==> {
            &&& tick_next(TickState::Feeding, TickEventView::Evaluated(reply)).action
                == TickActionView::Finish(Err(why))
            &&& tick_next(TickState::Capturing, TickEventView::Evaluated(reply)).action
                == TickActionView::Finish(Err(why))
        },
        !(state is Capturing && event is Evaluated) && !(state is Pushing && event is Pushed)
            && !(state is Polling && event is Polled) && !(state is Feeding && event is Evaluated)
            ==> tick_next(state, event).action == TickActionView::Finish(Ok(())),
        tick_next(state, event).start_turn ==> state is Pushing && event == TickEventView::Pushed(
            Ok(true),
        ),
{
}

/// The bridge goes on while fewer than thirty ticks in a row have failed, and gives up
/// at the thirtieth.
pub proof fn law_bridge_bears_29_errors(outcomes: Seq<bool>)
    ensures
        crate::meet_headless::polling::after_rounds(
            MAX_CONSECUTIVE_ERRORS as nat,
            outcomes,
        ).state is Idle <==> (forall|n: int|
            0 <= n <= outcomes.len() ==> crate::meet_headless::polling::failing_streak(
                #[trigger] outcomes.take(n),
            ) < 30),
{
    crate::meet_headless::polling::law_gives_up_at_the_limit(
        MAX_CONSECUTIVE_ERRORS as nat,
        outcomes,
    );
}

/// A step of a tick, and the answer to it, are modelled by what they hold.
pub proof fn law_model_is_what_is_held(step: TickStep, event: TickEvent)
    ensures
        step@.start_turn == step.start_turn,
        step@.state == step.state,
        match step.action {
            TickAction::Evaluate(script) => step@.action == TickActionView::Evaluate(script@),
            TickAction::Push(samples) => step@.action == TickActionView::Push(samples@),
            TickAction::Poll => step@.action == TickActionView::Poll,
            TickAction::Finish(Ok(_)) => step@.action == TickActionView::Finish(Ok(())),
            TickAction::Finish(Err(e)) => step@.action == TickActionView::Finish(Err(e@)),
        },
        match event {
            TickEvent::Evaluated(Ok(v)) => event@ == TickEventView::Evaluated(Ok(json::json_of(v))),
            TickEvent::Evaluated(Err(e)) => event@ == TickEventView::Evaluated(Err(e@)),
            TickEvent::Pushed(Ok(over)) => event@ == TickEventView::Pushed(Ok(over)),
            TickEvent::Pushed(Err(e)) => event@ == TickEventView::Pushed(Err(e@)),
            TickEvent::Polled(Ok(b64)) => event@ == TickEventView::Polled(Ok(b64@)),
            TickEvent::Polled(Err(e)) => event@ == TickEventView::Polled(Err(e@)),
        },
{
}

} // verus!
