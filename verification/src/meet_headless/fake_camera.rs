//! The fake camera and microphone that Meet is shown.

use crate::json::{value_bool, value_object, value_set, value_str, Json};
use crate::meet_headless::cdp::{CdpCommand, CommandView};
use crate::text::{self, concat};
use serde_json::Value;
use vstd::prelude::*;

verus! {

pub const LOG_PREFIX: &'static str = "[meet-headless-camera]";

/// The script that makes `getUserMedia` give a picture with a label and a silent
/// microphone. The microphone's audio destination is left on the window, so that
/// the audio bridge can speak through it. It has to run before any script of the
/// page.
pub const FAKE_CAMERA_OVERRIDE_JS: &'static str = r##"(function() {
    "use strict";

    // Guard: only run in a browser-like environment
    if (typeof navigator === "undefined" || !navigator.mediaDevices) {
        return;
    }

    // Save the original getUserMedia so we can fall back for unexpected calls
    var _origGetUserMedia = navigator.mediaDevices.getUserMedia.bind(navigator.mediaDevices);

    navigator.mediaDevices.getUserMedia = function(constraints) {
        var hasVideo = constraints && constraints.video;
        var hasAudio = constraints && constraints.audio;

        // If neither video nor audio is requested, fall back to the original
        if (!hasVideo && !hasAudio) {
            return _origGetUserMedia(constraints);
        }

        var streams = [];

        // --- Fake video: 640x480 canvas with dark background + label text ---
        if (hasVideo) {
            var canvas = document.createElement("canvas");
            canvas.width = 640;
            canvas.height = 480;
            var ctx = canvas.getContext("2d");

            // Dark background
            ctx.fillStyle = "#1a1a2e";
            ctx.fillRect(0, 0, canvas.width, canvas.height);

            // "OpenHuman Agent" text in coral
            ctx.fillStyle = "#e94560";
            ctx.font = "bold 28px sans-serif";
            ctx.textAlign = "center";
            ctx.textBaseline = "middle";
            ctx.fillText("OpenHuman Agent", canvas.width / 2, canvas.height / 2);

            // Capture at 15 fps
            var videoStream = canvas.captureStream(15);
            streams.push(videoStream);
        }

        // --- Fake audio: silent 0 Hz oscillator via AudioContext ---
        // Expose audioCtx + dest on window so the audio bridge can feed
        // its playback PCM into the same destination that Meet uses.
        if (hasAudio) {
            var audioCtx = new AudioContext({ sampleRate: 16000 });
            var oscillator = audioCtx.createOscillator();
            oscillator.frequency.value = 0;
            oscillator.type = "sine";

            var dest = audioCtx.createMediaStreamDestination();
            oscillator.connect(dest);
            oscillator.start();

            // Export for audio_bridge playback pipeline
            window.__openhuman_fake_audio = {
                ctx: audioCtx,
                dest: dest
            };

            var audioStream = dest.stream;
            streams.push(audioStream);
        }

        // Merge all tracks into a single MediaStream
        var combined = new MediaStream();
        streams.forEach(function(s) {
            s.getTracks().forEach(function(track) {
                combined.addTrack(track);
            });
        });

        return Promise.resolve(combined);
    };
})();
"##;

/// The command that has a script run before any script of a page, from the next
/// page on, in a session or in the whole browser.
pub open spec fn camera_command(session: Option<Seq<char>>) -> CommandView {
    CommandView {
        method: "Page.addScriptToEvaluateOnNewDocument"@,
        params: Json::Object(
            Map::empty().insert("source"@, Json::Str(FAKE_CAMERA_OVERRIDE_JS@)).insert(
                "worldName"@,
                Json::Str(""@),
            ).insert("includeCommandLineAPI"@, Json::Bool(false)).insert(
                "runImmediately"@,
                Json::Bool(true),
            ),
        ),
        session_id: session,
    }
}

/// The command that puts the fake camera in place.
pub fn inject_fake_camera_command(session_id: Option<String>) -> (r: CdpCommand)
    ensures
        r@ == camera_command(text::opt_text(session_id)),
{
    let mut params: Value = value_object();
    value_set(&mut params, "source", value_str(FAKE_CAMERA_OVERRIDE_JS));
    value_set(&mut params, "worldName", value_str(""));
    value_set(&mut params, "includeCommandLineAPI", value_bool(false));
    value_set(&mut params, "runImmediately", value_bool(true));
    CdpCommand {
        method: "Page.addScriptToEvaluateOnNewDocument".to_string(),
        params,
        session_id,
    }
}

/// What came of [`inject_fake_camera_command`].
pub fn fake_camera_injected(reply: Result<Value, String>) -> (r: Result<(), String>)
    ensures
        r is Ok <==> reply is Ok,
        r is Err ==> r->Err_0@ == "[meet-headless-camera] failed to inject fake-camera override: "@
            + reply->Err_0@,
{
    match reply {
        Ok(_) => Ok(()),
        Err(e) => Err(
            concat("[meet-headless-camera] failed to inject fake-camera override: ", e.as_str()),
        ),
    }
}

// ---------------------------------------------------------------------------
// Laws
// ---------------------------------------------------------------------------

/// The override of the camera is installed as a script that runs on every new
/// document, and on the one that is there, before the page's own scripts and in the
/// page's own world.
pub proof fn law_override_runs_in_every_document(session: Option<Seq<char>>)
    ensures
        ({
            let c = camera_command(session);
            &&& c.method == "Page.addScriptToEvaluateOnNewDocument"@
            &&& c.session_id == session
            &&& c.params.get("source"@) == Some(Json::Str(FAKE_CAMERA_OVERRIDE_JS@))
            &&& c.params.get("worldName"@) == Some(Json::Str(""@))
            &&& c.params.get("includeCommandLineAPI"@) == Some(Json::Bool(false))
            &&& c.params.get("runImmediately"@) == Some(Json::Bool(true))
            &&& forall|key: Seq<char>| #[trigger]
                c.params.get(key) is Some ==> key == "source"@ || key == "worldName"@ || key == "includeCommandLineAPI"@ || key == "runImmediately"@
        }),
{
    reveal_strlit("source");
    reveal_strlit("worldName");
    reveal_strlit("includeCommandLineAPI");
    reveal_strlit("runImmediately");
    assert("source"@[0] == 's' && "worldName"@[0] == 'w');
    assert("includeCommandLineAPI"@[0] == 'i' && "runImmediately"@[0] == 'r');
}

} // verus!
