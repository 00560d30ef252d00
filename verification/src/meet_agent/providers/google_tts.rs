//! Google Cloud Text-to-Speech, by its v1 REST API with an API key. It answers
//! with LINEAR16 audio in base64.

use crate::base64_text::{self, decode_base64};
use crate::config::{MeetAgentConfig, ProviderConfig};
use crate::json::{
    self, value_int, value_object, value_set, value_str, value_str_field, value_text, Json,
};
use crate::meet_agent::providers::http::{HttpReply, HttpRequest, ReplyView, RequestView};
use crate::pcm::{self, bytes_to_samples};
use crate::text::{self, concat, decimal_of};
use serde_json::Value;
use vstd::prelude::*;

verus! {

/// The voice that is used where none is named.
pub const DEFAULT_VOICE: &'static str = "ja-JP-Standard-A";

/// The language that is spoken.
pub const DEFAULT_LANGUAGE: &'static str = "ja-JP";

/// The environment variable that holds the key where the settings hold none.
pub const ENV_API_KEY: &'static str = "GOOGLE_API_KEY";

/// Where the API is found unless the settings say otherwise.
pub const DEFAULT_BASE_URL: &'static str = "https://texttospeech.googleapis.com";

/// How long a request may take.
pub const TIMEOUT_SECS: u64 = 20;

/// The length of the header in front of the audio of a WAV file.
pub const WAV_HEADER_LEN: usize = 44;

/// Google Cloud Text-to-Speech.
pub struct GoogleTts {
    api_key: String,
    voice: String,
    language: String,
    base_url: String,
}

/// What a [`GoogleTts`] holds.
pub struct GoogleTtsView {
    pub api_key: Seq<char>,
    pub voice: Seq<char>,
    pub language: Seq<char>,
    pub base_url: Seq<char>,
}

impl View for GoogleTts {
    type V = GoogleTtsView;

    closed spec fn view(&self) -> GoogleTtsView {
        GoogleTtsView {
            api_key: self.api_key@,
            voice: self.voice@,
            language: self.language@,
            base_url: self.base_url@,
        }
    }
}

/// The provider that some settings and a key from the environment give, or the
/// reason why they give none.
pub open spec fn configured(
    settings: Option<ProviderConfig>,
    env_api_key: Option<Seq<char>>,
) -> Result<GoogleTtsView, Seq<char>> {
    let key = match settings {
        Some(c) => if c.api_key is Some {
            text::opt_text(c.api_key)
        } else {
            env_api_key
        },
        None => env_api_key,
    };
    let voice = match settings {
        Some(c) => match c.tts_voice {
            Some(v) => v@,
            None => DEFAULT_VOICE@,
        },
        None => DEFAULT_VOICE@,
    };
    let base_url = match settings {
        Some(c) => match c.base_url {
            Some(u) => u@,
            None => DEFAULT_BASE_URL@,
        },
        None => DEFAULT_BASE_URL@,
    };
    match key {
        Some(api_key) => Ok(
            GoogleTtsView { api_key, voice, language: DEFAULT_LANGUAGE@, base_url },
        ),
        None => Err("google TTS: no API key in config or $GOOGLE_API_KEY env var"@),
    }
}

/// The body of a request to say a text.
pub open spec fn synthesize_json(p: GoogleTtsView, said: Seq<char>, sample_rate: u32) -> Json {
    let input = Json::Object(Map::empty().insert("text"@, Json::Str(said)));
    let voice = Json::Object(
        Map::empty().insert("languageCode"@, Json::Str(p.language)).insert(
            "name"@,
            Json::Str(p.voice),
        ),
    );
    let audio = Json::Object(
        Map::empty().insert("audioEncoding"@, Json::Str("LINEAR16"@)).insert(
            "sampleRateHertz"@,
            Json::Int(sample_rate as int),
        ),
    );
    Json::Object(
        Map::empty().insert("input"@, input).insert("voice"@, voice).insert("audioConfig"@, audio),
    )
}

/// The request to say a text. The key travels in a header, so that it shows in
/// no URL.
pub open spec fn synthesis(p: GoogleTtsView, said: Seq<char>, sample_rate: u32) -> RequestView {
    RequestView {
        url: p.base_url + "/v1/text:synthesize"@,
        headers: seq![("X-goog-api-key"@, p.api_key)],
        body: synthesize_json(p, said, sample_rate),
    }
}

/// Whether some bytes begin as a WAV file does.
pub open spec fn is_riff(bytes: Seq<u8>) -> bool {
    bytes.len() >= 4 && bytes[0] == 0x52 && bytes[1] == 0x49 && bytes[2] == 0x46 && bytes[3] == 0x46
}

/// The audio in an answer: what follows the header of a WAV file, or all of it
/// where there is no header to take off.
pub open spec fn audio_of(bytes: Seq<u8>) -> Seq<u8> {
    if is_riff(bytes) && bytes.len() > WAV_HEADER_LEN {
        bytes.skip(WAV_HEADER_LEN as int)
    } else {
        bytes
    }
}

/// The samples in an answer, or the reason why it holds none.
pub open spec fn spoken_samples(raw: Json) -> Result<Seq<i16>, Seq<char>> {
    let content = match raw.get("audioContent"@) {
        Some(v) => v.as_str(),
        None => None,
    };
    match content {
        None => Err("google TTS missing audioContent: "@ + json::json_text(raw)),
        Some(encoded) => match base64_text::base64_decoded(encoded) {
            Err(e) => Err("google TTS base64 decode: "@ + e),
            Ok(bytes) => if audio_of(bytes).len() % 2 != 0 {
                Err("google TTS odd byte length: "@ + text::decimal(audio_of(bytes).len()))
            } else {
                Ok(pcm::pcm_samples(audio_of(bytes)))
            },
        },
    }
}

/// What a reply gives: samples, or the reason why there are none.
pub open spec fn synthesized(reply: ReplyView) -> Result<Seq<i16>, Seq<char>> {
    match reply {
        ReplyView::Failed(e) => Err("google TTS HTTP request failed"@),
        ReplyView::Status { status, text } => Err("google TTS HTTP "@ + status + ": "@ + text),
        ReplyView::NotJson(e) => Err("google TTS JSON parse: "@ + e),
        ReplyView::Json(raw) => spoken_samples(raw),
    }
}

fn strip_wav_header(bytes: &[u8]) -> (r: &[u8])
    ensures
        r@ == audio_of(bytes@),
{
    if bytes.len() > WAV_HEADER_LEN && bytes[0] == 0x52 && bytes[1] == 0x49 && bytes[2] == 0x46
        && bytes[3] == 0x46 {
        assert(bytes@.subrange(WAV_HEADER_LEN as int, bytes@.len() as int) =~= bytes@.skip(
            WAV_HEADER_LEN as int,
        ));
        vstd::slice::slice_subrange(bytes, WAV_HEADER_LEN, bytes.len())
    } else {
        bytes
    }
}

impl GoogleTts {
    /// The provider for the settings in `config`. The API key is read from the
    /// settings of `google`, or else is `env_api_key`, what the environment
    /// holds under [`ENV_API_KEY`]. Speech to text and text to speech share the
    /// key.
    pub fn from_config(config: &MeetAgentConfig, env_api_key: Option<String>) -> (r: Result<
        Self,
        String,
    >)
        ensures
            match r {
                Ok(p) => configured(config.settings("google"@), text::opt_text(env_api_key)) == Ok::<
                    GoogleTtsView,
                    Seq<char>,
                >(p@),
                Err(e) => configured(config.settings("google"@), text::opt_text(env_api_key))
                    == Err::<GoogleTtsView, Seq<char>>(e@),
            },
            // The key of the settings goes before the environment's.
            r is Ok <==> env_api_key is Some || (config.providers@.contains_key("google"@)
                && config.providers@["google"@].api_key is Some),
            r matches Err(e) ==> e@ == "google TTS: no API key in config or $GOOGLE_API_KEY env var"@,
            r matches Ok(p) ==> {
                let set = config.providers@.contains_key("google"@);
                let c = config.providers@["google"@];
                &&& p@.api_key == if set && c.api_key is Some {
                    c.api_key->0@
                } else {
                    env_api_key->0@
                }
                &&& p@.voice == if set && c.tts_voice is Some {
                    c.tts_voice->0@
                } else {
                    "ja-JP-Standard-A"@
                }
                &&& p@.base_url == if set && c.base_url is Some {
                    c.base_url->0@
                } else {
                    "https://texttospeech.googleapis.com"@
                }
                &&& p@.language == "ja-JP"@
            },
    {
        let mut api_key: Option<String> = env_api_key;
        let mut voice: String = DEFAULT_VOICE.to_string();
        let mut base_url: String = DEFAULT_BASE_URL.to_string();
        match config.providers.get("google") {
            Some(c) => {
                match &c.api_key {
                    Some(k) => {
                        api_key = Some(k.clone());
                    },
                    None => {},
                }
                match &c.tts_voice {
                    Some(v) => {
                        voice = v.clone();
                    },
                    None => {},
                }
                match &c.base_url {
                    Some(u) => {
                        base_url = u.clone();
                    },
                    None => {},
                }
            },
            None => {},
        }
        match api_key {
            Some(api_key) => Ok(
                GoogleTts { api_key, voice, language: DEFAULT_LANGUAGE.to_string(), base_url },
            ),
            None => Err("google TTS: no API key in config or $GOOGLE_API_KEY env var".to_string()),
        }
    }

    /// The request to say `said`.
    pub fn synthesize_request(&self, said: &str, sample_rate: u32) -> (r: HttpRequest)
        ensures
            r@ == synthesis(self@, said@, sample_rate),
    {
        let mut input: Value = value_object();
        value_set(&mut input, "text", value_str(said));
        let mut voice: Value = value_object();
        value_set(&mut voice, "languageCode", value_str(self.language.as_str()));
        value_set(&mut voice, "name", value_str(self.voice.as_str()));
        let mut audio: Value = value_object();
        value_set(&mut audio, "audioEncoding", value_str("LINEAR16"));
        value_set(&mut audio, "sampleRateHertz", value_int(sample_rate as i64));
        let mut body: Value = value_object();
        value_set(&mut body, "input", input);
        value_set(&mut body, "voice", voice);
        value_set(&mut body, "audioConfig", audio);
        let mut headers: Vec<(String, String)> = Vec::new();
        headers.push(("X-goog-api-key".to_string(), self.api_key.clone()));
        let r = HttpRequest {
            url: concat(self.base_url.as_str(), "/v1/text:synthesize"),
            headers,
            body,
        };
        assert(r@.headers =~= synthesis(self@, said@, sample_rate).headers);
        r
    }

    /// The samples that the reply to a request holds.
    pub fn samples(reply: &HttpReply) -> (r: Result<Vec<i16>, String>)
        ensures
            pcm::pcm_result(r) == synthesized(reply@),
    {
        let raw: &Value = match reply {
            HttpReply::Failed(_) => return Err("google TTS HTTP request failed".to_string()),
            HttpReply::Status { status, text } => {
                let mut message: String = concat("google TTS HTTP ", status.as_str());
                message.append(": ");
                message.append(text.as_str());
                return Err(message);
            },
            HttpReply::NotJson(e) => return Err(concat("google TTS JSON parse: ", e.as_str())),
            HttpReply::Json(raw) => raw,
        };
        let encoded: &str = match value_str_field(raw, "audioContent") {
            Some(s) => s,
            None => {
                let shown: String = value_text(raw);
                return Err(concat("google TTS missing audioContent: ", shown.as_str()));
            },
        };
        let bytes: Vec<u8> = match decode_base64(encoded) {
            Ok(bytes) => bytes,
            Err(e) => return Err(concat("google TTS base64 decode: ", e.as_str())),
        };
        let audio: &[u8] = strip_wav_header(bytes.as_slice());
        if audio.len() % 2 != 0 {
            let n: String = decimal_of(audio.len() as u64);
            return Err(concat("google TTS odd byte length: ", n.as_str()));
        }
        Ok(bytes_to_samples(audio))
    }
}

/// Neither the URL of a request nor the message after a request that failed
/// tells anything of the key: they are the same for every key.
pub proof fn law_key_stays_secret(
    p: GoogleTtsView,
    key: Seq<char>,
    said: Seq<char>,
    sample_rate: u32,
    a: Seq<char>,
    b: Seq<char>,
)
    ensures
        synthesis(p, said, sample_rate).url == synthesis(
            GoogleTtsView { api_key: key, ..p },
            said,
            sample_rate,
        ).url,
        synthesis(p, said, sample_rate).body == synthesis(
            GoogleTtsView { api_key: key, ..p },
            said,
            sample_rate,
        ).body,
        synthesized(ReplyView::Failed(a)) == synthesized(ReplyView::Failed(b)),
{
}

/// Samples that come as a WAV file, behind any header of the usual length, are
/// read as they were written.
pub proof fn law_wav_audio_is_read(raw: Json, encoded: Seq<char>, header: Seq<u8>, samples: Seq<i16>)
    requires
        raw.get("audioContent"@) == Some(Json::Str(encoded)),
        header.len() == WAV_HEADER_LEN,
        is_riff(header),
        samples.len() > 0,
    ensures
        base64_text::base64_decoded(encoded) == Ok::<Seq<u8>, Seq<char>>(
            header + pcm::pcm_bytes(samples),
        ) ==> spoken_samples(raw) == Ok::<Seq<i16>, Seq<char>>(samples),
{
    let bytes = header + pcm::pcm_bytes(samples);
    assert(bytes.skip(WAV_HEADER_LEN as int) =~= pcm::pcm_bytes(samples));
    pcm::law_samples_survive_bytes(samples);
}

/// The settings are followed one by one. The API key of the settings goes before
/// that of the environment, and without either there is no provider; each of the
/// other settings has its own default, and none stands in for another.
pub proof fn law_settings_are_followed(
    settings: Option<ProviderConfig>,
    env_api_key: Option<Seq<char>>,
)
    ensures
        (settings is Some && (settings->0).api_key is Some) || env_api_key is Some ==> configured(
            settings,
            env_api_key,
        ) is Ok,
        !(settings is Some && (settings->0).api_key is Some) && env_api_key is None ==> configured(
            settings,
            env_api_key,
        ) == Err::<GoogleTtsView, Seq<char>>(
            "google TTS: no API key in config or $GOOGLE_API_KEY env var"@,
        ),
        configured(settings, env_api_key) matches Ok(p) ==> {
            &&& settings is Some && (settings->0).api_key is Some ==> p.api_key
                == (settings->0).api_key->0@
            &&& !(settings is Some && (settings->0).api_key is Some) ==> env_api_key == Some(
                p.api_key,
            )
            &&& settings is Some && (settings->0).tts_voice is Some ==> p.voice
                == (settings->0).tts_voice->0@
            &&& !(settings is Some && (settings->0).tts_voice is Some) ==> p.voice
                == "ja-JP-Standard-A"@
            &&& settings is Some && (settings->0).base_url is Some ==> p.base_url
                == (settings->0).base_url->0@
            &&& !(settings is Some && (settings->0).base_url is Some) ==> p.base_url
                == "https://texttospeech.googleapis.com"@
            &&& p.language == "ja-JP"@
        },
{
}

/// The text to say goes out as it is, to be said in the provider's voice and
/// language, as bare 16-bit samples at the rate that was asked for; the key goes
/// into a header.
pub proof fn law_text_is_sent_as_it_is(p: GoogleTtsView, said: Seq<char>, sample_rate: u32)
    ensures
        ({
            let r = synthesis(p, said, sample_rate);
            &&& r.url == p.base_url + "/v1/text:synthesize"@
            &&& r.headers == seq![("X-goog-api-key"@, p.api_key)]
            &&& r.body.get("input"@) is Some
            &&& (r.body.get("input"@)->0).get("text"@) == Some(Json::Str(said))
            &&& r.body.get("voice"@) is Some
            &&& (r.body.get("voice"@)->0).get("languageCode"@) == Some(Json::Str(p.language))
            &&& (r.body.get("voice"@)->0).get("name"@) == Some(Json::Str(p.voice))
            &&& r.body.get("audioConfig"@) is Some
            &&& (r.body.get("audioConfig"@)->0).get("audioEncoding"@) == Some(
                Json::Str("LINEAR16"@),
            )
            &&& (r.body.get("audioConfig"@)->0).get("sampleRateHertz"@) == Some(
                Json::Int(sample_rate as int),
            )
            &&& forall|key: Seq<char>| #[trigger]
                r.body.get(key) is Some ==> key == "input"@ || key == "voice"@ || key == "audioConfig"@
            &&& forall|key: Seq<char>| #[trigger]
                (r.body.get("input"@)->0).get(key) is Some ==> key == "text"@
            &&& forall|key: Seq<char>| #[trigger]
                (r.body.get("voice"@)->0).get(key) is Some ==> key == "languageCode"@ || key == "name"@
            &&& forall|key: Seq<char>| #[trigger]
                (r.body.get("audioConfig"@)->0).get(key) is Some ==> key == "audioEncoding"@ || key == "sampleRateHertz"@
        }),
{
    reveal_strlit("input");
    reveal_strlit("voice");
    reveal_strlit("audioConfig");
    reveal_strlit("languageCode");
    reveal_strlit("name");
    reveal_strlit("audioEncoding");
    reveal_strlit("sampleRateHertz");
    assert("input"@[0] == 'i' && "voice"@[0] == 'v' && "audioConfig"@[0] == 'a');
    assert("languageCode"@[0] == 'l' && "name"@[0] == 'n');
    assert("audioEncoding"@[0] == 'a' && "sampleRateHertz"@[0] == 's');
}

/// The samples are those of the audio in the reply: all of it, but for the 44 bytes
/// of a header where it begins with `RIFF` and holds more than that header. Half a
/// sample at the end is an error, as is audio that is not there.
pub proof fn law_all_audio_is_read(raw: Json, encoded: Seq<char>, bytes: Seq<u8>, audio: Seq<u8>)
    requires
        raw.get("audioContent"@) == Some(Json::Str(encoded)),
        bytes.len() > 44 && bytes[0] == 0x52 && bytes[1] == 0x49 && bytes[2] == 0x46 && bytes[3]
            == 0x46 ==> audio == bytes.skip(44),
        !(bytes.len() > 44 && bytes[0] == 0x52 && bytes[1] == 0x49 && bytes[2] == 0x46 && bytes[3]
            == 0x46) ==> audio == bytes,
    ensures
        base64_text::base64_decoded(encoded) == Ok::<Seq<u8>, Seq<char>>(bytes) ==> synthesized(
            ReplyView::Json(raw),
        ) == if audio.len() % 2 == 0 {
            Ok(pcm::pcm_samples(audio))
        } else {
            Err("google TTS odd byte length: "@ + text::decimal(audio.len()))
        },
{
}

/// A reply that brings no audio is an error that says what came instead, but for
/// the reason of a request that failed.
pub proof fn law_no_audio_is_an_error(raw: Json, status: Seq<char>, said: Seq<char>, e: Seq<char>)
    ensures
        synthesized(ReplyView::Failed(e)) == Err::<Seq<i16>, Seq<char>>(
            "google TTS HTTP request failed"@,
        ),
        synthesized(ReplyView::Status { status, text: said }) == Err::<Seq<i16>, Seq<char>>(
            "google TTS HTTP "@ + status + ": "@ + said,
        ),
        synthesized(ReplyView::NotJson(e)) == Err::<Seq<i16>, Seq<char>>(
            "google TTS JSON parse: "@ + e,
        ),
        !(raw.get("audioContent"@) is Some && raw.get("audioContent"@)->0 is Str) ==> synthesized(
            ReplyView::Json(raw),
        ) == Err::<Seq<i16>, Seq<char>>("google TTS missing audioContent: "@ + json::json_text(raw)),
{
}

} // verus!
