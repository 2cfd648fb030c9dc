//! MiniMax: settings and where they come from, image and speech payloads,
//! and the decoding of their replies (hex audio included).

use vstd::prelude::*;

use vstd::string::StringSliceAdditionalSpecFns;
use vstd::utf8::encode_utf8;

use crate::error::{AgentPlanError, ErrorView};
use crate::text::{is_blank, is_blank_str};

verus! {

/// `u8::is_ascii_whitespace`: space, tab, line feed, form feed, carriage
/// return.
pub open spec fn is_ascii_ws_byte(b: u8) -> bool {
    b == 0x20 || b == 0x09 || b == 0x0a || b == 0x0c || b == 0x0d
}

/// The value of an ASCII hexadecimal digit, in either case.
pub open spec fn hex_digit(b: u8) -> Option<u8> {
    if 0x30 <= b && b <= 0x39 {
        Some((b - 0x30) as u8)
    } else if 0x61 <= b && b <= 0x66 {
        Some((b - 0x61 + 10) as u8)
    } else if 0x41 <= b && b <= 0x46 {
        Some((b - 0x41 + 10) as u8)
    } else {
        None
    }
}

/// The bytes of `s` with ASCII whitespace left out.
pub open spec fn without_ascii_ws(s: Seq<u8>) -> Seq<u8> {
    s.filter(|b: u8| !is_ascii_ws_byte(b))
}

/// The bytes that a whitespace-free hex text `c` spells, two digits a byte,
/// high digit first; `None` when its length is odd or a character is not a
/// hex digit.
pub open spec fn hex_bytes(c: Seq<u8>) -> Option<Seq<u8>> {
    if c.len() % 2 == 0 && (forall|i: int| 0 <= i < c.len() ==> (#[trigger] hex_digit(c[i])) is Some) {
        Some(
            Seq::new(
                c.len() / 2,
                |k: int| (hex_digit(c[2 * k])->0 * 16 + hex_digit(c[2 * k + 1])->0) as u8,
            ),
        )
    } else {
        None
    }
}

/// The value of one hex digit.
pub fn hex_value(byte: u8) -> (r: Result<u8, AgentPlanError>)
    ensures
        match hex_digit(byte) {
            Some(v) => r == Ok::<u8, AgentPlanError>(v),
            None => r matches Err(AgentPlanError::InvalidAudioHex),
        },
{
    if 0x30 <= byte && byte <= 0x39 {
        Ok(byte - 0x30)
    } else if 0x61 <= byte && byte <= 0x66 {
        Ok(byte - 0x61 + 10)
    } else if 0x41 <= byte && byte <= 0x46 {
        Ok(byte - 0x41 + 10)
    } else {
        Err(AgentPlanError::InvalidAudioHex)
    }
}

/// Decodes hex-encoded audio, ignoring ASCII whitespace anywhere in it.
pub fn decode_hex_audio(value: &str) -> (r: Result<Vec<u8>, AgentPlanError>)
    ensures
        match hex_bytes(without_ascii_ws(value.spec_bytes())) {
            Some(audio) => (r matches Ok(v) && v@ == audio),
            None => r matches Err(AgentPlanError::InvalidAudioHex),
        },
{
    let bytes = value.as_bytes();
    let ghost s = bytes@;
    let mut compact: Vec<u8> = Vec::new();
    let mut i: usize = 0;
    while i < bytes.len()
        invariant
            s == bytes@,
            0 <= i <= bytes@.len(),
            compact@ == without_ascii_ws(s.take(i as int)),
        decreases bytes@.len() - i,
    {
        let b = bytes[i];
        proof {
            reveal_with_fuel(Seq::<_>::filter, 1);
            assert(s.take(i + 1).drop_last() == s.take(i as int));
        }
        if !(b == 0x20 || b == 0x09 || b == 0x0a || b == 0x0c || b == 0x0d) {
            compact.push(b);
        }
        i = i + 1;
    }
    proof {
        assert(s.take(s.len() as int) == s);
    }
    let ghost c = compact@;
    if compact.len() % 2 != 0 {
        return Err(AgentPlanError::InvalidAudioHex);
    }
    let mut out: Vec<u8> = Vec::new();
    let mut k: usize = 0;
    let half = compact.len() / 2;
    while k < half
        invariant
            c == compact@,
            c == without_ascii_ws(value.spec_bytes()),
            c.len() % 2 == 0,
            half == c.len() / 2,
            0 <= k <= half,
            out@.len() == k,
            forall|j: int| 0 <= j < 2 * k ==> (#[trigger] hex_digit(c[j])) is Some,
            forall|j: int|
                0 <= j < k ==> #[trigger] out@[j] == (hex_digit(c[2 * j])->0 * 16 + hex_digit(
                    c[2 * j + 1],
                )->0) as u8,
        decreases half - k,
    {
        assert(2 * k + 1 < c.len());
        assert(2 * k + 1 < compact.len());
        let at = k + k;
        let high = match hex_value(compact[at]) {
            Ok(v) => v,
            Err(e) => {
                assert(hex_digit(c[2 * k as int]) is None);
                return Err(e);
            },
        };
        let low = match hex_value(compact[at + 1]) {
            Ok(v) => v,
            Err(e) => {
                assert(hex_digit(c[2 * k + 1]) is None);
                return Err(e);
            },
        };
        assert(high < 16 && low < 16);
        assert((high << 4) | low == high * 16 + low) by (bit_vector)
            requires
                high < 16,
                low < 16,
        ;
        out.push((high << 4) | low);
        k = k + 1;
    }
    proof {
        assert(hex_bytes(c) matches Some(v) && v =~= out@);
    }
    Ok(out)
}


/// The MiniMax image endpoint used when none is configured.
pub const DEFAULT_MINIMAX_IMAGE_URL: &'static str = "https://api.minimax.io/v1/image_generation";

/// The MiniMax speech endpoint used when none is configured.
pub const DEFAULT_MINIMAX_TTS_URL: &'static str = "https://api.minimax.io/v1/t2a_v2";

/// The status block that MiniMax attaches to its replies.
#[derive(Debug, Clone)]
pub struct MinimaxBaseResp {
    pub status_code: i64,
    pub status_msg: String,
}

impl MinimaxBaseResp {
    /// Succeeds exactly when the status code is zero; any other code becomes
    /// an `ApiCode` error carrying the code and the status message.
    pub fn ensure_success(&self) -> (r: Result<(), AgentPlanError>)
        ensures
            r is Ok <==> self.status_code == 0,
            r matches Err(e) ==> e@ == (ErrorView::ApiCode {
                code: self.status_code,
                message: self.status_msg@,
            }),
    {
        if self.status_code == 0 {
            return Ok(());
        }
        Err(AgentPlanError::ApiCode { code: self.status_code, message: self.status_msg.clone() })
    }
}

/// Whether an optional status block reports success (an absent one does).
pub open spec fn base_resp_ok(b: Option<MinimaxBaseResp>) -> bool {
    match b {
        Some(b) => b.status_code == 0,
        None => true,
    }
}

/// The error that a failed status block reports.
pub open spec fn base_resp_error(b: MinimaxBaseResp) -> ErrorView {
    ErrorView::ApiCode { code: b.status_code, message: b.status_msg@ }
}

/// An image generation request to MiniMax.
#[derive(Debug, Clone)]
pub struct MinimaxImageRequest {
    pub model: String,
    pub prompt: String,
    pub response_format: String,
    pub n: Option<u32>,
    pub prompt_optimizer: Option<bool>,
}

impl MinimaxImageRequest {
    /// A request for one image from `image-01`, answered with URLs.
    pub fn new(prompt: String) -> (r: Self)
        ensures
            r.model@ == "image-01"@,
            r.prompt@ == prompt@,
            r.response_format@ == "url"@,
            r.n == Some(1u32),
            r.prompt_optimizer is None,
    {
        MinimaxImageRequest {
            model: "image-01".to_string(),
            prompt,
            response_format: "url".to_string(),
            n: Some(1),
            prompt_optimizer: None,
        }
    }
}

/// The image URLs of a MiniMax image reply.
#[derive(Debug, Clone)]
pub struct MinimaxImageData {
    pub image_urls: Vec<String>,
}

/// A MiniMax image reply.
#[derive(Debug, Clone)]
pub struct MinimaxImageResponse {
    pub created: Option<u64>,
    pub data: Option<MinimaxImageData>,
    pub base_resp: Option<MinimaxBaseResp>,
}

impl MinimaxImageResponse {
    /// Succeeds unless the reply carries a status block with a nonzero code.
    pub fn ensure_success(&self) -> (r: Result<(), AgentPlanError>)
        ensures
            r is Ok <==> base_resp_ok(self.base_resp),
            r matches Err(e) ==> (self.base_resp matches Some(b) && e@ == base_resp_error(b)),
    {
        if let Some(base_resp) = &self.base_resp {
            base_resp.ensure_success()?;
        }
        Ok(())
    }

    /// The generated image URLs; none when the reply has no data block.
    pub fn image_urls(&self) -> (r: &[String])
        ensures
            r@ == match self.data {
                Some(d) => d.image_urls@,
                None => Seq::<String>::empty(),
            },
    {
        match &self.data {
            Some(data) => data.image_urls.as_slice(),
            None => &[],
        }
    }
}

/// The sample format of MiniMax speech.
#[derive(Debug, Clone, Copy, PartialEq, Eq, Structural)]
pub enum MinimaxAudioFormat {
    Mp3,
    Wav,
    Flac,
    Pcm,
}

/// The audio settings of a MiniMax speech request.
#[derive(Debug, Clone, Copy)]
pub struct MinimaxAudioSetting {
    pub sample_rate: u32,
    pub bitrate: u32,
    pub format: MinimaxAudioFormat,
    pub channel: u32,
}

/// Decoded MiniMax speech.
#[derive(Debug)]
pub struct MinimaxTtsResponse {
    pub audio: Vec<u8>,
    pub trace_id: Option<String>,
    pub extra_info: Option<serde_json::Value>,
}

/// The data block of a MiniMax speech reply.
#[derive(Debug, Clone)]
pub struct RawMinimaxTtsData {
    pub audio: Option<String>,
}

/// A MiniMax speech reply as it arrives, audio still hex-encoded.
#[derive(Debug)]
pub struct RawMinimaxTtsResponse {
    pub data: Option<RawMinimaxTtsData>,
    pub trace_id: Option<String>,
    pub extra_info: Option<serde_json::Value>,
    pub base_resp: Option<MinimaxBaseResp>,
}

/// The hex audio text of a raw speech reply, if it has one.
pub open spec fn raw_audio_hex(r: RawMinimaxTtsResponse) -> Option<String> {
    match r.data {
        Some(d) => d.audio,
        None => None,
    }
}

impl RawMinimaxTtsResponse {
    /// Checks the status block, then decodes the hex audio. A failed status
    /// comes first, then missing audio (`EmptyAudio`), then bad hex
    /// (`InvalidAudioHex`), then audio that decodes to nothing (`EmptyAudio`).
    pub fn into_tts_response(self) -> (r: Result<MinimaxTtsResponse, AgentPlanError>)
        ensures
            !base_resp_ok(self.base_resp) ==> (r matches Err(e) && self.base_resp matches Some(b)
                && e@ == base_resp_error(b)),
            base_resp_ok(self.base_resp) ==> match raw_audio_hex(self) {
                None => r matches Err(AgentPlanError::EmptyAudio),
                Some(hex) => match hex_bytes(without_ascii_ws(encode_utf8(hex@))) {
                    None => r matches Err(AgentPlanError::InvalidAudioHex),
                    Some(audio) => if audio.len() == 0 {
                        r matches Err(AgentPlanError::EmptyAudio)
                    } else {
                        (r matches Ok(t) && t.audio@ == audio && t.trace_id == self.trace_id
                            && t.extra_info == self.extra_info)
                    },
                },
            },
    {
        if let Some(base_resp) = &self.base_resp {
            base_resp.ensure_success()?;
        }
        let audio_hex = match self.data {
            Some(data) => match data.audio {
                Some(a) => a,
                None => {
                    return Err(AgentPlanError::EmptyAudio);
                },
            },
            None => {
                return Err(AgentPlanError::EmptyAudio);
            },
        };
        let audio = decode_hex_audio(audio_hex.as_str())?;
        if audio.len() == 0 {
            return Err(AgentPlanError::EmptyAudio);
        }
        Ok(MinimaxTtsResponse { audio, trace_id: self.trace_id, extra_info: self.extra_info })
    }
}


/// The MiniMax settings that the process environment supplies, one field
/// per variable (`None` when the variable is unset or not Unicode).
#[derive(Debug, Clone)]
pub struct MinimaxEnv {
    /// `MINIMAX_API_KEY`
    pub api_key: Option<String>,
    /// `MINIMAX_TOKEN_PLAN_API_KEY`
    pub token_plan_api_key: Option<String>,
    /// `MINIMAX_GROUP_ID`
    pub group_id: Option<String>,
    /// `MINIMAX_IMAGE_URL`
    pub image_url: Option<String>,
    /// `MINIMAX_TTS_URL`
    pub tts_url: Option<String>,
}

/// The key the environment supplies: `MINIMAX_API_KEY`, else
/// `MINIMAX_TOKEN_PLAN_API_KEY`.
pub open spec fn minimax_env_key(env: MinimaxEnv) -> Option<String> {
    match env.api_key {
        Some(k) => Some(k),
        None => env.token_plan_api_key,
    }
}

/// `value` when present, else `default`.
pub open spec fn text_or(value: Option<String>, default: Seq<char>) -> Seq<char> {
    match value {
        Some(v) => v@,
        None => default,
    }
}

/// Connection settings for MiniMax.
#[derive(Debug, Clone)]
pub struct MinimaxConfig {
    pub api_key: String,
    pub group_id: Option<String>,
    pub image_url: String,
    pub tts_url: String,
}

impl MinimaxConfig {
    /// The settings for `api_key` with no group and the default endpoints.
    pub fn new(api_key: String) -> (r: Self)
        ensures
            r.api_key == api_key,
            r.group_id is None,
            r.image_url@ == DEFAULT_MINIMAX_IMAGE_URL@,
            r.tts_url@ == DEFAULT_MINIMAX_TTS_URL@,
    {
        MinimaxConfig {
            api_key,
            group_id: None,
            image_url: DEFAULT_MINIMAX_IMAGE_URL.to_string(),
            tts_url: DEFAULT_MINIMAX_TTS_URL.to_string(),
        }
    }

    /// Lets each variable that the environment sets replace its setting.
    pub fn apply_env_overrides(&mut self, env: &MinimaxEnv)
        ensures
            final(self).api_key@ == text_or(minimax_env_key(*env), old(self).api_key@),
            final(self).group_id == match env.group_id {
                Some(g) => Some(g),
                None => old(self).group_id,
            },
            final(self).image_url@ == text_or(env.image_url, old(self).image_url@),
            final(self).tts_url@ == text_or(env.tts_url, old(self).tts_url@),
    {
        if let Some(api_key) = &env.api_key {
            self.api_key = api_key.clone();
        } else if let Some(api_key) = &env.token_plan_api_key {
            self.api_key = api_key.clone();
        }
        if let Some(group_id) = &env.group_id {
            self.group_id = Some(group_id.clone());
        }
        if let Some(image_url) = &env.image_url {
            self.image_url = image_url.clone();
        }
        if let Some(tts_url) = &env.tts_url {
            self.tts_url = tts_url.clone();
        }
    }

    /// The settings the environment gives; `MissingApiKey` when it names no
    /// key.
    pub fn from_env(env: &MinimaxEnv) -> (r: Result<Self, AgentPlanError>)
        ensures
            minimax_env_key(*env) is None ==> (r matches Err(AgentPlanError::MissingApiKey)),
            minimax_env_key(*env) is Some ==> (r matches Ok(c) && minimax_settings(
                c,
                minimax_env_key(*env)->0@,
                *env,
            )),
    {
        let api_key = if let Some(api_key) = &env.api_key {
            api_key.clone()
        } else if let Some(api_key) = &env.token_plan_api_key {
            api_key.clone()
        } else {
            return Err(AgentPlanError::MissingApiKey);
        };
        let mut config = Self::new(api_key);
        config.apply_env_overrides(env);
        Ok(config)
    }

    /// The settings for one client: the explicit key when one is given, else
    /// the environment's key; every other setting from the environment or
    /// its default. `MissingApiKey` when no key is found or the key is blank.
    pub fn from_sources(api_key_override: Option<String>, env: &MinimaxEnv) -> (r: Result<
        Self,
        AgentPlanError,
    >)
        ensures
            ({
                let key = match api_key_override {
                    Some(k) => Some(k),
                    None => minimax_env_key(*env),
                };
                &&& (key is None || is_blank(key->0@)) ==> (r matches Err(
                    AgentPlanError::MissingApiKey,
                ))
                &&& !(key is None || is_blank(key->0@)) ==> (r matches Ok(c) && minimax_settings(
                    c,
                    key->0@,
                    *env,
                ))
            }),
    {
        let mut config = match api_key_override {
            Some(api_key) => {
                let mut config = Self::new(String::new());
                config.apply_env_overrides(env);
                config.api_key = api_key;
                config
            },
            None => Self::from_env(env)?,
        };
        if is_blank_str(config.api_key.as_str()) {
            return Err(AgentPlanError::MissingApiKey);
        }
        Ok(config)
    }
}

/// `c` holds `key` and, for every other setting, the environment's value
/// or the default.
pub open spec fn minimax_settings(c: MinimaxConfig, key: Seq<char>, env: MinimaxEnv) -> bool {
    &&& c.api_key@ == key
    &&& c.group_id == env.group_id
    &&& c.image_url@ == text_or(env.image_url, DEFAULT_MINIMAX_IMAGE_URL@)
    &&& c.tts_url@ == text_or(env.tts_url, DEFAULT_MINIMAX_TTS_URL@)
}


/// The lower-case hex digit for a value below 16.
pub open spec fn lower_hex_digit(n: int) -> u8 {
    if n < 10 {
        (0x30 + n) as u8
    } else {
        (0x61 + n - 10) as u8
    }
}

/// The lower-case hex text of `b`, two digits a byte, high digit first.
pub open spec fn hex_text(b: Seq<u8>) -> Seq<u8> {
    Seq::new(
        2 * b.len(),
        |i: int|
            if i % 2 == 0 {
                lower_hex_digit(b[i / 2] as int / 16)
            } else {
                lower_hex_digit(b[i / 2] as int % 16)
            },
    )
}

/// Leaving out whitespace from text that has none changes nothing.
proof fn lemma_no_ws_unchanged(s: Seq<u8>)
    requires
        forall|i: int| 0 <= i < s.len() ==> !is_ascii_ws_byte(#[trigger] s[i]),
    ensures
        without_ascii_ws(s) == s,
    decreases s.len(),
{
    reveal_with_fuel(Seq::<_>::filter, 1);
    if s.len() > 0 {
        lemma_no_ws_unchanged(s.drop_last());
        assert(s.drop_last().push(s.last()) == s);
    }
}

/// `t` spells `b` in hex: two digits a byte, high digit first, each digit
/// in either case.
pub open spec fn spells_in_hex(t: Seq<u8>, b: Seq<u8>) -> bool {
    &&& t.len() == 2 * b.len()
    &&& forall|k: int|
        0 <= k < b.len() ==> hex_digit(#[trigger] t[2 * k]) == Some((b[k] / 16) as u8)
            && hex_digit(t[2 * k + 1]) == Some((b[k] % 16) as u8)
}

/// Hex audio decodes to the bytes it spells, whatever the case of each
/// digit and wherever ASCII whitespace was put into it: the decoder
/// inverts hex encoding.
pub proof fn lemma_hex_decodes_any_spelling(s: Seq<u8>, b: Seq<u8>)
    requires
        spells_in_hex(without_ascii_ws(s), b),
    ensures
        hex_bytes(without_ascii_ws(s)) == Some(b),
{
    let t = without_ascii_ws(s);
    assert forall|i: int| 0 <= i < t.len() implies (#[trigger] hex_digit(t[i])) is Some by {
        let k = i / 2;
        if i % 2 == 0 {
            assert(i == 2 * k);
            assert(hex_digit(t[2 * k]) is Some);
        } else {
            assert(i == 2 * k + 1);
            assert(hex_digit(t[2 * k]) is Some);
        }
    }
    let decoded = hex_bytes(t)->0;
    assert forall|k: int| 0 <= k < b.len() implies #[trigger] decoded[k] == b[k] by {
        assert(hex_digit(t[2 * k]) == Some((b[k] / 16) as u8));
        let x = b[k] as int;
        assert(x / 16 * 16 + x % 16 == x) by (nonlinear_arith);
    }
    assert(decoded =~= b);
}

/// The lower-case hex text of any bytes decodes back to them.
pub proof fn lemma_hex_round_trip(b: Seq<u8>)
    ensures
        hex_bytes(without_ascii_ws(hex_text(b))) == Some(b),
{
    let t = hex_text(b);
    assert forall|i: int| 0 <= i < t.len() implies !is_ascii_ws_byte(#[trigger] t[i]) by {
        let v: int = if i % 2 == 0 {
            b[i / 2] as int / 16
        } else {
            b[i / 2] as int % 16
        };
        assert(0 <= v < 16);
    }
    lemma_no_ws_unchanged(t);
    assert forall|k: int| 0 <= k < b.len() implies hex_digit(#[trigger] t[2 * k]) == Some(
        (b[k] / 16) as u8,
    ) && hex_digit(t[2 * k + 1]) == Some((b[k] % 16) as u8) by {
        assert(t[2 * k] == lower_hex_digit(b[k] as int / 16));
        assert(t[2 * k + 1] == lower_hex_digit(b[k] as int % 16));
    }
    lemma_hex_decodes_any_spelling(t, b);
}

} // verus!
