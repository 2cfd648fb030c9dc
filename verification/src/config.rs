//! Settings: the Ark CLI config file's contents, the Agent Plan client
//! settings and how they are resolved from their sources, the config file's
//! location, and the masked display of an API key.

use vstd::prelude::*;
use vstd::string::StringSliceAdditionalSpecFns;
use vstd::utf8::{
    decode_utf8, decode_utf8_encode_utf8, encode_scalar, encode_utf8, encode_utf8_decode_utf8,
    encode_utf8_valid_utf8, is_ascii_chars, is_ascii_chars_encode_utf8, is_char_boundary,
    is_char_boundary_iff_not_is_continuation_byte, valid_utf8_split,
};

use crate::error::AgentPlanError;
use crate::text::{is_blank, is_blank_str, trim, trimmed};

verus! {

broadcast use vstd::string::group_string_axioms;

/// The Agent Plan API base used when none is configured.
pub const DEFAULT_PLAN_BASE_URL: &'static str = "https://ark.cn-beijing.volces.com/api/plan";

/// The speech endpoint used when none is configured.
pub const DEFAULT_TTS_URL: &'static str =
    "https://openspeech.bytedance.com/api/v3/plan/tts/unidirectional";

/// The speech resource used when none is configured.
pub const DEFAULT_TTS_RESOURCE_ID: &'static str = "seed-tts-2.0";

/// The Anthropic protocol version sent with message requests by default.
pub const DEFAULT_ANTHROPIC_VERSION: &'static str = "2023-06-01";

/// The default for a missing `plan_base_url` in the config file.
pub fn default_plan_base_url() -> (r: String)
    ensures
        r@ == DEFAULT_PLAN_BASE_URL@,
{
    DEFAULT_PLAN_BASE_URL.to_string()
}

/// The default for a missing `tts_url` in the config file.
pub fn default_tts_url() -> (r: String)
    ensures
        r@ == DEFAULT_TTS_URL@,
{
    DEFAULT_TTS_URL.to_string()
}

/// The default for a missing `tts_resource_id` in the config file.
pub fn default_tts_resource_id() -> (r: String)
    ensures
        r@ == DEFAULT_TTS_RESOURCE_ID@,
{
    DEFAULT_TTS_RESOURCE_ID.to_string()
}

/// The default for a missing `anthropic_version` in the config file.
pub fn default_anthropic_version() -> (r: String)
    ensures
        r@ == DEFAULT_ANTHROPIC_VERSION@,
{
    DEFAULT_ANTHROPIC_VERSION.to_string()
}

/// The contents of `~/.arkcli/config.toml`.
#[derive(Debug, Clone)]
pub struct ArkCliConfig {
    pub api_key: String,
    pub plan_base_url: String,
    pub tts_url: String,
    pub tts_resource_id: String,
    pub anthropic_version: String,
}

impl ArkCliConfig {
    /// A config file for `api_key` with every other field at its default.
    pub fn new(api_key: String) -> (r: Self)
        ensures
            r.api_key == api_key,
            r.plan_base_url@ == DEFAULT_PLAN_BASE_URL@,
            r.tts_url@ == DEFAULT_TTS_URL@,
            r.tts_resource_id@ == DEFAULT_TTS_RESOURCE_ID@,
            r.anthropic_version@ == DEFAULT_ANTHROPIC_VERSION@,
    {
        ArkCliConfig {
            api_key,
            plan_base_url: default_plan_base_url(),
            tts_url: default_tts_url(),
            tts_resource_id: default_tts_resource_id(),
            anthropic_version: default_anthropic_version(),
        }
    }
}

/// The Agent Plan settings that the process environment supplies, one
/// field per variable (`None` when unset or not Unicode).
#[derive(Debug, Clone)]
pub struct AgentPlanEnv {
    /// `DOUBAO_ARK_AGENT_PLAN_API_KEY`
    pub doubao_api_key: Option<String>,
    /// `ARK_AGENT_PLAN_API_KEY`
    pub ark_api_key: Option<String>,
    /// `ARK_AGENT_PLAN_BASE_URL`
    pub base_url: Option<String>,
    /// `ARK_AGENT_PLAN_TTS_URL`
    pub tts_url: Option<String>,
    /// `ARK_AGENT_PLAN_TTS_RESOURCE_ID`
    pub tts_resource_id: Option<String>,
    /// `ARK_AGENT_PLAN_ANTHROPIC_VERSION`
    pub anthropic_version: Option<String>,
}

/// The key the environment supplies: `DOUBAO_ARK_AGENT_PLAN_API_KEY`, else
/// `ARK_AGENT_PLAN_API_KEY`.
pub open spec fn agent_plan_env_key(env: AgentPlanEnv) -> Option<String> {
    match env.doubao_api_key {
        Some(k) => Some(k),
        None => env.ark_api_key,
    }
}

/// Connection settings for the Agent Plan API.
#[derive(Debug, Clone)]
pub struct AgentPlanConfig {
    pub api_key: String,
    pub plan_base_url: String,
    pub tts_url: String,
    pub tts_resource_id: String,
    pub anthropic_version: String,
}

/// The key that the sources give, in rising precedence: the config file,
/// the environment, the explicit key.
pub open spec fn resolved_key(
    api_key_override: Option<String>,
    file: Option<ArkCliConfig>,
    env: AgentPlanEnv,
) -> Option<Seq<char>> {
    match api_key_override {
        Some(k) => Some(k@),
        None => match agent_plan_env_key(env) {
            Some(k) => Some(k@),
            None => match file {
                Some(f) => Some(f.api_key@),
                None => None,
            },
        },
    }
}

/// A setting that the environment may override, else the config file's
/// value, else the default.
pub open spec fn resolved_setting(env_value: Option<String>, file_value: Option<Seq<char>>, default: Seq<char>) -> Seq<char> {
    match env_value {
        Some(v) => v@,
        None => match file_value {
            Some(f) => f,
            None => default,
        },
    }
}

/// `c` holds the default for every setting but the key.
pub open spec fn has_default_settings(c: AgentPlanConfig) -> bool {
    &&& c.plan_base_url@ == DEFAULT_PLAN_BASE_URL@
    &&& c.tts_url@ == DEFAULT_TTS_URL@
    &&& c.tts_resource_id@ == DEFAULT_TTS_RESOURCE_ID@
    &&& c.anthropic_version@ == DEFAULT_ANTHROPIC_VERSION@
}

/// A config file field, when there is a config file.
pub open spec fn file_field(file: Option<ArkCliConfig>, field: spec_fn(ArkCliConfig) -> Seq<char>) -> Option<Seq<char>> {
    match file {
        Some(f) => Some(field(f)),
        None => None,
    }
}

/// `c` holds, for every setting but the key, the environment's value, else
/// the config file's, else the default.
pub open spec fn has_resolved_settings(c: AgentPlanConfig, file: Option<ArkCliConfig>, env: AgentPlanEnv) -> bool {
    &&& c.plan_base_url@ == resolved_setting(
        env.base_url,
        file_field(file, |f: ArkCliConfig| f.plan_base_url@),
        DEFAULT_PLAN_BASE_URL@,
    )
    &&& c.tts_url@ == resolved_setting(
        env.tts_url,
        file_field(file, |f: ArkCliConfig| f.tts_url@),
        DEFAULT_TTS_URL@,
    )
    &&& c.tts_resource_id@ == resolved_setting(
        env.tts_resource_id,
        file_field(file, |f: ArkCliConfig| f.tts_resource_id@),
        DEFAULT_TTS_RESOURCE_ID@,
    )
    &&& c.anthropic_version@ == resolved_setting(
        env.anthropic_version,
        file_field(file, |f: ArkCliConfig| f.anthropic_version@),
        DEFAULT_ANTHROPIC_VERSION@,
    )
}

impl AgentPlanConfig {
    /// The settings for `api_key` with the default base URL, speech
    /// endpoint, speech resource and protocol version.
    pub fn new(api_key: String) -> (r: Self)
        ensures
            r.api_key == api_key,
            has_default_settings(r),
    {
        AgentPlanConfig {
            api_key,
            plan_base_url: default_plan_base_url(),
            tts_url: default_tts_url(),
            tts_resource_id: default_tts_resource_id(),
            anthropic_version: default_anthropic_version(),
        }
    }

    /// The settings for the key the environment gives, with the defaults
    /// for the rest; `MissingApiKey` when the environment names no key.
    pub fn from_env(env: &AgentPlanEnv) -> (r: Result<Self, AgentPlanError>)
        ensures
            agent_plan_env_key(*env) is None ==> (r matches Err(AgentPlanError::MissingApiKey)),
            agent_plan_env_key(*env) is Some ==> (r matches Ok(c) && c.api_key@
                == agent_plan_env_key(*env)->0@ && has_default_settings(c)),
    {
        let api_key = if let Some(api_key) = &env.doubao_api_key {
            api_key.clone()
        } else if let Some(api_key) = &env.ark_api_key {
            api_key.clone()
        } else {
            return Err(AgentPlanError::MissingApiKey);
        };
        Ok(Self::new(api_key))
    }

    /// The settings for one client, each taken from the highest of its
    /// sources: built-in defaults, then the config file, then the
    /// environment, then (for the key) the explicit key. This holds for the
    /// base URL, the speech endpoint, the speech resource and the protocol
    /// version alike. `MissingApiKey`
    /// when no source gives a key or the key is blank.
    pub fn from_sources(
        api_key_override: Option<String>,
        file: Option<ArkCliConfig>,
        env: &AgentPlanEnv,
    ) -> (r: Result<Self, AgentPlanError>)
        ensures
            ({
                let key = resolved_key(api_key_override, file, *env);
                &&& (key is None || is_blank(key->0)) ==> (r matches Err(
                    AgentPlanError::MissingApiKey,
                ))
                &&& !(key is None || is_blank(key->0)) ==> (r matches Ok(c) && c.api_key@
                    == key->0 && has_resolved_settings(c, file, *env))
            }),
    {
        let mut have_key = file.is_some();
        let mut config = match file {
            Some(f) => AgentPlanConfig {
                api_key: f.api_key,
                plan_base_url: f.plan_base_url,
                tts_url: f.tts_url,
                tts_resource_id: f.tts_resource_id,
                anthropic_version: f.anthropic_version,
            },
            None => AgentPlanConfig::new(String::new()),
        };
        if let Some(api_key) = &env.doubao_api_key {
            config.api_key = api_key.clone();
            have_key = true;
        } else if let Some(api_key) = &env.ark_api_key {
            config.api_key = api_key.clone();
            have_key = true;
        }
        if let Some(base_url) = &env.base_url {
            config.plan_base_url = base_url.clone();
        }
        if let Some(tts_url) = &env.tts_url {
            config.tts_url = tts_url.clone();
        }
        if let Some(resource_id) = &env.tts_resource_id {
            config.tts_resource_id = resource_id.clone();
        }
        if let Some(version) = &env.anthropic_version {
            config.anthropic_version = version.clone();
        }
        if let Some(api_key) = api_key_override {
            config.api_key = api_key;
            have_key = true;
        }
        if !have_key || is_blank_str(config.api_key.as_str()) {
            return Err(AgentPlanError::MissingApiKey);
        }
        Ok(config)
    }
}

/// Fails with `MissingApiKey` when the key is blank; a client is never
/// built for such a key.
pub fn validate_api_key(api_key: &str) -> (r: Result<(), AgentPlanError>)
    ensures
        is_blank(api_key@) ==> (r matches Err(AgentPlanError::MissingApiKey)),
        !is_blank(api_key@) ==> r is Ok,
{
    if is_blank_str(api_key) {
        return Err(AgentPlanError::MissingApiKey);
    }
    Ok(())
}

/// The path that `Path::new(base).join(part)` gives, as text.
pub uninterp spec fn joined_path(base: Seq<char>, part: Seq<char>) -> Seq<char>;

/// `Path::join`: `base` extended by `part` (`part` is relative here).
/// Both are Unicode, so the joined path is too and its text is exact.
#[verifier::external_body]
fn join_path(base: &str, part: &str) -> (r: String)
    ensures
        r@ == joined_path(base@, part@),
{
    std::path::Path::new(base).join(part).to_string_lossy().into_owned()
}

/// The Ark CLI directory, `.arkcli` under the home directory;
/// `MissingHome` when there is no home directory.
pub fn arkcli_dir(home: Option<String>) -> (r: Result<String, AgentPlanError>)
    ensures
        home is None ==> (r matches Err(AgentPlanError::MissingHome)),
        home matches Some(h) ==> (r matches Ok(d) && d@ == joined_path(h@, ".arkcli"@)),
{
    match home {
        Some(h) => Ok(join_path(h.as_str(), ".arkcli")),
        None => Err(AgentPlanError::MissingHome),
    }
}

/// The config file path, `config.toml` in the Ark CLI directory.
pub fn arkcli_config_path(home: Option<String>) -> (r: Result<String, AgentPlanError>)
    ensures
        home is None ==> (r matches Err(AgentPlanError::MissingHome)),
        home matches Some(h) ==> (r matches Ok(p) && p@ == joined_path(
            joined_path(h@, ".arkcli"@),
            "config.toml"@,
        )),
{
    let dir = arkcli_dir(home)?;
    Ok(join_path(dir.as_str(), "config.toml"))
}

/// The UTF-8 bytes of the trimmed key.
pub open spec fn trimmed_key_bytes(api_key: Seq<char>) -> Seq<u8> {
    encode_utf8(trimmed(api_key))
}

/// A key may be masked unless its trimmed form is longer than ten bytes and
/// byte 6 or the fourth byte from the end falls inside a character (where
/// slicing the text there would panic).
pub open spec fn maskable(api_key: Seq<char>) -> bool {
    let b = trimmed_key_bytes(api_key);
    b.len() <= 10 || (is_char_boundary(b, 6) && is_char_boundary(b, b.len() - 4))
}

/// The displayed form of a key: eight asterisks for a trimmed key of at
/// most ten bytes, else its first six bytes, `...`, and its last four.
pub open spec fn masked(api_key: Seq<char>) -> Seq<char> {
    let b = trimmed_key_bytes(api_key);
    if b.len() <= 10 {
        "********"@
    } else {
        decode_utf8(b.take(6)) + "..."@ + decode_utf8(b.skip(b.len() - 4))
    }
}

/// Masks an API key for display.
pub fn masked_api_key(api_key: &str) -> (r: String)
    requires
        maskable(api_key@),
    ensures
        r@ == masked(api_key@),
        encode_utf8(trimmed(api_key@)).len() <= 10 ==> r@ == "********"@,
        ({
            let b = encode_utf8(trimmed(api_key@));
            b.len() > 10 ==> encode_utf8(r@) == b.subrange(0, 6) + encode_utf8("..."@)
                + b.subrange(b.len() - 4, b.len() as int)
        }),
{
    proof {
        lemma_mask_bytes(api_key@);
    }
    let trimmed_key = trim(api_key);
    let n = trimmed_key.as_bytes().len();
    if n <= 10 {
        return "********".to_string();
    }
    assert(trimmed_key.spec_bytes() == trimmed_key_bytes(api_key@));
    assert(n as int == trimmed_key.spec_bytes().len());
    let (prefix, _) = trimmed_key.split_at(6);
    let (_, suffix) = trimmed_key.split_at(n - 4);
    proof {
        encode_utf8_decode_utf8(prefix@);
        encode_utf8_decode_utf8(suffix@);
    }
    let mut out = prefix.to_string();
    out.append("...");
    out.append(suffix);
    out
}

/// Every key whose trimmed form is ASCII can be masked: its mask never cuts
/// a character.
pub proof fn lemma_ascii_keys_maskable(api_key: Seq<char>)
    requires
        is_ascii_chars(trimmed(api_key)),
    ensures
        maskable(api_key),
{
    let t = trimmed(api_key);
    let b = encode_utf8(t);
    is_ascii_chars_encode_utf8(t);
    encode_utf8_valid_utf8(t);
    if b.len() > 10 {
        assert(t[6] as u8 == b[6]);
        assert(t[b.len() - 4] as u8 == b[b.len() - 4]);
        is_char_boundary_iff_not_is_continuation_byte(b, 6);
        is_char_boundary_iff_not_is_continuation_byte(b, b.len() - 4);
    }
}

/// The environment that sets nothing.
pub open spec fn empty_env(env: AgentPlanEnv) -> bool {
    &&& env.doubao_api_key is None
    &&& env.ark_api_key is None
    &&& env.base_url is None
    &&& env.tts_url is None
    &&& env.tts_resource_id is None
    &&& env.anthropic_version is None
}

/// With no explicit key and an environment that sets nothing, the settings
/// resolved from a config file are the file's own values, field by field.
pub proof fn lemma_file_settings_resolve_to_themselves(file: ArkCliConfig, env: AgentPlanEnv)
    requires
        empty_env(env),
    ensures
        resolved_key(None, Some(file), env) == Some(file.api_key@),
        forall|c: AgentPlanConfig| #[trigger]
            has_resolved_settings(c, Some(file), env) <==> (c.plan_base_url@ == file.plan_base_url@
                && c.tts_url@ == file.tts_url@ && c.tts_resource_id@ == file.tts_resource_id@
                && c.anthropic_version@ == file.anthropic_version@),
{
}

/// Each setting comes from the highest source that sets it: the
/// environment variable when it is set, else the config file when there is
/// one, else the built-in default. This holds of the base URL, the speech
/// endpoint, the speech resource and the protocol version alike.
pub proof fn lemma_setting_precedence(c: AgentPlanConfig, file: Option<ArkCliConfig>, env: AgentPlanEnv)
    requires
        has_resolved_settings(c, file, env),
    ensures
        env.base_url matches Some(u) ==> c.plan_base_url@ == u@,
        env.base_url is None ==> (file matches Some(f) ==> c.plan_base_url@ == f.plan_base_url@),
        env.base_url is None && file is None ==> c.plan_base_url@ == DEFAULT_PLAN_BASE_URL@,
        env.tts_url matches Some(u) ==> c.tts_url@ == u@,
        env.tts_url is None ==> (file matches Some(f) ==> c.tts_url@ == f.tts_url@),
        env.tts_url is None && file is None ==> c.tts_url@ == DEFAULT_TTS_URL@,
        env.tts_resource_id matches Some(u) ==> c.tts_resource_id@ == u@,
        env.tts_resource_id is None ==> (file matches Some(f) ==> c.tts_resource_id@
            == f.tts_resource_id@),
        env.tts_resource_id is None && file is None ==> c.tts_resource_id@
            == DEFAULT_TTS_RESOURCE_ID@,
        env.anthropic_version matches Some(u) ==> c.anthropic_version@ == u@,
        env.anthropic_version is None ==> (file matches Some(f) ==> c.anthropic_version@
            == f.anthropic_version@),
        env.anthropic_version is None && file is None ==> c.anthropic_version@
            == DEFAULT_ANTHROPIC_VERSION@,
{
}

/// The key comes from the highest source that gives one: the explicit key,
/// else `DOUBAO_ARK_AGENT_PLAN_API_KEY`, else `ARK_AGENT_PLAN_API_KEY`, else
/// the config file; with none of them there is no key.
pub proof fn lemma_key_precedence(
    api_key_override: Option<String>,
    file: Option<ArkCliConfig>,
    env: AgentPlanEnv,
)
    ensures
        api_key_override matches Some(k) ==> resolved_key(api_key_override, file, env) == Some(k@),
        api_key_override is None ==> (env.doubao_api_key matches Some(k) ==> resolved_key(
            api_key_override,
            file,
            env,
        ) == Some(k@)),
        api_key_override is None && env.doubao_api_key is None ==> (env.ark_api_key matches Some(k)
            ==> resolved_key(api_key_override, file, env) == Some(k@)),
        api_key_override is None && env.doubao_api_key is None && env.ark_api_key is None ==> (
        file matches Some(f) ==> resolved_key(api_key_override, file, env) == Some(f.api_key@)),
        api_key_override is None && env.doubao_api_key is None && env.ark_api_key is None
            && file is None ==> resolved_key(api_key_override, file, env) is None,
{
}

/// UTF-8 encoding of two texts one after the other is the encoding of the
/// first followed by the encoding of the second.
proof fn lemma_encode_utf8_concat(a: Seq<char>, b: Seq<char>)
    ensures
        encode_utf8(a + b) == encode_utf8(a) + encode_utf8(b),
    decreases a.len(),
{
    if a.len() == 0 {
        assert(a + b == b);
        assert(encode_utf8(a) + encode_utf8(b) == encode_utf8(b));
    } else {
        lemma_encode_utf8_concat(a.drop_first(), b);
        assert((a + b).drop_first() == a.drop_first() + b);
        assert((a + b)[0] == a[0]);
        assert(encode_scalar(a[0] as u32) + (encode_utf8(a.drop_first()) + encode_utf8(b)) == (
        encode_scalar(a[0] as u32) + encode_utf8(a.drop_first())) + encode_utf8(b));
    }
}

/// The bytes of a masked key: eight asterisks for a trimmed key of at most
/// ten bytes; for a longer one, exactly its first six bytes, the three bytes
/// of `...`, and its last four bytes, so nothing of its middle is shown.
pub proof fn lemma_mask_bytes(api_key: Seq<char>)
    requires
        maskable(api_key),
    ensures
        encode_utf8(trimmed(api_key)).len() <= 10 ==> masked(api_key) == "********"@,
        ({
            let b = encode_utf8(trimmed(api_key));
            b.len() > 10 ==> encode_utf8(masked(api_key)) == b.subrange(0, 6) + encode_utf8(
                "..."@,
            ) + b.subrange(b.len() - 4, b.len() as int)
        }),
{
    let b = encode_utf8(trimmed(api_key));
    if b.len() > 10 {
        encode_utf8_valid_utf8(trimmed(api_key));
        valid_utf8_split(b, 6);
        valid_utf8_split(b, b.len() - 4);
        let p = b.subrange(0, 6);
        let q = b.subrange(b.len() - 4, b.len() as int);
        assert(b.take(6) == p);
        assert(b.skip(b.len() - 4) == q);
        decode_utf8_encode_utf8(p);
        decode_utf8_encode_utf8(q);
        lemma_encode_utf8_concat(decode_utf8(p), "..."@);
        lemma_encode_utf8_concat(decode_utf8(p) + "..."@, decode_utf8(q));
    }
}

/// The mask of a key whose trimmed form is ASCII and longer than ten
/// characters is its first six characters, `...`, and its last four: 13
/// characters in all.
pub proof fn lemma_ascii_mask(api_key: Seq<char>)
    requires
        is_ascii_chars(trimmed(api_key)),
        trimmed(api_key).len() > 10,
    ensures
        maskable(api_key),
        masked(api_key) == trimmed(api_key).take(6) + "..."@ + trimmed(api_key).skip(
            trimmed(api_key).len() - 4,
        ),
        masked(api_key).len() == 13,
{
    let t = trimmed(api_key);
    let b = encode_utf8(t);
    lemma_ascii_keys_maskable(api_key);
    is_ascii_chars_encode_utf8(t);
    let n = t.len();
    lemma_encode_utf8_concat(t.take(6), t.skip(6));
    assert(t.take(6) + t.skip(6) == t);
    lemma_encode_utf8_concat(t.take(n - 4), t.skip(n - 4));
    assert(t.take(n - 4) + t.skip(n - 4) == t);
    assert(is_ascii_chars(t.take(6)));
    assert(is_ascii_chars(t.skip(n - 4)));
    assert(is_ascii_chars(t.take(n - 4)));
    is_ascii_chars_encode_utf8(t.take(6));
    is_ascii_chars_encode_utf8(t.skip(n - 4));
    is_ascii_chars_encode_utf8(t.take(n - 4));
    assert(b.take(6) == encode_utf8(t.take(6)));
    assert(b.skip(n - 4) == encode_utf8(t.skip(n - 4)));
    encode_utf8_decode_utf8(t.take(6));
    encode_utf8_decode_utf8(t.skip(n - 4));
    reveal_strlit("...");
}

} // verus!
