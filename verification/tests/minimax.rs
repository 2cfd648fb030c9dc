use unified_generations::minimax::{hex_value, MinimaxEnv};
use unified_generations::{
    decode_hex_audio, AgentPlanError, MinimaxBaseResp, MinimaxConfig, MinimaxImageData,
    MinimaxImageRequest, MinimaxImageResponse, RawMinimaxTtsData, RawMinimaxTtsResponse,
    DEFAULT_MINIMAX_IMAGE_URL, DEFAULT_MINIMAX_TTS_URL,
};

#[test]
fn decodes_hex_audio() {
    assert_eq!(decode_hex_audio("68656c6c6f").unwrap(), b"hello");
    assert_eq!(decode_hex_audio("68 65\n6c6c6f").unwrap(), b"hello");
}

#[test]
fn rejects_invalid_hex_audio() {
    assert!(decode_hex_audio("abc").is_err());
    assert!(decode_hex_audio("xx").is_err());
}

#[test]
fn hex_decoding_accepts_both_cases_and_empty_text() {
    assert_eq!(decode_hex_audio("FfA0").unwrap(), vec![0xff, 0xa0]);
    assert_eq!(decode_hex_audio("").unwrap(), Vec::<u8>::new());
    assert_eq!(decode_hex_audio(" \t\r\n\x0c").unwrap(), Vec::<u8>::new());
    assert!(matches!(decode_hex_audio("0g"), Err(AgentPlanError::InvalidAudioHex)));
    // vertical tab is not ASCII whitespace for the decoder
    assert!(decode_hex_audio("00\x0b").is_err());
}

#[test]
fn hex_value_reads_each_digit() {
    assert_eq!(hex_value(b'0').unwrap(), 0);
    assert_eq!(hex_value(b'9').unwrap(), 9);
    assert_eq!(hex_value(b'a').unwrap(), 10);
    assert_eq!(hex_value(b'F').unwrap(), 15);
    assert!(matches!(hex_value(b'g'), Err(AgentPlanError::InvalidAudioHex)));
}

#[test]
fn hex_round_trip_on_all_bytes() {
    let bytes: Vec<u8> = (0..=255u8).collect();
    let text: String = bytes.iter().map(|b| format!("{:02x}", b)).collect();
    assert_eq!(decode_hex_audio(&text).unwrap(), bytes);
}

fn no_env() -> MinimaxEnv {
    MinimaxEnv { api_key: None, token_plan_api_key: None, group_id: None, image_url: None, tts_url: None }
}

#[test]
fn minimax_config_defaults() {
    let c = MinimaxConfig::new("k".to_string());
    assert_eq!(c.api_key, "k");
    assert_eq!(c.group_id, None);
    assert_eq!(c.image_url, DEFAULT_MINIMAX_IMAGE_URL);
    assert_eq!(c.tts_url, DEFAULT_MINIMAX_TTS_URL);
    assert_eq!(DEFAULT_MINIMAX_IMAGE_URL, "https://api.minimax.io/v1/image_generation");
    assert_eq!(DEFAULT_MINIMAX_TTS_URL, "https://api.minimax.io/v1/t2a_v2");
}

#[test]
fn minimax_from_env_prefers_first_key_variable() {
    let mut env = no_env();
    assert!(matches!(MinimaxConfig::from_env(&env), Err(AgentPlanError::MissingApiKey)));
    env.token_plan_api_key = Some("token".to_string());
    assert_eq!(MinimaxConfig::from_env(&env).unwrap().api_key, "token");
    env.api_key = Some("main".to_string());
    env.group_id = Some("g".to_string());
    env.tts_url = Some("http://tts".to_string());
    let c = MinimaxConfig::from_env(&env).unwrap();
    assert_eq!(c.api_key, "main");
    assert_eq!(c.group_id.as_deref(), Some("g"));
    assert_eq!(c.image_url, DEFAULT_MINIMAX_IMAGE_URL);
    assert_eq!(c.tts_url, "http://tts");
}

#[test]
fn minimax_explicit_key_wins_and_blank_key_is_refused() {
    let mut env = no_env();
    env.api_key = Some("from-env".to_string());
    env.image_url = Some("http://img".to_string());
    let c = MinimaxConfig::from_sources(Some("explicit".to_string()), &env).unwrap();
    assert_eq!(c.api_key, "explicit");
    assert_eq!(c.image_url, "http://img");
    assert_eq!(MinimaxConfig::from_sources(None, &env).unwrap().api_key, "from-env");
    assert!(matches!(
        MinimaxConfig::from_sources(Some(" \t\u{3000}".to_string()), &env),
        Err(AgentPlanError::MissingApiKey)
    ));
    assert!(matches!(MinimaxConfig::from_sources(None, &no_env()), Err(AgentPlanError::MissingApiKey)));
}

#[test]
fn apply_env_overrides_replaces_only_set_values() {
    let mut c = MinimaxConfig::new("k".to_string());
    let mut env = no_env();
    env.group_id = Some("grp".to_string());
    c.apply_env_overrides(&env);
    assert_eq!(c.api_key, "k");
    assert_eq!(c.group_id.as_deref(), Some("grp"));
    assert_eq!(c.tts_url, DEFAULT_MINIMAX_TTS_URL);
}

#[test]
fn base_resp_success_only_on_zero() {
    let ok = MinimaxBaseResp { status_code: 0, status_msg: String::new() };
    assert!(ok.ensure_success().is_ok());
    let bad = MinimaxBaseResp { status_code: 1004, status_msg: "auth failed".to_string() };
    match bad.ensure_success() {
        Err(AgentPlanError::ApiCode { code, message }) => {
            assert_eq!(code, 1004);
            assert_eq!(message, "auth failed");
        }
        other => panic!("unexpected {:?}", other),
    }
}

#[test]
fn image_request_and_response() {
    let r = MinimaxImageRequest::new("a cat".to_string());
    assert_eq!(r.model, "image-01");
    assert_eq!(r.prompt, "a cat");
    assert_eq!(r.response_format, "url");
    assert_eq!(r.n, Some(1));
    assert_eq!(r.prompt_optimizer, None);

    let empty = MinimaxImageResponse { created: None, data: None, base_resp: None };
    assert!(empty.image_urls().is_empty());
    assert!(empty.ensure_success().is_ok());
    let full = MinimaxImageResponse {
        created: Some(1),
        data: Some(MinimaxImageData { image_urls: vec!["u1".to_string(), "u2".to_string()] }),
        base_resp: Some(MinimaxBaseResp { status_code: 2, status_msg: "x".to_string() }),
    };
    assert_eq!(full.image_urls(), &["u1".to_string(), "u2".to_string()]);
    assert!(matches!(full.ensure_success(), Err(AgentPlanError::ApiCode { code: 2, .. })));
}

fn raw(audio: Option<&str>, status: Option<i64>) -> RawMinimaxTtsResponse {
    RawMinimaxTtsResponse {
        data: Some(RawMinimaxTtsData { audio: audio.map(|a| a.to_string()) }),
        trace_id: Some("trace".to_string()),
        extra_info: None,
        base_resp: status.map(|code| MinimaxBaseResp { status_code: code, status_msg: "m".to_string() }),
    }
}

#[test]
fn tts_reply_decoding_checks_in_order() {
    let ok = raw(Some("6869"), Some(0)).into_tts_response().unwrap();
    assert_eq!(ok.audio, b"hi");
    assert_eq!(ok.trace_id.as_deref(), Some("trace"));
    assert!(matches!(raw(Some("zz"), Some(7)).into_tts_response(), Err(AgentPlanError::ApiCode { code: 7, .. })));
    assert!(matches!(raw(None, None).into_tts_response(), Err(AgentPlanError::EmptyAudio)));
    assert!(matches!(raw(Some("zz"), None).into_tts_response(), Err(AgentPlanError::InvalidAudioHex)));
    assert!(matches!(raw(Some(" "), None).into_tts_response(), Err(AgentPlanError::EmptyAudio)));
    let no_data = RawMinimaxTtsResponse { data: None, trace_id: None, extra_info: None, base_resp: None };
    assert!(matches!(no_data.into_tts_response(), Err(AgentPlanError::EmptyAudio)));
}

#[test]
fn hex_decodes_any_case_and_spacing() {
    let bytes = vec![0x00u8, 0xab, 0xcd, 0xef, 0x7f];
    assert_eq!(decode_hex_audio("00abcdef7f").unwrap(), bytes);
    assert_eq!(decode_hex_audio("00ABCDEF7F").unwrap(), bytes);
    assert_eq!(decode_hex_audio(" 0 0a\tB\r\nc D e\x0cF7f ").unwrap(), bytes);
}
