use unified_generations::client::{header_to_string, tts_headers, tts_headers_with_id};
use unified_generations::{
    decode_tts_lines, speech_payload, tts_body_frames, AgentPlanConfig, AgentPlanError, AudioFormat,
    TtsLine, TtsRequest, TtsResponse,
};

/// Parses one reply line the way the client does: a required integer
/// `code`, a `message` defaulting to empty, an optional `data` string.
fn parse_line(frame: &[u8]) -> Result<TtsLine, String> {
    let value: serde_json::Value = serde_json::from_slice(frame).map_err(|e| e.to_string())?;
    let code = value.get("code").and_then(|c| c.as_i64()).ok_or("missing field `code`".to_string())?;
    let message = value.get("message").and_then(|m| m.as_str()).unwrap_or("").to_string();
    let data = value.get("data").and_then(|d| d.as_str()).map(|d| d.to_string());
    Ok(TtsLine { code, message, data })
}

fn decode_tts_body(body: &[u8]) -> Result<Vec<u8>, AgentPlanError> {
    let lines = tts_body_frames(body).iter().map(|f| parse_line(f)).collect();
    decode_tts_lines(lines)
}

#[test]
fn decodes_newline_delimited_tts_chunks() {
    let body = br#"{"code":0,"message":"","data":"aGVs"}
{"code":0,"message":"","data":"bG8="}
"#;
    let audio = decode_tts_body(body).expect("body should decode");
    assert_eq!(audio, b"hello");
}

#[test]
fn surfaces_tts_error_code() {
    let body = br#"{"code":55000000,"message":"resource ID is mismatched with speaker related resource"}"#;
    let err = decode_tts_body(body).expect_err("body should fail");
    match &err {
        AgentPlanError::TtsCode { code, message } => {
            assert_eq!(*code, 55000000);
            assert!(message.contains("resource ID"));
        }
        other => panic!("unexpected {:?}", other),
    }
    assert!(err.message().contains("55000000"));
}

#[test]
fn frames_skip_blank_lines() {
    let frames = tts_body_frames(b"a\n\n  \t\r\nb c\n\x0c\n");
    assert_eq!(frames, vec![b"a".to_vec(), b"b c".to_vec()]);
    assert!(tts_body_frames(b"").is_empty());
    assert_eq!(tts_body_frames(b"x"), vec![b"x".to_vec()]);
    // vertical tab is kept: it is not ASCII whitespace
    assert_eq!(tts_body_frames(b"\x0b"), vec![b"\x0b".to_vec()]);
}

fn line(code: i64, data: Option<&str>) -> Result<TtsLine, String> {
    Ok(TtsLine { code, message: format!("m{}", code), data: data.map(|d| d.to_string()) })
}

#[test]
fn decode_lines_skips_final_and_dataless_lines() {
    let audio = decode_tts_lines(vec![line(0, Some("aGk=")), line(0, None), line(20000000, Some("!!"))]);
    assert_eq!(audio.unwrap(), b"hi");
    assert!(matches!(decode_tts_lines(vec![line(20000000, None)]), Err(AgentPlanError::EmptyAudio)));
    assert!(matches!(decode_tts_lines(vec![]), Err(AgentPlanError::EmptyAudio)));
}

#[test]
fn decode_lines_reports_first_problem() {
    let r = decode_tts_lines(vec![line(0, Some("aGk=")), Err("bad json".to_string()), line(3, None)]);
    assert!(matches!(r, Err(AgentPlanError::Json(m)) if m == "bad json"));
    let r = decode_tts_lines(vec![line(45000000, None), Err("bad json".to_string())]);
    assert!(matches!(r, Err(AgentPlanError::TtsCode { code: 45000000, message }) if message == "m45000000"));
    let r = decode_tts_lines(vec![line(0, Some("@@@@"))]);
    match r {
        Err(AgentPlanError::TtsCode { code: 0, message }) => {
            assert!(message.starts_with("invalid base64 audio chunk: "));
            assert!(message.len() > "invalid base64 audio chunk: ".len());
        }
        other => panic!("unexpected {:?}", other),
    }
}

#[test]
fn tts_request_defaults() {
    let r = TtsRequest::new("hi".to_string(), "spk".to_string());
    assert_eq!(r.user.uid, "doubao-agent-plan-rs");
    assert_eq!(r.req_params.text, "hi");
    assert_eq!(r.req_params.speaker, "spk");
    assert_eq!(r.req_params.audio_params.format, AudioFormat::Mp3);
    assert_eq!(r.req_params.audio_params.sample_rate, 24_000);
    assert_eq!(r.req_params.audio_params.speech_rate, None);
    assert_eq!(r.req_params.audio_params.loudness_rate, None);
}

#[test]
fn speech_payload_encodes_audio() {
    let p = speech_payload(TtsResponse {
        audio: b"hello".to_vec(),
        content_type: Some("audio/mpeg".to_string()),
        log_id: None,
    });
    assert_eq!(p.audio_base64, "aGVsbG8=");
    assert_eq!(p.content_type.as_deref(), Some("audio/mpeg"));
    assert_eq!(p.log_id, None);
}

#[test]
fn tts_headers_carry_key_and_fresh_request_id() {
    let config = AgentPlanConfig::new("ark-key".to_string());
    let h = tts_headers(&config).unwrap();
    let names: Vec<&str> = h.iter().map(|(n, _)| n.as_str()).collect();
    assert_eq!(
        names,
        vec![
            "content-type",
            "X-Api-Key",
            "X-Api-Resource-Id",
            "X-Api-Request-Id",
            "X-Control-Require-Usage-Tokens-Return"
        ]
    );
    assert_eq!(h[0].1, "application/json");
    assert_eq!(h[1].1, "ark-key");
    assert_eq!(h[2].1, "seed-tts-2.0");
    assert_eq!(h[4].1, "*");
    let id = &h[3].1;
    assert_eq!(id.len(), 36);
    assert_eq!(id.as_bytes()[14], b'4');
    let other = tts_headers(&config).unwrap();
    assert_ne!(&other[3].1, id);
}

#[test]
fn tts_headers_refuse_key_with_control_characters() {
    let config = AgentPlanConfig::new("bad\nkey".to_string());
    assert!(matches!(tts_headers(&config), Err(AgentPlanError::MissingApiKey)));
    let config = AgentPlanConfig::new("tab\tand ünïcode".to_string());
    assert!(tts_headers(&config).is_ok());
}

#[test]
fn tts_headers_carry_the_configured_resource_and_given_id() {
    let mut config = AgentPlanConfig::new("ark-key".to_string());
    config.tts_resource_id = "seed-icl-2.0".to_string();
    let h = tts_headers_with_id(&config, "req-1".to_string()).unwrap();
    assert_eq!(h.len(), 5);
    assert_eq!(h[2], ("X-Api-Resource-Id".to_string(), "seed-icl-2.0".to_string()));
    assert_eq!(h[3], ("X-Api-Request-Id".to_string(), "req-1".to_string()));
    assert_eq!(tts_headers(&config).unwrap()[2].1, "seed-icl-2.0");
}

#[test]
fn tts_headers_refuse_bad_resource_id() {
    let mut config = AgentPlanConfig::new("ark-key".to_string());
    config.tts_resource_id = "bad\nresource".to_string();
    assert!(matches!(tts_headers(&config), Err(AgentPlanError::InvalidTtsResourceId)));
    assert!(matches!(
        tts_headers_with_id(&config, "id".to_string()),
        Err(AgentPlanError::InvalidTtsResourceId)
    ));
    config.api_key = "bad\nkey".to_string();
    assert!(matches!(tts_headers(&config), Err(AgentPlanError::MissingApiKey)));
}

#[test]
fn header_to_string_reads_first_visible_value() {
    let headers = vec![
        ("x-tt-logid".to_string(), b"abc\t1".to_vec()),
        ("content-type".to_string(), b"audio/mpeg".to_vec()),
        ("x-tt-logid".to_string(), b"second".to_vec()),
        ("bad".to_string(), vec![0xe4, 0xb8, 0xad]),
        ("ctl".to_string(), vec![b'a', 0x7f]),
    ];
    assert_eq!(header_to_string(&headers, "x-tt-logid"), Some("abc\t1".to_string()));
    assert_eq!(header_to_string(&headers, "content-type"), Some("audio/mpeg".to_string()));
    assert_eq!(header_to_string(&headers, "missing"), None);
    assert_eq!(header_to_string(&headers, "bad"), None);
    assert_eq!(header_to_string(&headers, "ctl"), None);
}

#[test]
fn blank_lines_leave_decoding_unchanged() {
    let plain = b"{\"code\":0,\"data\":\"aGVs\"}\n{\"code\":0,\"data\":\"bG8=\"}";
    let padded = b"\n  \n{\"code\":0,\"data\":\"aGVs\"}\n\t\r\n\n{\"code\":0,\"data\":\"bG8=\"}\n \n";
    assert_eq!(tts_body_frames(plain), tts_body_frames(padded));
    assert_eq!(decode_tts_body(plain).unwrap(), decode_tts_body(padded).unwrap());
}
