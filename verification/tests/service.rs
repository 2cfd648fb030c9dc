use unified_generations::service::{
    default_if_empty, image_request_from_parts, map_chat_message, message_request_from_parts,
    parse_audio_format, parse_image_output_format, parse_image_size, tts_request_from_parts,
    ChatMessage,
};
use unified_generations::{AudioFormat, ImageOutputFormat, ImageSize, MessageRole};

fn msg(role: &str, content: &str) -> ChatMessage {
    ChatMessage { role: role.to_string(), content: content.to_string() }
}

#[test]
fn maps_chat_roles() {
    assert_eq!(map_chat_message(msg("", "a")).unwrap().role, MessageRole::User);
    assert_eq!(map_chat_message(msg("user", "a")).unwrap().role, MessageRole::User);
    assert_eq!(map_chat_message(msg("assistant", "a")).unwrap().role, MessageRole::Assistant);
    let m = map_chat_message(msg("system", "be brief")).unwrap();
    assert_eq!(m.role, MessageRole::System);
    assert_eq!(m.content, "be brief");
    assert_eq!(map_chat_message(msg("tool", "x")).unwrap_err(), "unsupported message role: tool");
    assert!(map_chat_message(msg("User", "x")).is_err());
}

#[test]
fn parses_names() {
    assert_eq!(parse_image_size("").unwrap(), ImageSize::TwoK);
    assert_eq!(parse_image_size("2K").unwrap(), ImageSize::TwoK);
    assert_eq!(parse_image_size("two_k").unwrap(), ImageSize::TwoK);
    assert_eq!(parse_image_size("1K").unwrap(), ImageSize::OneK);
    assert_eq!(parse_image_size("one_k").unwrap(), ImageSize::OneK);
    assert_eq!(parse_image_size("4K").unwrap(), ImageSize::FourK);
    assert_eq!(parse_image_size("four_k").unwrap(), ImageSize::FourK);
    assert_eq!(parse_image_size("8K").unwrap_err(), "unsupported image size: 8K");
    assert_eq!(parse_image_output_format("").unwrap(), ImageOutputFormat::Png);
    assert_eq!(parse_image_output_format("png").unwrap(), ImageOutputFormat::Png);
    assert_eq!(parse_image_output_format("jpg").unwrap(), ImageOutputFormat::Jpeg);
    assert_eq!(parse_image_output_format("jpeg").unwrap(), ImageOutputFormat::Jpeg);
    assert_eq!(parse_image_output_format("gif").unwrap_err(), "unsupported image output format: gif");
    assert_eq!(parse_audio_format("").unwrap(), AudioFormat::Mp3);
    assert_eq!(parse_audio_format("mp3").unwrap(), AudioFormat::Mp3);
    assert_eq!(parse_audio_format("pcm").unwrap(), AudioFormat::Pcm);
    assert_eq!(parse_audio_format("wav").unwrap(), AudioFormat::Wav);
    assert_eq!(parse_audio_format("ogg_opus").unwrap(), AudioFormat::OggOpus);
    assert_eq!(parse_audio_format("flac").unwrap_err(), "unsupported audio format: flac");
}

#[test]
fn default_if_empty_keeps_nonempty() {
    assert_eq!(default_if_empty(String::new(), "d"), "d");
    assert_eq!(default_if_empty("v".to_string(), "d"), "v");
    assert_eq!(default_if_empty(" ".to_string(), "d"), " ");
}

#[test]
fn builds_message_request() {
    let r = message_request_from_parts(
        "m".to_string(),
        64,
        vec![msg("system", "s"), msg("", "u")],
    )
    .unwrap();
    assert_eq!(r.model, "m");
    assert_eq!(r.max_tokens, 64);
    assert_eq!(r.messages.len(), 2);
    assert_eq!(r.messages[0].role, MessageRole::System);
    assert_eq!(r.messages[1].role, MessageRole::User);
    assert_eq!(r.messages[1].content, "u");
    let err = message_request_from_parts("m".to_string(), 1, vec![msg("user", "a"), msg("bot", "b"), msg("x", "c")]);
    assert_eq!(err.unwrap_err(), "unsupported message role: bot");
}

#[test]
fn builds_image_request() {
    let r = image_request_from_parts(String::new(), "p".to_string(), "4K", "jpg", true).unwrap();
    assert_eq!(r.model, "doubao-seedream-5.0-lite");
    assert_eq!(r.prompt, "p");
    assert_eq!(r.size, ImageSize::FourK);
    assert_eq!(r.output_format, ImageOutputFormat::Jpeg);
    assert!(r.watermark);
    assert_eq!(r.response_format.as_deref(), Some("url"));
    let r = image_request_from_parts("other".to_string(), "p".to_string(), "", "", false).unwrap();
    assert_eq!(r.model, "other");
    let e = image_request_from_parts(String::new(), "p".to_string(), "9K", "bmp", false).unwrap_err();
    assert_eq!(e, "unsupported image size: 9K");
    let e = image_request_from_parts(String::new(), "p".to_string(), "1K", "bmp", false).unwrap_err();
    assert_eq!(e, "unsupported image output format: bmp");
}

#[test]
fn builds_tts_request() {
    let r = tts_request_from_parts("t".to_string(), "s".to_string(), String::new(), "", 0, None, Some(3)).unwrap();
    assert_eq!(r.user.uid, "doubao-agent-plan-rs");
    assert_eq!(r.req_params.audio_params.format, AudioFormat::Mp3);
    assert_eq!(r.req_params.audio_params.sample_rate, 24_000);
    assert_eq!(r.req_params.audio_params.loudness_rate, Some(3));
    let r = tts_request_from_parts("t".to_string(), "s".to_string(), "me".to_string(), "wav", 16000, Some(-5), None).unwrap();
    assert_eq!(r.user.uid, "me");
    assert_eq!(r.req_params.audio_params.format, AudioFormat::Wav);
    assert_eq!(r.req_params.audio_params.sample_rate, 16000);
    assert_eq!(r.req_params.audio_params.speech_rate, Some(-5));
    let e = tts_request_from_parts("t".to_string(), "s".to_string(), String::new(), "aac", 0, None, None).unwrap_err();
    assert_eq!(e, "unsupported audio format: aac");
}
