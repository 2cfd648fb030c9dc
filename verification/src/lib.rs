//! Verified core of a client for generation providers: request builders,
//! configuration resolution, and response decoding for the Doubao Ark Agent
//! Plan and MiniMax APIs. Sending requests and reading files and the
//! environment is left to the caller, which hands the results in as plain
//! values.

pub mod client;
pub mod config;
pub mod error;
pub mod image;
pub mod init;
pub mod json;
pub mod llm;
pub mod minimax;
pub mod service;
pub mod text;
pub mod tts;
pub mod voices;

pub use client::{
    ensure_success_status, header_to_string, images_url, messages_url, tts_headers,
    tts_headers_with_id,
};
pub use config::{
    AgentPlanConfig, AgentPlanEnv, ArkCliConfig, DEFAULT_ANTHROPIC_VERSION, DEFAULT_PLAN_BASE_URL,
    DEFAULT_TTS_RESOURCE_ID, DEFAULT_TTS_URL, arkcli_config_path, arkcli_dir, masked_api_key,
    validate_api_key,
};
pub use error::AgentPlanError;
pub use image::{
    GeneratedImage, ImageGenerationRequest, ImageGenerationResponse, ImageOutputFormat, ImageSize,
};
pub use llm::{LlmMessage, LlmMessageRequest, LlmMessageResponse, MessageContent, MessageRole};
pub use minimax::{
    DEFAULT_MINIMAX_IMAGE_URL, DEFAULT_MINIMAX_TTS_URL, MinimaxAudioFormat, MinimaxAudioSetting,
    MinimaxBaseResp, MinimaxConfig, MinimaxEnv, MinimaxImageData, MinimaxImageRequest,
    MinimaxImageResponse, MinimaxTtsResponse, RawMinimaxTtsData, RawMinimaxTtsResponse,
    decode_hex_audio,
};
pub use text::sanitize_filename;
pub use tts::{
    AudioFormat, AudioParams, SpeechPayload, TtsLine, TtsRequest, TtsRequestParams, TtsResponse,
    TtsUser, decode_tts_lines, speech_payload, tts_body_frames,
};
pub use voices::{VoicePreset, select_voices};
