//! The decisions of the gRPC service: turning the fields of its requests
//! into library requests, with the error text it answers bad fields with.

use vstd::prelude::*;

use crate::image::{ImageGenerationRequest, ImageOutputFormat, ImageSize, default_image_model};
use crate::llm::{LlmMessage, LlmMessageRequest, MessageRole};
use crate::text::{concat_text, same_text};
use crate::tts::{AudioFormat, TtsRequest, default_uid};

verus! {

broadcast use vstd::string::group_string_axioms;

/// A chat message as the service receives it.
#[derive(Debug, Clone)]
pub struct ChatMessage {
    pub role: String,
    pub content: String,
}

/// The role a name stands for: empty or `user`, `assistant`, `system`.
pub open spec fn role_named(name: Seq<char>) -> Option<MessageRole> {
    if name == ""@ || name == "user"@ {
        Some(MessageRole::User)
    } else if name == "assistant"@ {
        Some(MessageRole::Assistant)
    } else if name == "system"@ {
        Some(MessageRole::System)
    } else {
        None
    }
}

/// The image size a name stands for: empty, `2K` or `two_k`; `1K` or
/// `one_k`; `4K` or `four_k`.
pub open spec fn image_size_named(name: Seq<char>) -> Option<ImageSize> {
    if name == ""@ || name == "2K"@ || name == "two_k"@ {
        Some(ImageSize::TwoK)
    } else if name == "1K"@ || name == "one_k"@ {
        Some(ImageSize::OneK)
    } else if name == "4K"@ || name == "four_k"@ {
        Some(ImageSize::FourK)
    } else {
        None
    }
}

/// The image format a name stands for: empty or `png`; `jpeg` or `jpg`.
pub open spec fn image_format_named(name: Seq<char>) -> Option<ImageOutputFormat> {
    if name == ""@ || name == "png"@ {
        Some(ImageOutputFormat::Png)
    } else if name == "jpeg"@ || name == "jpg"@ {
        Some(ImageOutputFormat::Jpeg)
    } else {
        None
    }
}

/// The audio format a name stands for: empty or `mp3`, `pcm`, `wav`,
/// `ogg_opus`.
pub open spec fn audio_format_named(name: Seq<char>) -> Option<AudioFormat> {
    if name == ""@ || name == "mp3"@ {
        Some(AudioFormat::Mp3)
    } else if name == "pcm"@ {
        Some(AudioFormat::Pcm)
    } else if name == "wav"@ {
        Some(AudioFormat::Wav)
    } else if name == "ogg_opus"@ {
        Some(AudioFormat::OggOpus)
    } else {
        None
    }
}

/// Turns a received chat message into a library message; an unknown role
/// is refused with `unsupported message role: <role>`.
pub fn map_chat_message(message: ChatMessage) -> (r: Result<LlmMessage, String>)
    ensures
        match role_named(message.role@) {
            Some(role) => (r matches Ok(m) && m.role == role && m.content == message.content),
            None => (r matches Err(e) && e@ == "unsupported message role: "@ + message.role@),
        },
{
    let name = message.role.as_str();
    let role = if same_text(name, "") || same_text(name, "user") {
        MessageRole::User
    } else if same_text(name, "assistant") {
        MessageRole::Assistant
    } else if same_text(name, "system") {
        MessageRole::System
    } else {
        return Err(concat_text("unsupported message role: ", name));
    };
    Ok(LlmMessage { role, content: message.content })
}

/// Reads an image size name; an unknown one is refused with
/// `unsupported image size: <name>`.
pub fn parse_image_size(value: &str) -> (r: Result<ImageSize, String>)
    ensures
        match image_size_named(value@) {
            Some(size) => r == Ok::<ImageSize, String>(size),
            None => (r matches Err(e) && e@ == "unsupported image size: "@ + value@),
        },
{
    if same_text(value, "") || same_text(value, "2K") || same_text(value, "two_k") {
        Ok(ImageSize::TwoK)
    } else if same_text(value, "1K") || same_text(value, "one_k") {
        Ok(ImageSize::OneK)
    } else if same_text(value, "4K") || same_text(value, "four_k") {
        Ok(ImageSize::FourK)
    } else {
        Err(concat_text("unsupported image size: ", value))
    }
}

/// Reads an image format name; an unknown one is refused with
/// `unsupported image output format: <name>`.
pub fn parse_image_output_format(value: &str) -> (r: Result<ImageOutputFormat, String>)
    ensures
        match image_format_named(value@) {
            Some(format) => r == Ok::<ImageOutputFormat, String>(format),
            None => (r matches Err(e) && e@ == "unsupported image output format: "@ + value@),
        },
{
    if same_text(value, "") || same_text(value, "png") {
        Ok(ImageOutputFormat::Png)
    } else if same_text(value, "jpeg") || same_text(value, "jpg") {
        Ok(ImageOutputFormat::Jpeg)
    } else {
        Err(concat_text("unsupported image output format: ", value))
    }
}

/// Reads an audio format name; an unknown one is refused with
/// `unsupported audio format: <name>`.
pub fn parse_audio_format(value: &str) -> (r: Result<AudioFormat, String>)
    ensures
        match audio_format_named(value@) {
            Some(format) => r == Ok::<AudioFormat, String>(format),
            None => (r matches Err(e) && e@ == "unsupported audio format: "@ + value@),
        },
{
    if same_text(value, "") || same_text(value, "mp3") {
        Ok(AudioFormat::Mp3)
    } else if same_text(value, "pcm") {
        Ok(AudioFormat::Pcm)
    } else if same_text(value, "wav") {
        Ok(AudioFormat::Wav)
    } else if same_text(value, "ogg_opus") {
        Ok(AudioFormat::OggOpus)
    } else {
        Err(concat_text("unsupported audio format: ", value))
    }
}

/// `value`, or `default` when `value` is empty.
pub fn default_if_empty(value: String, default: &str) -> (r: String)
    ensures
        r@ == if value@.len() == 0 {
            default@
        } else {
            value@
        },
{
    if value.as_str().is_empty() {
        default.to_string()
    } else {
        value
    }
}

/// Whether every message in `msgs` names a known role.
pub open spec fn all_roles_known(msgs: Seq<ChatMessage>) -> bool {
    forall|i: int| 0 <= i < msgs.len() ==> (#[trigger] role_named(msgs[i].role@)) is Some
}

/// The messages request that the service sends for a received one. The
/// first message with an unknown role, if any, refuses it.
pub fn message_request_from_parts(model: String, max_tokens: u32, messages: Vec<ChatMessage>) -> (r:
    Result<LlmMessageRequest, String>)
    ensures
        all_roles_known(messages@) ==> (r matches Ok(req) && req.model == model && req.max_tokens
            == max_tokens && req.messages@.len() == messages@.len() && (forall|i: int|
            0 <= i < messages@.len() ==> (#[trigger] req.messages@[i]).role == role_named(
                messages@[i].role@,
            )->0 && req.messages@[i].content == messages@[i].content)),
        !all_roles_known(messages@) ==> (r matches Err(e) && exists|k: int|
            0 <= k < messages@.len() && role_named(#[trigger] messages@[k].role@) is None
                && all_roles_known(messages@.take(k)) && e@ == "unsupported message role: "@
                + messages@[k].role@),
{
    let mut mapped: Vec<LlmMessage> = Vec::new();
    let mut i: usize = 0;
    while i < messages.len()
        invariant
            0 <= i <= messages@.len(),
            mapped@.len() == i,
            all_roles_known(messages@.take(i as int)),
            forall|j: int|
                0 <= j < i ==> (#[trigger] mapped@[j]).role == role_named(messages@[j].role@)->0
                    && mapped@[j].content == messages@[j].content,
        decreases messages@.len() - i,
    {
        let message = ChatMessage {
            role: messages[i].role.clone(),
            content: messages[i].content.clone(),
        };
        match map_chat_message(message) {
            Ok(m) => {
                mapped.push(m);
            },
            Err(e) => {
                proof {
                    assert(role_named(messages@[i as int].role@) is None);
                }
                return Err(e);
            },
        }
        proof {
            assert forall|j: int| 0 <= j < i + 1 implies (#[trigger] role_named(
                messages@.take(i + 1)[j].role@,
            )) is Some by {
                if j < i {
                    assert(messages@.take(i + 1)[j] == messages@.take(i as int)[j]);
                }
            }
        }
        i = i + 1;
    }
    proof {
        assert(messages@.take(messages@.len() as int) == messages@);
    }
    Ok(LlmMessageRequest { model, max_tokens, messages: mapped })
}

/// The image request that the service sends: an empty model means the
/// default one, and the size is read before the format, so a bad size is
/// reported first. Images are always answered with URLs.
pub fn image_request_from_parts(
    model: String,
    prompt: String,
    size: &str,
    output_format: &str,
    watermark: bool,
) -> (r: Result<ImageGenerationRequest, String>)
    ensures
        image_size_named(size@) is None ==> (r matches Err(e) && e@ == "unsupported image size: "@
            + size@),
        image_size_named(size@) is Some && image_format_named(output_format@) is None ==> (r matches Err(
            e,
        ) && e@ == "unsupported image output format: "@ + output_format@),
        image_size_named(size@) is Some && image_format_named(output_format@) is Some ==> (r matches Ok(
            req,
        ) && req.model@ == (if model@.len() == 0 {
            default_image_model()
        } else {
            model@
        }) && req.prompt == prompt && req.size == image_size_named(size@)->0 && req.output_format
            == image_format_named(output_format@)->0 && req.watermark == watermark
            && (req.response_format matches Some(f) && f@ == "url"@)),
{
    let model = default_if_empty(model, "doubao-seedream-5.0-lite");
    let size = parse_image_size(size)?;
    let output_format = parse_image_output_format(output_format)?;
    Ok(ImageGenerationRequest {
        model,
        prompt,
        size,
        output_format,
        watermark,
        response_format: Some("url".to_string()),
    })
}

/// The speech request that the service sends: an empty uid keeps the
/// default one, a zero sample rate keeps 24 kHz, and the rate and loudness
/// are passed as given.
pub fn tts_request_from_parts(
    text: String,
    speaker: String,
    uid: String,
    audio_format: &str,
    sample_rate: u32,
    speech_rate: Option<i32>,
    loudness_rate: Option<i32>,
) -> (r: Result<TtsRequest, String>)
    ensures
        audio_format_named(audio_format@) is None ==> (r matches Err(e) && e@
            == "unsupported audio format: "@ + audio_format@),
        audio_format_named(audio_format@) is Some ==> (r matches Ok(req) && req.req_params.text
            == text && req.req_params.speaker == speaker && req.user.uid@ == (if uid@.len() == 0 {
            default_uid()
        } else {
            uid@
        }) && req.req_params.audio_params.format == audio_format_named(audio_format@)->0
            && req.req_params.audio_params.sample_rate == (if sample_rate == 0 {
            24000
        } else {
            sample_rate
        }) && req.req_params.audio_params.speech_rate == speech_rate
            && req.req_params.audio_params.loudness_rate == loudness_rate),
{
    let mut tts = TtsRequest::new(text, speaker);
    if !uid.as_str().is_empty() {
        tts.user.uid = uid;
    }
    tts.req_params.audio_params.format = parse_audio_format(audio_format)?;
    if sample_rate != 0 {
        tts.req_params.audio_params.sample_rate = sample_rate;
    }
    tts.req_params.audio_params.speech_rate = speech_rate;
    tts.req_params.audio_params.loudness_rate = loudness_rate;
    Ok(tts)
}

} // verus!
