//! Agent Plan image generation requests and replies.

use vstd::prelude::*;

verus! {

broadcast use vstd::string::group_string_axioms;

/// The resolution class of a generated image.
#[derive(Debug, Clone, Copy, PartialEq, Eq, Structural)]
pub enum ImageSize {
    OneK,
    TwoK,
    FourK,
}

/// The file format of a generated image.
#[derive(Debug, Clone, Copy, PartialEq, Eq, Structural)]
pub enum ImageOutputFormat {
    Png,
    Jpeg,
}

/// An image generation request.
#[derive(Debug, Clone)]
pub struct ImageGenerationRequest {
    pub model: String,
    pub prompt: String,
    pub size: ImageSize,
    pub output_format: ImageOutputFormat,
    pub watermark: bool,
    pub response_format: Option<String>,
}

/// The image model used unless another is named.
pub open spec fn default_image_model() -> Seq<char> {
    "doubao-seedream-5.0-lite"@
}

impl ImageGenerationRequest {
    /// A request to draw `prompt` as a 2K PNG without watermark from the
    /// default model, answered with URLs.
    pub fn new(prompt: String) -> (r: Self)
        ensures
            r.model@ == default_image_model(),
            r.prompt == prompt,
            r.size == ImageSize::TwoK,
            r.output_format == ImageOutputFormat::Png,
            !r.watermark,
            r.response_format matches Some(f) && f@ == "url"@,
    {
        ImageGenerationRequest {
            model: "doubao-seedream-5.0-lite".to_string(),
            prompt,
            size: ImageSize::TwoK,
            output_format: ImageOutputFormat::Png,
            watermark: false,
            response_format: Some("url".to_string()),
        }
    }
}

/// One generated image.
#[derive(Debug, Clone)]
pub struct GeneratedImage {
    pub url: Option<String>,
    pub b64_json: Option<String>,
    pub size: Option<String>,
}

/// A reply to an image generation request.
#[derive(Debug)]
pub struct ImageGenerationResponse {
    pub model: String,
    pub created: u64,
    pub data: Vec<GeneratedImage>,
    pub usage: Option<serde_json::Value>,
}

} // verus!
