use crate::errors::ApiError;
use vstd::prelude::*;

verus! {

/// The body of one generation call: model, output size, image count (always
/// one) and the prompt text. Built fresh from a prompt, serialized once per
/// task by the I/O layer.
pub struct ImgRequest<'a> {
    pub model: &'a str,
    pub size: &'a str,
    pub n: usize,
    pub prompt: &'a str,
}

impl ImgRequest<'_> {
    /// A request for exactly one 1024x1024 image from the fixed model.
    pub fn new(prompt: &str) -> (r: ImgRequest)
        ensures
            r.model@ == "dall-e-3"@,
            r.size@ == "1024x1024"@,
            r.n == 1,
            r.prompt@ == prompt@,
    {
        ImgRequest { model: "dall-e-3", size: "1024x1024", n: 1, prompt }
    }
}

/// One entry of a generation response: the URL of a rendered image.
#[derive(Debug, Clone, PartialEq, Eq)]
pub struct Entry {
    pub url: String,
}

/// The parsed body of a successful generation response.
#[derive(Debug, Clone, PartialEq, Eq)]
pub struct Payload {
    pub data: Vec<Entry>,
}

impl Payload {
    /// The one URL a generation response is expected to carry: the first
    /// entry of the array. An empty array is a protocol error, not a panic.
    pub fn first_url(&self) -> (r: Result<String, ApiError>)
        ensures
            self.data@.len() == 0 ==> r == Err::<String, ApiError>(ApiError::Protocol),
            self.data@.len() > 0 ==> r is Ok && r->Ok_0@ == self.data@[0].url@,
    {
        if self.data.len() == 0 {
            Err(ApiError::Protocol)
        } else {
            Ok(self.data[0].url.clone())
        }
    }
}

} // verus!
