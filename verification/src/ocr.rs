//! The client side of the text-detection provider: what is sent for one
//! image, and what the provider's answer amounts to.
//!
//! Sending is the caller's part. It posts the form fields of an
//! [`OcrRequest`] to [`endpoint`] and reports what came back as a
//! [`ProviderReply`].

use vstd::prelude::*;

verus! {

/// The address that requests are posted to.
pub open spec fn endpoint_text() -> Seq<char> {
    "https://api.ocr.space/parse/image"@
}

/// The key that the provider is called with.
pub open spec fn api_key_text() -> Seq<char> {
    "helloworld"@
}

/// The language that text is detected in.
pub open spec fn language_text() -> Seq<char> {
    "eng"@
}

/// How a flag is written in a form field.
pub open spec fn flag_text(flag: bool) -> Seq<char> {
    if flag {
        "true"@
    } else {
        "false"@
    }
}

/// One request to the provider: a base64 image and the fixed parameters that
/// go with it. A request is made afresh for each call.
#[derive(Debug)]
pub struct OcrRequest {
    pub api_key: String,
    pub language: String,
    pub overlay_required: bool,
    pub image: String,
}

/// The form fields of `request`, in the order in which they are sent.
pub open spec fn form_of(request: OcrRequest) -> Seq<(Seq<char>, Seq<char>)> {
    seq![
        ("apikey"@, request.api_key@),
        ("language"@, request.language@),
        ("isOverlayRequired"@, flag_text(request.overlay_required)),
        ("base64Image"@, request.image@),
    ]
}

/// Why a call to the provider gave no text.
#[derive(Debug, Clone, Copy, PartialEq, Eq)]
pub enum OcrError {
    /// The provider could not be reached.
    NetworkError,
    /// The provider answered with a status outside 200..=299.
    ProviderError { status: u16 },
    /// The provider answered with success, but its body could not be read as
    /// text.
    MalformedResponse,
}

/// What came of sending a request.
#[derive(Debug)]
pub enum ProviderReply {
    /// No response arrived.
    Unreachable,
    /// A response arrived. `body` is its text, or `None` where the body could
    /// not be read as text.
    Answered { status: u16, body: Option<String> },
}

/// Whether `status` reports success.
pub open spec fn is_success(status: u16) -> bool {
    200 <= status <= 299
}

/// What `reply` amounts to: the provider's text unchanged, or the one error
/// that tells why there is none.
pub open spec fn outcome_of(reply: ProviderReply) -> Result<String, OcrError> {
    match reply {
        ProviderReply::Unreachable => Err(OcrError::NetworkError),
        ProviderReply::Answered { status, body } => if !is_success(status) {
            Err(OcrError::ProviderError { status })
        } else {
            match body {
                Some(text) => Ok(text),
                None => Err(OcrError::MalformedResponse),
            }
        },
    }
}

/// The address that requests are posted to.
pub fn endpoint() -> (url: &'static str)
    ensures
        url@ == endpoint_text(),
{
    "https://api.ocr.space/parse/image"
}

impl OcrRequest {
    /// The request for `image`, a base64 image string: the fixed key, the
    /// language `eng`, overlay required, and the image unchanged.
    pub fn new(image: String) -> (request: OcrRequest)
        ensures
            request.api_key@ == api_key_text(),
            request.language@ == language_text(),
            request.overlay_required,
            request.image == image,
    {
        OcrRequest {
            api_key: "helloworld".to_owned(),
            language: "eng".to_owned(),
            overlay_required: true,
            image,
        }
    }

    /// The form fields to post, as name and value, in order: `apikey`,
    /// `language`, `isOverlayRequired`, `base64Image`.
    pub fn form_fields(&self) -> (fields: Vec<(String, String)>)
        ensures
            fields@.len() == form_of(*self).len() == 4,
            forall|i: int|
                0 <= i < 4 ==> {
                    &&& (#[trigger] fields@[i]).0@ == form_of(*self)[i].0
                    &&& fields@[i].1@ == form_of(*self)[i].1
                },
    {
        let overlay = if self.overlay_required {
            "true"
        } else {
            "false"
        };
        let mut fields: Vec<(String, String)> = Vec::new();
        fields.push(("apikey".to_owned(), self.api_key.clone()));
        fields.push(("language".to_owned(), self.language.clone()));
        fields.push(("isOverlayRequired".to_owned(), overlay.to_owned()));
        fields.push(("base64Image".to_owned(), self.image.clone()));
        fields
    }
}

/// Tells the provider's text from a failure. The text of a successful
/// answer is returned exactly as it came; an unreachable provider, a status
/// outside 200..=299 and an unreadable body each give their own error.
pub fn read_reply(reply: ProviderReply) -> (outcome: Result<String, OcrError>)
    ensures
        outcome == outcome_of(reply),
        outcome is Ok <==> {
            &&& reply matches ProviderReply::Answered { status, body }
            &&& is_success(status)
            &&& body is Some
        },
{
    match reply {
        ProviderReply::Unreachable => Err(OcrError::NetworkError),
        ProviderReply::Answered { status, body } => {
            if status < 200 || status > 299 {
                Err(OcrError::ProviderError { status })
            } else {
                match body {
                    Some(text) => Ok(text),
                    None => Err(OcrError::MalformedResponse),
                }
            }
        },
    }
}

} // verus!
