use vstd::prelude::*;
use vstd::string::StrSliceExecFns;
use crate::error::RequestError;

verus! {

broadcast use vstd::string::group_string_axioms;

/// What the body of an answer holds: an image, or plain text.
#[derive(Clone, Copy, Debug, PartialEq, Eq, Structural)]
pub enum ContentType {
    Png,
    PlainText,
}

/// What the service answers to a request.
#[derive(Debug)]
pub struct Response {
    pub status: u16,
    pub content_type: ContentType,
    pub body: Vec<u8>,
}

/// The status of an answer that carries an image.
pub open spec fn status_ok() -> u16 {
    200
}

/// The status of an answer to a request that gave no image.
pub open spec fn status_bad_request() -> u16 {
    400
}

/// The text sent in place of an image, whatever went wrong.
pub open spec fn error_text() -> Seq<char> {
    "Invalid parameters"@
}

/// The value of the `Content-Type` header that announces a body.
pub open spec fn media_type(content_type: ContentType) -> Seq<char> {
    match content_type {
        ContentType::Png => "image/png"@,
        ContentType::PlainText => "text/plain"@,
    }
}

/// The bytes of a text of ASCII characters, one for each.
pub open spec fn ascii_bytes(text: Seq<char>) -> Seq<u8> {
    Seq::new(text.len(), |i: int| text[i] as u8)
}

/// The answer that an outcome calls for: the image, or the one error text.
pub open spec fn response_of(outcome: Result<Seq<u8>, RequestError>) -> (u16, ContentType, Seq<u8>) {
    match outcome {
        Ok(image) => (status_ok(), ContentType::Png, image),
        Err(_) => (status_bad_request(), ContentType::PlainText, ascii_bytes(error_text())),
    }
}

impl ContentType {
    /// The value of the `Content-Type` header.
    pub fn as_str(&self) -> (text: &'static str)
        ensures
            text@ == media_type(*self),
    {
        match self {
            ContentType::Png => "image/png",
            ContentType::PlainText => "text/plain",
        }
    }
}

impl Response {
    /// Status, content type and body, as one mathematical value.
    pub open spec fn summary(&self) -> (u16, ContentType, Seq<u8>) {
        (self.status, self.content_type, self.body@)
    }
}

/// The outcome of making an image, with the file as a sequence of bytes.
pub open spec fn outcome_of(outcome: Result<Vec<u8>, RequestError>) -> Result<Seq<u8>, RequestError> {
    match outcome {
        Ok(image) => Ok(image@),
        Err(e) => Err(e),
    }
}

/// Answers a request: with the image where there is one, and with the same plain
/// text for every failure.
pub fn respond(outcome: Result<Vec<u8>, RequestError>) -> (response: Response)
    ensures
        response.summary() == response_of(outcome_of(outcome)),
{
    match outcome {
        Ok(image) => Response { status: 200, content_type: ContentType::Png, body: image },
        Err(_) => {
            let text = "Invalid parameters";
            proof {
                reveal_strlit("Invalid parameters");
            }
            assert(text.is_ascii());
            let body = text.as_bytes_vec();
            Response { status: 400, content_type: ContentType::PlainText, body }
        },
    }
}

} // verus!
