use vstd::prelude::*;

verus! {

/// Why no image came of a request.
#[derive(Clone, Copy, Debug, PartialEq, Eq, Structural)]
pub enum RequestError {
    /// The size is neither an integer of at least 1 nor two such integers joined
    /// by one `x`.
    InvalidSize,
    /// A colour is not made of six hexadecimal digits.
    InvalidColor,
    /// The caption would have to be drawn from a point that no pixel coordinate names.
    CaptionOutOfRange,
    /// The canvas to encode has no pixel, and the PNG encoder turned it down.
    Encoding,
}

} // verus!
