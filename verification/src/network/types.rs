//! What a protocol decoder offers to the classifier.

use crate::network::frame::Frame;
use vstd::prelude::*;

verus! {

/// Why a decoder turned a frame down.
#[derive(Debug, PartialEq, Eq)]
pub struct DecodeError {
    /// The cause, in words.
    pub cause: String,
}

/// The decoded payload of one protocol.
///
/// Neither method promises anything of its result: the classifier states of
/// each result only that the method gave it.
pub trait Payload: Sized {
    /// Decodes the payload of `frame`, which was captured on `interface`.
    fn decode(interface: &str, frame: &Frame) -> Result<Self, DecodeError>;

    /// The payload as text.
    fn render(&self) -> String;
}

} // verus!
