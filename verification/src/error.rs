//! The errors that the library returns.

use vstd::prelude::*;

verus! {

/// Why a payload does not have the shape of the event that its
/// discriminators announce.
#[derive(Debug, Clone, Copy, PartialEq, Eq)]
pub enum PayloadFault {
    /// A required member is absent. Holds the member's name.
    MissingField(&'static str),
    /// A member is present, but its value has the wrong JSON type, or is a
    /// number outside the range of the field. Holds the member's name.
    InvalidField(&'static str),
}

/// Why a payload could not be classified.
#[derive(Debug, Clone, Copy, PartialEq, Eq)]
pub enum ClassificationError {
    /// The member `post_type` is absent or is no string.
    MissingDiscriminator,
    /// The discriminators name a known event, but the payload does not have
    /// that event's shape. Holds the event's name and the first fault found.
    MalformedPayload(&'static str, PayloadFault),
}

/// Any failure of the library.
#[derive(Debug)]
pub enum Error {
    /// The transport failed. Holds its message.
    Reqwest(String),
    /// The text of a payload is no JSON. Holds the parser's message.
    Serde(String),
    /// An input or output operation failed. Holds its message.
    Io(String),
    /// The gateway answered with an error. Holds its message.
    OnebotApi(String),
    /// The event to reply to has no addressable recipient.
    ReplyEvent,
    /// The payload could not be classified.
    Classification(ClassificationError),
}

} // verus!
