use vstd::prelude::*;

use crate::kind::MessageKind;

verus! {

/// Failures of the protocol engine.
#[derive(Debug)]
pub enum Error {
    /// The header names a message type outside the catalog.
    UnknownMessageType(String),
    /// A known message arrived on a channel that has no handler for it.
    UnsupportedMessage(MessageKind, String),
    /// The frames hold no `<IDS|MSG>` delimiter.
    MissingDelimiter,
    /// Fewer than the five frames that must follow the delimiter.
    InsufficientFrames(usize),
    /// The signature frame does not match the signed frames.
    BadSignature,
    /// The connection file asks for a signature scheme this kernel lacks.
    UnsupportedSignatureScheme(String),
}

} // verus!
