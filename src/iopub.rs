use vstd::prelude::*;

use crate::content::{ExecuteError, ExecuteInput, ExecuteResult, KernelStatus};
use crate::header::JupyterHeader;
use crate::kind::MessageKind;
use crate::message::{is_kernel_header, JupyterMessage, Message};
use crate::session::Session;

verus! {

/// An event for the broadcast channel, with the header of the request it
/// belongs to. Any thread may queue one; the broadcast loop publishes them in
/// the order each sender queued them.
#[derive(Debug)]
pub enum IOPubMessage {
    Status(JupyterHeader, KernelStatus),
    ExecuteInput(JupyterHeader, ExecuteInput),
    ExecuteResult(JupyterHeader, ExecuteResult),
    ExecuteError(JupyterHeader, ExecuteError),
}

impl IOPubMessage {
    /// The header of the request this event belongs to.
    pub open spec fn parent(&self) -> JupyterHeader {
        match self {
            IOPubMessage::Status(h, _) => *h,
            IOPubMessage::ExecuteInput(h, _) => *h,
            IOPubMessage::ExecuteResult(h, _) => *h,
            IOPubMessage::ExecuteError(h, _) => *h,
        }
    }

    /// The kind of message that publishes this event.
    pub open spec fn spec_kind(&self) -> MessageKind {
        match self {
            IOPubMessage::Status(_, _) => MessageKind::Status,
            IOPubMessage::ExecuteInput(_, _) => MessageKind::ExecuteInput,
            IOPubMessage::ExecuteResult(_, _) => MessageKind::ExecuteResult,
            IOPubMessage::ExecuteError(_, _) => MessageKind::ExecuteError,
        }
    }

    /// The message that publishes this event: a kernel header, the request
    /// as its parent, the event as its content.
    pub fn into_message(self, session: &Session) -> (r: Message)
        ensures
            r.spec_kind() == self.spec_kind(),
            match r {
                Message::Status(m) => self matches IOPubMessage::Status(h, c) && m.parent_header == Some(h)
                    && m.content == c && is_kernel_header(m.header, *session, MessageKind::Status),
                Message::ExecuteInput(m) => self matches IOPubMessage::ExecuteInput(h, c)
                    && m.parent_header == Some(h) && m.content == c && is_kernel_header(
                    m.header,
                    *session,
                    MessageKind::ExecuteInput,
                ),
                Message::ExecuteResult(m) => self matches IOPubMessage::ExecuteResult(h, c)
                    && m.parent_header == Some(h) && m.content == c && is_kernel_header(
                    m.header,
                    *session,
                    MessageKind::ExecuteResult,
                ),
                Message::ExecuteError(m) => self matches IOPubMessage::ExecuteError(h, c)
                    && m.parent_header == Some(h) && m.content == c && is_kernel_header(
                    m.header,
                    *session,
                    MessageKind::ExecuteError,
                ),
                _ => false,
            },
    {
        match self {
            IOPubMessage::Status(h, c) => Message::Status(JupyterMessage::create(c, Some(h), session)),
            IOPubMessage::ExecuteInput(h, c) => Message::ExecuteInput(
                JupyterMessage::create(c, Some(h), session),
            ),
            IOPubMessage::ExecuteResult(h, c) => Message::ExecuteResult(
                JupyterMessage::create(c, Some(h), session),
            ),
            IOPubMessage::ExecuteError(h, c) => Message::ExecuteError(
                JupyterMessage::create(c, Some(h), session),
            ),
        }
    }
}

} // verus!
