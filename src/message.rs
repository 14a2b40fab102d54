use vstd::prelude::*;

use crate::content::{
    CommClose, CommInfoReply, CommInfoRequest, CommMsg, CommOpen, CompleteReply, CompleteRequest,
    ErrorReply, Exception, ExecuteError, ExecuteInput, ExecuteReply, ExecuteRequest, ExecuteResult,
    InspectReply, InspectRequest, IsCompleteReply, IsCompleteRequest, KernelInfoReply, KernelInfoRequest, KernelStatus,
    MessageType, ShutdownReply, ShutdownRequest, Status,
};
use crate::header::JupyterHeader;
use crate::kind::MessageKind;
use crate::session::Session;
use crate::wire_message::{copy_frames, frames_view};

verus! {

/// A message with typed content.
#[derive(Debug)]
pub struct JupyterMessage<T> {
    /// The routing identities (for ROUTER sockets).
    pub zmq_identities: Vec<Vec<u8>>,
    /// The header of this message.
    pub header: JupyterHeader,
    /// The header of the message this one answers, if any.
    pub parent_header: Option<JupyterHeader>,
    /// The body of the message.
    pub content: T,
}

/// The traits every protocol message's content has.
pub trait ProtocolMessage: MessageType {}

impl<T: MessageType> ProtocolMessage for T {}

/// Whether `h` is a header that `session` wrote for a message of kind `k`.
pub open spec fn is_kernel_header(h: JupyterHeader, session: Session, k: MessageKind) -> bool {
    &&& h.msg_type@ == k.spec_tag()
    &&& h.session == session.session_id
    &&& h.username == session.username
}

/// Whether `reply` answers `req`: it goes back along the request's route and
/// names the request's header as its parent.
pub open spec fn answers<T, R>(reply: JupyterMessage<R>, req: JupyterMessage<T>) -> bool {
    &&& frames_view(reply.zmq_identities) == frames_view(req.zmq_identities)
    &&& reply.parent_header == Some(req.header)
}

impl<T: ProtocolMessage> JupyterMessage<T> {
    /// A new message from this kernel, optionally as a child of `parent`.
    pub fn create(content: T, parent: Option<JupyterHeader>, session: &Session) -> (r: JupyterMessage<T>)
        ensures
            r.zmq_identities@.len() == 0,
            is_kernel_header(r.header, *session, T::spec_kind()),
            r.parent_header == parent,
            r.content == content,
    {
        JupyterMessage {
            zmq_identities: Vec::new(),
            header: JupyterHeader::create(
                T::message_type(),
                session.session_id.clone(),
                session.username.clone(),
            ),
            parent_header: parent,
            content,
        }
    }

    /// A reply to this message with the given content. Its header is the
    /// kernel's, never the requester's.
    pub fn create_reply<R: ProtocolMessage>(&self, content: R, session: &Session) -> (r: JupyterMessage<R>)
        ensures
            answers(r, *self),
            is_kernel_header(r.header, *session, R::spec_kind()),
            r.content == content,
    {
        let ids = copy_frames(&self.zmq_identities, 0, self.zmq_identities.len());
        assert(frames_view(ids) =~= frames_view(self.zmq_identities));
        JupyterMessage {
            zmq_identities: ids,
            header: JupyterHeader::create(
                R::message_type(),
                session.session_id.clone(),
                session.username.clone(),
            ),
            parent_header: Some(self.header.copy()),
            content,
        }
    }

    /// An error reply to this message: it carries the tag of the reply `R`
    /// that success would have sent, with the exception as its content.
    pub fn error_reply<R: ProtocolMessage>(&self, exception: Exception, session: &Session) -> (r:
        JupyterMessage<ErrorReply>)
        ensures
            answers(r, *self),
            is_kernel_header(r.header, *session, R::spec_kind()),
            r.content.status == Status::Error,
            r.content.exception == exception,
    {
        let ids = copy_frames(&self.zmq_identities, 0, self.zmq_identities.len());
        assert(frames_view(ids) =~= frames_view(self.zmq_identities));
        JupyterMessage {
            zmq_identities: ids,
            header: JupyterHeader::create(
                R::message_type(),
                session.session_id.clone(),
                session.username.clone(),
            ),
            parent_header: Some(self.header.copy()),
            content: ErrorReply { status: Status::Error, exception },
        }
    }
}

/// Every message of the catalog, with its typed content.
#[derive(Debug)]
pub enum Message {
    KernelInfoRequest(JupyterMessage<KernelInfoRequest>),
    KernelInfoReply(JupyterMessage<KernelInfoReply>),
    ExecuteRequest(JupyterMessage<ExecuteRequest>),
    ExecuteReply(JupyterMessage<ExecuteReply>),
    ExecuteResult(JupyterMessage<ExecuteResult>),
    ExecuteError(JupyterMessage<ExecuteError>),
    ExecuteInput(JupyterMessage<ExecuteInput>),
    IsCompleteRequest(JupyterMessage<IsCompleteRequest>),
    IsCompleteReply(JupyterMessage<IsCompleteReply>),
    CompleteRequest(JupyterMessage<CompleteRequest>),
    CompleteReply(JupyterMessage<CompleteReply>),
    ShutdownRequest(JupyterMessage<ShutdownRequest>),
    ShutdownReply(JupyterMessage<ShutdownReply>),
    Status(JupyterMessage<KernelStatus>),
    CommInfoRequest(JupyterMessage<CommInfoRequest>),
    CommInfoReply(JupyterMessage<CommInfoReply>),
    CommOpen(JupyterMessage<CommOpen>),
    CommMsg(JupyterMessage<CommMsg>),
    CommClose(JupyterMessage<CommClose>),
    InspectRequest(JupyterMessage<InspectRequest>),
    InspectReply(JupyterMessage<InspectReply>),
}

impl Message {
    /// The kind of this message.
    pub open spec fn spec_kind(&self) -> MessageKind {
        match self {
            Message::KernelInfoRequest(_) => MessageKind::KernelInfoRequest,
            Message::KernelInfoReply(_) => MessageKind::KernelInfoReply,
            Message::ExecuteRequest(_) => MessageKind::ExecuteRequest,
            Message::ExecuteReply(_) => MessageKind::ExecuteReply,
            Message::ExecuteResult(_) => MessageKind::ExecuteResult,
            Message::ExecuteError(_) => MessageKind::ExecuteError,
            Message::ExecuteInput(_) => MessageKind::ExecuteInput,
            Message::IsCompleteRequest(_) => MessageKind::IsCompleteRequest,
            Message::IsCompleteReply(_) => MessageKind::IsCompleteReply,
            Message::CompleteRequest(_) => MessageKind::CompleteRequest,
            Message::CompleteReply(_) => MessageKind::CompleteReply,
            Message::ShutdownRequest(_) => MessageKind::ShutdownRequest,
            Message::ShutdownReply(_) => MessageKind::ShutdownReply,
            Message::Status(_) => MessageKind::Status,
            Message::CommInfoRequest(_) => MessageKind::CommInfoRequest,
            Message::CommInfoReply(_) => MessageKind::CommInfoReply,
            Message::CommOpen(_) => MessageKind::CommOpen,
            Message::CommMsg(_) => MessageKind::CommMsg,
            Message::CommClose(_) => MessageKind::CommClose,
            Message::InspectRequest(_) => MessageKind::InspectRequest,
            Message::InspectReply(_) => MessageKind::InspectReply,
        }
    }

    /// The kind of this message.
    pub fn kind(&self) -> (r: MessageKind)
        ensures
            r == self.spec_kind(),
    {
        match self {
            Message::KernelInfoRequest(_) => MessageKind::KernelInfoRequest,
            Message::KernelInfoReply(_) => MessageKind::KernelInfoReply,
            Message::ExecuteRequest(_) => MessageKind::ExecuteRequest,
            Message::ExecuteReply(_) => MessageKind::ExecuteReply,
            Message::ExecuteResult(_) => MessageKind::ExecuteResult,
            Message::ExecuteError(_) => MessageKind::ExecuteError,
            Message::ExecuteInput(_) => MessageKind::ExecuteInput,
            Message::IsCompleteRequest(_) => MessageKind::IsCompleteRequest,
            Message::IsCompleteReply(_) => MessageKind::IsCompleteReply,
            Message::CompleteRequest(_) => MessageKind::CompleteRequest,
            Message::CompleteReply(_) => MessageKind::CompleteReply,
            Message::ShutdownRequest(_) => MessageKind::ShutdownRequest,
            Message::ShutdownReply(_) => MessageKind::ShutdownReply,
            Message::Status(_) => MessageKind::Status,
            Message::CommInfoRequest(_) => MessageKind::CommInfoRequest,
            Message::CommInfoReply(_) => MessageKind::CommInfoReply,
            Message::CommOpen(_) => MessageKind::CommOpen,
            Message::CommMsg(_) => MessageKind::CommMsg,
            Message::CommClose(_) => MessageKind::CommClose,
            Message::InspectRequest(_) => MessageKind::InspectRequest,
            Message::InspectReply(_) => MessageKind::InspectReply,
        }
    }
}

} // verus!
