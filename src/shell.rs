use vstd::prelude::*;

use crate::comm::{CommInitiator, CommManager, CommOpenOutcome};
use crate::content::{
    CommInfoReply, CommInfoRequest, CompleteReply, CompleteRequest, ErrorReply, Exception,
    ExecuteReply, ExecuteReplyException, ExecuteRequest, ExecutionState, InspectReply,
    InspectRequest, IsCompleteReply,
    IsCompleteRequest, KernelInfoReply, KernelInfoRequest, KernelStatus, ShutdownReply, Status,
};
use crate::error::Error;
use crate::header::JupyterHeader;
use crate::iopub::IOPubMessage;
use crate::kind::MessageKind;
use crate::message::{is_kernel_header, JupyterMessage, Message};
use crate::session::Session;
use crate::wire_message::frames_view;

verus! {

/// The language's handler of shell requests: one method per request, each
/// returning the reply content or the exception it raised. Each method's
/// outcome is named by a spec relation that the implementation defines, so
/// that what the dispatcher sends can be tied to what the handler returned.
pub trait ShellHandler: Sized {
    /// Whether `r` is an outcome of asking this handler for kernel info.
    spec fn info_outcome(&self, req: KernelInfoRequest, r: Result<KernelInfoReply, Exception>) -> bool;

    /// Whether `r` is an outcome of asking this handler for completions.
    spec fn complete_outcome(&self, req: CompleteRequest, r: Result<CompleteReply, Exception>) -> bool;

    /// Whether `r` is an outcome of asking this handler for its comms.
    spec fn comm_info_outcome(&self, req: CommInfoRequest, r: Result<CommInfoReply, Exception>) -> bool;

    /// Whether `r` is an outcome of asking this handler if code is complete.
    spec fn is_complete_outcome(
        &self,
        req: IsCompleteRequest,
        r: Result<IsCompleteReply, Exception>,
    ) -> bool;

    /// Whether `r` is an outcome of asking this handler to run code, leaving
    /// it as `after`.
    spec fn execute_outcome(
        &self,
        req: ExecuteRequest,
        r: Result<ExecuteReply, ExecuteReplyException>,
        after: Self,
    ) -> bool;

    /// Whether `r` is an outcome of asking this handler to inspect code.
    spec fn inspect_outcome(&self, req: InspectRequest, r: Result<InspectReply, Exception>) -> bool;

    fn handle_info_request(&self, req: &KernelInfoRequest) -> (r: Result<KernelInfoReply, Exception>)
        ensures
            self.info_outcome(*req, r),
    ;

    fn handle_complete_request(&self, req: &CompleteRequest) -> (r: Result<CompleteReply, Exception>)
        ensures
            self.complete_outcome(*req, r),
    ;

    fn handle_comm_info_request(&self, req: &CommInfoRequest) -> (r: Result<CommInfoReply, Exception>)
        ensures
            self.comm_info_outcome(*req, r),
    ;

    fn handle_is_complete_request(&self, req: &IsCompleteRequest) -> (r: Result<IsCompleteReply, Exception>)
        ensures
            self.is_complete_outcome(*req, r),
    ;

    fn handle_execute_request(&mut self, req: &ExecuteRequest) -> (r: Result<
        ExecuteReply,
        ExecuteReplyException,
    >)
        ensures
            old(self).execute_outcome(*req, r, *final(self)),
    ;

    fn handle_inspect_request(&self, req: &InspectRequest) -> (r: Result<InspectReply, Exception>)
        ensures
            self.inspect_outcome(*req, r),
    ;
}

/// A reply to a request, ready to go back on the socket it came from.
#[derive(Debug)]
pub enum Reply {
    KernelInfo(JupyterMessage<KernelInfoReply>),
    IsComplete(JupyterMessage<IsCompleteReply>),
    Execute(JupyterMessage<ExecuteReply>),
    ExecuteException(JupyterMessage<ExecuteReplyException>),
    Complete(JupyterMessage<CompleteReply>),
    CommInfo(JupyterMessage<CommInfoReply>),
    Shutdown(JupyterMessage<ShutdownReply>),
    Inspect(JupyterMessage<InspectReply>),
    Error(JupyterMessage<ErrorReply>),
}

/// Whether `m` goes back along `ids`, names `parent` as its parent, and has a
/// header that `session` wrote for kind `k`.
pub open spec fn correlated<T>(
    m: JupyterMessage<T>,
    ids: Seq<Seq<u8>>,
    parent: JupyterHeader,
    session: Session,
    k: MessageKind,
) -> bool {
    &&& frames_view(m.zmq_identities) == ids
    &&& m.parent_header == Some(parent)
    &&& is_kernel_header(m.header, session, k)
}

impl Reply {
    /// Whether this reply answers the request with routing `ids` and header
    /// `parent`, as a message of kind `k` from `session`.
    pub open spec fn answers(self, ids: Seq<Seq<u8>>, parent: JupyterHeader, session: Session, k: MessageKind) -> bool {
        match self {
            Reply::KernelInfo(m) => correlated(m, ids, parent, session, k),
            Reply::IsComplete(m) => correlated(m, ids, parent, session, k),
            Reply::Execute(m) => correlated(m, ids, parent, session, k),
            Reply::ExecuteException(m) => correlated(m, ids, parent, session, k),
            Reply::Complete(m) => correlated(m, ids, parent, session, k),
            Reply::CommInfo(m) => correlated(m, ids, parent, session, k),
            Reply::Shutdown(m) => correlated(m, ids, parent, session, k),
            Reply::Inspect(m) => correlated(m, ids, parent, session, k),
            Reply::Error(m) => correlated(m, ids, parent, session, k),
        }
    }
}

/// What handling one request produces, in the order it must be sent.
#[derive(Debug)]
pub enum Outgoing {
    /// An event for the broadcast channel.
    IOPub(IOPubMessage),
    /// The reply, for the socket the request came in on.
    Reply(Reply),
    /// A newly opened comm for the consumer of its target: id, target, JSON
    /// data of the open request.
    CommOpened(String, String, String),
    /// A payload for the consumer that owns a comm: id, target, JSON data.
    Comm(String, String, String),
    /// A comm that closed, by id, for the consumer that owned it.
    CommClosed(String),
    /// Something to log as a warning.
    Warning(String),
}

/// Whether `o` announces execution state `state` for the request `parent`.
pub open spec fn is_status(o: Outgoing, state: ExecutionState, parent: JupyterHeader) -> bool {
    o matches Outgoing::IOPub(IOPubMessage::Status(h, s)) && h == parent && s.execution_state == state
}

/// Whether `o` is a status event at all.
pub open spec fn is_any_status(o: Outgoing) -> bool {
    o matches Outgoing::IOPub(IOPubMessage::Status(_, _))
}

/// Exactly one Busy first and exactly one Idle last, both for `parent`, and no
/// other status event between them.
pub open spec fn bracketed(out: Seq<Outgoing>, parent: JupyterHeader) -> bool {
    &&& out.len() >= 2
    &&& is_status(out[0], ExecutionState::Busy, parent)
    &&& is_status(out.last(), ExecutionState::Idle, parent)
    &&& forall|i: int| 1 <= i < out.len() - 1 ==> !is_any_status(#[trigger] out[i])
}

/// The requests the shell channel serves.
pub open spec fn is_shell_request(k: MessageKind) -> bool {
    ||| k == MessageKind::KernelInfoRequest
    ||| k == MessageKind::IsCompleteRequest
    ||| k == MessageKind::ExecuteRequest
    ||| k == MessageKind::CompleteRequest
    ||| k == MessageKind::CommInfoRequest
    ||| k == MessageKind::InspectRequest
    ||| k == MessageKind::CommOpen
    ||| k == MessageKind::CommMsg
    ||| k == MessageKind::CommClose
}

/// The kind of the reply to a request of kind `k`; comm messages get none.
pub open spec fn reply_kind(k: MessageKind) -> Option<MessageKind> {
    match k {
        MessageKind::KernelInfoRequest => Some(MessageKind::KernelInfoReply),
        MessageKind::IsCompleteRequest => Some(MessageKind::IsCompleteReply),
        MessageKind::ExecuteRequest => Some(MessageKind::ExecuteReply),
        MessageKind::CompleteRequest => Some(MessageKind::CompleteReply),
        MessageKind::CommInfoRequest => Some(MessageKind::CommInfoReply),
        MessageKind::ShutdownRequest => Some(MessageKind::ShutdownReply),
        MessageKind::InspectRequest => Some(MessageKind::InspectReply),
        _ => None,
    }
}

/// The header of a message.
pub open spec fn header_of(m: Message) -> JupyterHeader {
    match m {
        Message::KernelInfoRequest(x) => x.header,
        Message::KernelInfoReply(x) => x.header,
        Message::ExecuteRequest(x) => x.header,
        Message::ExecuteReply(x) => x.header,
        Message::ExecuteResult(x) => x.header,
        Message::ExecuteError(x) => x.header,
        Message::ExecuteInput(x) => x.header,
        Message::IsCompleteRequest(x) => x.header,
        Message::IsCompleteReply(x) => x.header,
        Message::CompleteRequest(x) => x.header,
        Message::CompleteReply(x) => x.header,
        Message::ShutdownRequest(x) => x.header,
        Message::ShutdownReply(x) => x.header,
        Message::Status(x) => x.header,
        Message::CommInfoRequest(x) => x.header,
        Message::CommInfoReply(x) => x.header,
        Message::CommOpen(x) => x.header,
        Message::CommMsg(x) => x.header,
        Message::CommClose(x) => x.header,
        Message::InspectRequest(x) => x.header,
        Message::InspectReply(x) => x.header,
    }
}

/// The routing identities of a message.
pub open spec fn ids_of(m: Message) -> Seq<Seq<u8>> {
    match m {
        Message::KernelInfoRequest(x) => frames_view(x.zmq_identities),
        Message::KernelInfoReply(x) => frames_view(x.zmq_identities),
        Message::ExecuteRequest(x) => frames_view(x.zmq_identities),
        Message::ExecuteReply(x) => frames_view(x.zmq_identities),
        Message::ExecuteResult(x) => frames_view(x.zmq_identities),
        Message::ExecuteError(x) => frames_view(x.zmq_identities),
        Message::ExecuteInput(x) => frames_view(x.zmq_identities),
        Message::IsCompleteRequest(x) => frames_view(x.zmq_identities),
        Message::IsCompleteReply(x) => frames_view(x.zmq_identities),
        Message::CompleteRequest(x) => frames_view(x.zmq_identities),
        Message::CompleteReply(x) => frames_view(x.zmq_identities),
        Message::ShutdownRequest(x) => frames_view(x.zmq_identities),
        Message::ShutdownReply(x) => frames_view(x.zmq_identities),
        Message::Status(x) => frames_view(x.zmq_identities),
        Message::CommInfoRequest(x) => frames_view(x.zmq_identities),
        Message::CommInfoReply(x) => frames_view(x.zmq_identities),
        Message::CommOpen(x) => frames_view(x.zmq_identities),
        Message::CommMsg(x) => frames_view(x.zmq_identities),
        Message::CommClose(x) => frames_view(x.zmq_identities),
        Message::InspectRequest(x) => frames_view(x.zmq_identities),
        Message::InspectReply(x) => frames_view(x.zmq_identities),
    }
}

/// Whether `out` is the busy/idle bracket around exactly one reply that
/// answers `msg` as the kernel session `session`.
pub open spec fn replied(out: Seq<Outgoing>, msg: Message, session: Session) -> bool {
    &&& bracketed(out, header_of(msg))
    &&& out.len() == 3
    &&& out[1] matches Outgoing::Reply(rep) && rep.answers(
        ids_of(msg),
        header_of(msg),
        session,
        reply_kind(msg.spec_kind())->0,
    )
}

/// A status event announcing `state` for the request `parent`.
pub(crate) fn send_state(parent: &JupyterHeader, state: ExecutionState) -> (r: Outgoing)
    ensures
        is_status(r, state, *parent),
{
    Outgoing::IOPub(IOPubMessage::Status(parent.copy(), KernelStatus { execution_state: state }))
}

/// Wraps what handling a request produced between its Busy and Idle events.
pub(crate) fn handle_request(parent: &JupyterHeader, middle: Vec<Outgoing>) -> (r: Vec<Outgoing>)
    requires
        forall|i: int| 0 <= i < middle@.len() ==> !is_any_status(#[trigger] middle@[i]),
    ensures
        bracketed(r@, *parent),
        r@.len() == middle@.len() + 2,
        forall|i: int| 0 <= i < middle@.len() ==> r@[i + 1] == #[trigger] middle@[i],
{
    let mut r: Vec<Outgoing> = Vec::new();
    r.push(send_state(parent, ExecutionState::Busy));
    let mut middle = middle;
    let ghost m = middle@;
    r.append(&mut middle);
    r.push(send_state(parent, ExecutionState::Idle));
    assert forall|i: int| 1 <= i < r@.len() - 1 implies !is_any_status(#[trigger] r@[i]) by {
        assert(r@[i] == m[i - 1]);
    }
    r
}

/// The channel that serves execution requests: it brackets each request with
/// Busy and Idle events, asks the handler for the reply, turns a handler's
/// failure into an error reply, and routes comm messages through the
/// registry.
pub struct Shell<H: ShellHandler> {
    session: Session,
    handler: H,
    comms: CommManager,
}

impl<H: ShellHandler> Shell<H> {
    /// The kernel session this channel answers as.
    pub closed spec fn session(&self) -> Session {
        self.session
    }

    /// The language handler.
    pub closed spec fn spec_handler(&self) -> H {
        self.handler
    }

    /// The comm registry.
    pub closed spec fn comms(&self) -> CommManager {
        self.comms
    }

    /// The channel is well formed.
    pub closed spec fn wf(&self) -> bool {
        self.comms.wf()
    }

    /// A shell channel answering as `session`, asking `handler`, whose comm
    /// consumers serve `comm_targets`.
    pub fn new(session: Session, handler: H, comm_targets: Vec<String>) -> (r: Shell<H>)
        ensures
            r.wf(),
            r.session() == session,
            r.comms()@.open.len() == 0,
            r.comms()@.seen.len() == 0,
            r.comms()@.targets == comm_targets@.map_values(|s: String| s@),
    {
        Shell { session, handler, comms: CommManager::new(comm_targets) }
    }

    /// The language handler.
    pub fn handler(&self) -> (r: &H)
        ensures
            *r == self.spec_handler(),
    {
        &self.handler
    }

    /// The language handler, for work outside a request (such as taking
    /// queued executions). The session and the comm registry stay as they
    /// are.
    pub fn handler_mut(&mut self) -> &mut H {
        &mut self.handler
    }

    /// Handles one message from the front end. A request gets exactly one
    /// Busy event, its reply (or error reply), and exactly one Idle event, all
    /// correlated to it; a comm message updates or consults the registry
    /// inside the same bracket. Any other kind is refused as unsupported,
    /// with nothing sent.
    pub fn process_message(&mut self, msg: Message) -> (r: Result<Vec<Outgoing>, Error>)
        requires
            old(self).wf(),
        ensures
            final(self).wf(),
            final(self).session() == old(self).session(),
            is_shell_request(msg.spec_kind()) <==> r is Ok,
            r matches Err(e) ==> e matches Error::UnsupportedMessage(k, ch) && k == msg.spec_kind()
                && ch@ == "shell"@,
            r matches Ok(out) ==> bracketed(out@, header_of(msg)),
            r matches Ok(out) ==> (reply_kind(msg.spec_kind()) is Some ==> replied(
                out@,
                msg,
                old(self).session(),
            )),
            msg !is ExecuteRequest ==> final(self).spec_handler() == old(self).spec_handler(),
            match msg {
                Message::KernelInfoRequest(q) => r matches Ok(out) && (out@[1] matches Outgoing::Reply(
                    rep,
                ) && match rep {
                    Reply::KernelInfo(m) => old(self).spec_handler().info_outcome(q.content, Ok(m.content)),
                    Reply::Error(m) => m.content.status == Status::Error && old(self).spec_handler().info_outcome(
                        q.content,
                        Err(m.content.exception),
                    ),
                    _ => false,
                }),
                Message::CompleteRequest(q) => r matches Ok(out) && (out@[1] matches Outgoing::Reply(
                    rep,
                ) && match rep {
                    Reply::Complete(m) => old(self).spec_handler().complete_outcome(q.content, Ok(m.content)),
                    Reply::Error(m) => m.content.status == Status::Error && old(self).spec_handler().complete_outcome(
                        q.content,
                        Err(m.content.exception),
                    ),
                    _ => false,
                }),
                Message::CommInfoRequest(q) => r matches Ok(out) && (out@[1] matches Outgoing::Reply(
                    rep,
                ) && match rep {
                    Reply::CommInfo(m) => old(self).spec_handler().comm_info_outcome(q.content, Ok(m.content)),
                    Reply::Error(m) => m.content.status == Status::Error && old(self).spec_handler().comm_info_outcome(
                        q.content,
                        Err(m.content.exception),
                    ),
                    _ => false,
                }),
                Message::IsCompleteRequest(q) => r matches Ok(out) && (out@[1] matches Outgoing::Reply(
                    rep,
                ) && match rep {
                    Reply::IsComplete(m) => old(self).spec_handler().is_complete_outcome(q.content, Ok(m.content)),
                    Reply::Error(m) => m.content.status == Status::Error && old(self).spec_handler().is_complete_outcome(
                        q.content,
                        Err(m.content.exception),
                    ),
                    _ => false,
                }),
                Message::InspectRequest(q) => r matches Ok(out) && (out@[1] matches Outgoing::Reply(
                    rep,
                ) && match rep {
                    Reply::Inspect(m) => old(self).spec_handler().inspect_outcome(q.content, Ok(m.content)),
                    Reply::Error(m) => m.content.status == Status::Error && old(self).spec_handler().inspect_outcome(
                        q.content,
                        Err(m.content.exception),
                    ),
                    _ => false,
                }),
                Message::ExecuteRequest(q) => r matches Ok(out) && (out@[1] matches Outgoing::Reply(
                    rep,
                ) && match rep {
                    Reply::Execute(m) => old(self).spec_handler().execute_outcome(
                        q.content,
                        Ok(m.content),
                        final(self).spec_handler(),
                    ),
                    Reply::ExecuteException(m) => old(self).spec_handler().execute_outcome(
                        q.content,
                        Err(m.content),
                        final(self).spec_handler(),
                    ),
                    _ => false,
                }),
                _ => true,
            },
            match msg {
                Message::CommOpen(m) => final(self).comms()@ == old(self).comms()@.after_open(
                    m.content.comm_id@,
                    m.content.target_name@,
                    CommInitiator::FrontEnd,
                ) && (r matches Ok(out) && out@.len() == 3 && (out@[1] is CommOpened <==> old(
                    self,
                ).comms()@.open_outcome(m.content.comm_id@, m.content.target_name@)
                    == CommOpenOutcome::Opened) && (out@[1] matches Outgoing::CommOpened(id, t, d)
                    ==> id@ == m.content.comm_id@ && t@ == m.content.target_name@ && d@
                    == m.content.data@) && (old(self).comms()@.open_outcome(
                    m.content.comm_id@,
                    m.content.target_name@,
                ) != CommOpenOutcome::Opened ==> out@[1] is Warning)),
                Message::CommMsg(m) => final(self).comms()@ == old(self).comms()@ && (r matches Ok(out)
                    && out@.len() == 3 && (out@[1] is Comm <==> old(self).comms()@.is_open(
                    m.content.comm_id@,
                )) && (out@[1] matches Outgoing::Comm(id, t, d) ==> id@ == m.content.comm_id@
                    && t@ == old(self).comms()@.target_of(m.content.comm_id@) && d@
                    == m.content.data@) && (!old(self).comms()@.is_open(m.content.comm_id@)
                    ==> out@[1] is Warning)),
                Message::CommClose(m) => final(self).comms()@ == old(self).comms()@.after_close(
                    m.content.comm_id@,
                ) && (r matches Ok(out) && out@.len() == 3 && (out@[1] is CommClosed <==> old(
                    self,
                ).comms()@.is_open(m.content.comm_id@)) && (out@[1] matches Outgoing::CommClosed(id)
                    ==> id@ == m.content.comm_id@) && (!old(self).comms()@.is_open(
                    m.content.comm_id@,
                ) ==> out@[1] is Warning)),
                _ => final(self).comms()@ == old(self).comms()@,
            },
    {
        match msg {
            Message::KernelInfoRequest(req) => {
                let reply = match self.handler.handle_info_request(&req.content) {
                    Ok(c) => Reply::KernelInfo(req.create_reply(c, &self.session)),
                    Err(e) => Reply::Error(req.error_reply::<KernelInfoReply>(e, &self.session)),
                };
                Ok(handle_request(&req.header, vec![Outgoing::Reply(reply)]))
            },
            Message::IsCompleteRequest(req) => {
                let reply = match self.handler.handle_is_complete_request(&req.content) {
                    Ok(c) => Reply::IsComplete(req.create_reply(c, &self.session)),
                    Err(e) => Reply::Error(req.error_reply::<IsCompleteReply>(e, &self.session)),
                };
                Ok(handle_request(&req.header, vec![Outgoing::Reply(reply)]))
            },
            Message::ExecuteRequest(req) => {
                let reply = match self.handler.handle_execute_request(&req.content) {
                    Ok(c) => Reply::Execute(req.create_reply(c, &self.session)),
                    Err(e) => Reply::ExecuteException(req.create_reply(e, &self.session)),
                };
                Ok(handle_request(&req.header, vec![Outgoing::Reply(reply)]))
            },
            Message::CompleteRequest(req) => {
                let reply = match self.handler.handle_complete_request(&req.content) {
                    Ok(c) => Reply::Complete(req.create_reply(c, &self.session)),
                    Err(e) => Reply::Error(req.error_reply::<CompleteReply>(e, &self.session)),
                };
                Ok(handle_request(&req.header, vec![Outgoing::Reply(reply)]))
            },
            Message::CommInfoRequest(req) => {
                let reply = match self.handler.handle_comm_info_request(&req.content) {
                    Ok(c) => Reply::CommInfo(req.create_reply(c, &self.session)),
                    Err(e) => Reply::Error(req.error_reply::<CommInfoReply>(e, &self.session)),
                };
                Ok(handle_request(&req.header, vec![Outgoing::Reply(reply)]))
            },
            Message::InspectRequest(req) => {
                let reply = match self.handler.handle_inspect_request(&req.content) {
                    Ok(c) => Reply::Inspect(req.create_reply(c, &self.session)),
                    Err(e) => Reply::Error(req.error_reply::<InspectReply>(e, &self.session)),
                };
                Ok(handle_request(&req.header, vec![Outgoing::Reply(reply)]))
            },
            Message::CommOpen(req) => {
                let outcome = self.comms.open(
                    &req.content.comm_id,
                    &req.content.target_name,
                    CommInitiator::FrontEnd,
                );
                let middle = match outcome {
                    CommOpenOutcome::Opened => vec![
                        Outgoing::CommOpened(
                            req.content.comm_id.clone(),
                            req.content.target_name.clone(),
                            req.content.data.clone(),
                        ),
                    ],
                    CommOpenOutcome::UnknownTarget => vec![
                        Outgoing::Warning(String::from_str("request to open a comm on an unknown target")),
                    ],
                    CommOpenOutcome::ReusedId => vec![
                        Outgoing::Warning(String::from_str("request to open a comm with an id already used")),
                    ],
                };
                Ok(handle_request(&req.header, middle))
            },
            Message::CommMsg(req) => {
                let middle = match self.comms.route(&req.content.comm_id) {
                    Some(target) => vec![
                        Outgoing::Comm(req.content.comm_id.clone(), target, req.content.data.clone()),
                    ],
                    None => vec![
                        Outgoing::Warning(String::from_str("message for a comm that is not open")),
                    ],
                };
                Ok(handle_request(&req.header, middle))
            },
            Message::CommClose(req) => {
                let middle = if self.comms.close(&req.content.comm_id) {
                    vec![Outgoing::CommClosed(req.content.comm_id.clone())]
                } else {
                    vec![Outgoing::Warning(String::from_str("request to close a comm that is not open"))]
                };
                Ok(handle_request(&req.header, middle))
            },
            other => {
                let k = other.kind();
                Err(Error::UnsupportedMessage(k, String::from_str("shell")))
            },
        }
    }
}

} // verus!
