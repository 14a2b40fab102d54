use vstd::prelude::*;

use crate::content::{ShutdownReply, Status};
use crate::error::Error;
use crate::kind::MessageKind;
use crate::message::Message;
use crate::session::Session;
use crate::shell::{handle_request, header_of, replied, Outgoing, Reply};

verus! {

/// The control channel. It answers from the request alone and never waits
/// for the language handler, so a shutdown is served while an execution is
/// still running on the shell channel.
pub struct Control {
    session: Session,
}

impl Control {
    /// The kernel session this channel answers as.
    pub closed spec fn session(&self) -> Session {
        self.session
    }

    /// A control channel answering as `session`.
    pub fn new(session: Session) -> (r: Control)
        ensures
            r.session() == session,
    {
        Control { session }
    }

    /// Handles one control message: a shutdown request is acknowledged inside
    /// its Busy/Idle bracket, with the request's `restart` flag; any other
    /// kind is refused as unsupported.
    pub fn process_message(&self, msg: Message) -> (r: Result<Vec<Outgoing>, Error>)
        ensures
            msg.spec_kind() == MessageKind::ShutdownRequest <==> r is Ok,
            r matches Err(e) ==> e matches Error::UnsupportedMessage(k, ch) && k == msg.spec_kind()
                && ch@ == "control"@,
            r matches Ok(out) ==> replied(out@, msg, self.session()),
            r matches Ok(out) ==> msg matches Message::ShutdownRequest(req) && out@[1] matches Outgoing::Reply(
                Reply::Shutdown(m),
            ) && m.content.restart == req.content.restart && m.content.status == Status::Success,
    {
        match msg {
            Message::ShutdownRequest(req) => {
                let content = ShutdownReply { status: Status::Success, restart: req.content.restart };
                let reply = Reply::Shutdown(req.create_reply(content, &self.session));
                Ok(handle_request(&req.header, vec![Outgoing::Reply(reply)]))
            },
            other => {
                let k = other.kind();
                Err(Error::UnsupportedMessage(k, String::from_str("control")))
            },
        }
    }
}

} // verus!
