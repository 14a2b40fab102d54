use vstd::prelude::*;

verus! {

/// The protocol version written into every header this kernel creates.
pub open spec fn protocol_version() -> Seq<char> {
    "5.3"@
}

/// The header frame of a message.
#[derive(Debug)]
pub struct JupyterHeader {
    /// Unique id of the message.
    pub msg_id: String,
    /// Id of the session that sent the message.
    pub session: String,
    /// User that sent the message.
    pub username: String,
    /// Time the message was created, RFC 3339.
    pub date: String,
    /// The wire tag of the message's type.
    pub msg_type: String,
    /// Protocol version.
    pub version: String,
}

/// Relies on chrono::Utc::now and `to_rfc3339`: the current time, of which
/// nothing is promised here.
#[verifier::external_body]
fn now_rfc3339() -> (r: String) {
    chrono::Utc::now().to_rfc3339()
}

impl JupyterHeader {
    /// A fresh header for an outgoing message of type `msg_type`.
    pub fn create(msg_type: String, session: String, username: String) -> (r: JupyterHeader)
        ensures
            r.msg_type == msg_type,
            r.session == session,
            r.username == username,
            r.version@ == protocol_version(),
    {
        JupyterHeader {
            msg_id: crate::session::new_uuid(),
            session,
            username,
            date: now_rfc3339(),
            msg_type,
            version: String::from_str("5.3"),
        }
    }

    /// A copy of this header, field for field.
    pub fn copy(&self) -> (r: JupyterHeader)
        ensures
            r == *self,
    {
        JupyterHeader {
            msg_id: self.msg_id.clone(),
            session: self.session.clone(),
            username: self.username.clone(),
            date: self.date.clone(),
            msg_type: self.msg_type.clone(),
            version: self.version.clone(),
        }
    }
}

} // verus!
