use vstd::prelude::*;
use vstd::string::StringSliceAdditionalSpecFns;

verus! {

/// The kernel's identity, fixed at startup and shared read-only by every
/// channel: it signs what goes out and checks what comes in.
pub struct Session {
    /// Unique id of this kernel session.
    pub session_id: String,
    /// The user name the kernel writes into its headers.
    pub username: String,
    /// The signing secret; empty when the front end disabled signing.
    pub key: Vec<u8>,
}

/// The user name a kernel signs its messages with.
pub open spec fn kernel_username() -> Seq<char> {
    "kernel"@
}

/// Relies on uuid::Uuid::new_v4 and its `to_string`: a fresh random id, of
/// which nothing is promised here.
#[verifier::external_body]
pub(crate) fn new_uuid() -> (r: String) {
    uuid::Uuid::new_v4().to_string()
}

impl Session {
    /// A new session with a fresh id, signing with the UTF-8 bytes of `key`.
    pub fn create(key: &str) -> (r: Session)
        ensures
            r.key@ == key.spec_bytes(),
            r.username@ == kernel_username(),
    {
        Session {
            session_id: new_uuid(),
            username: String::from_str("kernel"),
            key: key.as_bytes_vec(),
        }
    }

    /// A copy of this session.
    pub fn copy(&self) -> (r: Session)
        ensures
            r.session_id == self.session_id,
            r.username == self.username,
            r.key@ == self.key@,
    {
        Session {
            session_id: self.session_id.clone(),
            username: self.username.clone(),
            key: self.key.clone(),
        }
    }
}

} // verus!
