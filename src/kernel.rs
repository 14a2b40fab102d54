use vstd::prelude::*;
use vstd::utf8::encode_utf8;

use crate::error::Error;
use crate::session::{kernel_username, Session};

verus! {

/// The connection file a front end hands to the kernel.
#[derive(Debug)]
pub struct ConnectionFile {
    pub control_port: u16,
    pub shell_port: u16,
    pub stdin_port: u16,
    pub iopub_port: u16,
    pub hb_port: u16,
    pub transport: String,
    pub signature_scheme: String,
    pub ip: String,
    pub key: String,
}

/// The decimal digit character for `d` (below 10).
pub open spec fn digit_char(d: int) -> char {
    (48 + d) as char
}

/// The decimal text of `n`, without leading zeros.
pub open spec fn decimal(n: nat) -> Seq<char>
    decreases n,
{
    if n < 10 {
        seq![digit_char(n as int)]
    } else {
        decimal(n / 10) + seq![digit_char((n % 10) as int)]
    }
}

/// The one-character text of the digit `d`.
fn digit_text(d: u16) -> (r: &'static str)
    requires
        d < 10,
    ensures
        r@ == seq![digit_char(d as int)],
{
    let r = match d {
        0 => "0",
        1 => "1",
        2 => "2",
        3 => "3",
        4 => "4",
        5 => "5",
        6 => "6",
        7 => "7",
        8 => "8",
        _ => "9",
    };
    proof {
        reveal_strlit("0");
        reveal_strlit("1");
        reveal_strlit("2");
        reveal_strlit("3");
        reveal_strlit("4");
        reveal_strlit("5");
        reveal_strlit("6");
        reveal_strlit("7");
        reveal_strlit("8");
        reveal_strlit("9");
    }
    assert(r@ =~= seq![digit_char(d as int)]);
    r
}

/// The decimal text of `n`.
pub fn decimal_text(n: u16) -> (r: String)
    ensures
        r@ == decimal(n as nat),
    decreases n,
{
    if n < 10 {
        String::from_str(digit_text(n))
    } else {
        let mut s = decimal_text(n / 10);
        s.append(digit_text(n % 10));
        s
    }
}

/// The signature scheme this kernel signs with.
pub open spec fn supported_scheme() -> Seq<char> {
    "hmac-sha256"@
}

impl ConnectionFile {
    /// The address of the socket on `port`: `transport://ip:port`.
    pub fn endpoint(&self, port: u16) -> (r: String)
        ensures
            r@ == self.transport@ + "://"@ + self.ip@ + ":"@ + decimal(port as nat),
    {
        let mut s = self.transport.clone();
        s.append("://");
        s.append(self.ip.as_str());
        s.append(":");
        s.append(decimal_text(port).as_str());
        s
    }
}

/// A kernel: the connection it serves and the session it signs with.
pub struct Kernel {
    connection: ConnectionFile,
    session: Session,
}

impl Kernel {
    /// The connection file.
    pub closed spec fn spec_connection(&self) -> ConnectionFile {
        self.connection
    }

    /// The session.
    pub closed spec fn spec_session(&self) -> Session {
        self.session
    }

    /// A kernel for the front end that wrote `file`. Signing with a key
    /// needs the `hmac-sha256` scheme; an empty key turns signing off.
    pub fn new(file: ConnectionFile) -> (r: Result<Kernel, Error>)
        ensures
            r is Ok <==> (file.key@.len() == 0 || file.signature_scheme@ == supported_scheme()),
            r matches Err(e) ==> e == Error::UnsupportedSignatureScheme(file.signature_scheme),
            r matches Ok(k) ==> k.spec_connection() == file && k.spec_session().username@
                == kernel_username() && k.spec_session().key@ == encode_utf8(file.key@),
    {
        let scheme = String::from_str("hmac-sha256");
        proof {
            reveal_strlit("hmac-sha256");
        }
        if !file.key.as_str().is_empty() && file.signature_scheme != scheme {
            return Err(Error::UnsupportedSignatureScheme(file.signature_scheme));
        }
        let session = Session::create(file.key.as_str());
        Ok(Kernel { connection: file, session })
    }

    /// The connection file.
    pub fn connection(&self) -> (r: &ConnectionFile)
        ensures
            *r == self.spec_connection(),
    {
        &self.connection
    }

    /// The session.
    pub fn session(&self) -> (r: &Session)
        ensures
            *r == self.spec_session(),
    {
        &self.session
    }
}

} // verus!
