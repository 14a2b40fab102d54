use amalthea::error::Error;
use amalthea::kernel::{decimal_text, ConnectionFile, Kernel};
use amalthea::message::JupyterMessage;
use amalthea::content::{KernelStatus, ExecutionState};
use amalthea::session::Session;

fn file(scheme: &str, key: &str) -> ConnectionFile {
    ConnectionFile {
        control_port: 5001,
        shell_port: 5002,
        stdin_port: 5003,
        iopub_port: 5004,
        hb_port: 5005,
        transport: "tcp".to_string(),
        signature_scheme: scheme.to_string(),
        ip: "127.0.0.1".to_string(),
        key: key.to_string(),
    }
}

#[test]
fn endpoint_joins_transport_ip_and_port() {
    let f = file("hmac-sha256", "k");
    assert_eq!(f.endpoint(f.shell_port), "tcp://127.0.0.1:5002");
    assert_eq!(f.endpoint(0), "tcp://127.0.0.1:0");
    assert_eq!(f.endpoint(65535), "tcp://127.0.0.1:65535");
}

#[test]
fn decimal_text_of_ports() {
    assert_eq!(decimal_text(7), "7");
    assert_eq!(decimal_text(10), "10");
    assert_eq!(decimal_text(9000), "9000");
}

#[test]
fn kernel_signs_with_the_connection_key() {
    let k = Kernel::new(file("hmac-sha256", "abc")).unwrap();
    assert_eq!(k.session().key, b"abc".to_vec());
    assert_eq!(k.session().username, "kernel");
    assert_eq!(k.connection().hb_port, 5005);
}

#[test]
fn unsupported_scheme_is_refused() {
    match Kernel::new(file("hmac-md5", "abc")) {
        Err(Error::UnsupportedSignatureScheme(s)) => assert_eq!(s, "hmac-md5"),
        Err(e) => panic!("unexpected {:?}", e),
        Ok(_) => panic!("accepted an unsupported scheme"),
    }
}

#[test]
fn empty_key_needs_no_scheme() {
    assert!(Kernel::new(file("", "")).is_ok());
}

#[test]
fn sessions_get_distinct_ids() {
    let a = Session::create("k");
    let b = Session::create("k");
    assert_ne!(a.session_id, b.session_id);
    assert_eq!(a.key, b"k".to_vec());
}

#[test]
fn created_message_carries_kernel_header() {
    let s = Session::create("k");
    let m = JupyterMessage::create(KernelStatus { execution_state: ExecutionState::Busy }, None, &s);
    assert_eq!(m.header.msg_type, "status");
    assert_eq!(m.header.session, s.session_id);
    assert_eq!(m.header.username, "kernel");
    assert_eq!(m.header.version, "5.3");
    assert!(m.parent_header.is_none());
    assert!(m.zmq_identities.is_empty());
}
