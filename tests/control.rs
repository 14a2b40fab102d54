use amalthea::content::{ExecutionState, KernelStatus, ShutdownRequest, Status};
use amalthea::control::Control;
use amalthea::error::Error;
use amalthea::header::JupyterHeader;
use amalthea::iopub::IOPubMessage;
use amalthea::message::{JupyterMessage, Message};
use amalthea::session::Session;
use amalthea::shell::{Outgoing, Reply};

fn session() -> Session {
    Session { session_id: "kernel-session".to_string(), username: "kernel".to_string(), key: Vec::new() }
}

fn header(msg_type: &str) -> JupyterHeader {
    JupyterHeader {
        msg_id: "m-7".to_string(),
        session: "client".to_string(),
        username: "user".to_string(),
        date: "2024-01-01T00:00:00Z".to_string(),
        msg_type: msg_type.to_string(),
        version: "5.3".to_string(),
    }
}

#[test]
fn shutdown_is_answered_from_the_request_alone() {
    // The control channel holds no language handler, so nothing it does can
    // wait for an execution running on the shell channel.
    let control = Control::new(session());
    let req = JupyterMessage {
        zmq_identities: vec![b"ctl".to_vec()],
        header: header("shutdown_request"),
        parent_header: None,
        content: ShutdownRequest { restart: true },
    };
    let out = control.process_message(Message::ShutdownRequest(req)).unwrap();
    assert_eq!(out.len(), 3);
    assert!(matches!(
        &out[0],
        Outgoing::IOPub(IOPubMessage::Status(_, KernelStatus { execution_state: ExecutionState::Busy }))
    ));
    match &out[1] {
        Outgoing::Reply(Reply::Shutdown(m)) => {
            assert!(m.content.restart);
            assert_eq!(m.content.status, Status::Success);
            assert_eq!(m.header.msg_type, "shutdown_reply");
            assert_eq!(m.parent_header.as_ref().unwrap().msg_id, "m-7");
            assert_eq!(m.zmq_identities, vec![b"ctl".to_vec()]);
        },
        other => panic!("unexpected {:?}", other),
    }
    assert!(matches!(
        &out[2],
        Outgoing::IOPub(IOPubMessage::Status(_, KernelStatus { execution_state: ExecutionState::Idle }))
    ));
}

#[test]
fn other_messages_are_unsupported_on_control() {
    let control = Control::new(session());
    let req = JupyterMessage {
        zmq_identities: Vec::new(),
        header: header("status"),
        parent_header: None,
        content: KernelStatus { execution_state: ExecutionState::Busy },
    };
    match control.process_message(Message::Status(req)) {
        Err(Error::UnsupportedMessage(_, channel)) => assert_eq!(channel, "control"),
        other => panic!("unexpected {:?}", other),
    }
}
