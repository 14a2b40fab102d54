use amalthea::ark_shell;
use amalthea::content::{
    CommClose, CommInfoReply, CommInfoRequest, CommMsg, CommOpen, CompleteReply, CompleteRequest,
    Exception, ExecuteReply, ExecuteReplyException, ExecuteRequest, ExecutionState, InspectReply,
    InspectRequest, IsCompleteReply,
    IsCompleteRequest, KernelInfoReply, KernelInfoRequest, KernelStatus, Status,
};
use amalthea::error::Error;
use amalthea::header::JupyterHeader;
use amalthea::iopub::IOPubMessage;
use amalthea::kind::MessageKind;
use amalthea::message::{JupyterMessage, Message};
use amalthea::session::Session;
use amalthea::shell::{Outgoing, Reply, Shell, ShellHandler};

fn session() -> Session {
    Session {
        session_id: "kernel-session".to_string(),
        username: "kernel".to_string(),
        key: b"secret".to_vec(),
    }
}

fn client_header(msg_type: &str) -> JupyterHeader {
    JupyterHeader {
        msg_id: "client-msg-1".to_string(),
        session: "client-session".to_string(),
        username: "user".to_string(),
        date: "2024-01-01T00:00:00Z".to_string(),
        msg_type: msg_type.to_string(),
        version: "5.3".to_string(),
    }
}

fn request<T>(msg_type: &str, content: T) -> JupyterMessage<T> {
    JupyterMessage {
        zmq_identities: vec![b"route".to_vec()],
        header: client_header(msg_type),
        parent_header: None,
        content,
    }
}

fn same_header(a: &JupyterHeader, b: &JupyterHeader) -> bool {
    a.msg_id == b.msg_id && a.session == b.session && a.msg_type == b.msg_type && a.date == b.date
}

fn state_of(o: &Outgoing) -> Option<(ExecutionState, &JupyterHeader)> {
    match o {
        Outgoing::IOPub(IOPubMessage::Status(h, KernelStatus { execution_state })) => {
            Some((*execution_state, h))
        },
        _ => None,
    }
}

fn check_bracket(out: &[Outgoing], parent: &JupyterHeader) {
    let (first, h) = state_of(&out[0]).unwrap();
    assert_eq!(first, ExecutionState::Busy);
    assert!(same_header(h, parent));
    let (last, h) = state_of(&out[out.len() - 1]).unwrap();
    assert_eq!(last, ExecutionState::Idle);
    assert!(same_header(h, parent));
    for o in &out[1..out.len() - 1] {
        assert!(state_of(o).is_none());
    }
}

fn r_shell() -> Shell<ark_shell::Shell> {
    Shell::new(session(), ark_shell::Shell::new(), vec!["positron.lsp".to_string()])
}

#[test]
fn kernel_info_request_gets_one_ok_reply() {
    let mut shell = r_shell();
    let req = request("kernel_info_request", KernelInfoRequest {});
    let parent = req.header.copy();
    let out = shell.process_message(Message::KernelInfoRequest(req)).unwrap();
    assert_eq!(out.len(), 3);
    check_bracket(&out, &parent);
    match &out[1] {
        Outgoing::Reply(Reply::KernelInfo(m)) => {
            assert_eq!(m.content.status, Status::Success);
            assert_eq!(m.content.protocol_version, "5.3");
            assert_eq!(m.content.language_info.name, "R");
            assert_eq!(m.content.language_info.version, "4.0");
            assert_eq!(m.content.language_info.file_extension, ".R");
            assert_eq!(m.content.language_info.mimetype, "text/r");
            assert!(m.content.help_links.is_empty());
            assert!(!m.content.debugger);
            assert_eq!(m.header.msg_type, "kernel_info_reply");
            assert_eq!(m.header.session, "kernel-session");
            assert!(same_header(m.parent_header.as_ref().unwrap(), &parent));
            assert_eq!(m.zmq_identities, vec![b"route".to_vec()]);
        },
        other => panic!("unexpected {:?}", other),
    }
}

fn execute(code: &str) -> ExecuteRequest {
    ExecuteRequest {
        code: code.to_string(),
        silent: false,
        store_history: true,
        user_expressions: "{}".to_string(),
        allow_stdin: false,
        stop_on_error: true,
    }
}

#[test]
fn execute_request_is_bracketed_busy_reply_idle() {
    let mut shell = r_shell();
    let req = request("execute_request", execute("1+1"));
    let parent = req.header.copy();
    let out = shell.process_message(Message::ExecuteRequest(req)).unwrap();
    assert_eq!(out.len(), 3);
    check_bracket(&out, &parent);
    match &out[1] {
        Outgoing::Reply(Reply::Execute(m)) => {
            assert_eq!(m.content.status, Status::Success);
            assert_eq!(m.header.msg_type, "execute_reply");
            assert_eq!(m.header.session, "kernel-session");
            assert_ne!(m.header.session, parent.session);
        },
        other => panic!("unexpected {:?}", other),
    }
}

#[test]
fn execute_request_is_queued_for_the_r_thread() {
    let mut handler = ark_shell::Shell::new();
    let reply = handler.handle_execute_request(&execute("1+1")).unwrap();
    assert_eq!(reply.execution_count, 0);
    assert_eq!(reply.user_expressions, "null");
    let queued = handler.take_execution_requests();
    assert_eq!(queued.len(), 1);
    assert_eq!(queued[0].code, "1+1");
    assert!(handler.take_execution_requests().is_empty());
}

struct Failing;

fn oops() -> Exception {
    Exception {
        ename: "Oops".to_string(),
        evalue: "it broke".to_string(),
        traceback: vec!["frame 1".to_string()],
    }
}

impl ShellHandler for Failing {
    fn info_outcome(&self, _req: KernelInfoRequest, r: Result<KernelInfoReply, Exception>) -> bool {
        r.is_err()
    }
    fn complete_outcome(&self, _req: CompleteRequest, r: Result<CompleteReply, Exception>) -> bool {
        r.is_err()
    }
    fn comm_info_outcome(&self, _req: CommInfoRequest, r: Result<CommInfoReply, Exception>) -> bool {
        r.is_err()
    }
    fn is_complete_outcome(&self, _req: IsCompleteRequest, r: Result<IsCompleteReply, Exception>) -> bool {
        r.is_err()
    }
    fn execute_outcome(
        &self,
        _req: ExecuteRequest,
        r: Result<ExecuteReply, ExecuteReplyException>,
        _after: Self,
    ) -> bool {
        r.is_err()
    }
    fn inspect_outcome(&self, _req: InspectRequest, r: Result<InspectReply, Exception>) -> bool {
        r.is_err()
    }
    fn handle_info_request(&self, _req: &KernelInfoRequest) -> Result<KernelInfoReply, Exception> {
        Err(oops())
    }
    fn handle_complete_request(&self, _req: &CompleteRequest) -> Result<CompleteReply, Exception> {
        Err(oops())
    }
    fn handle_comm_info_request(&self, _req: &CommInfoRequest) -> Result<CommInfoReply, Exception> {
        Err(oops())
    }
    fn handle_is_complete_request(&self, _req: &IsCompleteRequest) -> Result<IsCompleteReply, Exception> {
        Err(oops())
    }
    fn handle_execute_request(&mut self, _req: &ExecuteRequest) -> Result<ExecuteReply, ExecuteReplyException> {
        Err(ExecuteReplyException { status: Status::Error, execution_count: 3, exception: oops() })
    }
    fn handle_inspect_request(&self, _req: &InspectRequest) -> Result<InspectReply, Exception> {
        Err(oops())
    }
}

#[test]
fn handler_failure_becomes_error_reply_inside_the_bracket() {
    let mut shell = Shell::new(session(), Failing, Vec::new());
    let req = request("complete_request", CompleteRequest { code: "x".to_string(), cursor_pos: 1 });
    let parent = req.header.copy();
    let out = shell.process_message(Message::CompleteRequest(req)).unwrap();
    assert_eq!(out.len(), 3);
    check_bracket(&out, &parent);
    match &out[1] {
        Outgoing::Reply(Reply::Error(m)) => {
            assert_eq!(m.header.msg_type, "complete_reply");
            assert_eq!(m.content.status, Status::Error);
            assert_eq!(m.content.exception.ename, "Oops");
            assert!(same_header(m.parent_header.as_ref().unwrap(), &parent));
        },
        other => panic!("unexpected {:?}", other),
    }
}

#[test]
fn execution_failure_is_sent_as_execute_reply() {
    let mut shell = Shell::new(session(), Failing, Vec::new());
    let req = request("execute_request", execute("stop()"));
    let parent = req.header.copy();
    let out = shell.process_message(Message::ExecuteRequest(req)).unwrap();
    check_bracket(&out, &parent);
    match &out[1] {
        Outgoing::Reply(Reply::ExecuteException(m)) => {
            assert_eq!(m.header.msg_type, "execute_reply");
            assert_eq!(m.content.execution_count, 3);
        },
        other => panic!("unexpected {:?}", other),
    }
}

#[test]
fn reply_only_kind_is_unsupported_on_shell() {
    let mut shell = r_shell();
    let status = request("status", KernelStatus { execution_state: ExecutionState::Idle });
    match shell.process_message(Message::Status(status)) {
        Err(Error::UnsupportedMessage(k, channel)) => {
            assert_eq!(k, MessageKind::Status);
            assert_eq!(channel, "shell");
        },
        other => panic!("unexpected {:?}", other),
    }
}

fn comm_open(id: &str, target: &str) -> Message {
    Message::CommOpen(request(
        "comm_open",
        CommOpen { comm_id: id.to_string(), target_name: target.to_string(), data: "{}".to_string() },
    ))
}

fn comm_msg(id: &str) -> Message {
    Message::CommMsg(request("comm_msg", CommMsg { comm_id: id.to_string(), data: "{\"x\":1}".to_string() }))
}

fn comm_close(id: &str) -> Message {
    Message::CommClose(request("comm_close", CommClose { comm_id: id.to_string(), data: "{}".to_string() }))
}

fn is_warning(o: &Outgoing) -> bool {
    matches!(o, Outgoing::Warning(_))
}

#[test]
fn comm_on_unknown_target_warns_and_registers_nothing() {
    let mut shell = r_shell();
    let out = shell.process_message(comm_open("c1", "unknown.target")).unwrap();
    assert_eq!(out.len(), 3);
    assert!(is_warning(&out[1]));
    assert!(out.iter().all(|o| !matches!(o, Outgoing::Reply(_))));
    let out = shell.process_message(comm_msg("c1")).unwrap();
    assert!(is_warning(&out[1]));
}

#[test]
fn open_comm_routes_messages_to_its_target() {
    let mut shell = r_shell();
    let out = shell.process_message(comm_open("c2", "positron.lsp")).unwrap();
    assert_eq!(out.len(), 3);
    match &out[1] {
        Outgoing::CommOpened(id, target, data) => {
            assert_eq!(id, "c2");
            assert_eq!(target, "positron.lsp");
            assert_eq!(data, "{}");
        },
        other => panic!("unexpected {:?}", other),
    }
    let out = shell.process_message(comm_msg("c2")).unwrap();
    match &out[1] {
        Outgoing::Comm(id, target, data) => {
            assert_eq!(id, "c2");
            assert_eq!(target, "positron.lsp");
            assert_eq!(data, "{\"x\":1}");
        },
        other => panic!("unexpected {:?}", other),
    }
}

#[test]
fn closed_comm_id_is_retired() {
    let mut shell = r_shell();
    shell.process_message(comm_open("c3", "positron.lsp")).unwrap();
    let out = shell.process_message(comm_close("c3")).unwrap();
    assert_eq!(out.len(), 3);
    assert!(matches!(&out[1], Outgoing::CommClosed(id) if id == "c3"));
    let out = shell.process_message(comm_msg("c3")).unwrap();
    assert_eq!(out.len(), 3);
    assert!(is_warning(&out[1]));
    let out = shell.process_message(comm_open("c3", "positron.lsp")).unwrap();
    assert!(is_warning(&out[1]));
    let out = shell.process_message(comm_close("c3")).unwrap();
    assert!(is_warning(&out[1]));
}

#[test]
fn comm_info_lists_the_language_server() {
    let mut shell = r_shell();
    let req = request("comm_info_request", CommInfoRequest { target_name: String::new() });
    let out = shell.process_message(Message::CommInfoRequest(req)).unwrap();
    match &out[1] {
        Outgoing::Reply(Reply::CommInfo(m)) => {
            assert_eq!(m.content.comms.len(), 1);
            assert_eq!(m.content.comms[0].comm_id, ark_shell::LSP_COMM_ID);
        },
        other => panic!("unexpected {:?}", other),
    }
}

fn inspect(code: &str) -> Message {
    Message::InspectRequest(request(
        "inspect_request",
        InspectRequest { code: code.to_string(), cursor_pos: 0, detail_level: 0 },
    ))
}

#[test]
fn inspect_finds_help_for_known_code_only() {
    let mut shell = r_shell();
    let out = shell.process_message(inspect("teapot")).unwrap();
    assert_eq!(out.len(), 3);
    match &out[1] {
        Outgoing::Reply(Reply::Inspect(m)) => {
            assert!(m.content.found);
            assert_eq!(m.content.data, "{\"text/plain\":\"This is clearly a teapot.\"}");
            assert_eq!(m.header.msg_type, "inspect_reply");
        },
        other => panic!("unexpected {:?}", other),
    }
    let out = shell.process_message(inspect("mean")).unwrap();
    match &out[1] {
        Outgoing::Reply(Reply::Inspect(m)) => {
            assert!(!m.content.found);
            assert_eq!(m.content.data, "null");
        },
        other => panic!("unexpected {:?}", other),
    }
}
