use amalthea::dap::{
    into_dap_frame, DapCommand, DapOutput, DapRequest, DapServer, DapState, FrameInfo, ResponseBody,
    THREAD_ID,
};

fn frame(name: &str, line: i64) -> FrameInfo {
    FrameInfo { name: name.to_string(), file: "/tmp/a.R".to_string(), line, column: 2 }
}

#[test]
fn threads_lists_the_main_thread() {
    let mut server = DapServer::new(DapState { stack: None, debugging: true });
    let (alive, out) = server.serve(Some(DapRequest { seq: 4, command: DapCommand::Threads }));
    assert!(alive);
    match &out[0] {
        DapOutput::Success(4, ResponseBody::Threads(ts)) => {
            assert_eq!(ts.len(), 1);
            assert_eq!(ts[0].id, THREAD_ID);
            assert_eq!(ts[0].name, "Main thread");
        },
        other => panic!("unexpected {:?}", other),
    }
}

#[test]
fn stack_trace_maps_every_frame() {
    let mut server = DapServer::new(DapState { stack: Some(vec![frame("f", 3), frame("g", 9)]), debugging: true });
    let (_, out) = server.serve(Some(DapRequest { seq: 5, command: DapCommand::StackTrace }));
    match &out[0] {
        DapOutput::Success(5, ResponseBody::StackTrace(frames, total)) => {
            assert_eq!(frames.len(), 2);
            assert_eq!(frames[1].name, "g");
            assert_eq!(frames[1].line, 9);
            assert_eq!(*total, Some(1));
        },
        other => panic!("unexpected {:?}", other),
    }
}

#[test]
fn stack_trace_without_stack_is_empty() {
    let mut server = DapServer::new(DapState { stack: None, debugging: true });
    let (_, out) = server.serve(Some(DapRequest { seq: 1, command: DapCommand::StackTrace }));
    assert!(matches!(&out[0], DapOutput::Success(1, ResponseBody::StackTrace(f, _)) if f.is_empty()));
}

#[test]
fn unknown_request_fails_and_disconnect_ends_debugging() {
    let mut server = DapServer::new(DapState { stack: None, debugging: true });
    let (alive, out) = server.serve(Some(DapRequest { seq: 2, command: DapCommand::Other("next".to_string()) }));
    assert!(alive);
    assert!(matches!(&out[0], DapOutput::Failure(2, m) if m == "Ark DAP: Unknown request"));
    let (alive, out) = server.serve(None);
    assert!(!alive);
    assert!(out.is_empty());
    assert!(!server.state().debugging);
}

#[test]
fn attach_reports_a_pause() {
    let mut server = DapServer::new(DapState { stack: None, debugging: false });
    let (_, out) = server.serve(Some(DapRequest { seq: 1, command: DapCommand::Attach }));
    assert_eq!(out.len(), 2);
}

#[test]
fn dap_frame_keeps_name_and_position() {
    let f = into_dap_frame(&frame("h", 12));
    assert_eq!(f.id, -1);
    assert_eq!(f.name, "h");
    assert_eq!(f.source.unwrap().path.unwrap(), "/tmp/a.R");
    assert_eq!(f.column, 2);
}

#[test]
fn initialize_then_initialized_event() {
    let mut server = DapServer::new(DapState { stack: None, debugging: false });
    let (_, out) = server.serve(Some(DapRequest { seq: 9, command: DapCommand::Initialize }));
    assert_eq!(out.len(), 2);
    assert!(matches!(&out[0], DapOutput::Success(9, ResponseBody::Initialize)));
    assert!(matches!(&out[1], DapOutput::Event(amalthea::dap::DapEvent::Initialized)));
}
