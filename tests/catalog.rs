use amalthea::error::Error;
use amalthea::kind::MessageKind;

const ALL: [MessageKind; 21] = [
    MessageKind::KernelInfoRequest,
    MessageKind::KernelInfoReply,
    MessageKind::ExecuteRequest,
    MessageKind::ExecuteReply,
    MessageKind::ExecuteResult,
    MessageKind::ExecuteError,
    MessageKind::ExecuteInput,
    MessageKind::IsCompleteRequest,
    MessageKind::IsCompleteReply,
    MessageKind::CompleteRequest,
    MessageKind::CompleteReply,
    MessageKind::ShutdownRequest,
    MessageKind::ShutdownReply,
    MessageKind::Status,
    MessageKind::CommInfoRequest,
    MessageKind::CommInfoReply,
    MessageKind::CommOpen,
    MessageKind::CommMsg,
    MessageKind::CommClose,
    MessageKind::InspectRequest,
    MessageKind::InspectReply,
];

#[test]
fn every_kind_reads_back_from_its_tag() {
    for k in ALL {
        assert_eq!(MessageKind::from_tag(&k.tag()).unwrap(), k);
    }
}

#[test]
fn tags_are_the_protocol_names() {
    assert_eq!(MessageKind::KernelInfoRequest.tag(), "kernel_info_request");
    assert_eq!(MessageKind::ExecuteError.tag(), "error");
    assert_eq!(MessageKind::Status.tag(), "status");
    assert_eq!(MessageKind::CommMsg.tag(), "comm_msg");
}

#[test]
fn unknown_tag_is_refused() {
    match MessageKind::from_tag(&"history_request".to_string()) {
        Err(Error::UnknownMessageType(t)) => assert_eq!(t, "history_request"),
        other => panic!("unexpected {:?}", other),
    }
}
