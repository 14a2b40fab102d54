use vstd::prelude::*;

use crate::error::Error;

verus! {

/// The closed catalog of message types, one per wire tag.
#[derive(Debug, Clone, Copy, PartialEq, Eq, Structural)]
pub enum MessageKind {
    KernelInfoRequest,
    KernelInfoReply,
    ExecuteRequest,
    ExecuteReply,
    ExecuteResult,
    ExecuteError,
    ExecuteInput,
    IsCompleteRequest,
    IsCompleteReply,
    CompleteRequest,
    CompleteReply,
    ShutdownRequest,
    ShutdownReply,
    Status,
    CommInfoRequest,
    CommInfoReply,
    CommOpen,
    CommMsg,
    CommClose,
    InspectRequest,
    InspectReply,
}

impl MessageKind {
    /// The wire tag carried in `header.msg_type`.
    pub open spec fn spec_tag(self) -> Seq<char> {
        match self {
            MessageKind::KernelInfoRequest => "kernel_info_request"@,
            MessageKind::KernelInfoReply => "kernel_info_reply"@,
            MessageKind::ExecuteRequest => "execute_request"@,
            MessageKind::ExecuteReply => "execute_reply"@,
            MessageKind::ExecuteResult => "execute_result"@,
            MessageKind::ExecuteError => "error"@,
            MessageKind::ExecuteInput => "execute_input"@,
            MessageKind::IsCompleteRequest => "is_complete_request"@,
            MessageKind::IsCompleteReply => "is_complete_reply"@,
            MessageKind::CompleteRequest => "complete_request"@,
            MessageKind::CompleteReply => "complete_reply"@,
            MessageKind::ShutdownRequest => "shutdown_request"@,
            MessageKind::ShutdownReply => "shutdown_reply"@,
            MessageKind::Status => "status"@,
            MessageKind::CommInfoRequest => "comm_info_request"@,
            MessageKind::CommInfoReply => "comm_info_reply"@,
            MessageKind::CommOpen => "comm_open"@,
            MessageKind::CommMsg => "comm_msg"@,
            MessageKind::CommClose => "comm_close"@,
            MessageKind::InspectRequest => "inspect_request"@,
            MessageKind::InspectReply => "inspect_reply"@,
        }
    }

    /// The wire tag of this kind.
    pub fn tag(&self) -> (r: String)
        ensures
            r@ == self.spec_tag(),
    {
        let s = match self {
            MessageKind::KernelInfoRequest => "kernel_info_request",
            MessageKind::KernelInfoReply => "kernel_info_reply",
            MessageKind::ExecuteRequest => "execute_request",
            MessageKind::ExecuteReply => "execute_reply",
            MessageKind::ExecuteResult => "execute_result",
            MessageKind::ExecuteError => "error",
            MessageKind::ExecuteInput => "execute_input",
            MessageKind::IsCompleteRequest => "is_complete_request",
            MessageKind::IsCompleteReply => "is_complete_reply",
            MessageKind::CompleteRequest => "complete_request",
            MessageKind::CompleteReply => "complete_reply",
            MessageKind::ShutdownRequest => "shutdown_request",
            MessageKind::ShutdownReply => "shutdown_reply",
            MessageKind::Status => "status",
            MessageKind::CommInfoRequest => "comm_info_request",
            MessageKind::CommInfoReply => "comm_info_reply",
            MessageKind::CommOpen => "comm_open",
            MessageKind::CommMsg => "comm_msg",
            MessageKind::CommClose => "comm_close",
            MessageKind::InspectRequest => "inspect_request",
            MessageKind::InspectReply => "inspect_reply",
        };
        String::from_str(s)
    }
}

/// Whether `t` is the tag of some kind in the catalog.
pub open spec fn is_known_tag(t: Seq<char>) -> bool {
    exists|k: MessageKind| k.spec_tag() == t
}

/// The kind whose tag is `t`, if the catalog has one.
pub open spec fn kind_of_tag(t: Seq<char>) -> Option<MessageKind> {
    if is_known_tag(t) {
        Some(choose|k: MessageKind| k.spec_tag() == t)
    } else {
        None
    }
}

/// Distinct kinds carry distinct tags.
pub proof fn lemma_tag_injective(a: MessageKind, b: MessageKind)
    ensures
        a.spec_tag() == b.spec_tag() ==> a == b,
{
    if a.spec_tag() == b.spec_tag() {
        reveal_strlit("kernel_info_request");
        reveal_strlit("kernel_info_reply");
        reveal_strlit("execute_request");
        reveal_strlit("execute_reply");
        reveal_strlit("execute_result");
        reveal_strlit("error");
        reveal_strlit("execute_input");
        reveal_strlit("is_complete_request");
        reveal_strlit("is_complete_reply");
        reveal_strlit("complete_request");
        reveal_strlit("complete_reply");
        reveal_strlit("shutdown_request");
        reveal_strlit("shutdown_reply");
        reveal_strlit("status");
        reveal_strlit("comm_info_request");
        reveal_strlit("comm_info_reply");
        reveal_strlit("comm_open");
        reveal_strlit("comm_msg");
        reveal_strlit("comm_close");
        reveal_strlit("inspect_request");
        reveal_strlit("inspect_reply");
        // length and the characters at 0 and 8 already tell the tags apart
        assert(a.spec_tag().len() == b.spec_tag().len());
        assert(a.spec_tag()[0] == b.spec_tag()[0]);
        assert(a.spec_tag()[8] == b.spec_tag()[8]);
    }
}

/// Reading a kind's own tag gives the kind back.
pub proof fn lemma_kind_of_own_tag(k: MessageKind)
    ensures
        kind_of_tag(k.spec_tag()) == Some(k),
{
    let c = choose|j: MessageKind| j.spec_tag() == k.spec_tag();
    lemma_tag_injective(c, k);
}

fn same_text(a: &String, b: &String) -> (r: bool)
    ensures
        r == (a@ == b@),
{
    *a == *b
}

impl MessageKind {
    /// Looks up the kind that a header's `msg_type` names; a tag outside the
    /// catalog is an `UnknownMessageType` failure.
    pub fn from_tag(tag: &String) -> (r: Result<MessageKind, Error>)
        ensures
            match r {
                Ok(k) => kind_of_tag(tag@) == Some(k),
                Err(e) => kind_of_tag(tag@) is None && e == Error::UnknownMessageType(*tag),
            },
    {
        if same_text(tag, &MessageKind::KernelInfoRequest.tag()) {
            proof {
                lemma_kind_of_own_tag(MessageKind::KernelInfoRequest);
            }
            return Ok(MessageKind::KernelInfoRequest);
        }
        if same_text(tag, &MessageKind::KernelInfoReply.tag()) {
            proof {
                lemma_kind_of_own_tag(MessageKind::KernelInfoReply);
            }
            return Ok(MessageKind::KernelInfoReply);
        }
        if same_text(tag, &MessageKind::ExecuteRequest.tag()) {
            proof {
                lemma_kind_of_own_tag(MessageKind::ExecuteRequest);
            }
            return Ok(MessageKind::ExecuteRequest);
        }
        if same_text(tag, &MessageKind::ExecuteReply.tag()) {
            proof {
                lemma_kind_of_own_tag(MessageKind::ExecuteReply);
            }
            return Ok(MessageKind::ExecuteReply);
        }
        if same_text(tag, &MessageKind::ExecuteResult.tag()) {
            proof {
                lemma_kind_of_own_tag(MessageKind::ExecuteResult);
            }
            return Ok(MessageKind::ExecuteResult);
        }
        if same_text(tag, &MessageKind::ExecuteError.tag()) {
            proof {
                lemma_kind_of_own_tag(MessageKind::ExecuteError);
            }
            return Ok(MessageKind::ExecuteError);
        }
        if same_text(tag, &MessageKind::ExecuteInput.tag()) {
            proof {
                lemma_kind_of_own_tag(MessageKind::ExecuteInput);
            }
            return Ok(MessageKind::ExecuteInput);
        }
        if same_text(tag, &MessageKind::IsCompleteRequest.tag()) {
            proof {
                lemma_kind_of_own_tag(MessageKind::IsCompleteRequest);
            }
            return Ok(MessageKind::IsCompleteRequest);
        }
        if same_text(tag, &MessageKind::IsCompleteReply.tag()) {
            proof {
                lemma_kind_of_own_tag(MessageKind::IsCompleteReply);
            }
            return Ok(MessageKind::IsCompleteReply);
        }
        if same_text(tag, &MessageKind::CompleteRequest.tag()) {
            proof {
                lemma_kind_of_own_tag(MessageKind::CompleteRequest);
            }
            return Ok(MessageKind::CompleteRequest);
        }
        if same_text(tag, &MessageKind::CompleteReply.tag()) {
            proof {
                lemma_kind_of_own_tag(MessageKind::CompleteReply);
            }
            return Ok(MessageKind::CompleteReply);
        }
        if same_text(tag, &MessageKind::ShutdownRequest.tag()) {
            proof {
                lemma_kind_of_own_tag(MessageKind::ShutdownRequest);
            }
            return Ok(MessageKind::ShutdownRequest);
        }
        if same_text(tag, &MessageKind::ShutdownReply.tag()) {
            proof {
                lemma_kind_of_own_tag(MessageKind::ShutdownReply);
            }
            return Ok(MessageKind::ShutdownReply);
        }
        if same_text(tag, &MessageKind::Status.tag()) {
            proof {
                lemma_kind_of_own_tag(MessageKind::Status);
            }
            return Ok(MessageKind::Status);
        }
        if same_text(tag, &MessageKind::CommInfoRequest.tag()) {
            proof {
                lemma_kind_of_own_tag(MessageKind::CommInfoRequest);
            }
            return Ok(MessageKind::CommInfoRequest);
        }
        if same_text(tag, &MessageKind::CommInfoReply.tag()) {
            proof {
                lemma_kind_of_own_tag(MessageKind::CommInfoReply);
            }
            return Ok(MessageKind::CommInfoReply);
        }
        if same_text(tag, &MessageKind::CommOpen.tag()) {
            proof {
                lemma_kind_of_own_tag(MessageKind::CommOpen);
            }
            return Ok(MessageKind::CommOpen);
        }
        if same_text(tag, &MessageKind::CommMsg.tag()) {
            proof {
                lemma_kind_of_own_tag(MessageKind::CommMsg);
            }
            return Ok(MessageKind::CommMsg);
        }
        if same_text(tag, &MessageKind::CommClose.tag()) {
            proof {
                lemma_kind_of_own_tag(MessageKind::CommClose);
            }
            return Ok(MessageKind::CommClose);
        }
        if same_text(tag, &MessageKind::InspectRequest.tag()) {
            proof {
                lemma_kind_of_own_tag(MessageKind::InspectRequest);
            }
            return Ok(MessageKind::InspectRequest);
        }
        if same_text(tag, &MessageKind::InspectReply.tag()) {
            proof {
                lemma_kind_of_own_tag(MessageKind::InspectReply);
            }
            return Ok(MessageKind::InspectReply);
        }
        proof {
            assert(forall|k: MessageKind| k.spec_tag() != tag@);
        }
        Err(Error::UnknownMessageType(tag.clone()))
    }
}

} // verus!
