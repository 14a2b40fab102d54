use vstd::prelude::*;

use crate::kind::MessageKind;

verus! {

/// The content type of a message, which fixes its wire tag.
pub trait MessageType: Sized {
    /// The kind that messages with this content have.
    spec fn spec_kind() -> MessageKind;

    /// The kind that messages with this content have.
    fn kind() -> (r: MessageKind)
        ensures
            r == Self::spec_kind(),
    ;

    /// The wire tag of messages with this content.
    fn message_type() -> (r: String)
        ensures
            r@ == Self::spec_kind().spec_tag(),
    {
        Self::kind().tag()
    }
}

/// Status carried inside replies.
#[derive(Debug, Clone, Copy, PartialEq, Eq, Structural)]
pub enum Status {
    /// The request succeeded (`"ok"` on the wire).
    Success,
    /// The request failed (`"error"` on the wire).
    Error,
}

/// The kernel's execution state, published on the broadcast channel.
#[derive(Debug, Clone, Copy, PartialEq, Eq, Structural)]
pub enum ExecutionState {
    Busy,
    Idle,
    Starting,
}

/// Whether a piece of code is ready to run.
#[derive(Debug, Clone, Copy, PartialEq, Eq, Structural)]
pub enum IsComplete {
    Complete,
    Incomplete,
    Invalid,
    Unknown,
}

/// An error raised while handling a request.
#[derive(Debug)]
pub struct Exception {
    /// Name of the error.
    pub ename: String,
    /// Its message.
    pub evalue: String,
    /// The stack trace, one frame per line.
    pub traceback: Vec<String>,
}

/// Content of a reply that reports a failure; sent under the tag of the
/// reply that succeeded would have had.
#[derive(Debug)]
pub struct ErrorReply {
    pub status: Status,
    pub exception: Exception,
}

/// Request for information about the kernel.
#[derive(Debug)]
pub struct KernelInfoRequest {}

/// A link shown in the front end's help menu.
#[derive(Debug)]
pub struct HelpLink {
    pub text: String,
    pub url: String,
}

/// Information about the language the kernel runs.
#[derive(Debug)]
pub struct LanguageInfo {
    pub name: String,
    pub version: String,
    pub file_extension: String,
    pub mimetype: String,
    pub pygments_lexer: String,
    pub codemirror_mode: String,
    pub nbconvert_exporter: String,
}

/// Information about the kernel.
#[derive(Debug)]
pub struct KernelInfoReply {
    pub status: Status,
    pub banner: String,
    pub debugger: bool,
    pub protocol_version: String,
    pub help_links: Vec<HelpLink>,
    pub language_info: LanguageInfo,
}

/// Request to run code. `user_expressions` holds JSON text.
#[derive(Debug)]
pub struct ExecuteRequest {
    pub code: String,
    pub silent: bool,
    pub store_history: bool,
    pub user_expressions: String,
    pub allow_stdin: bool,
    pub stop_on_error: bool,
}

impl ExecuteRequest {
    /// A copy of this request, field for field.
    pub fn copy(&self) -> (r: ExecuteRequest)
        ensures
            r == *self,
    {
        ExecuteRequest {
            code: self.code.clone(),
            silent: self.silent,
            store_history: self.store_history,
            user_expressions: self.user_expressions.clone(),
            allow_stdin: self.allow_stdin,
            stop_on_error: self.stop_on_error,
        }
    }
}

/// Reply to a successful execution. `user_expressions` holds JSON text.
#[derive(Debug)]
pub struct ExecuteReply {
    pub status: Status,
    pub execution_count: u32,
    pub user_expressions: String,
}

/// Reply to an execution that failed; it travels as an `execute_reply`.
#[derive(Debug)]
pub struct ExecuteReplyException {
    pub status: Status,
    pub execution_count: u32,
    pub exception: Exception,
}

/// The code being run, echoed on the broadcast channel.
#[derive(Debug)]
pub struct ExecuteInput {
    pub code: String,
    pub execution_count: u32,
}

/// A result of execution. `data` and `metadata` hold JSON text.
#[derive(Debug)]
pub struct ExecuteResult {
    pub execution_count: u32,
    pub data: String,
    pub metadata: String,
}

/// An error raised while running code, published on the broadcast channel.
#[derive(Debug)]
pub struct ExecuteError {
    pub exception: Exception,
}

/// Request to test whether code is complete.
#[derive(Debug)]
pub struct IsCompleteRequest {
    pub code: String,
}

/// Whether the code was complete, and how to indent the next line.
#[derive(Debug)]
pub struct IsCompleteReply {
    pub status: IsComplete,
    pub indent: String,
}

/// Request for completions of the code at a cursor position.
#[derive(Debug)]
pub struct CompleteRequest {
    pub code: String,
    pub cursor_pos: u32,
}

/// Completions. `metadata` holds JSON text.
#[derive(Debug)]
pub struct CompleteReply {
    pub matches: Vec<String>,
    pub status: Status,
    pub cursor_start: u32,
    pub cursor_end: u32,
    pub metadata: String,
}

/// Request to shut the kernel down, or to restart it.
#[derive(Debug)]
pub struct ShutdownRequest {
    pub restart: bool,
}

/// Acknowledges a shutdown request.
#[derive(Debug)]
pub struct ShutdownReply {
    pub status: Status,
    pub restart: bool,
}

/// The kernel's execution state.
#[derive(Debug)]
pub struct KernelStatus {
    pub execution_state: ExecutionState,
}

/// Request for the open comms, optionally of one target.
#[derive(Debug)]
pub struct CommInfoRequest {
    pub target_name: String,
}

/// One open comm: its id and target.
#[derive(Debug)]
pub struct CommInfo {
    pub comm_id: String,
    pub target_name: String,
}

/// The open comms.
#[derive(Debug)]
pub struct CommInfoReply {
    pub status: Status,
    pub comms: Vec<CommInfo>,
}

/// Opens a comm. `data` holds JSON text.
#[derive(Debug)]
pub struct CommOpen {
    pub comm_id: String,
    pub target_name: String,
    pub data: String,
}

/// A message on an open comm. `data` holds JSON text.
#[derive(Debug)]
pub struct CommMsg {
    pub comm_id: String,
    pub data: String,
}

/// Closes a comm. `data` holds JSON text.
#[derive(Debug)]
pub struct CommClose {
    pub comm_id: String,
    pub data: String,
}

/// Request for help on the code at a cursor position.
#[derive(Debug)]
pub struct InspectRequest {
    pub code: String,
    pub cursor_pos: u32,
    pub detail_level: u8,
}

/// Help on inspected code. `data` and `metadata` hold JSON text.
#[derive(Debug)]
pub struct InspectReply {
    pub status: Status,
    pub found: bool,
    pub data: String,
    pub metadata: String,
}

impl MessageType for InspectRequest {
    open spec fn spec_kind() -> MessageKind {
        MessageKind::InspectRequest
    }

    fn kind() -> (r: MessageKind) {
        MessageKind::InspectRequest
    }
}

impl MessageType for InspectReply {
    open spec fn spec_kind() -> MessageKind {
        MessageKind::InspectReply
    }

    fn kind() -> (r: MessageKind) {
        MessageKind::InspectReply
    }
}

impl MessageType for KernelInfoRequest {
    open spec fn spec_kind() -> MessageKind {
        MessageKind::KernelInfoRequest
    }

    fn kind() -> (r: MessageKind) {
        MessageKind::KernelInfoRequest
    }
}

impl MessageType for KernelInfoReply {
    open spec fn spec_kind() -> MessageKind {
        MessageKind::KernelInfoReply
    }

    fn kind() -> (r: MessageKind) {
        MessageKind::KernelInfoReply
    }
}

impl MessageType for ExecuteRequest {
    open spec fn spec_kind() -> MessageKind {
        MessageKind::ExecuteRequest
    }

    fn kind() -> (r: MessageKind) {
        MessageKind::ExecuteRequest
    }
}

impl MessageType for ExecuteReply {
    open spec fn spec_kind() -> MessageKind {
        MessageKind::ExecuteReply
    }

    fn kind() -> (r: MessageKind) {
        MessageKind::ExecuteReply
    }
}

impl MessageType for ExecuteReplyException {
    open spec fn spec_kind() -> MessageKind {
        MessageKind::ExecuteReply
    }

    fn kind() -> (r: MessageKind) {
        MessageKind::ExecuteReply
    }
}

impl MessageType for ExecuteInput {
    open spec fn spec_kind() -> MessageKind {
        MessageKind::ExecuteInput
    }

    fn kind() -> (r: MessageKind) {
        MessageKind::ExecuteInput
    }
}

impl MessageType for ExecuteResult {
    open spec fn spec_kind() -> MessageKind {
        MessageKind::ExecuteResult
    }

    fn kind() -> (r: MessageKind) {
        MessageKind::ExecuteResult
    }
}

impl MessageType for ExecuteError {
    open spec fn spec_kind() -> MessageKind {
        MessageKind::ExecuteError
    }

    fn kind() -> (r: MessageKind) {
        MessageKind::ExecuteError
    }
}

impl MessageType for IsCompleteRequest {
    open spec fn spec_kind() -> MessageKind {
        MessageKind::IsCompleteRequest
    }

    fn kind() -> (r: MessageKind) {
        MessageKind::IsCompleteRequest
    }
}

impl MessageType for IsCompleteReply {
    open spec fn spec_kind() -> MessageKind {
        MessageKind::IsCompleteReply
    }

    fn kind() -> (r: MessageKind) {
        MessageKind::IsCompleteReply
    }
}

impl MessageType for CompleteRequest {
    open spec fn spec_kind() -> MessageKind {
        MessageKind::CompleteRequest
    }

    fn kind() -> (r: MessageKind) {
        MessageKind::CompleteRequest
    }
}

impl MessageType for CompleteReply {
    open spec fn spec_kind() -> MessageKind {
        MessageKind::CompleteReply
    }

    fn kind() -> (r: MessageKind) {
        MessageKind::CompleteReply
    }
}

impl MessageType for ShutdownRequest {
    open spec fn spec_kind() -> MessageKind {
        MessageKind::ShutdownRequest
    }

    fn kind() -> (r: MessageKind) {
        MessageKind::ShutdownRequest
    }
}

impl MessageType for ShutdownReply {
    open spec fn spec_kind() -> MessageKind {
        MessageKind::ShutdownReply
    }

    fn kind() -> (r: MessageKind) {
        MessageKind::ShutdownReply
    }
}

impl MessageType for KernelStatus {
    open spec fn spec_kind() -> MessageKind {
        MessageKind::Status
    }

    fn kind() -> (r: MessageKind) {
        MessageKind::Status
    }
}

impl MessageType for CommInfoRequest {
    open spec fn spec_kind() -> MessageKind {
        MessageKind::CommInfoRequest
    }

    fn kind() -> (r: MessageKind) {
        MessageKind::CommInfoRequest
    }
}

impl MessageType for CommInfoReply {
    open spec fn spec_kind() -> MessageKind {
        MessageKind::CommInfoReply
    }

    fn kind() -> (r: MessageKind) {
        MessageKind::CommInfoReply
    }
}

impl MessageType for CommOpen {
    open spec fn spec_kind() -> MessageKind {
        MessageKind::CommOpen
    }

    fn kind() -> (r: MessageKind) {
        MessageKind::CommOpen
    }
}

impl MessageType for CommMsg {
    open spec fn spec_kind() -> MessageKind {
        MessageKind::CommMsg
    }

    fn kind() -> (r: MessageKind) {
        MessageKind::CommMsg
    }
}

impl MessageType for CommClose {
    open spec fn spec_kind() -> MessageKind {
        MessageKind::CommClose
    }

    fn kind() -> (r: MessageKind) {
        MessageKind::CommClose
    }
}

} // verus!
