use vstd::prelude::*;

verus! {

/// Editor metadata.
#[derive(Debug, Clone, PartialEq)]
pub struct EditorContextResult {
    /// URI of the resource viewed in the editor.
    pub path: String,
}

/// Parameters of the Busy event.
#[derive(Debug, Clone, Copy, PartialEq, Eq, Structural)]
pub struct BusyParams {
    /// Whether the backend is busy.
    pub busy: bool,
}

/// Parameters of the OpenEditor event.
#[derive(Debug, Clone, PartialEq)]
pub struct OpenEditorParams {
    /// The path of the file to open.
    pub file: String,
    /// The line number to jump to.
    pub line: i64,
    /// The column number to jump to.
    pub column: i64,
}

/// Parameters of the ShowMessage event.
#[derive(Debug, Clone, PartialEq)]
pub struct ShowMessageParams {
    /// The message to show to the user.
    pub message: String,
}

/// Parameters of the PromptState event.
#[derive(Debug, Clone, PartialEq)]
pub struct PromptStateParams {
    /// Prompt for primary input.
    pub input_prompt: String,
    /// Prompt for incomplete input.
    pub continuation_prompt: String,
}

/// Parameters of the WorkingDirectory event.
#[derive(Debug, Clone, PartialEq)]
pub struct WorkingDirectoryParams {
    /// The new working directory.
    pub directory: String,
}

/// Replies of the front end to the backend's requests on the ui comm.
#[derive(Debug, Clone, PartialEq)]
pub enum UiFrontendReply {
    /// Metadata of the last active editor, if there is one.
    LastActiveEditorContextReply(Option<EditorContextResult>),
    /// Reply to debug_sleep, which has no result.
    DebugSleepReply(),
}

/// Events the backend sends to the front end on the ui comm.
#[derive(Debug, Clone, PartialEq)]
pub enum UiFrontendEvent {
    /// The busy state of the computation engine, not of the kernel.
    Busy(BusyParams),
    /// Clear the console.
    ClearConsole,
    /// Open an editor on a file at a position.
    OpenEditor(OpenEditorParams),
    /// A message that needs the user's attention now.
    ShowMessage(ShowMessageParams),
    /// The prompts changed.
    PromptState(PromptStateParams),
    /// The working directory changed.
    WorkingDirectory(WorkingDirectoryParams),
}

impl UiFrontendEvent {
    /// The method name of this event on the wire.
    pub open spec fn spec_method(&self) -> Seq<char> {
        match self {
            UiFrontendEvent::Busy(_) => "busy"@,
            UiFrontendEvent::ClearConsole => "clear_console"@,
            UiFrontendEvent::OpenEditor(_) => "open_editor"@,
            UiFrontendEvent::ShowMessage(_) => "show_message"@,
            UiFrontendEvent::PromptState(_) => "prompt_state"@,
            UiFrontendEvent::WorkingDirectory(_) => "working_directory"@,
        }
    }

    /// The method name of this event on the wire.
    pub fn method(&self) -> (r: String)
        ensures
            r@ == self.spec_method(),
    {
        let s = match self {
            UiFrontendEvent::Busy(_) => "busy",
            UiFrontendEvent::ClearConsole => "clear_console",
            UiFrontendEvent::OpenEditor(_) => "open_editor",
            UiFrontendEvent::ShowMessage(_) => "show_message",
            UiFrontendEvent::PromptState(_) => "prompt_state",
            UiFrontendEvent::WorkingDirectory(_) => "working_directory",
        };
        String::from_str(s)
    }
}

} // verus!
