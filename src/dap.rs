use vstd::prelude::*;

verus! {

/// The one thread the debugger shows.
pub const THREAD_ID: i64 = -1;

/// A frame of the R stack, as the R thread records it.
#[derive(Debug)]
pub struct FrameInfo {
    pub name: String,
    pub file: String,
    pub line: i64,
    pub column: i64,
}

/// What the debugger shares with the R thread.
#[derive(Debug)]
pub struct DapState {
    /// The current stack, innermost frame first, if R is paused.
    pub stack: Option<Vec<FrameInfo>>,
    /// Whether a client is attached.
    pub debugging: bool,
}

/// The source of a stack frame.
#[derive(Debug)]
pub struct Source {
    pub path: Option<String>,
}

/// A stack frame as the debug adapter protocol shows it.
#[derive(Debug)]
pub struct StackFrame {
    pub id: i64,
    pub name: String,
    pub source: Option<Source>,
    pub line: i64,
    pub column: i64,
}

/// A thread as the debug adapter protocol shows it.
#[derive(Debug)]
pub struct Thread {
    pub id: i64,
    pub name: String,
}

/// The requests a client sends.
#[derive(Debug)]
pub enum DapCommand {
    Initialize,
    Attach,
    Threads,
    SetExceptionBreakpoints,
    StackTrace,
    /// Any other command, by name.
    Other(String),
}

/// A request with its sequence number.
#[derive(Debug)]
pub struct DapRequest {
    pub seq: i64,
    pub command: DapCommand,
}

/// Bodies of successful responses.
#[derive(Debug)]
pub enum ResponseBody {
    Initialize,
    Attach,
    Threads(Vec<Thread>),
    SetExceptionBreakpoints,
    StackTrace(Vec<StackFrame>, Option<i64>),
}

/// Events the server sends on its own.
#[derive(Debug)]
pub enum DapEvent {
    Initialized,
    /// Execution paused: description, thread, whether to keep focus.
    Stopped(String, i64, bool),
}

/// What the server sends.
#[derive(Debug)]
pub enum DapOutput {
    /// A successful response to the request with this sequence number.
    Success(i64, ResponseBody),
    /// A failed response to the request with this sequence number.
    Failure(i64, String),
    Event(DapEvent),
}

/// The response to `initialize`: success, then the Initialized event.
pub open spec fn initialize_response(out: Seq<DapOutput>, seq: i64) -> bool {
    &&& out.len() == 2
    &&& out[0] matches DapOutput::Success(s, ResponseBody::Initialize) && s == seq
    &&& out[1] matches DapOutput::Event(DapEvent::Initialized)
}

/// The response to `attach`: success, then a Stopped event on the thread.
pub open spec fn attach_response(out: Seq<DapOutput>, seq: i64) -> bool {
    &&& out.len() == 2
    &&& out[0] matches DapOutput::Success(s, ResponseBody::Attach) && s == seq
    &&& out[1] matches DapOutput::Event(DapEvent::Stopped(d, t, focus)) && t == THREAD_ID && !focus
        && d@ == "Execution paused"@
}

/// The response to `threads`: the single main thread.
pub open spec fn threads_response(out: Seq<DapOutput>, seq: i64) -> bool {
    &&& out.len() == 1
    &&& out[0] matches DapOutput::Success(s, ResponseBody::Threads(ts)) && s == seq && ts@.len() == 1
        && ts@[0].id == THREAD_ID && ts@[0].name@ == "Main thread"@
}

/// The response to `setExceptionBreakpoints`: a bare success.
pub open spec fn breakpoints_response(out: Seq<DapOutput>, seq: i64) -> bool {
    &&& out.len() == 1
    &&& out[0] matches DapOutput::Success(s, ResponseBody::SetExceptionBreakpoints) && s == seq
}

/// Whether `frames` shows `stack` frame for frame.
pub open spec fn shows_stack(frames: Seq<StackFrame>, stack: Option<Vec<FrameInfo>>) -> bool {
    match stack {
        Some(st) => frames.len() == st@.len() && forall|i: int|
            0 <= i < st@.len() ==> (#[trigger] frames[i]).name == st@[i].name && frames[i].line
                == st@[i].line && frames[i].column == st@[i].column && frames[i].id == THREAD_ID,
        None => frames.len() == 0,
    }
}

/// The response to `stackTrace`: the frames of the recorded stack.
pub open spec fn stacktrace_response(out: Seq<DapOutput>, seq: i64, stack: Option<Vec<FrameInfo>>) -> bool {
    &&& out.len() == 1
    &&& out[0] matches DapOutput::Success(s, ResponseBody::StackTrace(frames, total)) && s == seq
        && total == Some(1i64) && shows_stack(frames@, stack)
}

/// The response to a command the server does not know.
pub open spec fn unknown_response(out: Seq<DapOutput>, seq: i64) -> bool {
    &&& out.len() == 1
    &&& out[0] matches DapOutput::Failure(s, m) && s == seq && m@ == "Ark DAP: Unknown request"@
}

/// The stack frame shown for `frame`.
pub fn into_dap_frame(frame: &FrameInfo) -> (r: StackFrame)
    ensures
        r.id == THREAD_ID,
        r.name == frame.name,
        r.source matches Some(s) && s.path == Some(frame.file),
        r.line == frame.line,
        r.column == frame.column,
{
    let src = Source { path: Some(frame.file.clone()) };
    StackFrame {
        id: THREAD_ID,
        name: frame.name.clone(),
        source: Some(src),
        line: frame.line,
        column: frame.column,
    }
}

/// Serves the debug adapter protocol for one client, with the state it
/// shares with the R thread.
pub struct DapServer {
    state: DapState,
}

impl DapServer {
    /// The shared state.
    pub closed spec fn spec_state(&self) -> DapState {
        self.state
    }

    /// A server over `state`.
    pub fn new(state: DapState) -> (r: DapServer)
        ensures
            r.spec_state() == state,
    {
        DapServer { state }
    }

    /// The shared state.
    pub fn state(&self) -> (r: &DapState)
        ensures
            *r == self.spec_state(),
    {
        &self.state
    }

    /// Replaces the stack the R thread recorded.
    pub fn set_stack(&mut self, stack: Option<Vec<FrameInfo>>)
        ensures
            final(self).spec_state().stack == stack,
            final(self).spec_state().debugging == old(self).spec_state().debugging,
    {
        self.state.stack = stack;
    }

    /// Handles what the client sent: `None` means the client left, which
    /// ends debugging and returns false; a request is answered and true is
    /// returned.
    pub fn serve(&mut self, req: Option<DapRequest>) -> (r: (bool, Vec<DapOutput>))
        ensures
            r.0 == req is Some,
            req is None ==> r.1@.len() == 0 && !final(self).spec_state().debugging
                && final(self).spec_state().stack == old(self).spec_state().stack,
            req is Some ==> final(self).spec_state() == old(self).spec_state(),
            req matches Some(q) ==> match q.command {
                DapCommand::Initialize => initialize_response(r.1@, q.seq),
                DapCommand::Attach => attach_response(r.1@, q.seq),
                DapCommand::Threads => threads_response(r.1@, q.seq),
                DapCommand::SetExceptionBreakpoints => breakpoints_response(r.1@, q.seq),
                DapCommand::StackTrace => stacktrace_response(r.1@, q.seq, old(self).spec_state().stack),
                DapCommand::Other(_) => unknown_response(r.1@, q.seq),
            },
    {
        let req = match req {
            Some(req) => req,
            None => {
                self.state.debugging = false;
                return (false, Vec::new());
            },
        };
        let out = match req.command {
            DapCommand::Initialize => self.handle_initialize(req.seq),
            DapCommand::Attach => self.handle_attach(req.seq),
            DapCommand::Threads => self.handle_threads(req.seq),
            DapCommand::SetExceptionBreakpoints => self.handle_set_exception_breakpoints(req.seq),
            DapCommand::StackTrace => self.handle_stacktrace(req.seq),
            DapCommand::Other(_) => {
                let r = vec![DapOutput::Failure(req.seq, String::from_str("Ark DAP: Unknown request"))];
                assert(unknown_response(r@, req.seq));
                r
            },
        };
        (true, out)
    }

    /// Acknowledges the client and announces that the server is ready.
    fn handle_initialize(&self, seq: i64) -> (r: Vec<DapOutput>)
        ensures
            initialize_response(r@, seq),
    {
        vec![DapOutput::Success(seq, ResponseBody::Initialize), DapOutput::Event(DapEvent::Initialized)]
    }

    /// Acknowledges the attach and reports the R thread as paused.
    pub fn handle_attach(&self, seq: i64) -> (r: Vec<DapOutput>)
        ensures
            attach_response(r@, seq),
    {
        vec![
            DapOutput::Success(seq, ResponseBody::Attach),
            DapOutput::Event(DapEvent::Stopped(String::from_str("Execution paused"), THREAD_ID, false)),
        ]
    }

    /// Every server must list threads; this one has a single main thread.
    pub fn handle_threads(&self, seq: i64) -> (r: Vec<DapOutput>)
        ensures
            threads_response(r@, seq),
    {
        let threads = vec![Thread { id: THREAD_ID, name: String::from_str("Main thread") }];
        vec![DapOutput::Success(seq, ResponseBody::Threads(threads))]
    }

    /// Acknowledges exception breakpoints, which are not yet acted on.
    pub fn handle_set_exception_breakpoints(&self, seq: i64) -> (r: Vec<DapOutput>)
        ensures
            breakpoints_response(r@, seq),
    {
        vec![DapOutput::Success(seq, ResponseBody::SetExceptionBreakpoints)]
    }

    /// The recorded stack, one protocol frame per R frame; empty when R has
    /// not recorded one.
    pub fn handle_stacktrace(&self, seq: i64) -> (r: Vec<DapOutput>)
        ensures
            stacktrace_response(r@, seq, self.spec_state().stack),
    {
        let mut frames: Vec<StackFrame> = Vec::new();
        match &self.state.stack {
            Some(st) => {
                let mut i: usize = 0;
                while i < st.len()
                    invariant
                        i <= st@.len(),
                        frames@.len() == i,
                        forall|j: int|
                            0 <= j < i ==> (#[trigger] frames@[j]).name == st@[j].name && frames@[j].line
                                == st@[j].line && frames@[j].column == st@[j].column && frames@[j].id
                                == THREAD_ID,
                    decreases st@.len() - i,
                {
                    frames.push(into_dap_frame(&st[i]));
                    i = i + 1;
                }
            },
            None => {},
        }
        vec![DapOutput::Success(seq, ResponseBody::StackTrace(frames, Some(1)))]
    }
}

} // verus!
