use vstd::prelude::*;

use crate::content::{
    CommInfo, CommInfoReply, CommInfoRequest, CompleteReply, CompleteRequest, Exception,
    ExecuteReply, ExecuteReplyException, ExecuteRequest, InspectReply, InspectRequest, IsComplete,
    IsCompleteReply,
    IsCompleteRequest, KernelInfoReply, KernelInfoRequest, LanguageInfo, Status,
};
use crate::shell::ShellHandler;

verus! {

/// Id of the comm that carries the language server protocol.
pub const LSP_COMM_ID: &'static str = "positron.lsp";

/// The R kernel's handler of shell requests. Code to run is queued for the
/// thread that runs R, which takes it with `take_execution_requests`.
pub struct Shell {
    execution_count: u32,
    queued: Vec<ExecuteRequest>,
}

impl Shell {
    /// The requests queued for the R thread.
    pub closed spec fn queued(&self) -> Seq<ExecuteRequest> {
        self.queued@
    }

    /// The execution count reported in replies.
    pub closed spec fn spec_execution_count(&self) -> u32 {
        self.execution_count
    }

    /// A handler with nothing queued.
    pub fn new() -> (r: Shell)
        ensures
            r.queued().len() == 0,
            r.spec_execution_count() == 0,
    {
        Shell { execution_count: 0, queued: Vec::new() }
    }

    /// Takes the queued requests, oldest first.
    pub fn take_execution_requests(&mut self) -> (r: Vec<ExecuteRequest>)
        ensures
            r@ == old(self).queued(),
            final(self).queued().len() == 0,
            final(self).spec_execution_count() == old(self).spec_execution_count(),
    {
        let mut taken: Vec<ExecuteRequest> = Vec::new();
        std::mem::swap(&mut taken, &mut self.queued);
        taken
    }

    /// Information about the R kernel.
    pub fn kernel_info(&self) -> (r: KernelInfoReply)
        ensures
            r.status == Status::Success,
            r.protocol_version@ == "5.3"@,
            r.language_info.name@ == "R"@,
            r.language_info.version@ == "4.0"@,
            r.banner@ == "Ark 0.1.0"@,
            r.language_info.file_extension@ == ".R"@,
            r.language_info.mimetype@ == "text/r"@,
            r.help_links@.len() == 0,
            !r.debugger,
    {
        let language_info = LanguageInfo {
            name: String::from_str("R"),
            version: String::from_str("4.0"),
            file_extension: String::from_str(".R"),
            mimetype: String::from_str("text/r"),
            pygments_lexer: String::new(),
            codemirror_mode: String::new(),
            nbconvert_exporter: String::new(),
        };
        KernelInfoReply {
            status: Status::Success,
            banner: String::from_str("Ark 0.1.0"),
            debugger: false,
            protocol_version: String::from_str("5.3"),
            help_links: Vec::new(),
            language_info,
        }
    }

    /// Queues `req` for the R thread and acknowledges it.
    pub fn queue_execution(&mut self, req: &ExecuteRequest) -> (r: ExecuteReply)
        ensures
            final(self).queued() == old(self).queued().push(*req),
            final(self).spec_execution_count() == old(self).spec_execution_count(),
            r.status == Status::Success,
            r.execution_count == old(self).spec_execution_count(),
            r.user_expressions@ == "null"@,
    {
        self.queued.push(req.copy());
        ExecuteReply {
            status: Status::Success,
            execution_count: self.execution_count,
            user_expressions: String::from_str("null"),
        }
    }
}

/// The help text shown for inspected code, as JSON text; `null` when there
/// is none.
pub open spec fn inspect_data(code: Seq<char>) -> Seq<char> {
    if code == "err"@ {
        "{\"text/plain\":\"This generates an error!\"}"@
    } else if code == "teapot"@ {
        "{\"text/plain\":\"This is clearly a teapot.\"}"@
    } else {
        "null"@
    }
}

impl Shell {
    /// Help on `req.code`: found for the two codes it knows.
    pub fn inspect(&self, req: &InspectRequest) -> (r: InspectReply)
        ensures
            r.status == Status::Success,
            r.data@ == inspect_data(req.code@),
            r.found == (r.data@ != "null"@),
            r.metadata@ == "{}"@,
    {
        let null = String::from_str("null");
        let data = if req.code == String::from_str("err") {
            String::from_str("{\"text/plain\":\"This generates an error!\"}")
        } else if req.code == String::from_str("teapot") {
            String::from_str("{\"text/plain\":\"This is clearly a teapot.\"}")
        } else {
            String::from_str("null")
        };
        let found = data != null;
        InspectReply { status: Status::Success, found, data, metadata: String::from_str("{}") }
    }
}

/// What the R kernel says about itself.
pub open spec fn is_r_kernel_info(x: KernelInfoReply) -> bool {
    &&& x.status == Status::Success
    &&& x.protocol_version@ == "5.3"@
    &&& x.banner@ == "Ark 0.1.0"@
    &&& x.language_info.name@ == "R"@
    &&& x.language_info.version@ == "4.0"@
    &&& x.language_info.file_extension@ == ".R"@
    &&& x.language_info.mimetype@ == "text/r"@
    &&& x.help_links@.len() == 0
    &&& !x.debugger
}

impl ShellHandler for Shell {
    open spec fn info_outcome(&self, req: KernelInfoRequest, r: Result<KernelInfoReply, Exception>) -> bool {
        r matches Ok(x) && is_r_kernel_info(x)
    }

    open spec fn complete_outcome(&self, req: CompleteRequest, r: Result<CompleteReply, Exception>) -> bool {
        r matches Ok(x) && x.status == Status::Success && x.matches@.len() == 0 && x.cursor_start == 0
            && x.cursor_end == 0 && x.metadata@ == "{}"@
    }

    open spec fn comm_info_outcome(&self, req: CommInfoRequest, r: Result<CommInfoReply, Exception>) -> bool {
        r matches Ok(x) && x.status == Status::Success && x.comms@.len() == 1 && x.comms@[0].comm_id@
            == LSP_COMM_ID@ && x.comms@[0].target_name@ == "Language Server Protocol"@
    }

    open spec fn is_complete_outcome(
        &self,
        req: IsCompleteRequest,
        r: Result<IsCompleteReply, Exception>,
    ) -> bool {
        r matches Ok(x) && x.status == IsComplete::Complete && x.indent@.len() == 0
    }

    open spec fn execute_outcome(
        &self,
        req: ExecuteRequest,
        r: Result<ExecuteReply, ExecuteReplyException>,
        after: Self,
    ) -> bool {
        &&& r matches Ok(x) && x.status == Status::Success && x.execution_count
            == self.spec_execution_count() && x.user_expressions@ == "null"@
        &&& after.queued() == self.queued().push(req)
        &&& after.spec_execution_count() == self.spec_execution_count()
    }

    open spec fn inspect_outcome(&self, req: InspectRequest, r: Result<InspectReply, Exception>) -> bool {
        r matches Ok(x) && x.status == Status::Success && x.data@ == inspect_data(req.code@) && x.found
            == (x.data@ != "null"@) && x.metadata@ == "{}"@
    }

    fn handle_info_request(&self, _req: &KernelInfoRequest) -> (r: Result<KernelInfoReply, Exception>) {
        Ok(self.kernel_info())
    }

    /// No completions yet.
    fn handle_complete_request(&self, _req: &CompleteRequest) -> (r: Result<CompleteReply, Exception>) {
        Ok(
            CompleteReply {
                matches: Vec::new(),
                status: Status::Success,
                cursor_start: 0,
                cursor_end: 0,
                metadata: String::from_str("{}"),
            },
        )
    }

    /// The language server comm is the one comm on offer.
    fn handle_comm_info_request(&self, _req: &CommInfoRequest) -> (r: Result<CommInfoReply, Exception>) {
        let comms = vec![
            CommInfo {
                comm_id: String::from_str(LSP_COMM_ID),
                target_name: String::from_str("Language Server Protocol"),
            },
        ];
        Ok(CommInfoReply { status: Status::Success, comms })
    }

    /// Every piece of code counts as complete.
    fn handle_is_complete_request(&self, _req: &IsCompleteRequest) -> (r: Result<IsCompleteReply, Exception>) {
        Ok(IsCompleteReply { status: IsComplete::Complete, indent: String::new() })
    }

    fn handle_execute_request(&mut self, req: &ExecuteRequest) -> (r: Result<ExecuteReply, ExecuteReplyException>) {
        Ok(self.queue_execution(req))
    }

    fn handle_inspect_request(&self, req: &InspectRequest) -> (r: Result<InspectReply, Exception>) {
        Ok(self.inspect(req))
    }
}

} // verus!
