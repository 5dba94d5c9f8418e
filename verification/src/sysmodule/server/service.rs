//! What a service supplies to answer a request.
use crate::ipc::command::ThreadCommand;
use crate::ipc::parser::ThreadCommandParser;
use crate::res::CtrResult;
use vstd::prelude::*;

verus! {

/// The answer to a request: the command to send back, or the failure to
/// report.
pub type RequestHandlerResult = CtrResult<ThreadCommand>;

/// The function of a service that answers the requests of its sessions.
///
/// A handler reads the inbound command, may change the state that the service
/// shares between its sessions, and produces the reply. `answers` is the
/// handler's own account of what it does: a handler that gives none allows
/// every answer, and the library adds nothing to it.
pub trait RequestHandler<ServiceContext> {
    /// True when, on the state `before`, the handler may answer the request
    /// `command` of the session at `session_index` with `result` and leave
    /// the state `after`.
    open spec fn answers(
        &self,
        before: ServiceContext,
        command: ThreadCommandParser,
        session_index: usize,
        after: ServiceContext,
        result: RequestHandlerResult,
    ) -> bool {
        true
    }

    fn handle(
        &self,
        context: &mut ServiceContext,
        command_parser: ThreadCommandParser,
        session_index: usize,
    ) -> (result: RequestHandlerResult)
        ensures
            self.answers(*old(context), command_parser, session_index, *final(context), result),
    ;
}

} // verus!
