//! One client's session with a service.
use crate::handle::Handle;
use crate::ipc::parser::ThreadCommandParser;
use crate::platform::{Kernel, Platform};
use crate::res::CtrError;
use crate::res::CtrResult;
use crate::svc;
use crate::sysmodule::server::service::{RequestHandler, RequestHandlerResult};
use vstd::prelude::*;

verus! {

/// An individual session to a service: the capability of the session and the
/// handler that answers what arrives on it.
pub struct Session<H> {
    handle: Handle,
    request_handler: H,
}

impl<H> Session<H> {
    /// The capability of the session.
    pub closed spec fn handle(&self) -> Handle {
        self.handle
    }

    /// The handler bound to the session.
    pub closed spec fn request_handler(&self) -> H {
        self.request_handler
    }

    /// Binds `request_handler` to the session that `handle` owns.
    pub fn new(handle: Handle, request_handler: H) -> (session: Session<H>)
        ensures
            session.handle() == handle,
            session.request_handler() == request_handler,
    {
        Session { handle, request_handler }
    }

    /// Accepts a new session on the listening port `service_handle`, for use
    /// when a session request has been received: one accept on that port,
    /// and no other call.
    ///
    /// The session owns the capability that the kernel handed out. When a
    /// request for this session is received, it will be handled by the
    /// provided request handler. If the kernel hands out no session, its
    /// result code comes back as a kernel failure.
    pub fn accept_session<P: Platform>(
        kernel: &mut Kernel<P>,
        service_handle: &Handle,
        request_handler: H,
    ) -> (r: CtrResult<Session<H>>)
        ensures
            final(kernel).log() == old(kernel).log().push(final(kernel).log().last()),
            final(kernel).log().last().is_accept_on(service_handle@),
            match final(kernel).log().last().outcome() {
                Ok(raw) => r is Ok && r->Ok_0.handle()@ == raw && r->Ok_0.request_handler()
                    == request_handler,
                Err(code) => r is Err && r->Err_0 == CtrError::Kernel(code),
            },
    {
        match svc::accept_session(kernel, service_handle) {
            Ok(session_handle) => Ok(Session::new(session_handle, request_handler)),
            Err(e) => Err(e),
        }
    }

    /// Answers one request with the bound handler. The session neither loops
    /// nor looks at the other sessions of the service.
    pub fn handle_request<ServiceContext>(
        &self,
        context: &mut ServiceContext,
        command_parser: ThreadCommandParser,
        session_index: usize,
    ) -> (result: RequestHandlerResult) where H: RequestHandler<ServiceContext>
        ensures
            self.request_handler().answers(
                *old(context),
                command_parser,
                session_index,
                *final(context),
                result,
            ),
    {
        self.request_handler.handle(context, command_parser, session_index)
    }

    pub fn get_handle(&self) -> (handle: &Handle)
        ensures
            *handle == self.handle(),
    {
        &self.handle
    }

    /// Ends the session: one close of its capability, and no other call, and
    /// hands the handler back.
    pub fn close<P: Platform>(self, kernel: &mut Kernel<P>) -> (request_handler: H)
        ensures
            request_handler == self.request_handler(),
            final(kernel).log() == old(kernel).log().push(final(kernel).log().last()),
            final(kernel).log().last().is_close_of(self.handle()@),
    {
        self.handle.close(kernel);
        self.request_handler
    }
}

} // verus!
