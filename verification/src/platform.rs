//! The narrow interface through which the library reaches the kernel, and the
//! record of what went through it.
use crate::ipc::ThreadLocalStorage;
use vstd::prelude::*;

verus! {

/// What the library needs from the system it runs on.
///
/// Next to nothing is assumed about an implementation: every function of the
/// library that calls one of these methods is verified for whatever the
/// method returns and whatever it leaves in the memory it was lent. Result
/// codes follow the kernel's convention: zero is success.
pub trait Platform {
    /// The 32-bit address under which the kernel will find `region`. It is
    /// what a buffer descriptor carries in its second word.
    fn address_of(&self, region: &[u8]) -> u32;

    /// Sends the request staged in `tls.command_buffer` over the capability
    /// `session` and blocks until the reply has been written over it, or the
    /// kernel gives up. Returns the kernel's result code.
    ///
    /// `outgoing` is the memory behind the descriptors of the request that
    /// carry data towards the service; `incoming` is the memory the service
    /// may fill, behind a write-buffer descriptor or behind the static-buffer
    /// slots of `tls`. The one thing stated of an implementation is what the
    /// type of `incoming` already enforces: a slice cannot change its length.
    fn send_sync_request(
        &mut self,
        session: u32,
        tls: &mut ThreadLocalStorage,
        outgoing: &[u8],
        incoming: &mut [u8],
    ) -> (code: u32)
        ensures
            final(incoming)@.len() == old(incoming)@.len(),
    ;

    /// Asks for a capability to the service registered under `name`.
    fn get_service_handle(&mut self, name: &str) -> Result<u32, u32>;

    /// Blocks until a client opens a session on the listening capability
    /// `port`, and returns the capability of that session.
    fn accept_session(&mut self, port: u32) -> Result<u32, u32>;

    /// Gives the capability `handle` back to the kernel. Returns the kernel's
    /// result code.
    fn close_handle(&mut self, handle: u32) -> u32;
}

/// One synchronous request as it was handed to the platform, and what came
/// back.
pub struct Exchange {
    /// The capability the request went over.
    pub session: u32,
    /// The 64 words of the command buffer when the request left.
    pub request: Seq<u32>,
    /// The static-buffer slots of the thread while the request was under way.
    pub slots: Seq<u32>,
    /// The bytes lent to the platform for reading.
    pub outgoing: Seq<u8>,
    /// The kernel's result code.
    pub code: u32,
    /// The 64 words of the command buffer when the call returned.
    pub reply: Seq<u32>,
    /// The bytes lent to the platform for writing, as it left them.
    pub incoming: Seq<u8>,
}

/// One call of the platform, with what it was given and what it answered.
pub enum Call {
    Send(Exchange),
    GetServiceHandle { name: Seq<char>, outcome: Result<u32, u32> },
    AcceptSession { port: u32, outcome: Result<u32, u32> },
    CloseHandle { handle: u32, code: u32 },
}

impl Call {
    /// The kernel's result code, for a request or a close.
    pub open spec fn code(self) -> u32 {
        match self {
            Call::Send(exchange) => exchange.code,
            Call::CloseHandle { code, .. } => code,
            _ => 0,
        }
    }

    /// What the platform answered, for a lookup or an accept.
    pub open spec fn outcome(self) -> Result<u32, u32> {
        match self {
            Call::GetServiceHandle { outcome, .. } => outcome,
            Call::AcceptSession { outcome, .. } => outcome,
            _ => Err(0),
        }
    }

    /// True for the request `request` over `session`, with `slots` installed
    /// and `outgoing` lent, whatever came back.
    pub open spec fn is_send_of(
        self,
        session: u32,
        request: Seq<u32>,
        slots: Seq<u32>,
        outgoing: Seq<u8>,
    ) -> bool {
        &&& self is Send
        &&& self->Send_0.session == session
        &&& self->Send_0.request == request
        &&& self->Send_0.slots == slots
        &&& self->Send_0.outgoing == outgoing
    }

    /// True for the lookup of the service `name`, whatever the answer.
    pub open spec fn is_lookup_of(self, name: Seq<char>) -> bool {
        self == (Call::GetServiceHandle { name, outcome: self.outcome() })
    }

    /// True for an accept on the listening capability `port`, whatever the
    /// answer.
    pub open spec fn is_accept_on(self, port: u32) -> bool {
        self == (Call::AcceptSession { port, outcome: self.outcome() })
    }

    /// True for the close of the capability `handle`, whatever the result
    /// code.
    pub open spec fn is_close_of(self, handle: u32) -> bool {
        self == (Call::CloseHandle { handle, code: self.code() })
    }
}

/// True when `after` records exactly one call more than `before`: the request
/// `request` over `session`, with `slots` installed and `outgoing` lent, which
/// came back with `reply` in the command buffer and `incoming` in the memory
/// lent for writing. The kernel's result code is `after.last_code()`.
pub open spec fn sent<P: Platform>(
    before: Kernel<P>,
    after: Kernel<P>,
    session: u32,
    request: Seq<u32>,
    slots: Seq<u32>,
    outgoing: Seq<u8>,
    reply: Seq<u32>,
    incoming: Seq<u8>,
) -> bool {
    after.log() == before.log().push(
        Call::Send(
            Exchange {
                session,
                request,
                slots,
                outgoing,
                code: after.last_code(),
                reply,
                incoming,
            },
        ),
    )
}

/// A platform together with the record of every call the library made on it,
/// oldest first.
///
/// The record exists only for the contracts: it says which requests went out,
/// in which order, and what came back. The platform can be looked at but not
/// called from outside: every call that changes it goes through a method of
/// this type, so a contract that says how the record grew says all that the
/// function asked of the kernel.
pub struct Kernel<P> {
    platform: P,
    log: Ghost<Seq<Call>>,
}

impl<P: Platform> Kernel<P> {
    /// The platform in use.
    pub closed spec fn inner(&self) -> P {
        self.platform
    }

    /// Every call made so far, oldest first.
    pub closed spec fn log(&self) -> Seq<Call> {
        self.log@
    }

    /// The latest call, taken as a request.
    pub open spec fn last_exchange(&self) -> Exchange {
        self.log().last()->Send_0
    }

    /// The kernel's result code for the latest call, where it was a request.
    pub open spec fn last_code(&self) -> u32 {
        self.last_exchange().code
    }

    /// True when the record holds everything that `before` holds, in the
    /// same order, and possibly more behind it.
    pub open spec fn extends(&self, before: Self) -> bool {
        &&& before.log().len() <= self.log().len()
        &&& self.log().subrange(0, before.log().len() as int) == before.log()
    }

    /// The calls made since the record stood as in `before`, oldest first.
    pub open spec fn calls_since(&self, before: Self) -> Seq<Call> {
        self.log().subrange(before.log().len() as int, self.log().len() as int)
    }

    /// A record extends itself, by nothing.
    pub proof fn lemma_no_calls(self)
        ensures
            self.extends(self),
            self.calls_since(self) == Seq::<Call>::empty(),
    {
        assert(self.log().subrange(0, self.log().len() as int) =~= self.log());
        assert(self.calls_since(self) =~= Seq::<Call>::empty());
    }

    /// One more call behind a record that extends `before` extends `before`
    /// by one call more.
    pub proof fn lemma_one_more_call(self, before: Self, between: Self)
        requires
            between.extends(before),
            self.log() == between.log().push(self.log().last()),
        ensures
            self.extends(before),
            self.calls_since(before) == between.calls_since(before).push(self.log().last()),
    {
        assert(self.log().subrange(0, before.log().len() as int) =~= between.log().subrange(
            0,
            before.log().len() as int,
        ));
        assert(self.calls_since(before) =~= between.calls_since(before).push(self.log().last()));
    }

    /// Takes `platform` into use, with an empty record.
    pub fn new(platform: P) -> (kernel: Kernel<P>)
        ensures
            kernel.inner() == platform,
            kernel.log() == Seq::<Call>::empty(),
    {
        Kernel { platform, log: Ghost(Seq::empty()) }
    }

    /// The platform in use, to look at.
    pub fn platform(&self) -> (platform: &P)
        ensures
            *platform == self.inner(),
    {
        &self.platform
    }

    /// The platform's address for `region`. Asking leaves no record.
    pub fn address_of(&self, region: &[u8]) -> u32 {
        self.platform.address_of(region)
    }

    /// Hands the staged request to the platform and records the exchange.
    pub fn send_sync_request(
        &mut self,
        session: u32,
        tls: &mut ThreadLocalStorage,
        outgoing: &[u8],
        incoming: &mut [u8],
    ) -> (code: u32)
        ensures
            final(incoming)@.len() == old(incoming)@.len(),
            final(self).log() == old(self).log().push(
                Call::Send(
                    Exchange {
                        session,
                        request: old(tls).command_buffer@,
                        slots: old(tls).static_buffers@,
                        outgoing: outgoing@,
                        code,
                        reply: final(tls).command_buffer@,
                        incoming: final(incoming)@,
                    },
                ),
            ),
    {
        let ghost request = tls.command_buffer@;
        let ghost slots = tls.static_buffers@;
        let code: u32 = self.platform.send_sync_request(session, tls, outgoing, incoming);
        self.log = Ghost(
            self.log@.push(
                Call::Send(
                    Exchange {
                        session,
                        request,
                        slots,
                        outgoing: outgoing@,
                        code,
                        reply: tls.command_buffer@,
                        incoming: incoming@,
                    },
                ),
            ),
        );
        code
    }

    /// Asks the platform for the service `name` and records the answer.
    pub fn get_service_handle(&mut self, name: &str) -> (outcome: Result<u32, u32>)
        ensures
            final(self).log() == old(self).log().push(
                Call::GetServiceHandle { name: name@, outcome },
            ),
    {
        let outcome: Result<u32, u32> = self.platform.get_service_handle(name);
        self.log = Ghost(self.log@.push(Call::GetServiceHandle { name: name@, outcome }));
        outcome
    }

    /// Asks the platform for the next session on `port` and records the
    /// answer.
    pub fn accept_session(&mut self, port: u32) -> (outcome: Result<u32, u32>)
        ensures
            final(self).log() == old(self).log().push(Call::AcceptSession { port, outcome }),
    {
        let outcome: Result<u32, u32> = self.platform.accept_session(port);
        self.log = Ghost(self.log@.push(Call::AcceptSession { port, outcome }));
        outcome
    }

    /// Has the platform close `handle` and records the result code.
    pub fn close_handle(&mut self, handle: u32) -> (code: u32)
        ensures
            final(self).log() == old(self).log().push(Call::CloseHandle { handle, code }),
    {
        let code: u32 = self.platform.close_handle(handle);
        self.log = Ghost(self.log@.push(Call::CloseHandle { handle, code }));
        code
    }
}

} // verus!
