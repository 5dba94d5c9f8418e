//! The socket client that talks to the socket service.
use crate::handle::Handle;
use crate::ipc::layout::{static_buffer_header, ThreadLocalStorage};
use crate::ipc::command::staged;
use crate::platform::{sent, Call, Kernel, Platform};
use crate::res::{through_kernel, CtrError, CtrResult};
use crate::socket::shared::{
    accept_request, close_request, get_host_id_request, listen_request, reply_posix_result,
    reply_result, reply_word, sent_address, sent_recv, sent_send, socket_request, socu_accept,
    socu_bind, socu_connect, socu_get_host_id, socu_listen, socu_recv, socu_send, socu_socket,
    wire_address, wire_port, SocketAddr, SocketContextHandle, SocketType, SocuState,
    SOCU_SERVICE_NAME,
};
use crate::srv::get_service_handle_direct;
use vstd::prelude::*;

verus! {

/// The four bytes of `word`, least significant first.
pub open spec fn le_bytes(word: u32) -> Seq<u8> {
    seq![
        (word % 256) as u8,
        ((word / 0x100) % 256) as u8,
        ((word / 0x1_0000) % 256) as u8,
        ((word / 0x100_0000) % 256) as u8,
    ]
}

/// The host address that the reply `reply` to a host-id command carries, as
/// bytes in network order, or the failure it reports.
pub open spec fn reply_host_id(reply: Seq<u32>) -> Result<Seq<u8>, CtrError> {
    match reply_word(reply) {
        Ok(word) => Ok(le_bytes(word)),
        Err(e) => Err(e),
    }
}

/// The bytes inside a successful result, and the error otherwise.
pub open spec fn bytes_of(r: CtrResult<[u8; 4]>) -> Result<Seq<u8>, CtrError> {
    match r {
        Ok(bytes) => Ok(bytes@),
        Err(e) => Err(e),
    }
}

/// Splits `word` into its four bytes, least significant first.
pub fn to_le_bytes(word: u32) -> (bytes: [u8; 4])
    ensures
        bytes@ == le_bytes(word),
{
    let bytes: [u8; 4] = [
        (word & 0xff) as u8,
        ((word >> 8) & 0xff) as u8,
        ((word >> 16) & 0xff) as u8,
        ((word >> 24) & 0xff) as u8,
    ];
    assert((word & 0xff) as u8 == (word % 256) as u8) by (bit_vector);
    assert(((word >> 8) & 0xff) as u8 == ((word / 0x100) % 256) as u8) by (bit_vector);
    assert(((word >> 16) & 0xff) as u8 == ((word / 0x1_0000) % 256) as u8) by (bit_vector);
    assert(((word >> 24) & 0xff) as u8 == ((word / 0x100_0000) % 256) as u8) by (bit_vector);
    assert(bytes@ =~= le_bytes(word));
    bytes
}

/// One socket of the socket service.
///
/// It owns a session with the service, over which its commands travel, and
/// the service's object for the socket, which every command names. A context
/// starts unbound; `bind` and `listen`, or `connect`, move it on. `accept`
/// turns a listening context into the accepted connection: the context then
/// stands for the connection and no longer for the listener.
pub struct SocketContext {
    session_handle: Handle,
    context_handle: SocketContextHandle,
}

/// What [`SocketContext::new`] asks of the kernel and returns, given the
/// calls it made.
///
/// It first sends the create command over the capability the process
/// registered with; a failure of that is the result. Then it looks the
/// service up by its name for a session. With a session, the context holds
/// it and the object that the create reply names. Without one, it sends the
/// close command for that object and fails with the lookup's code.
pub open spec fn new_calls(
    calls: Seq<Call>,
    r: CtrResult<SocketContext>,
    service: u32,
    socket_type: SocketType,
    buffer: Seq<u32>,
    slots: Seq<u32>,
    reply: Seq<u32>,
) -> bool {
    &&& calls.len() >= 1
    &&& calls[0].is_send_of(
        service,
        staged(buffer, socket_request(socket_type)),
        slots,
        Seq::<u8>::empty(),
    )
    &&& calls[0]->Send_0.reply == reply
    &&& match through_kernel(calls[0].code(), reply_word(reply)) {
        Err(e) => {
            &&& r is Err
            &&& r->Err_0 == e
            &&& calls.len() == 1
        },
        Ok(context) => {
            &&& calls.len() >= 2
            &&& calls[1].is_lookup_of(SOCU_SERVICE_NAME@)
            &&& match calls[1].outcome() {
                Ok(session) => {
                    &&& calls.len() == 2
                    &&& r is Ok
                    &&& r->Ok_0.context() == context
                    &&& r->Ok_0.session() == session
                },
                Err(code) => {
                    &&& calls.len() == 3
                    &&& r is Err
                    &&& r->Err_0 == CtrError::Resolve(code)
                    &&& calls[2].is_send_of(
                        service,
                        staged(reply, close_request(context)),
                        slots,
                        Seq::<u8>::empty(),
                    )
                },
            }
        },
    }
}

/// What [`SocketContext::accept`] asks of the kernel and returns, given the
/// calls it made, for a context that stood for `listener` over `session`.
///
/// It first sends the accept command for the listener, with the descriptor
/// of a receive area of 0x1c bytes in the static-buffer slots; a failure of
/// that is the result. On success the result is the address and port in
/// bytes 2 to 8 of that area, the context stands for the object `accepted`
/// that the reply names, and the close command for the listener has gone to
/// the capability `service`.
pub open spec fn accept_calls(
    calls: Seq<Call>,
    r: CtrResult<SocketAddr>,
    accepted: u32,
    session: u32,
    listener: u32,
    service: u32,
    buffer: Seq<u32>,
    slots: Seq<u32>,
    reply: Seq<u32>,
) -> bool {
    &&& calls.len() >= 1
    &&& calls[0].is_send_of(
        session,
        staged(buffer, accept_request(listener)),
        seq![static_buffer_header(0x1c, 0), calls[0]->Send_0.slots[1]],
        Seq::<u8>::empty(),
    )
    &&& calls[0]->Send_0.reply == reply
    &&& calls[0]->Send_0.incoming.len() == 0x1c
    &&& match through_kernel(calls[0].code(), reply_word(reply)) {
        Err(e) => {
            &&& r is Err
            &&& r->Err_0 == e
            &&& calls.len() == 1
            &&& accepted == listener
        },
        Ok(new_context) => {
            &&& r is Ok
            &&& r->Ok_0.size == 8
            &&& r->Ok_0.family == 2
            &&& r->Ok_0.port == wire_port(calls[0]->Send_0.incoming)
            &&& r->Ok_0.address@ == wire_address(calls[0]->Send_0.incoming)
            &&& accepted == new_context
            &&& calls.len() == 2
            &&& calls[1].is_send_of(
                service,
                staged(reply, close_request(listener)),
                slots,
                Seq::<u8>::empty(),
            )
        },
    }
}

impl SocketContext {
    /// Raw identifier of the session with the service.
    pub closed spec fn session(&self) -> u32 {
        self.session_handle@
    }

    /// Raw identifier of the service's object that this context stands for.
    pub closed spec fn context(&self) -> u32 {
        self.context_handle@
    }

    /// Creates a socket of type `socket_type` and opens a session with the
    /// service for it.
    ///
    /// Fails when the socket cannot be created or no session can be had; in
    /// the second case the socket that was created is closed again. A failure
    /// here is never an answer of the service to a socket operation. After
    /// the call the command buffer holds the reply to the create command.
    pub fn new<P: Platform>(
        kernel: &mut Kernel<P>,
        tls: &mut ThreadLocalStorage,
        state: &SocuState,
        socket_type: SocketType,
    ) -> (r: CtrResult<SocketContext>)
        ensures
            final(tls).static_buffers == old(tls).static_buffers,
            final(kernel).extends(*old(kernel)),
            new_calls(
                final(kernel).calls_since(*old(kernel)),
                r,
                state.service_handle,
                socket_type,
                old(tls).command_buffer@,
                old(tls).static_buffers@,
                final(tls).command_buffer@,
            ),
    {
        let ghost k0 = *kernel;
        proof {
            k0.lemma_no_calls();
        }
        let created = socu_socket(kernel, tls, state, socket_type);
        let ghost k1 = *kernel;
        proof {
            k1.lemma_one_more_call(k0, k0);
        }
        let context_handle = match created {
            Ok(handle) => handle,
            Err(e) => {
                return Err(e);
            },
        };
        let looked_up = get_service_handle_direct(kernel, SOCU_SERVICE_NAME);
        let ghost k2 = *kernel;
        proof {
            k2.lemma_one_more_call(k0, k1);
        }
        match looked_up {
            Ok(session_handle) => Ok(SocketContext { session_handle, context_handle }),
            Err(e) => {
                context_handle.close(kernel, tls, state);
                proof {
                    kernel.lemma_one_more_call(k0, k2);
                }
                Err(e)
            },
        }
    }

    /// Connects to `address`: command 6 for this context's object, over its
    /// session. Succeeds only when the kernel delivered the command and the
    /// service answered with two zero results; a nonzero POSIX-style result
    /// of the service comes back as `Posix`.
    pub fn connect<P: Platform>(
        &self,
        kernel: &mut Kernel<P>,
        tls: &mut ThreadLocalStorage,
        address: SocketAddr,
    ) -> (r: CtrResult)
        ensures
            final(tls).static_buffers == old(tls).static_buffers,
            sent_address(
                *old(kernel),
                *final(kernel),
                0x6,
                self.session(),
                self.context(),
                address,
                old(tls).command_buffer@,
                old(tls).static_buffers@,
                final(tls).command_buffer@,
            ),
            r == through_kernel(
                final(kernel).last_code(),
                reply_posix_result(final(tls).command_buffer@),
            ),
    {
        socu_connect(kernel, tls, &self.session_handle, &self.context_handle, address)
    }

    /// Binds to `address`: command 5 for this context's object, over its
    /// session. Succeeds only when the kernel delivered the command and the
    /// service answered with two zero results; a nonzero POSIX-style result
    /// of the service comes back as `Posix`.
    pub fn bind<P: Platform>(
        &self,
        kernel: &mut Kernel<P>,
        tls: &mut ThreadLocalStorage,
        address: SocketAddr,
    ) -> (r: CtrResult)
        ensures
            final(tls).static_buffers == old(tls).static_buffers,
            sent_address(
                *old(kernel),
                *final(kernel),
                0x5,
                self.session(),
                self.context(),
                address,
                old(tls).command_buffer@,
                old(tls).static_buffers@,
                final(tls).command_buffer@,
            ),
            r == through_kernel(
                final(kernel).last_code(),
                reply_posix_result(final(tls).command_buffer@),
            ),
    {
        socu_bind(kernel, tls, &self.session_handle, &self.context_handle, address)
    }

    /// Starts listening, with room for `max_connections` pending connections:
    /// command 3 for this context's object, over its session.
    pub fn listen<P: Platform>(
        &self,
        kernel: &mut Kernel<P>,
        tls: &mut ThreadLocalStorage,
        max_connections: u32,
    ) -> (r: CtrResult)
        ensures
            final(tls).static_buffers == old(tls).static_buffers,
            sent(
                *old(kernel),
                *final(kernel),
                self.session(),
                staged(old(tls).command_buffer@, listen_request(self.context(), max_connections)),
                old(tls).static_buffers@,
                Seq::<u8>::empty(),
                final(tls).command_buffer@,
                Seq::<u8>::empty(),
            ),
            r == through_kernel(
                final(kernel).last_code(),
                reply_posix_result(final(tls).command_buffer@),
            ),
    {
        socu_listen(kernel, tls, &self.session_handle, &self.context_handle, max_connections)
    }

    /// Makes the context stand for the service's object `new_context` and
    /// hands out the object it stood for until now.
    pub fn replace_context(&mut self, new_context: u32) -> (previous: SocketContextHandle)
        ensures
            final(self).context() == new_context,
            final(self).session() == old(self).session(),
            previous@ == old(self).context(),
    {
        let mut swapped = SocketContextHandle::from(new_context);
        core::mem::swap(&mut self.context_handle, &mut swapped);
        swapped
    }

    /// Waits for a peer to connect and returns its address.
    ///
    /// On success the context stands for the new connection, the one that the
    /// reply names, and the object it stood for before, the listener, has
    /// been closed, once. On failure the context is what it was. After the
    /// call the command buffer holds the reply to the accept command.
    pub fn accept<P: Platform>(
        &mut self,
        kernel: &mut Kernel<P>,
        tls: &mut ThreadLocalStorage,
        state: &SocuState,
    ) -> (r: CtrResult<SocketAddr>)
        ensures
            final(tls).static_buffers == old(tls).static_buffers,
            final(self).session() == old(self).session(),
            final(kernel).extends(*old(kernel)),
            accept_calls(
                final(kernel).calls_since(*old(kernel)),
                r,
                final(self).context(),
                old(self).session(),
                old(self).context(),
                state.service_handle,
                old(tls).command_buffer@,
                old(tls).static_buffers@,
                final(tls).command_buffer@,
            ),
    {
        let ghost k0 = *kernel;
        proof {
            k0.lemma_no_calls();
        }
        let mut client_socket_addr = SocketAddr::new([0, 0, 0, 0], 0);
        let accepted = socu_accept(
            kernel,
            tls,
            &self.session_handle,
            &self.context_handle,
            &mut client_socket_addr,
        );
        let ghost k1 = *kernel;
        proof {
            k1.lemma_one_more_call(k0, k0);
        }
        match accepted {
            Ok(new_context) => {
                let listener = self.replace_context(new_context);
                listener.close(kernel, tls, state);
                proof {
                    kernel.lemma_one_more_call(k0, k1);
                }
                Ok(client_socket_addr)
            },
            Err(e) => Err(e),
        }
    }

    /// Receives into `result_buffer`: command 7 for this context's object,
    /// over its session; `flags` go to the service as they are. A buffer
    /// whose length does not fit in 32 bits is refused before anything is
    /// sent.
    pub fn recv<P: Platform>(
        &self,
        kernel: &mut Kernel<P>,
        tls: &mut ThreadLocalStorage,
        result_buffer: &mut [u8],
        flags: u32,
    ) -> (r: CtrResult)
        ensures
            final(tls).static_buffers == old(tls).static_buffers,
            final(result_buffer)@.len() == old(result_buffer)@.len(),
            old(result_buffer)@.len() > u32::MAX ==> r == Err::<(), CtrError>(
                CtrError::InvalidSize,
            ) && final(tls).command_buffer == old(tls).command_buffer && final(result_buffer)@
                == old(result_buffer)@ && final(kernel).log() == old(kernel).log(),
            old(result_buffer)@.len() <= u32::MAX ==> sent_recv(
                *old(kernel),
                *final(kernel),
                self.session(),
                self.context(),
                old(result_buffer)@.len() as u32,
                flags,
                old(tls).command_buffer@,
                final(tls).command_buffer@,
                final(result_buffer)@,
            ) && r == through_kernel(
                final(kernel).last_code(),
                reply_result(final(tls).command_buffer@),
            ),
    {
        socu_recv(
            kernel,
            tls,
            &self.session_handle,
            &self.context_handle,
            result_buffer,
            flags,
        )
    }

    /// Sends `send_buffer`: command 9 for this context's object, over its
    /// session; `flags` go to the service as they are. A buffer whose length
    /// does not fit in 32 bits is refused before anything is sent.
    pub fn send<P: Platform>(
        &self,
        kernel: &mut Kernel<P>,
        tls: &mut ThreadLocalStorage,
        send_buffer: &[u8],
        flags: u32,
    ) -> (r: CtrResult)
        ensures
            final(tls).static_buffers == old(tls).static_buffers,
            send_buffer@.len() > u32::MAX ==> r == Err::<(), CtrError>(CtrError::InvalidSize)
                && final(tls).command_buffer == old(tls).command_buffer && final(kernel).log()
                == old(kernel).log(),
            send_buffer@.len() <= u32::MAX ==> sent_send(
                *old(kernel),
                *final(kernel),
                self.session(),
                self.context(),
                flags,
                send_buffer@,
                old(tls).command_buffer@,
                old(tls).static_buffers@,
                final(tls).command_buffer@,
            ) && r == through_kernel(
                final(kernel).last_code(),
                reply_result(final(tls).command_buffer@),
            ),
    {
        socu_send(kernel, tls, &self.session_handle, &self.context_handle, send_buffer, flags)
    }

    /// The address of the host, in network order: command 0x16, with no
    /// words, over this context's session. The command goes to the service,
    /// not to this socket, and has no POSIX-style result: a failure is always
    /// one of the transport.
    pub fn get_host_id<P: Platform>(
        &self,
        kernel: &mut Kernel<P>,
        tls: &mut ThreadLocalStorage,
    ) -> (r: CtrResult<[u8; 4]>)
        ensures
            final(tls).static_buffers == old(tls).static_buffers,
            sent(
                *old(kernel),
                *final(kernel),
                self.session(),
                staged(old(tls).command_buffer@, get_host_id_request()),
                old(tls).static_buffers@,
                Seq::<u8>::empty(),
                final(tls).command_buffer@,
                Seq::<u8>::empty(),
            ),
            bytes_of(r) == through_kernel(
                final(kernel).last_code(),
                reply_host_id(final(tls).command_buffer@),
            ),
            r is Err ==> r->Err_0.is_transport(),
    {
        match socu_get_host_id(kernel, tls, &self.session_handle) {
            Ok(word) => Ok(to_le_bytes(word)),
            Err(e) => Err(e),
        }
    }

    /// Closes the socket and the session: the close command for this
    /// context's object, then the close of the session's capability, and no
    /// other call. Neither close reports a failure, and the thread's command
    /// buffer and static-buffer slots are left as they were found.
    pub fn close<P: Platform>(
        self,
        kernel: &mut Kernel<P>,
        tls: &mut ThreadLocalStorage,
        state: &SocuState,
    )
        ensures
            final(tls).command_buffer == old(tls).command_buffer,
            final(tls).static_buffers == old(tls).static_buffers,
            final(kernel).extends(*old(kernel)),
            ({
                let calls = final(kernel).calls_since(*old(kernel));
                &&& calls.len() == 2
                &&& calls[0].is_send_of(
                    state.service_handle,
                    staged(old(tls).command_buffer@, close_request(self.context())),
                    old(tls).static_buffers@,
                    Seq::<u8>::empty(),
                )
                &&& calls[1].is_close_of(self.session())
            }),
    {
        let ghost k0 = *kernel;
        proof {
            k0.lemma_no_calls();
        }
        self.context_handle.close(kernel, tls, state);
        let ghost k1 = *kernel;
        self.session_handle.close(kernel);
        proof {
            k1.lemma_one_more_call(k0, k0);
            kernel.lemma_one_more_call(k0, k1);
        }
    }
}

} // verus!
