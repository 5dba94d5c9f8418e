//! The commands of the socket service, one function per command.
use crate::handle::Handle;
use crate::ipc::command::{command_words, ThreadCommand, ThreadCommandBuilder};
use crate::ipc::layout::{
    buffer_header, make_static_buffer_header, shared_handles_header, static_buffer_header,
    ThreadLocalStorage,
};
use crate::ipc::parser::ThreadCommandParser;
use crate::ipc::static_buffer::StaticBufferGuard;
use crate::memory::MemoryBlock;
use crate::ipc::command::staged;
use crate::platform::{sent, Call, Kernel, Platform};
use crate::res::{through_kernel, try_usize_into_u32, CtrError, CtrResult};
use crate::srv::get_service_handle_direct;
use vstd::prelude::*;

verus! {

/// The name under which the socket service is registered. The service knows
/// itself by these five bytes and no others.
pub const SOCU_SERVICE_NAME: &'static str = "soc:U";

/// Size in bytes of the area that receives a peer's address. It is large
/// enough for an IPv6 address, which the service may write although this
/// client only reads IPv4.
pub const ADDRESS_AREA_SIZE: u32 = 0x1c;

/// Address family of IPv4, the only one this client speaks.
pub const AF_INET: u8 = 2;

/// Address family of IPv6. Reserved: no function of this library uses it.
pub const AF_INET6: u8 = 23;

/// Size in bytes of the wire form of an IPv4 socket address.
pub const INET_ADDRESS_SIZE: u8 = 8;

#[derive(Clone, Copy, Debug, PartialEq, Eq, Structural)]
pub enum SocketType {
    Stream,
    Dgram,
}

impl SocketType {
    /// The number the service knows the socket type by.
    pub open spec fn word(self) -> u32 {
        match self {
            SocketType::Stream => 1,
            SocketType::Dgram => 2,
        }
    }
}

impl From<SocketType> for u32 {
    /// The number the service knows the socket type by.
    fn from(socket_type: SocketType) -> (word: u32) {
        match socket_type {
            SocketType::Stream => 1,
            SocketType::Dgram => 2,
        }
    }
}

impl vstd::std_specs::convert::FromSpecImpl<SocketType> for u32 {
    open spec fn obeys_from_spec() -> bool {
        true
    }

    open spec fn from_spec(socket_type: SocketType) -> u32 {
        socket_type.word()
    }
}

/// An IPv4 address and port, with the two leading bytes of its wire form.
#[derive(Clone, Copy, Debug)]
pub struct SocketAddr {
    pub size: u8,
    pub family: u8,
    pub address: [u8; 4],
    pub port: u16,
}

/// The port that the eight or more bytes `bytes` carry: bytes 2 and 3, most
/// significant first.
pub open spec fn wire_port(bytes: Seq<u8>) -> int {
    bytes[2] * 256 + bytes[3]
}

/// The four address bytes that `bytes` carry: bytes 4 to 7.
pub open spec fn wire_address(bytes: Seq<u8>) -> Seq<u8> {
    bytes.subrange(4, 8)
}

impl SocketAddr {
    /// The eight bytes that stand for this address on the wire: size, family,
    /// the port with its most significant byte first, the four address bytes.
    pub open spec fn wire_form(self) -> Seq<u8> {
        seq![
            self.size,
            self.family,
            (self.port / 256) as u8,
            (self.port % 256) as u8,
            self.address@[0],
            self.address@[1],
            self.address@[2],
            self.address@[3],
        ]
    }

    /// The IPv4 socket address `address`:`port`.
    pub fn new(address: [u8; 4], port: u16) -> (addr: SocketAddr)
        ensures
            addr.size == 8,
            addr.family == 2,
            addr.address == address,
            addr.port == port,
    {
        SocketAddr { size: INET_ADDRESS_SIZE, family: AF_INET, address, port }
    }

    /// Encodes the address for the wire.
    pub fn to_wire(&self) -> (bytes: [u8; 8])
        ensures
            bytes@ == self.wire_form(),
    {
        let port: u16 = self.port;
        let high: u8 = (port >> 8) as u8;
        let low: u8 = (port & 0xff) as u8;
        assert((port >> 8) as u8 == (port / 256) as u8) by (bit_vector);
        assert((port & 0xff) as u8 == (port % 256) as u8) by (bit_vector);
        let bytes: [u8; 8] = [
            self.size,
            self.family,
            high,
            low,
            self.address[0],
            self.address[1],
            self.address[2],
            self.address[3],
        ];
        assert(bytes@ =~= self.wire_form());
        bytes
    }

    /// Decodes the IPv4 address and port that the start of `bytes` carries.
    /// The size and family bytes are not read.
    pub fn from_wire(bytes: &[u8]) -> (addr: SocketAddr)
        requires
            bytes@.len() >= 8,
        ensures
            addr.size == 8,
            addr.family == 2,
            addr.port == wire_port(bytes@),
            addr.address@ == wire_address(bytes@),
    {
        let high: u8 = bytes[2];
        let low: u8 = bytes[3];
        let port: u16 = ((high as u16) << 8) | (low as u16);
        assert((((high as u16) << 8) | (low as u16)) == high * 256 + low) by (bit_vector);
        let address: [u8; 4] = [bytes[4], bytes[5], bytes[6], bytes[7]];
        assert(address@ =~= wire_address(bytes@));
        SocketAddr::new(address, port)
    }
}

/// Encoding an address and decoding the bytes gives back the port and the
/// address bytes, whatever they are.
pub proof fn lemma_wire_round_trip(addr: SocketAddr)
    ensures
        addr.wire_form().len() == 8,
        wire_port(addr.wire_form()) == addr.port,
        wire_address(addr.wire_form()) == addr.address@,
{
    let port: u16 = addr.port;
    assert((port / 256) as u8 * 256 + (port % 256) as u8 == port) by (bit_vector);
    assert(wire_address(addr.wire_form()) =~= addr.address@);
}

/// What a process knows of the socket service once it has registered with it:
/// the raw identifier of its capability to the service and that of the memory
/// block it shares with the service. Both are zero until [`socu_init`] has
/// succeeded.
///
/// The identifiers are raw because the capabilities live as long as the
/// process: nothing ever closes them.
#[derive(Clone, Copy, Debug, PartialEq, Eq, Structural)]
pub struct SocuState {
    pub service_handle: u32,
    pub shared_memory_handle: u32,
}

impl SocuState {
    /// The state of a process that has not registered.
    pub fn new() -> (state: SocuState)
        ensures
            state == (SocuState { service_handle: 0, shared_memory_handle: 0 }),
    {
        SocuState { service_handle: 0, shared_memory_handle: 0 }
    }
}

pub fn get_socu_service_raw_handle(state: &SocuState) -> (raw: u32)
    ensures
        raw == state.service_handle,
{
    state.service_handle
}

/// Outcome of a command whose reply `reply` carries only the generic result
/// word.
pub open spec fn reply_result(reply: Seq<u32>) -> CtrResult {
    if reply[1] == 0 {
        Ok(())
    } else {
        Err(CtrError::Service(reply[1]))
    }
}

/// Outcome of a command whose reply `reply` carries the generic result word
/// and one output word.
pub open spec fn reply_word(reply: Seq<u32>) -> CtrResult<u32> {
    if reply[1] == 0 {
        Ok(reply[2])
    } else {
        Err(CtrError::Service(reply[1]))
    }
}

/// Outcome of a command whose reply `reply` carries the generic result word
/// and a POSIX-style result: success only when both are zero.
pub open spec fn reply_posix_result(reply: Seq<u32>) -> CtrResult {
    if reply[1] != 0 {
        Err(CtrError::Service(reply[1]))
    } else if reply[2] != 0 {
        Err(CtrError::Posix(reply[2]))
    } else {
        Ok(())
    }
}

/// Reads a reply that carries only the generic result word.
pub fn parse_result(parser: ThreadCommandParser) -> (r: CtrResult)
    requires
        parser.cursor() == 1,
    ensures
        r == reply_result(parser.words()),
{
    let mut parser = parser;
    parser.pop_result()
}

/// Reads a reply that carries the generic result word and one output word.
pub fn parse_word(parser: ThreadCommandParser) -> (r: CtrResult<u32>)
    requires
        parser.cursor() == 1,
    ensures
        r == reply_word(parser.words()),
{
    let mut parser = parser;
    match parser.pop_result() {
        Ok(()) => Ok(parser.pop()),
        Err(e) => Err(e),
    }
}

/// Reads a reply that carries the generic result word and a POSIX-style
/// result.
pub fn parse_posix_result(parser: ThreadCommandParser) -> (r: CtrResult)
    requires
        parser.cursor() == 1,
    ensures
        r == reply_posix_result(parser.words()),
{
    let mut parser = parser;
    match parser.pop_result() {
        Ok(()) => {
            let posix_result: u32 = parser.pop();
            if posix_result == 0 {
                Ok(())
            } else {
                Err(CtrError::Posix(posix_result))
            }
        },
        Err(e) => Err(e),
    }
}

/// Words of the command that registers a process with the socket service and
/// hands it a shared memory block of `size` bytes, known by the capability
/// `shared_memory`.
pub open spec fn initialize_sockets_request(size: u32, shared_memory: u32) -> Seq<u32> {
    command_words(
        0x1,
        seq![size],
        seq![0x20u32, 0u32, shared_handles_header(1), shared_memory],
    )
}

/// Words of the command that creates an IPv4 socket of type `socket_type`.
pub open spec fn socket_request(socket_type: SocketType) -> Seq<u32> {
    command_words(0x2, seq![2u32, socket_type.word(), 0u32], seq![0x20u32, 0u32])
}

/// Words of the command that makes the socket `context` listen, with room
/// for `max_connections` pending connections.
pub open spec fn listen_request(context: u32, max_connections: u32) -> Seq<u32> {
    command_words(0x3, seq![context, max_connections], seq![0x20u32, 0u32])
}

/// Words of the command that waits for a connection on the socket `context`.
pub open spec fn accept_request(context: u32) -> Seq<u32> {
    command_words(0x4, seq![context, 0x1cu32], seq![0x20u32, 0u32])
}

/// Words of the command `command_id`, bind (5) or connect (6), for the socket
/// `context`: the length of the address, and the eight bytes of its wire
/// form at `buffer_address` as static buffer 0.
pub open spec fn address_request(
    command_id: u16,
    context: u32,
    length: u32,
    buffer_address: u32,
) -> Seq<u32> {
    command_words(
        command_id,
        seq![context, length],
        seq![0x20u32, 0u32, static_buffer_header(8, 0), buffer_address],
    )
}

/// Words of the command that receives on the socket `context` into a buffer
/// of `length` bytes at `buffer_address`.
pub open spec fn recv_request(context: u32, length: u32, flags: u32, buffer_address: u32) -> Seq<
    u32,
> {
    command_words(
        0x7,
        seq![context, length, flags, 0u32],
        seq![0x20u32, 0u32, buffer_header(length, 0x4), buffer_address],
    )
}

/// Words of the command that sends on the socket `context` the `length`
/// bytes at `buffer_address`; the unused address area lies at
/// `placeholder_address` and travels as static buffer 1.
pub open spec fn send_request(
    context: u32,
    length: u32,
    flags: u32,
    placeholder_address: u32,
    buffer_address: u32,
) -> Seq<u32> {
    command_words(
        0x9,
        seq![context, length, flags, 0u32],
        seq![
            0x20u32,
            0u32,
            static_buffer_header(0x1c, 1),
            placeholder_address,
            buffer_header(length, 0x2),
            buffer_address,
        ],
    )
}

/// Words of the command that closes the socket `context`.
pub open spec fn close_request(context: u32) -> Seq<u32> {
    command_words(0xB, seq![context], seq![0x20u32, 0u32])
}

/// Words of the command that asks for the address of the host.
pub open spec fn get_host_id_request() -> Seq<u32> {
    command_words(0x16, Seq::<u32>::empty(), Seq::<u32>::empty())
}

/// The per-socket object of the service that a socket context talks about.
///
/// The service hands it out when a socket is created or a connection is
/// accepted, and wants it back through its close command:
/// [`SocketContextHandle::close`] consumes the handle.
#[derive(Debug)]
pub struct SocketContextHandle(u32);

impl View for SocketContextHandle {
    type V = u32;

    closed spec fn view(&self) -> u32 {
        self.0
    }
}

/// The raw identifier inside a successful result, and the error otherwise.
pub open spec fn context_of(r: CtrResult<SocketContextHandle>) -> CtrResult<u32> {
    match r {
        Ok(handle) => Ok(handle@),
        Err(e) => Err(e),
    }
}

impl SocketContextHandle {
    /// The identifier itself, without giving up ownership. The copy is only
    /// good for placing it in a command while this handle is still open.
    pub fn get_raw(&self) -> (raw: u32)
        ensures
            raw == self@,
    {
        self.0
    }

    /// The close command for this handle.
    pub fn close_command(&self) -> (command: ThreadCommand)
        ensures
            command@ == close_request(self@),
    {
        let mut command = ThreadCommandBuilder::new(0xB);
        command.push(self.get_raw());
        command.push_current_process_id();
        command.build()
    }

    /// Tells the service, over the capability the process registered with,
    /// that the socket is no longer used: one close command for this handle,
    /// sent once. Whether the service or the kernel objects is not reported:
    /// there would be nothing to do about it.
    ///
    /// A close runs wherever a handle ends, between any two other steps of
    /// the thread, so it leaves the thread's command buffer and
    /// static-buffer slots as it found them.
    pub fn close<P: Platform>(
        self,
        kernel: &mut Kernel<P>,
        tls: &mut ThreadLocalStorage,
        state: &SocuState,
    )
        ensures
            final(tls).command_buffer == old(tls).command_buffer,
            final(tls).static_buffers == old(tls).static_buffers,
            sent(
                *old(kernel),
                *final(kernel),
                state.service_handle,
                staged(old(tls).command_buffer@, close_request(self@)),
                old(tls).static_buffers@,
                Seq::<u8>::empty(),
                final(kernel).last_exchange().reply,
                Seq::<u8>::empty(),
            ),
    {
        let found: [u32; 64] = tls.command_buffer;
        let command = self.close_command();
        let _ignored = command.send_sync_request_with_raw_handle(
            kernel,
            tls,
            get_socu_service_raw_handle(state),
        );
        tls.command_buffer = found;
    }
}

impl From<u32> for SocketContextHandle {
    fn from(raw_handle: u32) -> (handle: SocketContextHandle)
        ensures
            handle@ == raw_handle,
    {
        SocketContextHandle(raw_handle)
    }
}

impl vstd::std_specs::convert::FromSpecImpl<u32> for SocketContextHandle {
    open spec fn obeys_from_spec() -> bool {
        true
    }

    closed spec fn from_spec(raw_handle: u32) -> SocketContextHandle {
        SocketContextHandle(raw_handle)
    }
}

/// The command that registers the process with the socket service and hands
/// it the shared memory block of `shared_memory_block_size` bytes.
pub fn initialize_sockets_command(
    shared_memory_block_size: u32,
    shared_memory_block_handle: &Handle,
) -> (command: ThreadCommand)
    ensures
        command@ == initialize_sockets_request(
            shared_memory_block_size,
            shared_memory_block_handle@,
        ),
{
    let mut command = ThreadCommandBuilder::new(0x1);
    command.push(shared_memory_block_size);
    command.push_current_process_id();
    let handles: [&Handle; 1] = [shared_memory_block_handle];
    let pushed = command.push_shared_handles(&handles);
    assert(pushed is Ok);
    assert(command.translate_params() =~= seq![
        0x20u32,
        0u32,
        shared_handles_header(1),
        shared_memory_block_handle@,
    ]);
    command.build()
}

/// Registers the process with the socket service: one command, over
/// `service_handle`.
///
/// Fails with `InvalidSize`, before anything is sent, when the size of the
/// block does not fit in 32 bits.
pub fn socu_initialize_sockets<P: Platform>(
    kernel: &mut Kernel<P>,
    tls: &mut ThreadLocalStorage,
    service_handle: &Handle,
    shared_memory_block_size: usize,
    shared_memory_block_handle: &Handle,
) -> (r: CtrResult)
    ensures
        final(tls).static_buffers == old(tls).static_buffers,
        shared_memory_block_size > u32::MAX ==> r == Err::<(), CtrError>(CtrError::InvalidSize)
            && final(tls).command_buffer == old(tls).command_buffer
            && final(kernel).log() == old(kernel).log(),
        shared_memory_block_size <= u32::MAX ==> sent(
            *old(kernel),
            *final(kernel),
            service_handle@,
            staged(
                old(tls).command_buffer@,
                initialize_sockets_request(
                    shared_memory_block_size as u32,
                    shared_memory_block_handle@,
                ),
            ),
            old(tls).static_buffers@,
            Seq::<u8>::empty(),
            final(tls).command_buffer@,
            Seq::<u8>::empty(),
        ) && r == through_kernel(
            final(kernel).last_code(),
            reply_result(final(tls).command_buffer@),
        ),
{
    let size: u32 = match try_usize_into_u32(shared_memory_block_size) {
        Ok(size) => size,
        Err(e) => {
            return Err(e);
        },
    };
    let command = initialize_sockets_command(size, shared_memory_block_handle);
    match command.send_sync_request(kernel, tls, service_handle) {
        Ok(parser) => parse_result(parser),
        Err(e) => Err(e),
    }
}

/// What [`socu_init`] asks of the kernel and returns, given the calls it made.
///
/// It first looks the service up by its name. Without the service it closes
/// the block and fails with the lookup's code. With the service, a block
/// whose size does not fit in 32 bits makes it close both capabilities and
/// fail with `InvalidSize`. Otherwise it sends the registering command over
/// the service capability, whose outcome is the result; on failure it closes
/// both capabilities, the service first.
pub open spec fn init_calls(
    calls: Seq<Call>,
    r: CtrResult,
    block_size: usize,
    block: u32,
    buffer: Seq<u32>,
    slots: Seq<u32>,
    reply: Seq<u32>,
) -> bool {
    &&& calls.len() >= 2
    &&& calls[0].is_lookup_of(SOCU_SERVICE_NAME@)
    &&& match calls[0].outcome() {
        Err(code) => {
            &&& r == Err::<(), CtrError>(CtrError::Resolve(code))
            &&& calls.len() == 2
            &&& calls[1].is_close_of(block)
            &&& reply == buffer
        },
        Ok(service) => if block_size > u32::MAX {
            &&& r == Err::<(), CtrError>(CtrError::InvalidSize)
            &&& calls.len() == 3
            &&& calls[1].is_close_of(service)
            &&& calls[2].is_close_of(block)
            &&& reply == buffer
        } else {
            &&& calls[1].is_send_of(
                service,
                staged(buffer, initialize_sockets_request(block_size as u32, block)),
                slots,
                Seq::<u8>::empty(),
            )
            &&& calls[1]->Send_0.reply == reply
            &&& r == through_kernel(calls[1].code(), reply_result(reply))
            &&& if r is Ok {
                calls.len() == 2
            } else {
                &&& calls.len() == 4
                &&& calls[2].is_close_of(service)
                &&& calls[3].is_close_of(block)
            }
        },
    }
}

/// Registers the process with the socket service and records the two
/// capabilities in `state`.
///
/// On success both capabilities stay open for the rest of the process's life
/// and `state` holds their identifiers: the service capability that the
/// lookup gave, and that of the block. On any failure `state` is as it was
/// and both capabilities have been given back.
pub fn socu_init<P: Platform>(
    kernel: &mut Kernel<P>,
    tls: &mut ThreadLocalStorage,
    state: &mut SocuState,
    memory_block: MemoryBlock,
) -> (r: CtrResult)
    ensures
        final(tls).static_buffers == old(tls).static_buffers,
        final(kernel).extends(*old(kernel)),
        init_calls(
            final(kernel).calls_since(*old(kernel)),
            r,
            memory_block.size(),
            memory_block.handle()@,
            old(tls).command_buffer@,
            old(tls).static_buffers@,
            final(tls).command_buffer@,
        ),
        r is Ok ==> *final(state) == (SocuState {
            service_handle: final(kernel).calls_since(*old(kernel))[0].outcome()->Ok_0,
            shared_memory_handle: memory_block.handle()@,
        }),
        r is Err ==> *final(state) == *old(state),
{
    let ghost k0 = *kernel;
    proof {
        k0.lemma_no_calls();
    }
    let looked_up = get_service_handle_direct(kernel, SOCU_SERVICE_NAME);
    let ghost k1 = *kernel;
    proof {
        k1.lemma_one_more_call(k0, k0);
    }
    let service_handle = match looked_up {
        Ok(handle) => handle,
        Err(e) => {
            memory_block.into_handle().close(kernel);
            proof {
                kernel.lemma_one_more_call(k0, k1);
            }
            return Err(e);
        },
    };
    let registered = socu_initialize_sockets(
        kernel,
        tls,
        &service_handle,
        memory_block.get_size(),
        memory_block.get_handle(),
    );
    let ghost k2 = *kernel;
    proof {
        if memory_block.size() <= u32::MAX {
            k2.lemma_one_more_call(k0, k1);
        }
    }
    match registered {
        Ok(()) => {
            state.service_handle = service_handle.get_raw();
            state.shared_memory_handle = memory_block.get_handle().get_raw();
            Ok(())
        },
        Err(e) => {
            service_handle.close(kernel);
            let ghost k3 = *kernel;
            memory_block.into_handle().close(kernel);
            proof {
                k3.lemma_one_more_call(k0, k2);
                kernel.lemma_one_more_call(k0, k3);
            }
            Err(e)
        },
    }
}

/// The command that creates an IPv4 socket of type `socket_type`.
pub fn socket_command(socket_type: SocketType) -> (command: ThreadCommand)
    ensures
        command@ == socket_request(socket_type),
{
    let mut command = ThreadCommandBuilder::new(0x2);
    // The domain is always AF_INET.
    command.push(2);
    command.push(u32::from(socket_type));
    // The protocol is always 0.
    command.push(0);
    command.push_current_process_id();
    assert(command.normal_params() =~= seq![2u32, socket_type.word(), 0u32]);
    command.build()
}

/// Creates a socket and returns the service's object for it: one command,
/// over the capability the process registered with.
pub fn socu_socket<P: Platform>(
    kernel: &mut Kernel<P>,
    tls: &mut ThreadLocalStorage,
    state: &SocuState,
    socket_type: SocketType,
) -> (r: CtrResult<SocketContextHandle>)
    ensures
        final(tls).static_buffers == old(tls).static_buffers,
        sent(
            *old(kernel),
            *final(kernel),
            state.service_handle,
            staged(old(tls).command_buffer@, socket_request(socket_type)),
            old(tls).static_buffers@,
            Seq::<u8>::empty(),
            final(tls).command_buffer@,
            Seq::<u8>::empty(),
        ),
        context_of(r) == through_kernel(
            final(kernel).last_code(),
            reply_word(final(tls).command_buffer@),
        ),
{
    let command = socket_command(socket_type);
    let sent = command.send_sync_request_with_raw_handle(
        kernel,
        tls,
        get_socu_service_raw_handle(state),
    );
    match sent {
        Ok(parser) => match parse_word(parser) {
            Ok(raw) => Ok(SocketContextHandle::from(raw)),
            Err(e) => Err(e),
        },
        Err(e) => Err(e),
    }
}

/// The command `command_id` that carries a socket address: connect (6) or
/// bind (5). `buffer_address` is where the wire form of the address lies.
pub fn address_command(
    command_id: u16,
    context_handle: &SocketContextHandle,
    socket_addr: &SocketAddr,
    buffer_address: u32,
) -> (command: ThreadCommand)
    ensures
        command@ == address_request(
            command_id,
            context_handle@,
            socket_addr.size as u32,
            buffer_address,
        ),
{
    let mut command = ThreadCommandBuilder::new(command_id);
    command.push(context_handle.get_raw());
    command.push(socket_addr.size as u32);
    command.push_current_process_id();
    command.push_static_buffer(8, 0, buffer_address);
    assert(command.normal_params() =~= seq![context_handle@, socket_addr.size as u32]);
    assert(command.translate_params() =~= seq![
        0x20u32,
        0u32,
        static_buffer_header(8, 0),
        buffer_address,
    ]);
    command.build()
}

/// True when `after` records exactly one call more than `before`: the
/// command `command_id` for the socket `context` over `session`, carrying
/// the wire form of `socket_addr` as static buffer 0, answered with `reply`.
pub open spec fn sent_address<P: Platform>(
    before: Kernel<P>,
    after: Kernel<P>,
    command_id: u16,
    session: u32,
    context: u32,
    socket_addr: SocketAddr,
    buffer: Seq<u32>,
    slots: Seq<u32>,
    reply: Seq<u32>,
) -> bool {
    sent(
        before,
        after,
        session,
        staged(
            buffer,
            address_request(
                command_id,
                context,
                socket_addr.size as u32,
                after.last_exchange().request[6],
            ),
        ),
        slots,
        socket_addr.wire_form(),
        reply,
        Seq::<u8>::empty(),
    )
}

fn send_address<P: Platform>(
    kernel: &mut Kernel<P>,
    tls: &mut ThreadLocalStorage,
    command_id: u16,
    session_handle: &Handle,
    context_handle: &SocketContextHandle,
    socket_addr: SocketAddr,
) -> (r: CtrResult)
    ensures
        final(tls).static_buffers == old(tls).static_buffers,
        sent_address(
            *old(kernel),
            *final(kernel),
            command_id,
            session_handle@,
            context_handle@,
            socket_addr,
            old(tls).command_buffer@,
            old(tls).static_buffers@,
            final(tls).command_buffer@,
        ),
        r == through_kernel(
            final(kernel).last_code(),
            reply_posix_result(final(tls).command_buffer@),
        ),
{
    let buffer: [u8; 8] = socket_addr.to_wire();
    let mut nothing: [u8; 0] = [];
    let buffer_address: u32 = kernel.address_of(&buffer);
    let command = address_command(command_id, context_handle, &socket_addr, buffer_address);
    let ghost request = staged(tls.command_buffer@, command@);
    assert(request[6] == buffer_address);
    let sent = command.send_sync_request_with_buffers(
        kernel,
        tls,
        session_handle.get_raw(),
        &buffer,
        &mut nothing,
    );
    assert(nothing@ =~= Seq::<u8>::empty());
    match sent {
        Ok(parser) => parse_posix_result(parser),
        Err(e) => Err(e),
    }
}

/// Connects the socket to `socket_addr`: one command, number 6, over
/// `session_handle`, with the wire form of the address as static buffer 0.
///
/// Succeeds only when the kernel delivered the command and both the generic
/// result and the POSIX-style result of the reply are zero.
pub fn socu_connect<P: Platform>(
    kernel: &mut Kernel<P>,
    tls: &mut ThreadLocalStorage,
    session_handle: &Handle,
    context_handle: &SocketContextHandle,
    socket_addr: SocketAddr,
) -> (r: CtrResult)
    ensures
        final(tls).static_buffers == old(tls).static_buffers,
        sent_address(
            *old(kernel),
            *final(kernel),
            0x6,
            session_handle@,
            context_handle@,
            socket_addr,
            old(tls).command_buffer@,
            old(tls).static_buffers@,
            final(tls).command_buffer@,
        ),
        r == through_kernel(
            final(kernel).last_code(),
            reply_posix_result(final(tls).command_buffer@),
        ),
{
    send_address(kernel, tls, 0x6, session_handle, context_handle, socket_addr)
}

/// Binds the socket to `socket_addr`: one command, number 5, over
/// `session_handle`, with the wire form of the address as static buffer 0.
///
/// Succeeds only when the kernel delivered the command and both the generic
/// result and the POSIX-style result of the reply are zero.
pub fn socu_bind<P: Platform>(
    kernel: &mut Kernel<P>,
    tls: &mut ThreadLocalStorage,
    session_handle: &Handle,
    context_handle: &SocketContextHandle,
    socket_addr: SocketAddr,
) -> (r: CtrResult)
    ensures
        final(tls).static_buffers == old(tls).static_buffers,
        sent_address(
            *old(kernel),
            *final(kernel),
            0x5,
            session_handle@,
            context_handle@,
            socket_addr,
            old(tls).command_buffer@,
            old(tls).static_buffers@,
            final(tls).command_buffer@,
        ),
        r == through_kernel(
            final(kernel).last_code(),
            reply_posix_result(final(tls).command_buffer@),
        ),
{
    send_address(kernel, tls, 0x5, session_handle, context_handle, socket_addr)
}

/// The command that asks for the address of the host.
pub fn get_host_id_command() -> (command: ThreadCommand)
    ensures
        command@ == get_host_id_request(),
{
    let command = ThreadCommandBuilder::new(0x16);
    command.build()
}

/// Asks the service for the address of the host, as one word: one command,
/// over `session_handle`.
pub fn socu_get_host_id<P: Platform>(
    kernel: &mut Kernel<P>,
    tls: &mut ThreadLocalStorage,
    session_handle: &Handle,
) -> (r: CtrResult<u32>)
    ensures
        final(tls).static_buffers == old(tls).static_buffers,
        sent(
            *old(kernel),
            *final(kernel),
            session_handle@,
            staged(old(tls).command_buffer@, get_host_id_request()),
            old(tls).static_buffers@,
            Seq::<u8>::empty(),
            final(tls).command_buffer@,
            Seq::<u8>::empty(),
        ),
        r == through_kernel(final(kernel).last_code(), reply_word(final(tls).command_buffer@)),
{
    let command = get_host_id_command();
    match command.send_sync_request(kernel, tls, session_handle) {
        Ok(parser) => parse_word(parser),
        Err(e) => Err(e),
    }
}

/// The command that makes the socket listen, with room for `max_connections`
/// pending connections.
pub fn listen_command(context_handle: &SocketContextHandle, max_connections: u32) -> (command:
    ThreadCommand)
    ensures
        command@ == listen_request(context_handle@, max_connections),
{
    let mut command = ThreadCommandBuilder::new(0x3);
    command.push(context_handle.get_raw());
    command.push(max_connections);
    command.push_current_process_id();
    assert(command.normal_params() =~= seq![context_handle@, max_connections]);
    command.build()
}

/// Makes the socket listen: one command, over `session_handle`.
///
/// Succeeds only when the kernel delivered the command and both the generic
/// result and the POSIX-style result of the reply are zero.
pub fn socu_listen<P: Platform>(
    kernel: &mut Kernel<P>,
    tls: &mut ThreadLocalStorage,
    session_handle: &Handle,
    context_handle: &SocketContextHandle,
    max_connections: u32,
) -> (r: CtrResult)
    ensures
        final(tls).static_buffers == old(tls).static_buffers,
        sent(
            *old(kernel),
            *final(kernel),
            session_handle@,
            staged(old(tls).command_buffer@, listen_request(context_handle@, max_connections)),
            old(tls).static_buffers@,
            Seq::<u8>::empty(),
            final(tls).command_buffer@,
            Seq::<u8>::empty(),
        ),
        r == through_kernel(
            final(kernel).last_code(),
            reply_posix_result(final(tls).command_buffer@),
        ),
{
    let command = listen_command(context_handle, max_connections);
    match command.send_sync_request(kernel, tls, session_handle) {
        Ok(parser) => parse_posix_result(parser),
        Err(e) => Err(e),
    }
}

/// The command that waits for a connection on a listening socket.
pub fn accept_command(context_handle: &SocketContextHandle) -> (command: ThreadCommand)
    ensures
        command@ == accept_request(context_handle@),
{
    let mut command = ThreadCommandBuilder::new(0x4);
    command.push(context_handle.get_raw());
    // Room for an IPv6 address, although only IPv4 is read back.
    command.push(ADDRESS_AREA_SIZE);
    command.push_current_process_id();
    assert(command.normal_params() =~= seq![context_handle@, 0x1cu32]);
    command.build()
}

/// Waits for a connection on a listening socket: one command, over
/// `session_handle`. Returns the raw identifier of the service's object for
/// the new connection and writes the peer's address and port, as bytes 2 to
/// 8 of the receive area carry them, to `client_socket_addr`.
///
/// While the request is on its way the thread's static-buffer slots hold the
/// descriptor of the receive area, 0x1c bytes long; they are put back before
/// the function returns, on every path. On failure `client_socket_addr` is
/// not touched.
pub fn socu_accept<P: Platform>(
    kernel: &mut Kernel<P>,
    tls: &mut ThreadLocalStorage,
    session_handle: &Handle,
    context_handle: &SocketContextHandle,
    client_socket_addr: &mut SocketAddr,
) -> (r: CtrResult<u32>)
    ensures
        final(tls).static_buffers == old(tls).static_buffers,
        sent(
            *old(kernel),
            *final(kernel),
            session_handle@,
            staged(old(tls).command_buffer@, accept_request(context_handle@)),
            seq![static_buffer_header(0x1c, 0), final(kernel).last_exchange().slots[1]],
            Seq::<u8>::empty(),
            final(tls).command_buffer@,
            final(kernel).last_exchange().incoming,
        ),
        final(kernel).last_exchange().incoming.len() == 0x1c,
        r == through_kernel(final(kernel).last_code(), reply_word(final(tls).command_buffer@)),
        r is Err ==> *final(client_socket_addr) == *old(client_socket_addr),
        r is Ok ==> final(client_socket_addr).size == old(client_socket_addr).size
            && final(client_socket_addr).family == old(client_socket_addr).family,
        r is Ok ==> final(client_socket_addr).port == wire_port(
            final(kernel).last_exchange().incoming,
        ),
        r is Ok ==> final(client_socket_addr).address@ == wire_address(
            final(kernel).last_exchange().incoming,
        ),
{
    let mut area: [u8; 28] = [0u8; 28];
    let nothing: [u8; 0] = [];
    let command = accept_command(context_handle);
    let area_address: u32 = kernel.address_of(&area);
    let guard = StaticBufferGuard::acquire(
        tls,
        make_static_buffer_header(ADDRESS_AREA_SIZE, 0),
        area_address,
    );
    let sent = command.send_sync_request_with_buffers(
        kernel,
        tls,
        session_handle.get_raw(),
        &nothing,
        &mut area,
    );
    guard.release(tls);
    assert(nothing@ =~= Seq::<u8>::empty());
    assert(kernel.last_exchange().slots =~= seq![
        static_buffer_header(0x1c, 0),
        kernel.last_exchange().slots[1],
    ]);
    let new_context: u32 = match sent {
        Ok(parser) => match parse_word(parser) {
            Ok(raw) => raw,
            Err(e) => {
                return Err(e);
            },
        },
        Err(e) => {
            return Err(e);
        },
    };
    let peer = SocketAddr::from_wire(&area);
    client_socket_addr.port = peer.port;
    client_socket_addr.address = peer.address;
    Ok(new_context)
}

/// The command that receives into a buffer of `length` bytes at
/// `buffer_address`.
pub fn recv_command(
    context_handle: &SocketContextHandle,
    length: u32,
    flags: u32,
    buffer_address: u32,
) -> (command: ThreadCommand)
    ensures
        command@ == recv_request(context_handle@, length, flags, buffer_address),
{
    let mut command = ThreadCommandBuilder::new(0x7);
    command.push(context_handle.get_raw());
    command.push(length);
    command.push(flags);
    // No room for the sender's address is offered.
    command.push(0);
    command.push_current_process_id();
    command.push_write_buffer(length, buffer_address);
    assert(command.normal_params() =~= seq![context_handle@, length, flags, 0u32]);
    assert(command.translate_params() =~= seq![
        0x20u32,
        0u32,
        buffer_header(length, 0x4),
        buffer_address,
    ]);
    command.build()
}

/// True when `after` records exactly one call more than `before`: the
/// receive command for the socket `context` over `session`, for `length`
/// bytes with `flags`, with an empty static-buffer area installed, answered
/// with `reply` and with `received` in the caller's buffer.
pub open spec fn sent_recv<P: Platform>(
    before: Kernel<P>,
    after: Kernel<P>,
    session: u32,
    context: u32,
    length: u32,
    flags: u32,
    buffer: Seq<u32>,
    reply: Seq<u32>,
    received: Seq<u8>,
) -> bool {
    sent(
        before,
        after,
        session,
        staged(
            buffer,
            recv_request(context, length, flags, after.last_exchange().request[8]),
        ),
        seq![static_buffer_header(0, 0), after.last_exchange().slots[1]],
        Seq::<u8>::empty(),
        reply,
        received,
    )
}

/// Receives into `result_buffer`: one command, over `session_handle`, with
/// `result_buffer` as its write buffer; `flags` go to the service as they
/// are. A buffer whose length does not fit in 32 bits is refused before
/// anything is sent.
///
/// The thread's static-buffer slots offer an empty area while the request is
/// on its way, and are put back before the function returns, on every path.
pub fn socu_recv<P: Platform>(
    kernel: &mut Kernel<P>,
    tls: &mut ThreadLocalStorage,
    session_handle: &Handle,
    context_handle: &SocketContextHandle,
    result_buffer: &mut [u8],
    flags: u32,
) -> (r: CtrResult)
    ensures
        final(tls).static_buffers == old(tls).static_buffers,
        final(result_buffer)@.len() == old(result_buffer)@.len(),
        old(result_buffer)@.len() > u32::MAX ==> r == Err::<(), CtrError>(CtrError::InvalidSize)
            && final(tls).command_buffer == old(tls).command_buffer && final(result_buffer)@
            == old(result_buffer)@ && final(kernel).log() == old(kernel).log(),
        old(result_buffer)@.len() <= u32::MAX ==> sent_recv(
            *old(kernel),
            *final(kernel),
            session_handle@,
            context_handle@,
            old(result_buffer)@.len() as u32,
            flags,
            old(tls).command_buffer@,
            final(tls).command_buffer@,
            final(result_buffer)@,
        ) && r == through_kernel(
            final(kernel).last_code(),
            reply_result(final(tls).command_buffer@),
        ),
{
    let area: [u8; 28] = [0u8; 28];
    let nothing: [u8; 0] = [];
    let length: u32 = match try_usize_into_u32(result_buffer.len()) {
        Ok(length) => length,
        Err(e) => {
            return Err(e);
        },
    };
    let buffer_address: u32 = kernel.address_of(result_buffer);
    let area_address: u32 = kernel.address_of(&area);
    let command = recv_command(context_handle, length, flags, buffer_address);
    let ghost request = staged(tls.command_buffer@, command@);
    assert(request[8] == buffer_address);
    let guard = StaticBufferGuard::acquire(tls, make_static_buffer_header(0, 0), area_address);
    let sent = command.send_sync_request_with_buffers(
        kernel,
        tls,
        session_handle.get_raw(),
        &nothing,
        result_buffer,
    );
    guard.release(tls);
    assert(nothing@ =~= Seq::<u8>::empty());
    assert(kernel.last_exchange().slots =~= seq![
        static_buffer_header(0, 0),
        kernel.last_exchange().slots[1],
    ]);
    match sent {
        Ok(parser) => parse_result(parser),
        Err(e) => Err(e),
    }
}

/// The command that sends `length` bytes from `buffer_address`.
/// `placeholder_address` is where the unused address area lies.
pub fn send_command(
    context_handle: &SocketContextHandle,
    length: u32,
    flags: u32,
    placeholder_address: u32,
    buffer_address: u32,
) -> (command: ThreadCommand)
    ensures
        command@ == send_request(
            context_handle@,
            length,
            flags,
            placeholder_address,
            buffer_address,
        ),
{
    let mut command = ThreadCommandBuilder::new(0x9);
    command.push(context_handle.get_raw());
    command.push(length);
    command.push(flags);
    // No destination address is given.
    command.push(0);
    command.push_current_process_id();
    command.push_static_buffer(ADDRESS_AREA_SIZE, 1, placeholder_address);
    command.push_read_buffer(length, buffer_address);
    assert(command.normal_params() =~= seq![context_handle@, length, flags, 0u32]);
    assert(command.translate_params() =~= seq![
        0x20u32,
        0u32,
        static_buffer_header(0x1c, 1),
        placeholder_address,
        buffer_header(length, 0x2),
        buffer_address,
    ]);
    command.build()
}

/// True when `after` records exactly one call more than `before`: the send
/// command for the socket `context` over `session`, with `flags`, lending
/// `payload` as its read buffer, answered with `reply`.
pub open spec fn sent_send<P: Platform>(
    before: Kernel<P>,
    after: Kernel<P>,
    session: u32,
    context: u32,
    flags: u32,
    payload: Seq<u8>,
    buffer: Seq<u32>,
    slots: Seq<u32>,
    reply: Seq<u32>,
) -> bool {
    sent(
        before,
        after,
        session,
        staged(
            buffer,
            send_request(
                context,
                payload.len() as u32,
                flags,
                after.last_exchange().request[8],
                after.last_exchange().request[10],
            ),
        ),
        slots,
        payload,
        reply,
        Seq::<u8>::empty(),
    )
}

/// Sends `send_buffer`: one command, over `session_handle`, with
/// `send_buffer` as its read buffer; `flags` go to the service as they are.
/// A buffer whose length does not fit in 32 bits is refused before anything
/// is sent.
pub fn socu_send<P: Platform>(
    kernel: &mut Kernel<P>,
    tls: &mut ThreadLocalStorage,
    session_handle: &Handle,
    context_handle: &SocketContextHandle,
    send_buffer: &[u8],
    flags: u32,
) -> (r: CtrResult)
    ensures
        final(tls).static_buffers == old(tls).static_buffers,
        send_buffer@.len() > u32::MAX ==> r == Err::<(), CtrError>(CtrError::InvalidSize)
            && final(tls).command_buffer == old(tls).command_buffer
            && final(kernel).log() == old(kernel).log(),
        send_buffer@.len() <= u32::MAX ==> sent_send(
            *old(kernel),
            *final(kernel),
            session_handle@,
            context_handle@,
            flags,
            send_buffer@,
            old(tls).command_buffer@,
            old(tls).static_buffers@,
            final(tls).command_buffer@,
        ) && r == through_kernel(
            final(kernel).last_code(),
            reply_result(final(tls).command_buffer@),
        ),
{
    let placeholder: [u8; 28] = [0u8; 28];
    let mut nothing: [u8; 0] = [];
    let length: u32 = match try_usize_into_u32(send_buffer.len()) {
        Ok(length) => length,
        Err(e) => {
            return Err(e);
        },
    };
    let placeholder_address: u32 = kernel.address_of(&placeholder);
    let buffer_address: u32 = kernel.address_of(send_buffer);
    let command = send_command(context_handle, length, flags, placeholder_address, buffer_address);
    let ghost request = staged(tls.command_buffer@, command@);
    assert(request[8] == placeholder_address);
    assert(request[10] == buffer_address);
    let sent = command.send_sync_request_with_buffers(
        kernel,
        tls,
        session_handle.get_raw(),
        send_buffer,
        &mut nothing,
    );
    assert(nothing@ =~= Seq::<u8>::empty());
    match sent {
        Ok(parser) => parse_result(parser),
        Err(e) => Err(e),
    }
}

} // verus!
