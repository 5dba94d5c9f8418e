use std::cell::Cell;
use ctr::handle::Handle;
use ctr::ipc::ThreadLocalStorage;
use ctr::memory::MemoryBlock;
use ctr::platform::{Kernel, Platform};
use ctr::res::CtrError;
use ctr::socket::ctr::SocketContext;
use ctr::socket::shared::{
    get_socu_service_raw_handle, socu_accept, socu_get_host_id, socu_init,
    socu_initialize_sockets, socu_socket, SocketContextHandle,
};
use ctr::socket::{SocketAddr, SocketType, SocuState};

const INVALID_HANDLE: u32 = 0xd8e0_07f7;
const NOT_FOUND: u32 = 0xd880_07fa;
const ECONNREFUSED: u32 = 111;
const SERVICE_SESSION: u32 = 0x0100;

struct Request {
    session: u32,
    words: Vec<u32>,
    static_slots: [u32; 2],
    outgoing: Vec<u8>,
    incoming_len: usize,
}

/// A socket service with one peer that echoes what it is sent.
struct SimKernel {
    has_service: Cell<bool>,
    registered: bool,
    sessions: Vec<u32>,
    next_session: u32,
    next_context: u32,
    connect_result: Cell<u32>,
    close_code: Cell<u32>,
    close_result: Cell<u32>,
    trap_code: Cell<u32>,
    service_result: Cell<u32>,
    peer: SocketAddr,
    host_id: Cell<u32>,
    echo: Vec<u8>,
    connected_to: Vec<Vec<u8>>,
    closed_contexts: Vec<u32>,
    closed_handles: Vec<u32>,
    log: Vec<Request>,
}

impl SimKernel {
    fn new() -> SimKernel {
        SimKernel {
            has_service: Cell::new(true),
            registered: false,
            sessions: vec![],
            next_session: SERVICE_SESSION,
            next_context: 0x40,
            connect_result: Cell::new(0),
            close_code: Cell::new(0),
            close_result: Cell::new(0),
            trap_code: Cell::new(0),
            service_result: Cell::new(0),
            peer: SocketAddr::new([10, 0, 0, 7], 0xc350),
            host_id: Cell::new(0x0100_007f),
            echo: vec![],
            connected_to: vec![],
            closed_contexts: vec![],
            closed_handles: vec![],
            log: vec![],
        }
    }

    fn last(&self) -> &Request {
        self.log.last().unwrap()
    }

    fn reply(tls: &mut ThreadLocalStorage, id: u32, words: &[u32]) {
        tls.command_buffer[0] = (id << 16) | ((words.len() as u32) << 6);
        tls.command_buffer[1..1 + words.len()].copy_from_slice(words);
    }
}

impl Platform for SimKernel {
    fn address_of(&self, region: &[u8]) -> u32 {
        region.as_ptr() as usize as u32
    }

    fn send_sync_request(
        &mut self,
        session: u32,
        tls: &mut ThreadLocalStorage,
        outgoing: &[u8],
        incoming: &mut [u8],
    ) -> u32 {
        let header = tls.command_buffer[0];
        let count = 1 + ((header >> 6) & 0x3f) as usize + (header & 0x3f) as usize;
        self.log.push(Request {
            session,
            words: tls.command_buffer[..count].to_vec(),
            static_slots: tls.static_buffers,
            outgoing: outgoing.to_vec(),
            incoming_len: incoming.len(),
        });
        // A kernel is free to leave anything in the slots it was lent.
        tls.static_buffers = [0xdead_0000, 0xbeef_0000];
        if !self.sessions.contains(&session) {
            return INVALID_HANDLE;
        }
        if self.trap_code.get() != 0 {
            return self.trap_code.get();
        }
        let id = header >> 16;
        if self.service_result.get() != 0 {
            SimKernel::reply(tls, id, &[self.service_result.get()]);
            return 0;
        }
        match id {
            0x1 => {
                self.registered = true;
                SimKernel::reply(tls, id, &[0]);
            }
            0x2 => {
                let context = self.next_context;
                self.next_context += 1;
                SimKernel::reply(tls, id, &[0, context]);
            }
            0x3 => SimKernel::reply(tls, id, &[0, 0]),
            0x4 => {
                incoming[..8].copy_from_slice(&self.peer.to_wire());
                let context = self.next_context;
                self.next_context += 1;
                SimKernel::reply(tls, id, &[0, context]);
            }
            0x5 => SimKernel::reply(tls, id, &[0, 0]),
            0x6 => {
                self.connected_to.push(outgoing.to_vec());
                SimKernel::reply(tls, id, &[0, self.connect_result.get()]);
            }
            0x7 => {
                let n = incoming.len().min(self.echo.len());
                incoming[..n].copy_from_slice(&self.echo[..n]);
                SimKernel::reply(tls, id, &[0, n as u32]);
            }
            0x9 => {
                self.echo = outgoing.to_vec();
                SimKernel::reply(tls, id, &[0, outgoing.len() as u32]);
            }
            0xb => {
                self.closed_contexts.push(tls.command_buffer[1]);
                if self.close_code.get() != 0 {
                    return self.close_code.get();
                }
                SimKernel::reply(tls, id, &[self.close_result.get()]);
            }
            0x16 => SimKernel::reply(tls, id, &[0, self.host_id.get()]),
            _ => SimKernel::reply(tls, id, &[0xd900_182f]),
        }
        0
    }

    fn get_service_handle(&mut self, name: &str) -> Result<u32, u32> {
        if self.has_service.get() && name == "soc:U" {
            let session = self.next_session;
            self.next_session += 1;
            self.sessions.push(session);
            Ok(session)
        } else {
            Err(NOT_FOUND)
        }
    }

    fn accept_session(&mut self, _port: u32) -> Result<u32, u32> {
        Err(INVALID_HANDLE)
    }

    fn close_handle(&mut self, handle: u32) -> u32 {
        self.closed_handles.push(handle);
        self.sessions.retain(|s| *s != handle);
        0
    }
}

fn tls_with_slots() -> ThreadLocalStorage {
    let mut tls = ThreadLocalStorage::new();
    tls.static_buffers = [0x1111_2222, 0x3333_4444];
    tls
}

fn booted() -> (Kernel<SimKernel>, ThreadLocalStorage, SocuState) {
    let mut kernel = Kernel::new(SimKernel::new());
    let mut tls = tls_with_slots();
    let mut state = SocuState::new();
    let block = MemoryBlock::new(Handle::from(0x77), 0x10000);
    socu_init(&mut kernel, &mut tls, &mut state, block).unwrap();
    (kernel, tls, state)
}

#[test]
fn socu_init_registers_and_records_both_capabilities() {
    let (kernel, tls, state) = booted();
    assert!(kernel.platform().registered);
    assert_eq!(state.service_handle, SERVICE_SESSION);
    assert_eq!(state.shared_memory_handle, 0x77);
    assert_eq!(get_socu_service_raw_handle(&state), SERVICE_SESSION);
    let request = kernel.platform().last();
    assert_eq!(request.session, SERVICE_SESSION);
    assert_eq!(request.words, vec![0x0001_0044, 0x10000, 0x20, 0, 0, 0x77]);
    assert!(kernel.platform().closed_handles.is_empty());
    assert_eq!(tls.static_buffers, [0x1111_2222, 0x3333_4444]);
}

#[test]
fn socu_init_without_the_service_is_a_resolution_failure() {
    let mut kernel = Kernel::new(SimKernel::new());
    kernel.platform().has_service.set(false);
    let mut tls = tls_with_slots();
    let mut state = SocuState::new();
    let block = MemoryBlock::new(Handle::from(0x77), 0x10000);
    let outcome = socu_init(&mut kernel, &mut tls, &mut state, block);
    assert_eq!(outcome, Err(CtrError::Resolve(NOT_FOUND)));
    assert_eq!(state, SocuState::new());
    assert!(kernel.platform().log.is_empty());
    assert_eq!(kernel.platform().closed_handles, vec![0x77]);
}

#[test]
fn socu_init_gives_both_capabilities_back_when_the_service_objects() {
    let mut kernel = Kernel::new(SimKernel::new());
    kernel.platform().service_result.set(0xc8a0_d801);
    let mut tls = tls_with_slots();
    let mut state = SocuState::new();
    let block = MemoryBlock::new(Handle::from(0x77), 0x10000);
    let outcome = socu_init(&mut kernel, &mut tls, &mut state, block);
    assert_eq!(outcome, Err(CtrError::Service(0xc8a0_d801)));
    assert_eq!(state, SocuState::new());
    assert_eq!(kernel.platform().closed_handles, vec![SERVICE_SESSION, 0x77]);
    assert_eq!(tls.static_buffers, [0x1111_2222, 0x3333_4444]);
}

#[test]
fn initialize_sockets_refuses_a_size_beyond_32_bits() {
    if usize::BITS <= 32 {
        return;
    }
    let mut kernel = Kernel::new(SimKernel::new());
    let mut tls = tls_with_slots();
    let service = Handle::from(kernel.get_service_handle("soc:U").unwrap());
    let block = Handle::from(0x77);
    let outcome =
        socu_initialize_sockets(&mut kernel, &mut tls, &service, u32::MAX as usize + 1, &block);
    assert_eq!(outcome, Err(CtrError::InvalidSize));
    assert!(kernel.platform().log.is_empty());
    let outcome =
        socu_initialize_sockets(&mut kernel, &mut tls, &service, u32::MAX as usize, &block);
    assert_eq!(outcome, Ok(()));
    assert_eq!(kernel.platform().last().words[1], u32::MAX);
}

#[test]
fn new_creates_a_stream_socket_and_opens_a_session() {
    let (mut kernel, mut tls, state) = booted();
    let context = SocketContext::new(&mut kernel, &mut tls, &state, SocketType::Stream).unwrap();
    let request = kernel.platform().last();
    assert_eq!(request.session, SERVICE_SESSION);
    assert_eq!(request.words, vec![0x0002_00c2, 2, 1, 0, 0x20, 0]);
    assert_eq!(kernel.platform().sessions, vec![SERVICE_SESSION, SERVICE_SESSION + 1]);
    assert_eq!(tls.command_buffer[2], 0x40);
    context.close(&mut kernel, &mut tls, &state);
}

#[test]
fn new_creates_a_datagram_socket() {
    let (mut kernel, mut tls, state) = booted();
    let _context = SocketContext::new(&mut kernel, &mut tls, &state, SocketType::Dgram).unwrap();
    assert_eq!(kernel.platform().last().words, vec![0x0002_00c2, 2, 2, 0, 0x20, 0]);
}

#[test]
fn new_fails_when_the_create_command_reports_a_result() {
    let (mut kernel, mut tls, state) = booted();
    kernel.platform().service_result.set(0xd8e0_d03d);
    let outcome = SocketContext::new(&mut kernel, &mut tls, &state, SocketType::Stream);
    assert!(matches!(outcome, Err(CtrError::Service(0xd8e0_d03d))));
    assert_eq!(kernel.platform().sessions, vec![SERVICE_SESSION]);
}

#[test]
fn new_closes_the_socket_again_when_no_session_can_be_had() {
    let (mut kernel, mut tls, state) = booted();
    kernel.platform().has_service.set(false);
    let outcome = SocketContext::new(&mut kernel, &mut tls, &state, SocketType::Stream);
    assert!(matches!(outcome, Err(CtrError::Resolve(NOT_FOUND))));
    assert_eq!(kernel.platform().closed_contexts, vec![0x40]);
    assert_eq!(kernel.platform().last().words, vec![0x000b_0042, 0x40, 0x20, 0]);
    assert_eq!(kernel.platform().last().session, SERVICE_SESSION);
}

#[test]
fn connect_returns_ok_when_the_peer_accepts() {
    let (mut kernel, mut tls, state) = booted();
    let context = SocketContext::new(&mut kernel, &mut tls, &state, SocketType::Stream).unwrap();
    let outcome = context.connect(&mut kernel, &mut tls, SocketAddr::new([127, 0, 0, 1], 80));
    assert_eq!(outcome, Ok(()));
    let request = kernel.platform().last();
    assert_eq!(request.session, SERVICE_SESSION + 1);
    assert_eq!(&request.words[..6], &[0x0006_0084, 0x40, 8, 0x20, 0, 0x0002_0002]);
    assert_eq!(request.words.len(), 7);
    assert_eq!(request.outgoing, vec![8, 2, 0, 80, 127, 0, 0, 1]);
    assert_eq!(kernel.platform().connected_to, vec![vec![8, 2, 0, 80, 127, 0, 0, 1]]);
}

#[test]
fn connect_returns_the_posix_result_when_the_peer_refuses() {
    let (mut kernel, mut tls, state) = booted();
    kernel.platform().connect_result.set(ECONNREFUSED);
    let context = SocketContext::new(&mut kernel, &mut tls, &state, SocketType::Stream).unwrap();
    let outcome = context.connect(&mut kernel, &mut tls, SocketAddr::new([127, 0, 0, 1], 80));
    assert_eq!(outcome, Err(CtrError::Posix(ECONNREFUSED)));
}

#[test]
fn connect_tells_an_unreachable_service_from_a_refusal() {
    let (mut kernel, mut tls, state) = booted();
    kernel.platform().connect_result.set(ECONNREFUSED);
    let context = SocketContext::new(&mut kernel, &mut tls, &state, SocketType::Stream).unwrap();
    kernel.platform().trap_code.set(0xc920_181a);
    let outcome = context.connect(&mut kernel, &mut tls, SocketAddr::new([127, 0, 0, 1], 80));
    assert_eq!(outcome, Err(CtrError::Kernel(0xc920_181a)));
    kernel.platform().trap_code.set(0);
    kernel.platform().service_result.set(0xd8e0_d03d);
    let outcome = context.connect(&mut kernel, &mut tls, SocketAddr::new([127, 0, 0, 1], 80));
    assert_eq!(outcome, Err(CtrError::Service(0xd8e0_d03d)));
}

#[test]
fn bind_sends_the_address_with_command_five() {
    let (mut kernel, mut tls, state) = booted();
    let context = SocketContext::new(&mut kernel, &mut tls, &state, SocketType::Stream).unwrap();
    let outcome = context.bind(&mut kernel, &mut tls, SocketAddr::new([0, 0, 0, 0], 8080));
    assert_eq!(outcome, Ok(()));
    let request = kernel.platform().last();
    assert_eq!(&request.words[..6], &[0x0005_0084, 0x40, 8, 0x20, 0, 0x0002_0002]);
    assert_eq!(request.outgoing, vec![8, 2, 0x1f, 0x90, 0, 0, 0, 0]);
}

#[test]
fn listen_sends_the_backlog() {
    let (mut kernel, mut tls, state) = booted();
    let context = SocketContext::new(&mut kernel, &mut tls, &state, SocketType::Stream).unwrap();
    assert_eq!(context.listen(&mut kernel, &mut tls, 5), Ok(()));
    assert_eq!(kernel.platform().last().words, vec![0x0003_0082, 0x40, 5, 0x20, 0]);
}

#[test]
fn accept_makes_the_context_the_new_connection() {
    let (mut kernel, mut tls, state) = booted();
    let mut context =
        SocketContext::new(&mut kernel, &mut tls, &state, SocketType::Stream).unwrap();
    context.bind(&mut kernel, &mut tls, SocketAddr::new([0, 0, 0, 0], 8080)).unwrap();
    context.listen(&mut kernel, &mut tls, 1).unwrap();

    let peer = context.accept(&mut kernel, &mut tls, &state).unwrap();
    assert_eq!(peer.address, [10, 0, 0, 7]);
    assert_eq!(peer.port, 0xc350);
    assert_eq!(peer.size, 8);
    assert_eq!(peer.family, 2);

    // The accept command went out for the listener, with the receive area
    // installed in the static-buffer slots.
    let accept = &kernel.platform().log[kernel.platform().log.len() - 2];
    assert_eq!(accept.words, vec![0x0004_0082, 0x40, 0x1c, 0x20, 0]);
    assert_eq!(accept.static_slots[0], 0x0007_0002);
    assert_eq!(accept.incoming_len, 0x1c);
    // The command buffer still holds the reply that names the connection.
    assert_eq!(&tls.command_buffer[..3], &[0x0004_0080, 0, 0x41]);
    // The listener was closed, and what follows speaks of the connection.
    assert_eq!(kernel.platform().closed_contexts, vec![0x40]);
    assert_eq!(kernel.platform().last().words, vec![0x000b_0042, 0x40, 0x20, 0]);
    context.send(&mut kernel, &mut tls, b"x", 0).unwrap();
    assert_eq!(kernel.platform().last().words[1], 0x41);
    assert_eq!(tls.static_buffers, [0x1111_2222, 0x3333_4444]);
}

#[test]
fn accept_leaves_the_context_alone_on_failure() {
    let (mut kernel, mut tls, state) = booted();
    let mut context =
        SocketContext::new(&mut kernel, &mut tls, &state, SocketType::Stream).unwrap();
    kernel.platform().service_result.set(0xd8e0_d03d);
    let outcome = context.accept(&mut kernel, &mut tls, &state);
    assert!(matches!(outcome, Err(CtrError::Service(0xd8e0_d03d))));
    assert!(kernel.platform().closed_contexts.is_empty());
    kernel.platform().service_result.set(0);
    context.listen(&mut kernel, &mut tls, 1).unwrap();
    assert_eq!(kernel.platform().last().words[1], 0x40);
    assert_eq!(tls.static_buffers, [0x1111_2222, 0x3333_4444]);
}

#[test]
fn socu_accept_does_not_touch_the_address_on_failure() {
    let (mut kernel, mut tls, state) = booted();
    let session = Handle::from(kernel.get_service_handle("soc:U").unwrap());
    let context = socu_socket(&mut kernel, &mut tls, &state, SocketType::Stream).unwrap();
    let mut address = SocketAddr::new([1, 2, 3, 4], 5);
    kernel.platform().trap_code.set(0xc920_181a);
    let outcome = socu_accept(&mut kernel, &mut tls, &session, &context, &mut address);
    assert_eq!(outcome, Err(CtrError::Kernel(0xc920_181a)));
    assert_eq!(address.address, [1, 2, 3, 4]);
    assert_eq!(address.port, 5);
    kernel.platform().trap_code.set(0);
    let outcome = socu_accept(&mut kernel, &mut tls, &session, &context, &mut address);
    assert_eq!(outcome, Ok(0x41));
    assert_eq!(address.address, [10, 0, 0, 7]);
    assert_eq!(address.port, 0xc350);
}

#[test]
fn send_then_recv_against_an_echoing_peer_gives_the_bytes_back() {
    let (mut kernel, mut tls, state) = booted();
    let context = SocketContext::new(&mut kernel, &mut tls, &state, SocketType::Stream).unwrap();
    context.connect(&mut kernel, &mut tls, SocketAddr::new([127, 0, 0, 1], 80)).unwrap();

    let message = b"GET / HTTP/1.0\r\n\r\n";
    assert_eq!(context.send(&mut kernel, &mut tls, message, 0), Ok(()));
    let sent = kernel.platform().last();
    assert_eq!(&sent.words[..7], &[0x0009_0106, 0x40, 18, 0, 0, 0x20, 0]);
    assert_eq!(sent.words[7], 0x0007_0402);
    assert_eq!(sent.words[9], (18 << 4) | 0xa);
    assert_eq!(sent.words.len(), 11);

    let mut buf = [0u8; 18];
    assert_eq!(context.recv(&mut kernel, &mut tls, &mut buf, 0), Ok(()));
    assert_eq!(&buf, message);
    let received = kernel.platform().last();
    assert_eq!(&received.words[..7], &[0x0007_0104, 0x40, 18, 0, 0, 0x20, 0]);
    assert_eq!(received.words[7], (18 << 4) | 0xc);
    assert_eq!(received.words.len(), 9);
    assert_eq!(received.static_slots[0], 0x2);
}

#[test]
fn send_and_recv_pass_the_flags_through() {
    let (mut kernel, mut tls, state) = booted();
    let context = SocketContext::new(&mut kernel, &mut tls, &state, SocketType::Dgram).unwrap();
    context.send(&mut kernel, &mut tls, b"ab", 0x4000).unwrap();
    assert_eq!(kernel.platform().last().words[3], 0x4000);
    let mut buf = [0u8; 2];
    context.recv(&mut kernel, &mut tls, &mut buf, 0x42).unwrap();
    assert_eq!(kernel.platform().last().words[3], 0x42);
    assert_eq!(&buf, b"ab");
}

#[test]
fn recv_reports_the_result_word_of_the_service() {
    let (mut kernel, mut tls, state) = booted();
    let context = SocketContext::new(&mut kernel, &mut tls, &state, SocketType::Stream).unwrap();
    kernel.platform().service_result.set(0xe0e0_1bf5);
    let mut buf = [7u8; 4];
    let outcome = context.recv(&mut kernel, &mut tls, &mut buf, 0);
    assert_eq!(outcome, Err(CtrError::Service(0xe0e0_1bf5)));
    assert_eq!(buf, [7u8; 4]);
    let outcome = context.send(&mut kernel, &mut tls, &buf, 0);
    assert_eq!(outcome, Err(CtrError::Service(0xe0e0_1bf5)));
}

#[test]
fn get_host_id_returns_the_address_in_network_order() {
    let (mut kernel, mut tls, state) = booted();
    let context = SocketContext::new(&mut kernel, &mut tls, &state, SocketType::Stream).unwrap();
    assert_eq!(context.get_host_id(&mut kernel, &mut tls), Ok([127, 0, 0, 1]));
    assert_eq!(kernel.platform().last().words, vec![0x0016_0000]);
    assert_eq!(kernel.platform().last().session, SERVICE_SESSION + 1);
    kernel.platform().host_id.set(0x0a0b_0c0d);
    assert_eq!(context.get_host_id(&mut kernel, &mut tls), Ok([0x0d, 0x0c, 0x0b, 0x0a]));
}

#[test]
fn get_host_id_before_the_bootstrap_fails_without_a_posix_result() {
    // No bootstrap has run: the recorded service capability is still zero,
    // which the kernel does not know.
    let mut kernel = Kernel::new(SimKernel::new());
    let mut tls = tls_with_slots();
    let state = SocuState::new();
    assert_eq!(get_socu_service_raw_handle(&state), 0);
    let outcome = SocketContext::new(&mut kernel, &mut tls, &state, SocketType::Stream);
    assert!(matches!(outcome, Err(CtrError::Kernel(INVALID_HANDLE))));

    // The command itself, over a capability the kernel never handed out.
    let unknown = Handle::from(0);
    let outcome = socu_get_host_id(&mut kernel, &mut tls, &unknown);
    assert_eq!(outcome, Err(CtrError::Kernel(INVALID_HANDLE)));

    // Where the service itself cannot be found, no context comes to be.
    let (mut kernel, mut tls, state) = booted();
    kernel.platform().has_service.set(false);
    let outcome = SocketContext::new(&mut kernel, &mut tls, &state, SocketType::Stream);
    assert!(matches!(outcome, Err(CtrError::Resolve(NOT_FOUND))));

    // And whatever the service answers, the failure is never a POSIX result.
    let (mut kernel, mut tls, state) = booted();
    let context = SocketContext::new(&mut kernel, &mut tls, &state, SocketType::Stream).unwrap();
    kernel.platform().service_result.set(ECONNREFUSED);
    let outcome = context.get_host_id(&mut kernel, &mut tls);
    assert_eq!(outcome, Err(CtrError::Service(ECONNREFUSED)));
}

#[test]
fn closing_a_context_handle_survives_a_failing_close() {
    let (mut kernel, mut tls, state) = booted();
    tls.command_buffer = [0x5555_5555; 64];

    kernel.platform().close_code.set(0xc920_181a);
    SocketContextHandle::from(0x90).close(&mut kernel, &mut tls, &state);
    kernel.platform().close_code.set(0);
    kernel.platform().close_result.set(0xd8e0_d03d);
    SocketContextHandle::from(0x91).close(&mut kernel, &mut tls, &state);
    kernel.platform().close_result.set(0);
    SocketContextHandle::from(0x92).close(&mut kernel, &mut tls, &state);

    assert_eq!(kernel.platform().closed_contexts, vec![0x90, 0x91, 0x92]);
    assert_eq!(kernel.platform().last().words, vec![0x000b_0042, 0x92, 0x20, 0]);
    assert_eq!(kernel.platform().last().session, SERVICE_SESSION);
    // The thread finds its buffers as it left them.
    assert_eq!(tls.command_buffer, [0x5555_5555; 64]);
    assert_eq!(tls.static_buffers, [0x1111_2222, 0x3333_4444]);

    // Before the bootstrap the close goes nowhere, and still returns.
    let mut kernel = Kernel::new(SimKernel::new());
    SocketContextHandle::from(0x93).close(&mut kernel, &mut tls, &SocuState::new());
    assert!(kernel.platform().closed_contexts.is_empty());
}

#[test]
fn closing_a_context_closes_the_socket_and_the_session() {
    let (mut kernel, mut tls, state) = booted();
    let context = SocketContext::new(&mut kernel, &mut tls, &state, SocketType::Stream).unwrap();
    context.close(&mut kernel, &mut tls, &state);
    assert_eq!(kernel.platform().closed_contexts, vec![0x40]);
    assert_eq!(kernel.platform().closed_handles, vec![SERVICE_SESSION + 1]);
}

#[test]
fn static_buffer_slots_are_the_same_after_every_call() {
    let (mut kernel, mut tls, state) = booted();
    let before = tls.static_buffers;
    let mut context =
        SocketContext::new(&mut kernel, &mut tls, &state, SocketType::Stream).unwrap();
    assert_eq!(tls.static_buffers, before);
    let _ = context.bind(&mut kernel, &mut tls, SocketAddr::new([0, 0, 0, 0], 80));
    assert_eq!(tls.static_buffers, before);
    let _ = context.listen(&mut kernel, &mut tls, 1);
    assert_eq!(tls.static_buffers, before);
    let _ = context.accept(&mut kernel, &mut tls, &state);
    assert_eq!(tls.static_buffers, before);
    let mut buf = [0u8; 4];
    let _ = context.recv(&mut kernel, &mut tls, &mut buf, 0);
    assert_eq!(tls.static_buffers, before);
    let _ = context.send(&mut kernel, &mut tls, &buf, 0);
    assert_eq!(tls.static_buffers, before);
    let _ = context.get_host_id(&mut kernel, &mut tls);
    assert_eq!(tls.static_buffers, before);

    // On the failing paths too.
    kernel.platform().trap_code.set(0xc920_181a);
    assert!(context.accept(&mut kernel, &mut tls, &state).is_err());
    assert_eq!(tls.static_buffers, before);
    assert!(context.recv(&mut kernel, &mut tls, &mut buf, 0).is_err());
    assert_eq!(tls.static_buffers, before);
    assert!(context.connect(&mut kernel, &mut tls, SocketAddr::new([1, 1, 1, 1], 1)).is_err());
    assert_eq!(tls.static_buffers, before);
    // While a request was on its way, the kernel did see other slots.
    assert!(kernel.platform().log.iter().any(|r| r.static_slots != before));
}
