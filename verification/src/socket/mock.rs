//! A socket client that performs no IPC, for code that needs the socket
//! interface where there is no socket service.
use crate::res::{CtrError, CtrResult};
use crate::socket::shared::{SocketAddr, SocketType};
use vstd::prelude::*;

verus! {

/// What the stand-in remembers of the socket it pretends to be.
#[derive(Clone, Copy, Debug, PartialEq, Eq, Structural)]
pub struct InternalSocketContext {
    pub socket_type: SocketType,
    pub socket_buffer_size: u32,
}

/// A socket on which every operation succeeds at once and nothing travels.
#[derive(Clone, Copy, Debug, PartialEq, Eq, Structural)]
pub struct SocketContext {
    pub mock: InternalSocketContext,
}

impl SocketContext {
    pub fn new(socket_type: SocketType) -> (r: CtrResult<SocketContext>)
        ensures
            r == Ok::<SocketContext, CtrError>(
                SocketContext { mock: InternalSocketContext { socket_type, socket_buffer_size: 0 } },
            ),
    {
        let context = InternalSocketContext { socket_type, socket_buffer_size: 0 };
        Ok(SocketContext { mock: context })
    }

    pub fn connect(&self, address: SocketAddr) -> (r: CtrResult)
        ensures
            r == Ok::<(), CtrError>(()),
    {
        Ok(())
    }

    pub fn bind(&self, address: SocketAddr) -> (r: CtrResult)
        ensures
            r == Ok::<(), CtrError>(()),
    {
        Ok(())
    }

    pub fn listen(&self, max_connections: u32) -> (r: CtrResult)
        ensures
            r == Ok::<(), CtrError>(()),
    {
        Ok(())
    }

    /// Always reports a peer at 0.0.0.0, port 0.
    pub fn accept(&self) -> (r: CtrResult<SocketAddr>)
        ensures
            r is Ok,
            r->Ok_0.size == 8,
            r->Ok_0.family == 2,
            r->Ok_0.port == 0,
            r->Ok_0.address@ == seq![0u8, 0u8, 0u8, 0u8],
    {
        let address: [u8; 4] = [0, 0, 0, 0];
        assert(address@ =~= seq![0u8, 0u8, 0u8, 0u8]);
        Ok(SocketAddr::new(address, 0))
    }

    /// Receives nothing: `result_buffer` stays as it is.
    pub fn recv(&self, result_buffer: &mut [u8], flags: u32) -> (r: CtrResult)
        ensures
            r == Ok::<(), CtrError>(()),
            final(result_buffer)@ == old(result_buffer)@,
    {
        Ok(())
    }

    pub fn send(&self, send_buffer: &[u8], flags: u32) -> (r: CtrResult)
        ensures
            r == Ok::<(), CtrError>(()),
    {
        Ok(())
    }

    /// Always reports the host address 0.0.0.0.
    pub fn get_host_id(&self) -> (r: CtrResult<[u8; 4]>)
        ensures
            r is Ok,
            r->Ok_0@ == seq![0u8, 0u8, 0u8, 0u8],
    {
        let address: [u8; 4] = [0, 0, 0, 0];
        assert(address@ =~= seq![0u8, 0u8, 0u8, 0u8]);
        Ok(address)
    }
}

} // verus!
