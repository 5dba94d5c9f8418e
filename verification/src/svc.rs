//! Kernel calls that hand out capabilities.
use crate::handle::Handle;
use crate::platform::{Kernel, Platform};
use crate::res::{CtrError, CtrResult};
use crate::srv::raw_of;
use vstd::prelude::*;

verus! {

/// What a kernel call that ended with `outcome` gives the caller: the
/// capability, or the kernel's result code as a kernel failure.
pub open spec fn delivered(outcome: Result<u32, u32>) -> Result<u32, CtrError> {
    match outcome {
        Ok(raw) => Ok(raw),
        Err(code) => Err(CtrError::Kernel(code)),
    }
}

/// Takes ownership of the session that the kernel handed out.
pub fn session_from(outcome: Result<u32, u32>) -> (r: CtrResult<Handle>)
    ensures
        raw_of(r) == delivered(outcome),
{
    match outcome {
        Ok(raw) => Ok(Handle::from(raw)),
        Err(code) => Err(CtrError::Kernel(code)),
    }
}

/// Blocks until a client opens a session on the listening port that
/// `service_handle` owns: one accept on that port, and no other call. The
/// result is the session that the kernel handed out, or its result code as a
/// kernel failure.
pub fn accept_session<P: Platform>(kernel: &mut Kernel<P>, service_handle: &Handle) -> (r:
    CtrResult<Handle>)
    ensures
        final(kernel).log() == old(kernel).log().push(final(kernel).log().last()),
        final(kernel).log().last().is_accept_on(service_handle@),
        raw_of(r) == delivered(final(kernel).log().last().outcome()),
{
    let outcome: Result<u32, u32> = kernel.accept_session(service_handle.get_raw());
    session_from(outcome)
}

} // verus!
