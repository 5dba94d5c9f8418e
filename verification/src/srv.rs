//! Resolving a service name to a capability.
use crate::handle::Handle;
use crate::platform::{Kernel, Platform};
use crate::res::{CtrError, CtrResult};
use vstd::prelude::*;

verus! {

/// What a lookup that ended with `outcome` gives the caller: the owned
/// capability, or the lookup's result code as a resolution failure.
pub open spec fn resolved(outcome: Result<u32, u32>) -> Result<u32, CtrError> {
    match outcome {
        Ok(raw) => Ok(raw),
        Err(code) => Err(CtrError::Resolve(code)),
    }
}

/// The raw identifier inside a successful result, and the error otherwise.
pub open spec fn raw_of(r: CtrResult<Handle>) -> Result<u32, CtrError> {
    match r {
        Ok(handle) => Ok(handle@),
        Err(e) => Err(e),
    }
}

/// Takes ownership of what a lookup returned.
pub fn service_handle_from(outcome: Result<u32, u32>) -> (r: CtrResult<Handle>)
    ensures
        raw_of(r) == resolved(outcome),
{
    match outcome {
        Ok(raw) => Ok(Handle::from(raw)),
        Err(code) => Err(CtrError::Resolve(code)),
    }
}

/// Asks the system for a capability to the service registered under `name`:
/// one lookup of that name, and no other call. The result is the capability
/// that the lookup gave, or its result code as a resolution failure.
pub fn get_service_handle_direct<P: Platform>(kernel: &mut Kernel<P>, name: &str) -> (r: CtrResult<
    Handle,
>)
    ensures
        final(kernel).log() == old(kernel).log().push(final(kernel).log().last()),
        final(kernel).log().last().is_lookup_of(name@),
        raw_of(r) == resolved(final(kernel).log().last().outcome()),
{
    let outcome: Result<u32, u32> = kernel.get_service_handle(name);
    service_handle_from(outcome)
}

} // verus!
