//! Result and error types shared by every call of the library.
use vstd::prelude::*;

verus! {

/// Why a call failed.
///
/// The first three variants are failures of the transport: the request or its
/// reply never made it, so nothing is known about what the service did. `Posix`
/// is an answer of the service itself: the exchange worked and the operation
/// was refused.
#[derive(Clone, Copy, Debug, PartialEq, Eq, Structural)]
pub enum CtrError {
    /// The kernel could not deliver the command; the payload is its result code.
    Kernel(u32),
    /// No capability could be obtained for a service name; the payload is the
    /// result code of the lookup.
    Resolve(u32),
    /// The reply arrived and its generic result word is this nonzero value.
    Service(u32),
    /// The service carried the operation out and reports this nonzero
    /// POSIX-style result.
    Posix(u32),
    /// A length does not fit the field that has to carry it.
    InvalidSize,
}

pub type CtrResult<T = ()> = Result<T, CtrError>;

impl CtrError {
    /// True for the failures of the transport, false for an answer of the service.
    pub open spec fn is_transport(self) -> bool {
        !(self is Posix)
    }
}

/// What the kernel's result code `code` means for a call: zero is success,
/// any other value is the failure to report.
pub open spec fn kernel_result(code: u32) -> CtrResult {
    if code == 0 {
        Ok(())
    } else {
        Err(CtrError::Kernel(code))
    }
}

/// The result of a call that the kernel answered with `code` and whose reply
/// would mean `outcome`: the kernel's failure where there is one, the meaning
/// of the reply otherwise.
pub open spec fn through_kernel<T>(code: u32, outcome: CtrResult<T>) -> CtrResult<T> {
    if code == 0 {
        outcome
    } else {
        Err(CtrError::Kernel(code))
    }
}

/// Turns a kernel result code into a result.
pub fn check_kernel_code(code: u32) -> (r: CtrResult)
    ensures
        r == kernel_result(code),
{
    if code == 0 {
        Ok(())
    } else {
        Err(CtrError::Kernel(code))
    }
}

/// The length `size` as the 32-bit quantity that travels in a command word.
pub fn try_usize_into_u32(size: usize) -> (r: CtrResult<u32>)
    ensures
        size <= u32::MAX ==> r == Ok::<u32, CtrError>(size as u32),
        size > u32::MAX ==> r == Err::<u32, CtrError>(CtrError::InvalidSize),
{
    if size <= u32::MAX as usize {
        Ok(size as u32)
    } else {
        Err(CtrError::InvalidSize)
    }
}

} // verus!
