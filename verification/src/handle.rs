//! Ownership of kernel capabilities.
use crate::platform::{Kernel, Platform};
use vstd::prelude::*;

verus! {

/// An owned capability: the kernel's 32-bit identifier of a session, a port or
/// a memory block.
///
/// A `Handle` is neither `Copy` nor `Clone`, so an identifier has one owner,
/// and [`Handle::close`] consumes it, so that owner gives it back once.
#[derive(Debug)]
pub struct Handle {
    raw: u32,
}

impl View for Handle {
    type V = u32;

    closed spec fn view(&self) -> u32 {
        self.raw
    }
}

impl Handle {
    /// The identifier itself, without giving up ownership.
    ///
    /// The copy stays valid only as long as this `Handle`, and every other copy
    /// of the identifier, has not been closed: afterwards the kernel may hand
    /// the same number out for another object. It is meant for placing the
    /// identifier in a command, where the kernel duplicates the capability for
    /// the receiver.
    pub fn get_raw(&self) -> (raw: u32)
        ensures
            raw == self@,
    {
        self.raw
    }

    /// Gives the capability back to the kernel: one close of this identifier,
    /// and no other call. A failure of the kernel to close it is not
    /// reported: nothing could be done about it.
    pub fn close<P: Platform>(self, kernel: &mut Kernel<P>)
        ensures
            final(kernel).log() == old(kernel).log().push(final(kernel).log().last()),
            final(kernel).log().last().is_close_of(self@),
    {
        let _code: u32 = kernel.close_handle(self.get_raw());
    }
}

impl From<u32> for Handle {
    /// Takes ownership of the capability that `raw_handle` identifies.
    fn from(raw_handle: u32) -> (handle: Handle)
        ensures
            handle@ == raw_handle,
    {
        Handle { raw: raw_handle }
    }
}

impl vstd::std_specs::convert::FromSpecImpl<u32> for Handle {
    open spec fn obeys_from_spec() -> bool {
        true
    }

    closed spec fn from_spec(raw_handle: u32) -> Handle {
        Handle { raw: raw_handle }
    }
}

} // verus!
