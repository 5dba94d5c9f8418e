//! Scoped use of the thread's static-buffer slots.
use crate::ipc::layout::ThreadLocalStorage;
use vstd::prelude::*;

verus! {

/// The two static-buffer slots of a thread as they were before a request
/// borrowed them.
///
/// The slots belong to the thread, not to a request: a request that needs to
/// receive a static buffer installs its own descriptor with
/// [`StaticBufferGuard::acquire`] and puts the previous one back with
/// [`StaticBufferGuard::release`] on every way out.
pub struct StaticBufferGuard {
    saved: [u32; 2],
}

impl StaticBufferGuard {
    /// The slot values that `release` will put back.
    pub closed spec fn saved(&self) -> [u32; 2] {
        self.saved
    }

    /// Remembers the current slots and installs `header` and `address` in
    /// their place.
    pub fn acquire(tls: &mut ThreadLocalStorage, header: u32, address: u32) -> (guard:
        StaticBufferGuard)
        ensures
            guard.saved() == old(tls).static_buffers,
            final(tls).static_buffers@ == seq![header, address],
            final(tls).command_buffer == old(tls).command_buffer,
    {
        let guard = StaticBufferGuard { saved: tls.static_buffers };
        tls.static_buffers[0] = header;
        tls.static_buffers[1] = address;
        assert(tls.static_buffers@ =~= seq![header, address]);
        guard
    }

    /// Puts the remembered slots back.
    pub fn release(self, tls: &mut ThreadLocalStorage)
        ensures
            final(tls).static_buffers == self.saved(),
            final(tls).command_buffer == old(tls).command_buffer,
    {
        tls.static_buffers = self.saved;
    }
}

} // verus!
