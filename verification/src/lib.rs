//! Client and server building blocks for the synchronous command-buffer IPC of
//! a capability-based microkernel, with a socket client built on top of them.
//!
//! Everything the kernel itself does is reached through [`platform::Kernel`],
//! which wraps the system's [`platform::Platform`] and keeps the record of
//! what was asked of it; the library encodes requests, decodes replies and
//! keeps track of who owns which capability.
pub mod handle;
pub mod ipc;
pub mod memory;
pub mod platform;
pub mod res;
pub mod socket;
pub mod srv;
pub mod svc;
pub mod sysmodule;
