//! A driver framework for a BSD-style character-device kernel interface.
//!
//! The crate holds the lifecycle and safety layer between the host kernel's
//! callback ABI and driver logic: the classification of module events, the
//! mutex-guarded slot that owns the live driver instance, the transfer
//! descriptors that move bytes between kernel and user space, and the
//! bookkeeping of one device registration.

pub mod allocator;
pub mod character_device;
pub mod error;
pub mod module;
pub mod uio;
