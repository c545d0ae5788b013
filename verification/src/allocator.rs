//! The bridge to the host kernel's tagged zone allocator.
//!
//! The bridge decides what is asked of the host: the zone, the wait policy
//! and what happens when memory runs out. The calls themselves are the
//! host's.

use vstd::prelude::*;

verus! {

/// Wait policy "ok to block": the host allocator waits for memory instead of
/// returning a null pointer.
pub const M_WAITOK: i32 = 0x0002;

/// The category under which the host accounts an allocation.
#[derive(Copy, Clone, Debug, PartialEq, Eq, Structural)]
pub enum Zone {
    /// Device driver memory.
    DeviceBuffer,
}

/// A request to the host's `malloc`.
#[derive(Copy, Clone, Debug, PartialEq, Eq, Structural)]
pub struct ZoneRequest {
    /// The number of bytes asked for.
    pub size: usize,
    /// The zone that the bytes are taken from.
    pub zone: Zone,
    /// The wait policy.
    pub flags: i32,
}

/// A request to the host's `free`.
#[derive(Copy, Clone, Debug, PartialEq, Eq, Structural)]
pub struct ZoneRelease {
    /// The address that is given back.
    pub address: usize,
    /// The zone that it was taken from.
    pub zone: Zone,
}

/// Why the process is halted.
#[derive(Copy, Clone, Debug, PartialEq, Eq, Structural)]
pub enum Halt {
    /// The allocator could not serve a request of `size` bytes.
    OutOfMemory { size: usize },
}

/// Routes all dynamic allocation through the host kernel's allocator.
#[derive(Copy, Clone, Debug)]
pub struct KernelAllocator;

impl KernelAllocator {
    /// The request that serves an allocation of `size` bytes: that many
    /// bytes of device-buffer memory, waiting until they are available.
    pub fn allocate(&self, size: usize) -> (request: ZoneRequest)
        ensures
            request == (ZoneRequest { size, zone: Zone::DeviceBuffer, flags: M_WAITOK }),
    {
        ZoneRequest { size, zone: Zone::DeviceBuffer, flags: M_WAITOK }
    }

    /// The request that gives `address` back to the zone it came from.
    pub fn dealloc(&self, address: usize) -> (release: ZoneRelease)
        ensures
            release == (ZoneRelease { address, zone: Zone::DeviceBuffer }),
    {
        ZoneRelease { address, zone: Zone::DeviceBuffer }
    }
}

/// The policy for a failed allocation of `size` bytes: the condition is
/// reported and the process halts, whatever the size.
pub fn oom(size: usize) -> (halt: Halt)
    ensures
        halt == (Halt::OutOfMemory { size }),
{
    Halt::OutOfMemory { size }
}

} // verus!
