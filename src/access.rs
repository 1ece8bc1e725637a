//! Accesses to the PCI configuration space and to device registers, as named
//! by the state machines of this crate for their owner to perform.
use vstd::prelude::*;

verus! {

/// One access to the PCI configuration space or to a NIC register.
#[derive(Clone, Copy, Debug, PartialEq, Eq, Structural)]
pub enum DeviceAccess {
    /// Read the configuration dword at `address` (written to `CONFIG_ADDRESS`).
    ConfigRead { address: u32 },
    /// Write `value` to the configuration dword at `address`.
    ConfigWrite { address: u32, value: u32 },
    Read8 { offset: u8 },
    Read16 { offset: u8 },
    Read32 { offset: u8 },
    Write8 { offset: u8, value: u8 },
    Write16 { offset: u8, value: u16 },
    Write32 { offset: u8, value: u32 },
    /// Take one frame out of the receive ring.
    ReceiveFrame,
    /// Nothing more to do.
    Finished,
}

} // verus!
