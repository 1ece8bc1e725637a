//! PCI configuration-space enumeration and an RTL8139 Fast Ethernet driver core.
//!
//! Port I/O is not performed here: the scanner and the driver are state machines
//! that name the next register access and take the value that was read.
pub mod access;
pub mod pci;
pub mod scan;
pub mod rtl8139;
pub mod interrupts;
pub mod ethernet;
