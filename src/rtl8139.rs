//! The RTL8139 driver: bring-up, the four-slot transmit rotor, interrupt service
//! and the receive ring.
//!
//! Register accesses are named by `DeviceAccess` values, with offsets from the
//! I/O base; the owner performs each access and hands back what was read.
use vstd::prelude::*;
use crate::access::DeviceAccess;
use crate::interrupts::{index_entries, regiser_interrupt, MyInterruptIndex, PIC_1_OFFSET};
use crate::pci::{
    all_devices, command_update, config_address, get_pci_device_id, has_ids, PciBus, PciDevice,
    BUS_MASTER, IO_SPACE, PCI_COMMAND,
};

verus! {

// Registers, as offsets from the I/O base.
pub const ID0: u8 = 0x00;
pub const TRANSMIT_STATUS: u8 = 0x10;
pub const TRANSMIT_ADDRESS: u8 = 0x20;
pub const RB_START: u8 = 0x30;
pub const COMMAND: u8 = 0x37;
pub const CURRENT_READ_ADDRESS: u8 = 0x38;
pub const INTERRUPT_MASK: u8 = 0x3C;
pub const INTERRUPT_STATUS: u8 = 0x3E;
pub const RECEIVE_CONFIGURATION: u8 = 0x44;
pub const CONFIG_1: u8 = 0x52;

// Command register bits.
pub const BUFFER_EMPTY: u8 = 0x01;
pub const ENABLE_TRANSMITTER: u8 = 0x04;
pub const ENABLE_RECEIVER: u8 = 0x08;
pub const RESET: u8 = 0x10;

// Interrupt status and mask bits.
pub const RECEIVE_OK: u16 = 0x0001;
pub const RECEIVE_ERROR: u16 = 0x0002;
pub const TRANSMIT_OK: u16 = 0x0004;
pub const TRANSMIT_ERROR: u16 = 0x0008;

// Receive configuration bits.
pub const ACCEPT_PHYSICAL_MATCH: u32 = 0x0002;
pub const ACCEPT_BROADCAST: u32 = 0x0008;
pub const WRAP: u32 = 0x0080;
pub const LENGTH_8K: u32 = 0x0000;

/// Transmit status: set by the NIC once the descriptor's data has been moved out.
pub const OWN: u32 = 0x2000;

/// Receive status of a frame in the ring: received without error.
pub const ROK: u16 = 0x0001;

pub const RTL8139_VENDOR_ID: u16 = 0x10EC;
pub const RTL8139_DEVICE_ID: u16 = 0x8139;

/// The receive ring: 8 KiB, plus room for one frame written past its end.
pub const RX_BUFFER_SIZE: usize = 9708;
/// The cursor into the receive ring wraps at 8 KiB.
pub const RX_RING_SIZE: u16 = 0x2000;
/// The NIC's read pointer trails the driver's cursor by 16 bytes.
pub const CAPR_OFFSET: u16 = 0x10;

pub const TRANSMIT_DESCRIPTOR_COUNT: u8 = 4;
/// The largest length a transmit descriptor takes.
pub const MAX_TRANSMIT_LENGTH: u32 = 1792;

/// The little-endian 16-bit value at `i` of `ring`.
pub open spec fn le16(ring: Seq<u8>, i: int) -> int {
    ring[i] as int + 256 * ring[i + 1] as int
}

/// `x` rounded up to a multiple of 4.
pub open spec fn align4(x: int) -> int {
    (x + 3) / 4 * 4
}

/// The cursor after a frame of `length` bytes (CRC included) at cursor `i`:
/// past the 4-byte descriptor and the frame, 4-byte aligned, modulo 8 KiB.
pub open spec fn next_receive_index(i: int, length: int) -> int {
    align4(i + length + 4) % 0x2000
}

/// What taking one frame out of the receive ring gave.
#[derive(Debug)]
pub enum ReceiveOutcome {
    /// A frame whose status has `ROK`: its bytes from the descriptor's end up to
    /// `length` bytes after the descriptor's start, and the value to write to
    /// `CURRENT_READ_ADDRESS`.
    Frame { payload: Vec<u8>, capr: u16 },
    /// The status lacks `ROK`: the frame is skipped, the cursor stays.
    NotOk,
    /// The length is under 4 or runs past the buffer: the cursor stays.
    Malformed,
}

/// The driver's cursor into the receive ring.
pub struct Receiver {
    pub receive_index: u16,
}

impl Receiver {
    /// The cursor lies in the 8 KiB ring, 4-byte aligned.
    pub open spec fn wf(&self) -> bool {
        self.receive_index < 0x2000 && self.receive_index % 4 == 0
    }

    pub fn new() -> (r: Receiver)
        ensures
            r.wf(),
            r.receive_index == 0,
    {
        Receiver { receive_index: 0 }
    }

    /// Takes the frame at the cursor out of `ring` and moves the cursor past it.
    pub fn receive_packets(&mut self, ring: &[u8]) -> (r: ReceiveOutcome)
        requires
            old(self).wf(),
            ring@.len() == RX_BUFFER_SIZE,
        ensures
            final(self).wf(),
            ({
                let i = old(self).receive_index as int;
                let status = le16(ring@, i);
                let length = le16(ring@, i + 2);
                if status % 2 == 0 {
                    r is NotOk && final(self).receive_index == old(self).receive_index
                } else if length < 4 || i + length > RX_BUFFER_SIZE {
                    r is Malformed && final(self).receive_index == old(self).receive_index
                } else {
                    &&& final(self).receive_index == next_receive_index(i, length)
                    &&& r matches ReceiveOutcome::Frame { payload, capr } && payload@ == ring@.subrange(
                        i + 4,
                        i + length,
                    ) && capr == (final(self).receive_index as int - 0x10) % 0x10000
                }
            }),
    {
        let i = self.receive_index as usize;
        let status: u16 = ring[i] as u16 + (ring[i + 1] as u16) * 256;
        if status & ROK == 0 {
            assert(status & 1u16 == 0 <==> status % 2 == 0) by (bit_vector);
            return ReceiveOutcome::NotOk;
        }
        assert(status & 1u16 != 0 <==> status % 2 == 1) by (bit_vector);
        let length: usize = ring[i + 2] as usize + (ring[i + 3] as usize) * 256;
        if length < 4 || i + length > RX_BUFFER_SIZE {
            return ReceiveOutcome::Malformed;
        }
        let mut payload: Vec<u8> = Vec::new();
        let mut k: usize = i + 4;
        let frame_end: usize = i + length;
        while k < frame_end
            invariant
                i + 4 <= k <= frame_end,
                frame_end == i + length,
                frame_end <= ring@.len(),
                payload@ == ring@.subrange(i + 4, k as int),
            decreases frame_end - k,
        {
            payload.push(ring[k]);
            assert(ring@.subrange(i + 4, k + 1) =~= ring@.subrange(i + 4, k as int).push(ring@[k as int]));
            k += 1;
        }
        let end: u32 = (i + length + 4) as u32;
        let aligned: u32 = (end + 3) & !3u32;
        assert(aligned == (end + 3) / 4 * 4) by (bit_vector)
            requires
                end < 0x10000,
                aligned == ((end + 3) as u32) & !3u32,
        ;
        let next: u16 = (aligned % (RX_RING_SIZE as u32)) as u16;
        assert(next % 4 == 0) by (nonlinear_arith)
            requires
                next == aligned % 0x2000,
                aligned == (end + 3) / 4 * 4,
        ;
        self.receive_index = next;
        let capr = next.wrapping_sub(CAPR_OFFSET);
        ReceiveOutcome::Frame { payload, capr }
    }
}


/// The driver's state once brought up: the I/O base and the MAC address.
#[derive(Clone, Copy, Debug)]
pub struct Rtl8139Context {
    pub io_base: u16,
    pub mac: [u8; 6],
}

/// The MAC address read from `ID0..ID5` during bring-up.
pub fn get_mac_address(ctx: &Rtl8139Context) -> (r: [u8; 6])
    ensures
        r@ == ctx.mac@,
{
    ctx.mac
}

/// The steps of bring-up, in order.
#[derive(Clone, Copy, Debug, PartialEq, Eq, Structural)]
pub enum BringUpStage {
    /// Read the PCI command register.
    ReadCommand,
    /// Write it back with bus mastering and I/O space decoding enabled.
    WriteCommand,
    /// Read the next byte of the MAC address.
    ReadMac,
    /// Power the chip on by writing 0 to `CONFIG_1`.
    Wake,
    /// Start a software reset.
    Reset,
    /// Read `COMMAND` until the reset bit clears.
    PollReset,
    /// Enable the receive/transmit OK and error interrupts.
    UnmaskInterrupts,
    /// Enable the receiver and the transmitter.
    EnableEngines,
    /// Program the receive buffer's physical address.
    SetRxBuffer,
    /// Program the receive configuration.
    SetRxConfig,
    Done,
}

/// Bring-up of the NIC found in the PCI catalog.
#[derive(Debug)]
pub struct BringUp {
    pub stage: BringUpStage,
    /// Configuration address of the device's command register.
    pub command_address: u32,
    /// The command dword to write back.
    pub command: u32,
    pub io_base: u16,
    /// The MAC bytes read so far.
    pub mac: Vec<u8>,
    pub rx_buffer_phys: u32,
    /// The vector the NIC's interrupt line was registered on.
    pub irq_vector: Option<u8>,
}

/// The access that each stage of bring-up performs.
pub open spec fn bring_up_access(b: &BringUp) -> DeviceAccess {
    match b.stage {
        BringUpStage::ReadCommand => DeviceAccess::ConfigRead { address: b.command_address },
        BringUpStage::WriteCommand => DeviceAccess::ConfigWrite {
            address: b.command_address,
            value: b.command,
        },
        BringUpStage::ReadMac => DeviceAccess::Read8 { offset: b.mac@.len() as u8 },
        BringUpStage::Wake => DeviceAccess::Write8 { offset: 0x52, value: 0 },
        BringUpStage::Reset => DeviceAccess::Write8 { offset: 0x37, value: 0x10 },
        BringUpStage::PollReset => DeviceAccess::Read8 { offset: 0x37 },
        BringUpStage::UnmaskInterrupts => DeviceAccess::Write16 { offset: 0x3C, value: 0x000F },
        BringUpStage::EnableEngines => DeviceAccess::Write8 { offset: 0x37, value: 0x0C },
        BringUpStage::SetRxBuffer => DeviceAccess::Write32 { offset: 0x30, value: b.rx_buffer_phys },
        BringUpStage::SetRxConfig => DeviceAccess::Write32 { offset: 0x44, value: 0x8A },
        BringUpStage::Done => DeviceAccess::Finished,
    }
}

/// `d` is the first device of the catalog with the RTL8139's IDs.
pub open spec fn first_rtl8139(buses: Seq<PciBus>, d: PciDevice) -> bool {
    exists|k: int|
        0 <= k < all_devices(buses).len() && all_devices(buses)[k] == d && has_ids(d, 0x10EC, 0x8139)
            && forall|m: int| 0 <= m < k ==> !has_ids(#[trigger] all_devices(buses)[m], 0x10EC, 0x8139)
}

impl BringUp {
    pub open spec fn wf(&self) -> bool {
        &&& self.mac@.len() <= 6
        &&& self.stage == BringUpStage::ReadMac ==> self.mac@.len() < 6
        &&& (self.stage != BringUpStage::ReadCommand && self.stage != BringUpStage::WriteCommand
            && self.stage != BringUpStage::ReadMac) ==> self.mac@.len() == 6
        &&& (self.stage == BringUpStage::ReadCommand || self.stage == BringUpStage::WriteCommand)
            ==> self.mac@.len() == 0
    }

    /// The access to perform next.
    pub fn action(&self) -> (r: DeviceAccess)
        requires
            self.wf(),
        ensures
            r == bring_up_access(self),
    {
        assert(0x1u16 | 0x2u16 | 0x4u16 | 0x8u16 == 0xFu16) by (bit_vector);
        assert(0x8u8 | 0x4u8 == 0xCu8) by (bit_vector);
        assert(0x80u32 | 0x2u32 | 0x8u32 | 0x0u32 == 0x8Au32) by (bit_vector);
        match self.stage {
            BringUpStage::ReadCommand => DeviceAccess::ConfigRead { address: self.command_address },
            BringUpStage::WriteCommand => DeviceAccess::ConfigWrite {
                address: self.command_address,
                value: self.command,
            },
            BringUpStage::ReadMac => DeviceAccess::Read8 { offset: ID0 + self.mac.len() as u8 },
            BringUpStage::Wake => DeviceAccess::Write8 { offset: CONFIG_1, value: 0 },
            BringUpStage::Reset => DeviceAccess::Write8 { offset: COMMAND, value: RESET },
            BringUpStage::PollReset => DeviceAccess::Read8 { offset: COMMAND },
            BringUpStage::UnmaskInterrupts => DeviceAccess::Write16 {
                offset: INTERRUPT_MASK,
                value: RECEIVE_OK | RECEIVE_ERROR | TRANSMIT_OK | TRANSMIT_ERROR,
            },
            BringUpStage::EnableEngines => DeviceAccess::Write8 {
                offset: COMMAND,
                value: ENABLE_RECEIVER | ENABLE_TRANSMITTER,
            },
            BringUpStage::SetRxBuffer => DeviceAccess::Write32 {
                offset: RB_START,
                value: self.rx_buffer_phys,
            },
            BringUpStage::SetRxConfig => DeviceAccess::Write32 {
                offset: RECEIVE_CONFIGURATION,
                value: WRAP | ACCEPT_PHYSICAL_MATCH | ACCEPT_BROADCAST | LENGTH_8K,
            },
            BringUpStage::Done => DeviceAccess::Finished,
        }
    }

    /// Moves on after the current access; `value` is what a read returned
    /// (ignored after a write).
    pub fn advance(&mut self, value: u32)
        requires
            old(self).wf(),
        ensures
            final(self).wf(),
            final(self).command_address == old(self).command_address,
            final(self).io_base == old(self).io_base,
            final(self).rx_buffer_phys == old(self).rx_buffer_phys,
            final(self).irq_vector == old(self).irq_vector,
            old(self).stage != BringUpStage::ReadMac ==> final(self).mac@ == old(self).mac@,
            old(self).stage != BringUpStage::ReadCommand ==> final(self).command == old(self).command,
            ({
                let s = &*old(self);
                let t = &*final(self);
                match s.stage {
                    BringUpStage::ReadCommand => if value & 6u32 == 6u32 {
                        t.stage == BringUpStage::ReadMac
                    } else {
                        t.stage == BringUpStage::WriteCommand && t.command == value | 6u32
                    },
                    BringUpStage::WriteCommand => t.stage == BringUpStage::ReadMac,
                    BringUpStage::ReadMac => {
                        &&& t.mac@ == s.mac@.push(value as u8)
                        &&& t.stage == if s.mac@.len() + 1 == 6 {
                            BringUpStage::Wake
                        } else {
                            BringUpStage::ReadMac
                        }
                    },
                    BringUpStage::Wake => t.stage == BringUpStage::Reset,
                    BringUpStage::Reset => t.stage == BringUpStage::PollReset,
                    BringUpStage::PollReset => t.stage == if (value as u8) & 0x10u8 != 0 {
                        BringUpStage::PollReset
                    } else {
                        BringUpStage::UnmaskInterrupts
                    },
                    BringUpStage::UnmaskInterrupts => t.stage == BringUpStage::EnableEngines,
                    BringUpStage::EnableEngines => t.stage == BringUpStage::SetRxBuffer,
                    BringUpStage::SetRxBuffer => t.stage == BringUpStage::SetRxConfig,
                    BringUpStage::SetRxConfig => t.stage == BringUpStage::Done,
                    BringUpStage::Done => t.stage == BringUpStage::Done,
                }
            }),
    {
        assert((0x4u16 | 0x2u16) as u32 == 6u32) by (bit_vector);
        match self.stage {
            BringUpStage::ReadCommand => {
                match command_update(value, BUS_MASTER | IO_SPACE) {
                    Some(v) => {
                        self.command = v;
                        self.stage = BringUpStage::WriteCommand;
                    },
                    None => {
                        self.stage = BringUpStage::ReadMac;
                    },
                }
            },
            BringUpStage::WriteCommand => {
                self.stage = BringUpStage::ReadMac;
            },
            BringUpStage::ReadMac => {
                self.mac.push(#[verifier::truncate] (value as u8));
                if self.mac.len() == 6 {
                    self.stage = BringUpStage::Wake;
                }
            },
            BringUpStage::Wake => {
                self.stage = BringUpStage::Reset;
            },
            BringUpStage::Reset => {
                self.stage = BringUpStage::PollReset;
            },
            BringUpStage::PollReset => {
                if (#[verifier::truncate] (value as u8)) & RESET == 0 {
                    self.stage = BringUpStage::UnmaskInterrupts;
                }
            },
            BringUpStage::UnmaskInterrupts => {
                self.stage = BringUpStage::EnableEngines;
            },
            BringUpStage::EnableEngines => {
                self.stage = BringUpStage::SetRxBuffer;
            },
            BringUpStage::SetRxBuffer => {
                self.stage = BringUpStage::SetRxConfig;
            },
            BringUpStage::SetRxConfig => {
                self.stage = BringUpStage::Done;
            },
            BringUpStage::Done => {},
        }
    }

    pub fn is_done(&self) -> (r: bool)
        ensures
            r == (self.stage == BringUpStage::Done),
    {
        self.stage == BringUpStage::Done
    }

    /// The driver's context once bring-up is complete.
    pub fn context(&self) -> (r: Rtl8139Context)
        requires
            self.wf(),
            self.stage == BringUpStage::Done,
        ensures
            r.io_base == self.io_base,
            r.mac@ == self.mac@,
    {
        let mac: [u8; 6] = [self.mac[0], self.mac[1], self.mac[2], self.mac[3], self.mac[4], self.mac[5]];
        assert(mac@ =~= self.mac@);
        Rtl8139Context { io_base: self.io_base, mac }
    }
}

/// Starts bring-up of the first RTL8139 in `buses`, whose receive ring lies at
/// physical address `rx_buffer_phys`: takes the I/O base from BAR0 and registers
/// the device's interrupt line as "RTL8139" in `index`. `None`, with `index`
/// unchanged, when the catalog holds no RTL8139.
pub fn init(buses: &Vec<PciBus>, index: &mut MyInterruptIndex, rx_buffer_phys: u32) -> (r: Option<
    BringUp,
>)
    ensures
        r is None <==> forall|k: int|
            0 <= k < all_devices(buses@).len() ==> !has_ids(#[trigger] all_devices(buses@)[k], 0x10EC, 0x8139),
        r is None ==> index_entries(&*final(index)) == index_entries(&*old(index)),
        r matches Some(b) ==> {
            &&& b.wf()
            &&& b.stage == BringUpStage::ReadCommand
            &&& b.mac@.len() == 0
            &&& b.rx_buffer_phys == rx_buffer_phys
            &&& exists|d: PciDevice|
                {
                    &&& first_rtl8139(buses@, d)
                    &&& b.command_address == config_address(
                        d.location.bus,
                        d.location.slot,
                        d.location.func,
                        0x4,
                    )
                    &&& b.io_base == (d.bars[0] & 0xFFFF_FFFCu32) as u16
                    &&& if d.int_line as int + 0x20 <= 255 {
                        &&& b.irq_vector == Some((d.int_line + 0x20) as u8)
                        &&& index_entries(&*final(index)) == index_entries(&*old(index)).push(
                            ("RTL8139"@, (d.int_line + 0x20) as u8),
                        )
                    } else {
                        &&& b.irq_vector is None
                        &&& index_entries(&*final(index)) == index_entries(&*old(index))
                    }
                }
        },
{
    let dev = match get_pci_device_id(buses, RTL8139_VENDOR_ID, RTL8139_DEVICE_ID) {
        Some(d) => d,
        None => {
            return None;
        },
    };
    let io_base = match dev.determine_iobase(0) {
        Ok(v) => v as u16,
        Err(_) => {
            return None;
        },
    };
    let irq_vector = if regiser_interrupt(index, "RTL8139", dev.int_line) {
        Some(PIC_1_OFFSET + dev.int_line)
    } else {
        None
    };
    let r = BringUp {
        stage: BringUpStage::ReadCommand,
        command_address: dev.location.pci_address(PCI_COMMAND),
        command: 0,
        io_base,
        mac: Vec::new(),
        rx_buffer_phys,
        irq_vector,
    };
    assert(first_rtl8139(buses@, dev));
    Some(r)
}


/// The transmit descriptor rotor: the descriptor (0 to 3) that the next send uses.
pub struct Transmitter {
    pub descriptor: u8,
}

/// The steps of one transmission.
#[derive(Clone, Copy, Debug, PartialEq, Eq, Structural)]
pub enum TransmitStage {
    /// Read the descriptor's status until `OWN` is set.
    WaitOwn,
    /// Write the buffer's physical address to the descriptor.
    WriteAddress,
    /// Write the length to the descriptor's status; this starts the DMA.
    WriteStatus,
    Done,
}

/// One frame handed to a transmit descriptor.
#[derive(Clone, Copy, Debug)]
pub struct Transmission {
    pub descriptor: u8,
    pub buffer_phys: u32,
    pub len: u32,
    pub stage: TransmitStage,
}

/// The access that each stage of a transmission performs.
pub open spec fn transmission_access(t: Transmission) -> DeviceAccess {
    match t.stage {
        TransmitStage::WaitOwn => DeviceAccess::Read32 { offset: (0x10 + 4 * t.descriptor) as u8 },
        TransmitStage::WriteAddress => DeviceAccess::Write32 {
            offset: (0x20 + 4 * t.descriptor) as u8,
            value: t.buffer_phys,
        },
        TransmitStage::WriteStatus => DeviceAccess::Write32 {
            offset: (0x10 + 4 * t.descriptor) as u8,
            value: t.len,
        },
        TransmitStage::Done => DeviceAccess::Finished,
    }
}

impl Transmitter {
    pub open spec fn wf(&self) -> bool {
        self.descriptor < 4
    }

    pub fn new() -> (r: Transmitter)
        ensures
            r.wf(),
            r.descriptor == 0,
    {
        Transmitter { descriptor: 0 }
    }

    /// Hands the frame of `len` bytes at physical address `buffer_phys` to the
    /// current descriptor, and moves the rotor on by one, modulo 4.
    pub fn send_packet(&mut self, buffer_phys: u32, len: u32) -> (r: Transmission)
        requires
            old(self).wf(),
            len <= 1792,
        ensures
            final(self).wf(),
            final(self).descriptor == (old(self).descriptor + 1) % 4,
            r.descriptor == old(self).descriptor,
            r.buffer_phys == buffer_phys,
            r.len == len,
            r.stage == TransmitStage::WaitOwn,
    {
        let r = Transmission {
            descriptor: self.descriptor,
            buffer_phys,
            len,
            stage: TransmitStage::WaitOwn,
        };
        self.descriptor = (self.descriptor + 1) % TRANSMIT_DESCRIPTOR_COUNT;
        r
    }
}

impl Transmission {
    pub open spec fn wf(&self) -> bool {
        self.descriptor < 4
    }

    /// The access to perform next.
    pub fn action(&self) -> (r: DeviceAccess)
        requires
            self.wf(),
        ensures
            r == transmission_access(*self),
    {
        match self.stage {
            TransmitStage::WaitOwn => DeviceAccess::Read32 {
                offset: TRANSMIT_STATUS + 4 * self.descriptor,
            },
            TransmitStage::WriteAddress => DeviceAccess::Write32 {
                offset: TRANSMIT_ADDRESS + 4 * self.descriptor,
                value: self.buffer_phys,
            },
            TransmitStage::WriteStatus => DeviceAccess::Write32 {
                offset: TRANSMIT_STATUS + 4 * self.descriptor,
                value: self.len,
            },
            TransmitStage::Done => DeviceAccess::Finished,
        }
    }

    /// Moves on after the current access; `value` is what a read returned.
    pub fn advance(&mut self, value: u32)
        requires
            old(self).wf(),
        ensures
            final(self).wf(),
            final(self).descriptor == old(self).descriptor,
            final(self).buffer_phys == old(self).buffer_phys,
            final(self).len == old(self).len,
            final(self).stage == match old(self).stage {
                TransmitStage::WaitOwn => if value & 0x2000u32 != 0 {
                    TransmitStage::WriteAddress
                } else {
                    TransmitStage::WaitOwn
                },
                TransmitStage::WriteAddress => TransmitStage::WriteStatus,
                TransmitStage::WriteStatus => TransmitStage::Done,
                TransmitStage::Done => TransmitStage::Done,
            },
    {
        match self.stage {
            TransmitStage::WaitOwn => {
                if value & OWN != 0 {
                    self.stage = TransmitStage::WriteAddress;
                }
            },
            TransmitStage::WriteAddress => {
                self.stage = TransmitStage::WriteStatus;
            },
            TransmitStage::WriteStatus => {
                self.stage = TransmitStage::Done;
            },
            TransmitStage::Done => {},
        }
    }

    pub fn is_done(&self) -> (r: bool)
        ensures
            r == (self.stage == TransmitStage::Done),
    {
        self.stage == TransmitStage::Done
    }
}

/// What an interrupt reported, by the first of `ROK`, `RER`, `TOK`, `TER` set.
#[derive(Clone, Copy, Debug, PartialEq, Eq, Structural)]
pub enum InterruptKind {
    ReceiveOk,
    ReceiveError,
    TransmitOk,
    TransmitError,
    Other,
}

/// The kind of the interrupt status `status`.
pub open spec fn kind_of(status: u16) -> InterruptKind {
    if status & 1u16 != 0 {
        InterruptKind::ReceiveOk
    } else if status & 2u16 != 0 {
        InterruptKind::ReceiveError
    } else if status & 4u16 != 0 {
        InterruptKind::TransmitOk
    } else if status & 8u16 != 0 {
        InterruptKind::TransmitError
    } else {
        InterruptKind::Other
    }
}

pub fn interrupt_kind(status: u16) -> (r: InterruptKind)
    ensures
        r == kind_of(status),
{
    if status & RECEIVE_OK != 0 {
        InterruptKind::ReceiveOk
    } else if status & RECEIVE_ERROR != 0 {
        InterruptKind::ReceiveError
    } else if status & TRANSMIT_OK != 0 {
        InterruptKind::TransmitOk
    } else if status & TRANSMIT_ERROR != 0 {
        InterruptKind::TransmitError
    } else {
        InterruptKind::Other
    }
}

/// The steps of servicing one NIC interrupt.
#[derive(Clone, Copy, Debug, PartialEq, Eq, Structural)]
pub enum ServiceStage {
    /// Read `INTERRUPT_STATUS`.
    ReadStatus,
    /// Clear it by writing the four handled bits back.
    Acknowledge,
    /// Read `COMMAND` to see whether the receive ring is empty.
    CheckEmpty,
    /// Take one frame out of the receive ring.
    Receive,
    Done,
}

/// The service of one NIC interrupt.
#[derive(Clone, Copy, Debug)]
pub struct InterruptService {
    pub stage: ServiceStage,
    /// The interrupt status read.
    pub status: u16,
}

/// The access that each stage of interrupt service performs.
pub open spec fn service_access(s: InterruptService) -> DeviceAccess {
    match s.stage {
        ServiceStage::ReadStatus => DeviceAccess::Read16 { offset: 0x3E },
        ServiceStage::Acknowledge => DeviceAccess::Write16 { offset: 0x3E, value: 0x000F },
        ServiceStage::CheckEmpty => DeviceAccess::Read8 { offset: 0x37 },
        ServiceStage::Receive => DeviceAccess::ReceiveFrame,
        ServiceStage::Done => DeviceAccess::Finished,
    }
}

impl InterruptService {
    pub fn new() -> (r: InterruptService)
        ensures
            r.stage == ServiceStage::ReadStatus,
    {
        InterruptService { stage: ServiceStage::ReadStatus, status: 0 }
    }

    /// The access to perform next.
    pub fn action(&self) -> (r: DeviceAccess)
        ensures
            r == service_access(*self),
    {
        assert(0x1u16 | 0x4u16 | 0x2u16 | 0x8u16 == 0xFu16) by (bit_vector);
        match self.stage {
            ServiceStage::ReadStatus => DeviceAccess::Read16 { offset: INTERRUPT_STATUS },
            ServiceStage::Acknowledge => DeviceAccess::Write16 {
                offset: INTERRUPT_STATUS,
                value: RECEIVE_OK | TRANSMIT_OK | RECEIVE_ERROR | TRANSMIT_ERROR,
            },
            ServiceStage::CheckEmpty => DeviceAccess::Read8 { offset: COMMAND },
            ServiceStage::Receive => DeviceAccess::ReceiveFrame,
            ServiceStage::Done => DeviceAccess::Finished,
        }
    }

    /// Moves on after the current access; `value` is what a read returned.
    /// After `ROK` the ring is emptied frame by frame until `COMMAND` reports
    /// `BUFFER_EMPTY`; otherwise service ends after the acknowledgement.
    pub fn advance(&mut self, value: u32)
        ensures
            old(self).stage == ServiceStage::ReadStatus ==> final(self).status == value as u16,
            old(self).stage != ServiceStage::ReadStatus ==> final(self).status == old(self).status,
            final(self).stage == match old(self).stage {
                ServiceStage::ReadStatus => ServiceStage::Acknowledge,
                ServiceStage::Acknowledge => if old(self).status & 1u16 != 0 {
                    ServiceStage::CheckEmpty
                } else {
                    ServiceStage::Done
                },
                ServiceStage::CheckEmpty => if (value as u8) & 1u8 == 0 {
                    ServiceStage::Receive
                } else {
                    ServiceStage::Done
                },
                ServiceStage::Receive => ServiceStage::CheckEmpty,
                ServiceStage::Done => ServiceStage::Done,
            },
    {
        match self.stage {
            ServiceStage::ReadStatus => {
                self.status = #[verifier::truncate] (value as u16);
                self.stage = ServiceStage::Acknowledge;
            },
            ServiceStage::Acknowledge => {
                if self.status & RECEIVE_OK != 0 {
                    self.stage = ServiceStage::CheckEmpty;
                } else {
                    self.stage = ServiceStage::Done;
                }
            },
            ServiceStage::CheckEmpty => {
                if (#[verifier::truncate] (value as u8)) & BUFFER_EMPTY == 0 {
                    self.stage = ServiceStage::Receive;
                } else {
                    self.stage = ServiceStage::Done;
                }
            },
            ServiceStage::Receive => {
                self.stage = ServiceStage::CheckEmpty;
            },
            ServiceStage::Done => {},
        }
    }

    /// What the interrupt reported, once the status has been read.
    pub fn kind(&self) -> (r: InterruptKind)
        ensures
            r == kind_of(self.status),
    {
        interrupt_kind(self.status)
    }

    pub fn is_done(&self) -> (r: bool)
        ensures
            r == (self.stage == ServiceStage::Done),
    {
        self.stage == ServiceStage::Done
    }
}

} // verus!
