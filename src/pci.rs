//! PCI configuration space: locations, addresses, header fields and BARs.
use vstd::prelude::*;
use crate::access::DeviceAccess;

verus! {

pub const PCI_VENDOR_ID: u8 = 0x0;
pub const PCI_DEVICE_ID: u8 = 0x2;
pub const PCI_COMMAND: u8 = 0x4;
pub const PCI_STATUS: u8 = 0x6;
pub const PCI_REVISION_ID: u8 = 0x8;
pub const PCI_PROG_IF: u8 = 0x9;
pub const PCI_SUBCLASS: u8 = 0xA;
pub const PCI_CLASS: u8 = 0xB;
pub const PCI_CACHE_LINE_SIZE: u8 = 0xC;
pub const PCI_LATENCY_TIMER: u8 = 0xD;
pub const PCI_HEADER_TYPE: u8 = 0xE;
pub const PCI_BIST: u8 = 0xF;
pub const PCI_BAR0: u8 = 0x10;
pub const PCI_INTERRUPT_LINE: u8 = 0x3C;
pub const PCI_INTERRUPT_PIN: u8 = 0x3D;

/// Command register bits.
pub const IO_SPACE: u16 = 0x0002;
pub const BUS_MASTER: u16 = 0x0004;
pub const INTERRUPT_DISABLE: u16 = 0x0400;

/// The vendor ID read from an empty slot or function.
pub const NO_DEVICE: u16 = 0xFFFF;

/// There are at most 256 buses, 32 slots per bus and 8 functions per slot.
pub const MAX_PCI_BUSES: u16 = 256;
pub const MAX_SLOTS_PER_BUS: u8 = 32;
pub const MAX_FUNCTIONS_PER_SLOT: u8 = 8;

/// Configuration accesses are dword aligned: the low two offset bits are dropped.
pub const PCI_CONFIG_ADDRESS_OFFSET_MASK: u8 = 0xFC;

/// I/O port that selects the configuration dword for the next data access.
pub const CONFIG_ADDRESS: u16 = 0xCF8;
/// I/O port through which the selected configuration dword is read or written.
pub const CONFIG_DATA: u16 = 0xCFC;

/// The configuration address of `offset` in the header of bus/slot/function.
pub open spec fn config_address(bus: u8, slot: u8, func: u8, offset: u8) -> u32 {
    0x8000_0000u32 | ((bus as u32) << 16u32) | ((slot as u32) << 11u32) | ((func as u32) << 8u32)
        | ((offset as u32) & 0xFCu32)
}

/// The bus, slot and function number of a PCI function.
#[derive(Clone, Copy, Debug, PartialEq, Eq, Structural)]
pub struct PciLocation {
    pub bus: u8,
    pub slot: u8,
    pub func: u8,
}

impl PciLocation {
    /// A slot lies in 0..32 and a function in 0..8.
    pub open spec fn wf(&self) -> bool {
        self.slot < 32 && self.func < 8
    }

    /// The location of bus/slot/function, or `None` when slot or function is out of range.
    pub fn new(bus: u8, slot: u8, func: u8) -> (r: Option<PciLocation>)
        ensures
            slot < 32 && func < 8 <==> r is Some,
            r matches Some(l) ==> l.bus == bus && l.slot == slot && l.func == func,
    {
        if slot < MAX_SLOTS_PER_BUS && func < MAX_FUNCTIONS_PER_SLOT {
            Some(PciLocation { bus, slot, func })
        } else {
            None
        }
    }

    pub fn bus(&self) -> (r: u8)
        ensures
            r == self.bus,
    {
        self.bus
    }

    pub fn slot(&self) -> (r: u8)
        ensures
            r == self.slot,
    {
        self.slot
    }

    pub fn function(&self) -> (r: u8)
        ensures
            r == self.func,
    {
        self.func
    }

    /// The value written to `CONFIG_ADDRESS` to reach `offset` of this header:
    /// dword aligned, with the enable bit (31) set.
    pub fn pci_address(&self, offset: u8) -> (r: u32)
        ensures
            r == config_address(self.bus, self.slot, self.func, offset),
            r & 3 == 0,
            r & 0x8000_0000 == 0x8000_0000,
    {
        let r = ((self.bus as u32) << 16u32) | ((self.slot as u32) << 11u32) | ((self.func as u32)
            << 8u32) | ((offset as u32) & (PCI_CONFIG_ADDRESS_OFFSET_MASK as u32)) | 0x8000_0000u32;
        let b = self.bus;
        let s = self.slot;
        let f = self.func;
        assert(r == config_address(b, s, f, offset)) by (bit_vector)
            requires
                r == ((b as u32) << 16u32) | ((s as u32) << 11u32) | ((f as u32) << 8u32) | ((
                offset as u32) & 0xFCu32) | 0x8000_0000u32,
        ;
        assert(r & 3 == 0 && r & 0x8000_0000 == 0x8000_0000) by (bit_vector)
            requires
                r == config_address(b, s, f, offset),
        ;
        r
    }
}


/// The dword read at `offset`, shifted so that the byte at `offset` comes lowest.
pub open spec fn config_shifted(raw: u32, offset: u8) -> u32 {
    raw >> (((offset & 3u8) as u32) * 8u32)
}

/// The byte at `offset` of the configuration dword `raw` that holds it.
pub open spec fn config_byte(raw: u32, offset: u8) -> u8 {
    config_shifted(raw, offset) as u8
}

/// The word at `offset` of the configuration dword `raw` that holds it.
pub open spec fn config_word(raw: u32, offset: u8) -> u16 {
    config_shifted(raw, offset) as u16
}

/// What a 32-bit configuration read at `offset` yields, given the dword `raw`
/// read from the data port.
pub fn config_dword_at(raw: u32, offset: u8) -> (r: u32)
    ensures
        r == config_shifted(raw, offset),
{
    let shift = ((offset & !PCI_CONFIG_ADDRESS_OFFSET_MASK) as u32) * 8;
    assert(offset & !0xFCu8 == offset & 3u8) by (bit_vector);
    assert((offset & 3u8) <= 3) by (bit_vector);
    raw >> shift
}

/// What a 16-bit configuration read at `offset` yields, given the dword read.
pub fn config_word_at(raw: u32, offset: u8) -> (r: u16)
    ensures
        r == config_word(raw, offset),
{
    config_dword_at(raw, offset) as u16
}

/// What an 8-bit configuration read at `offset` yields, given the dword read.
pub fn config_byte_at(raw: u32, offset: u8) -> (r: u8)
    ensures
        r == config_byte(raw, offset),
{
    config_dword_at(raw, offset) as u8
}

/// The dword written to the data port to store `value` at `offset`: shifted
/// left by 16 bits when `offset` is the upper word of its dword.
pub fn config_write_value(offset: u8, value: u32) -> (r: u32)
    ensures
        r == value << (((offset & 2u8) as u32) * 8u32),
        offset & 2u8 == 0 ==> r == value,
{
    let shift = ((offset & 2) as u32) * 8;
    assert((offset & 2u8) <= 2) by (bit_vector);
    assert(value << 0u32 == value) by (bit_vector);
    value << shift
}

/// The command-register dword to write so that `bits` become set, given the dword
/// `current` read at the command offset; `None` when all of them are set already.
pub fn command_update(current: u32, bits: u16) -> (r: Option<u32>)
    ensures
        current & (bits as u32) == bits as u32 <==> r is None,
        r matches Some(v) ==> v == current | (bits as u32),
{
    if current & (bits as u32) == bits as u32 {
        None
    } else {
        Some(current | (bits as u32))
    }
}

/// Bits [2:1] of a memory BAR hold this value when the BAR is the low half of a
/// 64-bit address.
pub const BAR_ADDRESS_IS_64_BIT: u32 = 2;

/// A BAR's bits [2:1] equal `0b10`: it holds the low half of a 64-bit address.
pub open spec fn is_64_bit_bar(bar: u32) -> bool {
    (bar >> 1u32) & 3u32 == 2u32
}

/// The flag bits of a BAR: two for an I/O BAR (bit 0 set), four for a memory BAR.
pub open spec fn bar_flag_mask(bar: u32) -> u32 {
    if bar & 1u32 == 1u32 {
        3u32
    } else {
        0xFu32
    }
}

/// The size decoded by a BAR, given the value read back after all ones were
/// written to it: the complement of its address bits, plus one.
pub fn bar_size(probed: u32) -> (r: u32)
    ensures
        r == (!(probed & !bar_flag_mask(probed))).wrapping_add(1) as u32,
        r as int == if probed & !bar_flag_mask(probed) == 0 {
            0
        } else {
            0x1_0000_0000 - (probed & !bar_flag_mask(probed)) as int
        },
{
    let mask: u32 = if probed & 1 == 1 {
        3
    } else {
        0xF
    };
    let addr = probed & !mask;
    let r = (!addr).wrapping_add(1);
    assert(addr == 0 ==> !addr == 0xFFFF_FFFFu32) by (bit_vector);
    assert(addr != 0 ==> (!addr) as int + 1 == 0x1_0000_0000 - addr as int) by (bit_vector);
    r
}


/// A PCI function together with a snapshot of its standard configuration header.
#[derive(Clone, Copy, Debug)]
pub struct PciDevice {
    /// Where the function sits in the bus tree.
    pub location: PciLocation,
    pub class: u8,
    pub subclass: u8,
    pub prog_if: u8,
    /// The six Base Address Registers.
    pub bars: [u32; 6],
    pub vendor_id: u16,
    pub device_id: u16,
    pub command: u16,
    pub status: u16,
    pub revision_id: u8,
    pub cache_line_size: u8,
    pub latency_timer: u8,
    pub header_type: u8,
    pub bist: u8,
    pub int_pin: u8,
    pub int_line: u8,
}

/// The number of dwords of the standard configuration header.
pub const HEADER_DWORDS: usize = 16;

/// `d` holds the fields of the header dwords `h` (offsets 0x00 to 0x3F) read at `loc`.
pub open spec fn device_from_header(d: PciDevice, loc: PciLocation, h: Seq<u32>) -> bool {
    &&& h.len() == 16
    &&& d.location == loc
    &&& d.vendor_id == config_word(h[0], 0x0)
    &&& d.device_id == config_word(h[0], 0x2)
    &&& d.command == config_word(h[1], 0x4)
    &&& d.status == config_word(h[1], 0x6)
    &&& d.revision_id == config_byte(h[2], 0x8)
    &&& d.prog_if == config_byte(h[2], 0x9)
    &&& d.subclass == config_byte(h[2], 0xA)
    &&& d.class == config_byte(h[2], 0xB)
    &&& d.cache_line_size == config_byte(h[3], 0xC)
    &&& d.latency_timer == config_byte(h[3], 0xD)
    &&& d.header_type == config_byte(h[3], 0xE)
    &&& d.bist == config_byte(h[3], 0xF)
    &&& d.bars@ == h.subrange(4, 10)
    &&& d.int_line == config_byte(h[15], 0x3C)
    &&& d.int_pin == config_byte(h[15], 0x3D)
}

impl PciDevice {
    /// Builds the device at `location` from its 16 header dwords, the dword at
    /// offset `4 * k` in `header[k]`.
    pub fn from_header(location: PciLocation, header: &[u32]) -> (r: PciDevice)
        requires
            header@.len() == 16,
        ensures
            device_from_header(r, location, header@),
    {
        let bars: [u32; 6] = [header[4], header[5], header[6], header[7], header[8], header[9]];
        let r = PciDevice {
            location,
            vendor_id: config_word_at(header[0], PCI_VENDOR_ID),
            device_id: config_word_at(header[0], PCI_DEVICE_ID),
            command: config_word_at(header[1], PCI_COMMAND),
            status: config_word_at(header[1], PCI_STATUS),
            revision_id: config_byte_at(header[2], PCI_REVISION_ID),
            prog_if: config_byte_at(header[2], PCI_PROG_IF),
            subclass: config_byte_at(header[2], PCI_SUBCLASS),
            class: config_byte_at(header[2], PCI_CLASS),
            cache_line_size: config_byte_at(header[3], PCI_CACHE_LINE_SIZE),
            latency_timer: config_byte_at(header[3], PCI_LATENCY_TIMER),
            header_type: config_byte_at(header[3], PCI_HEADER_TYPE),
            bist: config_byte_at(header[3], PCI_BIST),
            bars,
            int_pin: config_byte_at(header[15], PCI_INTERRUPT_PIN),
            int_line: config_byte_at(header[15], PCI_INTERRUPT_LINE),
        };
        assert(r.bars@ =~= header@.subrange(4, 10));
        r
    }

    /// The I/O base address in BAR `bar_index`: the BAR with its two flag bits cleared.
    pub fn determine_iobase(&self, bar_index: usize) -> (r: Result<u32, &'static str>)
        ensures
            bar_index >= 6 <==> r is Err,
            r matches Ok(v) ==> v == self.bars[bar_index as int] & 0xFFFF_FFFCu32,
    {
        if bar_index >= 6 {
            return Err("BAR index must be between 0 and 5 inclusive");
        }
        Ok(self.bars[bar_index] & 0xFFFF_FFFC)
    }

    /// The memory base address in BAR `bar_index`, with the four flag bits cleared;
    /// a 64-bit BAR takes its high half from the next BAR.
    pub fn mem_base(&self, bar_index: usize) -> (r: Result<u64, &'static str>)
        ensures
            r is Err <==> bar_index >= 6 || (is_64_bit_bar(self.bars[bar_index as int]) && bar_index
                + 1 >= 6),
            r matches Ok(v) ==> {
                let low = (self.bars[bar_index as int] & 0xFFFF_FFF0u32) as int;
                if is_64_bit_bar(self.bars[bar_index as int]) {
                    v == self.bars[bar_index + 1] as int * 0x1_0000_0000 + low
                } else {
                    v == low
                }
            },
    {
        if bar_index >= 6 {
            return Err("BAR index must be between 0 and 5 inclusive");
        }
        let bar = self.bars[bar_index];
        let low = (bar & 0xFFFF_FFF0) as u64;
        if (bar >> 1) & 3 == BAR_ADDRESS_IS_64_BIT {
            if bar_index + 1 >= 6 {
                return Err("a 64-bit BAR needs the next BAR for its high half");
            }
            let high = self.bars[bar_index + 1] as u64;
            let r = (high << 32u64) | low;
            assert(r as int == high as int * 0x1_0000_0000 + low as int) by (bit_vector)
                requires
                    high <= 0xFFFF_FFFF,
                    low <= 0xFFFF_FFFF,
                    r == (high << 32u64) | low,
            ;
            Ok(r)
        } else {
            Ok(low)
        }
    }

    /// Starts sizing BAR `bar_index` of this device.
    pub fn mem_size(&self, bar_index: usize) -> (r: Result<BarSizing, &'static str>)
        ensures
            bar_index >= 6 <==> r is Err,
            r matches Ok(b) ==> b.stage == SizingStage::ReadSaved && b.address == config_address(
                self.location.bus,
                self.location.slot,
                self.location.func,
                (0x10 + 4 * bar_index) as u8,
            ),
    {
        if bar_index >= 6 {
            return Err("BAR index must be between 0 and 5 inclusive");
        }
        let offset = PCI_BAR0 + 4 * (bar_index as u8);
        Ok(BarSizing {
            address: self.location.pci_address(offset),
            saved: 0,
            probed: 0,
            stage: SizingStage::ReadSaved,
        })
    }
}

/// The steps of sizing a BAR.
#[derive(Clone, Copy, Debug, PartialEq, Eq, Structural)]
pub enum SizingStage {
    /// Read the BAR's value, to restore it afterwards.
    ReadSaved,
    /// Write all ones to the BAR.
    WriteOnes,
    /// Read back which address bits stuck.
    ReadProbe,
    /// Write the saved value back.
    Restore,
    Done,
}

/// The sizing of one BAR: write all ones, read back, restore.
#[derive(Clone, Copy, Debug)]
pub struct BarSizing {
    /// Configuration address of the BAR.
    pub address: u32,
    pub saved: u32,
    pub probed: u32,
    pub stage: SizingStage,
}

/// The access that each stage of sizing performs.
pub open spec fn sizing_access(b: BarSizing) -> DeviceAccess {
    match b.stage {
        SizingStage::ReadSaved => DeviceAccess::ConfigRead { address: b.address },
        SizingStage::WriteOnes => DeviceAccess::ConfigWrite { address: b.address, value: 0xFFFF_FFFF },
        SizingStage::ReadProbe => DeviceAccess::ConfigRead { address: b.address },
        SizingStage::Restore => DeviceAccess::ConfigWrite { address: b.address, value: b.saved },
        SizingStage::Done => DeviceAccess::Finished,
    }
}

impl BarSizing {
    /// The access to perform next.
    pub fn action(&self) -> (r: DeviceAccess)
        ensures
            r == sizing_access(*self),
    {
        match self.stage {
            SizingStage::ReadSaved => DeviceAccess::ConfigRead { address: self.address },
            SizingStage::WriteOnes => DeviceAccess::ConfigWrite {
                address: self.address,
                value: 0xFFFF_FFFF,
            },
            SizingStage::ReadProbe => DeviceAccess::ConfigRead { address: self.address },
            SizingStage::Restore => DeviceAccess::ConfigWrite {
                address: self.address,
                value: self.saved,
            },
            SizingStage::Done => DeviceAccess::Finished,
        }
    }

    /// Moves on after the current access; `value` is what a read returned.
    pub fn advance(&mut self, value: u32)
        ensures
            final(self).address == old(self).address,
            old(self).stage == SizingStage::ReadSaved ==> final(self).saved == value,
            old(self).stage != SizingStage::ReadSaved ==> final(self).saved == old(self).saved,
            old(self).stage == SizingStage::ReadProbe ==> final(self).probed == value,
            old(self).stage != SizingStage::ReadProbe ==> final(self).probed == old(self).probed,
            final(self).stage == match old(self).stage {
                SizingStage::ReadSaved => SizingStage::WriteOnes,
                SizingStage::WriteOnes => SizingStage::ReadProbe,
                SizingStage::ReadProbe => SizingStage::Restore,
                SizingStage::Restore => SizingStage::Done,
                SizingStage::Done => SizingStage::Done,
            },
    {
        match self.stage {
            SizingStage::ReadSaved => {
                self.saved = value;
                self.stage = SizingStage::WriteOnes;
            },
            SizingStage::WriteOnes => {
                self.stage = SizingStage::ReadProbe;
            },
            SizingStage::ReadProbe => {
                self.probed = value;
                self.stage = SizingStage::Restore;
            },
            SizingStage::Restore => {
                self.stage = SizingStage::Done;
            },
            SizingStage::Done => {},
        }
    }

    pub fn is_done(&self) -> (r: bool)
        ensures
            r == (self.stage == SizingStage::Done),
    {
        self.stage == SizingStage::Done
    }

    /// The size the BAR decodes, from the value read back.
    pub fn size(&self) -> (r: u32)
        ensures
            r == (!(self.probed & !bar_flag_mask(self.probed))).wrapping_add(1) as u32,
    {
        bar_size(self.probed)
    }
}

/// A bus number and the functions found on that bus, in scan order.
#[derive(Debug)]
pub struct PciBus {
    pub bus_number: u8,
    pub devices: Vec<PciDevice>,
}

/// The devices of all buses, bus after bus.
pub open spec fn all_devices(buses: Seq<PciBus>) -> Seq<PciDevice>
    decreases buses.len(),
{
    if buses.len() == 0 {
        Seq::empty()
    } else {
        all_devices(buses.drop_last()) + buses.last().devices@
    }
}

/// `d` has the given vendor and device IDs.
pub open spec fn has_ids(d: PciDevice, vendor: u16, device: u16) -> bool {
    d.vendor_id == vendor && d.device_id == device
}

/// What a catalog lookup searches for.
#[derive(Clone, Copy)]
enum DeviceKey {
    Ids { vendor: u16, device: u16 },
    Location { bus: u8, slot: u8, func: u8 },
}

spec fn key_matches(d: PciDevice, key: DeviceKey) -> bool {
    match key {
        DeviceKey::Ids { vendor, device } => has_ids(d, vendor, device),
        DeviceKey::Location { bus, slot, func } => d.location.bus == bus && d.location.slot == slot
            && d.location.func == func,
    }
}

/// `r` is the first device of `buses`, bus after bus, that `p` holds of.
pub open spec fn first_device(buses: Seq<PciBus>, p: spec_fn(PciDevice) -> bool, r: Option<PciDevice>) -> bool {
    &&& r is None <==> forall|k: int|
        0 <= k < all_devices(buses).len() ==> !p(#[trigger] all_devices(buses)[k])
    &&& r matches Some(d) ==> exists|k: int|
        0 <= k < all_devices(buses).len() && all_devices(buses)[k] == d && p(d) && forall|m: int|
            0 <= m < k ==> !p(#[trigger] all_devices(buses)[m])
}

proof fn lemma_all_devices_take(buses: Seq<PciBus>, i: int)
    requires
        0 <= i < buses.len(),
    ensures
        all_devices(buses.take(i + 1)) == all_devices(buses.take(i)) + buses[i].devices@,
{
    assert(buses.take(i + 1).drop_last() =~= buses.take(i));
}

fn find_first(buses: &Vec<PciBus>, key: DeviceKey) -> (r: Option<PciDevice>)
    ensures
        first_device(buses@, |d: PciDevice| key_matches(d, key), r),
{
    let mut i: usize = 0;
    while i < buses.len()
        invariant
            i <= buses@.len(),
            forall|k: int|
                0 <= k < all_devices(buses@.take(i as int)).len() ==> !key_matches(
                    #[trigger] all_devices(buses@.take(i as int))[k],
                    key,
                ),
        decreases buses.len() - i,
    {
        let devs = &buses[i].devices;
        proof {
            lemma_all_devices_take(buses@, i as int);
        }
        let ghost prefix = all_devices(buses@.take(i as int));
        let mut j: usize = 0;
        while j < devs.len()
            invariant
                j <= devs@.len(),
                i < buses@.len(),
                devs@ == buses@[i as int].devices@,
                prefix == all_devices(buses@.take(i as int)),
                forall|k: int| 0 <= k < prefix.len() ==> !key_matches(#[trigger] prefix[k], key),
                forall|k: int| 0 <= k < j ==> !key_matches(#[trigger] devs@[k], key),
            decreases devs.len() - j,
        {
            let found = match key {
                DeviceKey::Ids { vendor, device } => devs[j].vendor_id == vendor && devs[j].device_id
                    == device,
                DeviceKey::Location { bus, slot, func } => devs[j].location.bus == bus
                    && devs[j].location.slot == slot && devs[j].location.func == func,
            };
            if found {
                proof {
                    lemma_all_devices_prefix(buses@, i as int);
                    lemma_all_devices_take(buses@, i as int);
                    let all = all_devices(buses@);
                    let next = all_devices(buses@.take(i + 1));
                    let k = prefix.len() + j;
                    assert(next[k] == devs@[j as int]);
                    assert(all[k] == devs@[j as int]);
                    assert forall|m: int| 0 <= m < k implies !key_matches(#[trigger] all[m], key) by {
                        assert(all[m] == next[m]);
                        if m < prefix.len() {
                            assert(next[m] == prefix[m]);
                        } else {
                            assert(next[m] == devs@[m - prefix.len()]);
                        }
                    }
                }
                return Some(devs[j]);
            }
            j += 1;
        }
        proof {
            let next = all_devices(buses@.take(i + 1));
            assert forall|k: int| 0 <= k < next.len() implies !key_matches(#[trigger] next[k], key) by {
                if k < prefix.len() {
                    assert(next[k] == prefix[k]);
                } else {
                    assert(next[k] == devs@[k - prefix.len()]);
                }
            }
        }
        i += 1;
    }
    assert(buses@.take(i as int) =~= buses@);
    None
}

/// The first device of the catalog, bus after bus, with the given vendor and device IDs.
pub fn get_pci_device_id(buses: &Vec<PciBus>, vendor: u16, device: u16) -> (r: Option<PciDevice>)
    ensures
        first_device(buses@, |d: PciDevice| has_ids(d, vendor, device), r),
{
    let r = find_first(buses, DeviceKey::Ids { vendor, device });
    assert(first_device(buses@, |d: PciDevice| has_ids(d, vendor, device), r)) by {
        let p1 = |d: PciDevice| key_matches(d, DeviceKey::Ids { vendor, device });
        let p2 = |d: PciDevice| has_ids(d, vendor, device);
        assert(p1 =~= p2);
    }
    r
}

/// The first device of the catalog at bus/slot/function.
pub fn find_bsf(buses: &Vec<PciBus>, bus: u8, slot: u8, func: u8) -> (r: Option<PciDevice>)
    ensures
        first_device(
            buses@,
            |d: PciDevice| d.location.bus == bus && d.location.slot == slot && d.location.func == func,
            r,
        ),
{
    let r = find_first(buses, DeviceKey::Location { bus, slot, func });
    assert(first_device(
        buses@,
        |d: PciDevice| d.location.bus == bus && d.location.slot == slot && d.location.func == func,
        r,
    )) by {
        let p1 = |d: PciDevice| key_matches(d, DeviceKey::Location { bus, slot, func });
        let p2 = |d: PciDevice| d.location.bus == bus && d.location.slot == slot && d.location.func == func;
        assert(p1 =~= p2);
    }
    r
}

/// Every device of the catalog, bus after bus.
pub fn catalog_devices(buses: &Vec<PciBus>) -> (r: Vec<PciDevice>)
    ensures
        r@ == all_devices(buses@),
{
    let mut r: Vec<PciDevice> = Vec::new();
    let mut i: usize = 0;
    while i < buses.len()
        invariant
            i <= buses@.len(),
            r@ == all_devices(buses@.take(i as int)),
        decreases buses.len() - i,
    {
        let devs = &buses[i].devices;
        let ghost before = r@;
        let mut j: usize = 0;
        while j < devs.len()
            invariant
                j <= devs@.len(),
                r@ == before + devs@.take(j as int),
            decreases devs.len() - j,
        {
            r.push(devs[j]);
            assert(devs@.take(j + 1) =~= devs@.take(j as int).push(devs@[j as int]));
            j += 1;
        }
        proof {
            lemma_all_devices_take(buses@, i as int);
            assert(devs@.take(j as int) =~= devs@);
        }
        i += 1;
    }
    assert(buses@.take(i as int) =~= buses@);
    r
}

/// The devices of the first `i + 1` buses come first among all devices.
proof fn lemma_all_devices_prefix(buses: Seq<PciBus>, i: int)
    requires
        0 <= i < buses.len(),
    ensures
        all_devices(buses).len() >= all_devices(buses.take(i + 1)).len(),
        forall|k: int|
            0 <= k < all_devices(buses.take(i + 1)).len() ==> all_devices(buses)[k]
                == #[trigger] all_devices(buses.take(i + 1))[k],
    decreases buses.len(),
{
    if i + 1 == buses.len() {
        assert(buses.take(i + 1) =~= buses);
    } else {
        let b = buses.drop_last();
        assert(b.take(i + 1) =~= buses.take(i + 1));
        lemma_all_devices_prefix(b, i);
    }
}

} // verus!
