//! Enumeration of the PCI buses as a state machine.
//!
//! The scanner names the configuration address to read next; its owner reads
//! the dword there (write the address to `CONFIG_ADDRESS`, read `CONFIG_DATA`)
//! and hands the value back. Every dword is read once: the 16 header dwords of
//! each function, in order, stopping after the first when the vendor ID reads
//! `0xFFFF`.
use vstd::prelude::*;
use crate::pci::{
    config_address, config_byte, config_byte_at, config_word, config_word_at, device_from_header,
    PciBus, PciDevice, PciLocation, HEADER_DWORDS, MAX_FUNCTIONS_PER_SLOT, MAX_PCI_BUSES,
    MAX_SLOTS_PER_BUS, NO_DEVICE, PCI_HEADER_TYPE, PCI_VENDOR_ID,
};

verus! {

/// The number of functions to probe in a slot whose function 0 has this header
/// type: all eight when bit 7 (multi-function) is set, else function 0 alone.
pub fn functions_to_probe(header_type: u8) -> (r: u8)
    ensures
        header_type & 0x80u8 == 0x80u8 ==> r == 8,
        header_type & 0x80u8 != 0x80u8 ==> r == 1,
{
    if header_type & 0x80 == 0x80 {
        MAX_FUNCTIONS_PER_SLOT
    } else {
        1
    }
}

/// A valid catalog: buses in increasing order, none empty, each device on its
/// own bus, at a valid location, with a vendor ID other than `0xFFFF`.
pub open spec fn catalog_wf(buses: Seq<PciBus>) -> bool {
    &&& forall|i: int, j: int|
        0 <= i < j < buses.len() ==> buses[i].bus_number < buses[j].bus_number
    &&& forall|i: int| 0 <= i < buses.len() ==> #[trigger] buses[i].devices@.len() > 0
    &&& forall|i: int, k: int|
        0 <= i < buses.len() && 0 <= k < buses[i].devices@.len() ==> devices_on_bus_wf(
            #[trigger] buses[i].devices@[k],
            buses[i].bus_number as int,
        )
}

/// `d` is a present function on bus `bus`.
pub open spec fn devices_on_bus_wf(d: PciDevice, bus: int) -> bool {
    &&& d.vendor_id != 0xFFFF
    &&& d.location.wf()
    &&& d.location.bus == bus
}

/// The state of a scan of all buses.
pub struct PciScanner {
    /// The bus being scanned; 256 once the scan is complete.
    pub bus: u16,
    pub slot: u8,
    pub func: u8,
    /// How many functions of the current slot are probed (1 or 8), known once
    /// the header type of function 0 has been read.
    pub functions: u8,
    /// The header dwords of the current function read so far.
    pub header: Vec<u32>,
    /// The devices found so far on the current bus.
    pub devices: Vec<PciDevice>,
    /// The finished buses that hold at least one device.
    pub buses: Vec<PciBus>,
}

impl PciScanner {
    pub open spec fn done(&self) -> bool {
        self.bus == 256
    }

    pub open spec fn wf(&self) -> bool {
        &&& self.bus <= 256
        &&& self.slot < 32
        &&& self.func < 8
        &&& self.functions == 1 || self.functions == 8
        &&& self.func > 0 ==> self.functions == 8
        &&& self.header@.len() < 16
        &&& self.header@.len() > 0 ==> config_word(self.header@[0], 0) != 0xFFFF
        &&& self.done() ==> self.slot == 0 && self.func == 0 && self.header@.len() == 0
            && self.devices@.len() == 0
        &&& catalog_wf(self.buses@)
        &&& forall|i: int| 0 <= i < self.buses@.len() ==> #[trigger] self.buses@[i].bus_number < self.bus
        &&& forall|k: int|
            0 <= k < self.devices@.len() ==> devices_on_bus_wf(#[trigger] self.devices@[k], self.bus as int)
    }

    /// How far the scan has come: the dwords of all functions before the
    /// current one, plus those read of it. It reaches 256 * 32 * 8 * 16 when the
    /// scan is complete.
    pub open spec fn position(&self) -> int {
        ((self.bus as int * 32 + self.slot as int) * 8 + self.func as int) * 16 + self.header@.len()
    }

    /// The configuration address of the next dword to read.
    pub open spec fn next_read(&self) -> u32 {
        config_address(self.bus as u8, self.slot, self.func, (4 * self.header@.len()) as u8)
    }

    /// The location whose header is being read.
    pub open spec fn location(&self) -> PciLocation {
        PciLocation { bus: self.bus as u8, slot: self.slot, func: self.func }
    }

    /// `t` continues at the next slot of `s` (or the next bus) with `devices` found
    /// on the current bus; a finished bus joins the catalog when it holds devices.
    pub open spec fn moved_to_next_slot(s: &PciScanner, devices: Seq<PciDevice>, t: &PciScanner) -> bool {
        &&& t.func == 0
        &&& t.functions == 1
        &&& t.header@.len() == 0
        &&& if s.slot + 1 < 32 {
            &&& t.bus == s.bus
            &&& t.slot == s.slot + 1
            &&& t.devices@ == devices
            &&& t.buses@ == s.buses@
        } else {
            &&& t.bus == s.bus + 1
            &&& t.slot == 0
            &&& t.devices@.len() == 0
            &&& if devices.len() > 0 {
                &&& t.buses@.len() == s.buses@.len() + 1
                &&& t.buses@.drop_last() == s.buses@
                &&& t.buses@.last().bus_number == s.bus
                &&& t.buses@.last().devices@ == devices
            } else {
                t.buses@ == s.buses@
            }
        }
    }

    /// `t` continues at the next function of `s` to probe, or the next slot.
    pub open spec fn moved_to_next_function(s: &PciScanner, devices: Seq<PciDevice>, t: &PciScanner) -> bool {
        if s.func + 1 < s.functions {
            &&& t.bus == s.bus
            &&& t.slot == s.slot
            &&& t.func == s.func + 1
            &&& t.functions == s.functions
            &&& t.header@.len() == 0
            &&& t.devices@ == devices
            &&& t.buses@ == s.buses@
        } else {
            Self::moved_to_next_slot(s, devices, t)
        }
    }

    /// One step of the scan: `t` is `s` after the dword `value` was read at
    /// `s.next_read()`.
    pub open spec fn fed(s: &PciScanner, value: u32, t: &PciScanner) -> bool
    {
        let n = s.header@.len();
        let h = s.header@.push(value);
        if n == 0 && config_word(value, 0) == 0xFFFF {
            if s.func == 0 {
                Self::moved_to_next_slot(s, s.devices@, t)
            } else {
                Self::moved_to_next_function(s, s.devices@, t)
            }
        } else if n + 1 == 16 {
            exists|d: PciDevice|
                device_from_header(d, s.location(), h) && Self::moved_to_next_function(
                    s,
                    s.devices@.push(d),
                    t,
                )
        } else {
            &&& t.bus == s.bus
            &&& t.slot == s.slot
            &&& t.func == s.func
            &&& t.header@ == h
            &&& t.devices@ == s.devices@
            &&& t.buses@ == s.buses@
            &&& if s.func == 0 && n == 3 {
                t.functions == (if config_byte(value, 0xE) & 0x80u8 == 0x80u8 {
                    8u8
                } else {
                    1u8
                })
            } else {
                t.functions == s.functions
            }
        }
    }

    /// A scan that starts at bus 0, slot 0, function 0.
    pub fn new() -> (r: PciScanner)
        ensures
            r.wf(),
            r.bus == 0 && r.slot == 0 && r.func == 0,
            r.header@.len() == 0 && r.devices@.len() == 0 && r.buses@.len() == 0,
    {
        PciScanner {
            bus: 0,
            slot: 0,
            func: 0,
            functions: 1,
            header: Vec::new(),
            devices: Vec::new(),
            buses: Vec::new(),
        }
    }

    pub fn is_done(&self) -> (r: bool)
        ensures
            r == self.done(),
    {
        self.bus == MAX_PCI_BUSES
    }

    /// The configuration address of the next dword to read, `None` once every bus
    /// has been scanned.
    pub fn next_address(&self) -> (r: Option<u32>)
        requires
            self.wf(),
        ensures
            self.done() <==> r is None,
            r matches Some(a) ==> a == self.next_read(),
    {
        if self.bus == MAX_PCI_BUSES {
            return None;
        }
        let loc = PciLocation { bus: self.bus as u8, slot: self.slot, func: self.func };
        Some(loc.pci_address((4 * self.header.len()) as u8))
    }

    fn next_slot(&mut self)
        requires
            old(self).wf(),
            !old(self).done(),
        ensures
            final(self).wf(),
            Self::moved_to_next_slot(&*old(self), old(self).devices@, &*final(self)),
            final(self).position() > old(self).position(),
    {
        proof {
            let s = &*old(self);
            let b = s.bus as int;
            let sl = s.slot as int;
            assert(((b * 32 + sl + 1) * 8) * 16 == ((b * 32 + sl) * 8) * 16 + 128) by (nonlinear_arith);
            assert(((b * 32 + sl) * 8 + s.func as int) * 16 == ((b * 32 + sl) * 8) * 16 + s.func as int * 16) by (nonlinear_arith);
            assert(((b + 1) * 32 * 8) * 16 == (b * 32 * 8) * 16 + 4096) by (nonlinear_arith);
            assert(((b * 32 + 31) * 8) * 16 == (b * 32 * 8) * 16 + 3968) by (nonlinear_arith);
        }
        self.func = 0;
        self.functions = 1;
        self.header = Vec::new();
        if self.slot + 1 < MAX_SLOTS_PER_BUS {
            self.slot = self.slot + 1;
        } else {
            let mut devices: Vec<PciDevice> = Vec::new();
            core::mem::swap(&mut devices, &mut self.devices);
            if devices.len() > 0 {
                let ghost prev = self.buses@;
                self.buses.push(PciBus { bus_number: self.bus as u8, devices });
                assert(self.buses@.drop_last() =~= prev);
            }
            self.bus = self.bus + 1;
            self.slot = 0;
        }
    }

    fn next_function(&mut self)
        requires
            old(self).wf(),
            !old(self).done(),
        ensures
            final(self).wf(),
            Self::moved_to_next_function(&*old(self), old(self).devices@, &*final(self)),
            final(self).position() > old(self).position(),
    {
        if self.func + 1 < self.functions {
            self.func = self.func + 1;
            self.header = Vec::new();
        } else {
            self.next_slot();
        }
    }

    /// Takes the dword read at `next_address()` and moves the scan on.
    /// After the first dword of a function, a vendor ID of `0xFFFF` skips the
    /// function (the whole slot for function 0). The header type in the fourth
    /// dword of function 0 decides how many functions are probed. After the
    /// sixteenth dword the device joins the current bus.
    pub fn feed(&mut self, value: u32)
        requires
            old(self).wf(),
            !old(self).done(),
        ensures
            final(self).wf(),
            old(self).position() < final(self).position() <= 256 * 32 * 8 * 16,
            Self::fed(&*old(self), value, &*final(self)),
    {
        let ghost s0 = *self;
        let n = self.header.len();
        if n == 0 && config_word_at(value, PCI_VENDOR_ID) == NO_DEVICE {
            if self.func == 0 {
                self.next_slot();
            } else {
                self.next_function();
            }
            return;
        }
        self.header.push(value);
        if n == 3 && self.func == 0 {
            self.functions = functions_to_probe(config_byte_at(value, PCI_HEADER_TYPE));
        }
        if self.header.len() == HEADER_DWORDS {
            let loc = PciLocation { bus: self.bus as u8, slot: self.slot, func: self.func };
            let d = PciDevice::from_header(loc, self.header.as_slice());
            assert(d.location.wf());
            assert(self.header@ == s0.header@.push(value));
            assert(loc == s0.location());
            self.devices.push(d);
            self.header = Vec::new();
            self.next_function();
            assert(Self::moved_to_next_function(&s0, s0.devices@.push(d), &*self));
        }
    }

    /// The catalog of a completed scan.
    pub fn into_buses(self) -> (r: Vec<PciBus>)
        requires
            self.wf(),
            self.done(),
        ensures
            r@ == self.buses@,
            catalog_wf(r@),
    {
        self.buses
    }
}


/// The dword `k` of the header of bus `b`, slot `s`, function `f` in the
/// configuration space `fab` (a map from configuration address to dword).
pub open spec fn fabric_dword(fab: spec_fn(u32) -> u32, b: int, s: int, f: int, k: int) -> u32 {
    fab(config_address(b as u8, s as u8, f as u8, (4 * k) as u8))
}

/// The 16 header dwords of bus `b`, slot `s`, function `f`.
pub open spec fn fabric_header(fab: spec_fn(u32) -> u32, b: int, s: int, f: int) -> Seq<u32> {
    Seq::new(16, |k: int| fabric_dword(fab, b, s, f, k))
}

/// The function's vendor ID is not `0xFFFF`.
pub open spec fn fabric_present(fab: spec_fn(u32) -> u32, b: int, s: int, f: int) -> bool {
    config_word(fabric_dword(fab, b, s, f, 0), 0) != 0xFFFF
}

/// The header type of function 0 of the slot has bit 7 set.
pub open spec fn fabric_multi(fab: spec_fn(u32) -> u32, b: int, s: int) -> bool {
    config_byte(fabric_dword(fab, b, s, 0, 3), 0xE) & 0x80u8 == 0x80u8
}

/// A scan finds the function: function 0 of its slot is present, the function
/// is probed (it is function 0, or the slot is multi-function), and it is present.
pub open spec fn fabric_found(fab: spec_fn(u32) -> u32, b: int, s: int, f: int) -> bool {
    &&& fabric_present(fab, b, s, 0)
    &&& f == 0 || fabric_multi(fab, b, s)
    &&& fabric_present(fab, b, s, f)
}

/// The indices `8 * slot + function`, below `n`, of the functions found on bus `b`.
pub open spec fn found_before(fab: spec_fn(u32) -> u32, b: int, n: int) -> Seq<int>
    decreases n,
{
    if n <= 0 {
        Seq::empty()
    } else {
        found_before(fab, b, n - 1) + if fabric_found(fab, b, (n - 1) / 8, (n - 1) % 8) {
            seq![n - 1]
        } else {
            Seq::empty()
        }
    }
}

/// The buses, below `nb`, on which some function is found.
pub open spec fn buses_before(fab: spec_fn(u32) -> u32, nb: int) -> Seq<int>
    decreases nb,
{
    if nb <= 0 {
        Seq::empty()
    } else {
        buses_before(fab, nb - 1) + if found_before(fab, nb - 1, 256).len() > 0 {
            seq![nb - 1]
        } else {
            Seq::empty()
        }
    }
}

/// `devs` are the devices of bus `b` at the function indices `idx`, built from
/// their headers in `fab`.
pub open spec fn devices_match(fab: spec_fn(u32) -> u32, b: int, idx: Seq<int>, devs: Seq<PciDevice>) -> bool {
    &&& devs.len() == idx.len()
    &&& forall|j: int|
        0 <= j < devs.len() ==> device_from_header(
            #[trigger] devs[j],
            PciLocation { bus: b as u8, slot: (idx[j] / 8) as u8, func: (idx[j] % 8) as u8 },
            fabric_header(fab, b, idx[j] / 8, idx[j] % 8),
        )
}

/// `buses` are the buses numbered `bs`, each with the devices found on it.
pub open spec fn buses_match(fab: spec_fn(u32) -> u32, bs: Seq<int>, buses: Seq<PciBus>) -> bool {
    &&& buses.len() == bs.len()
    &&& forall|i: int|
        0 <= i < buses.len() ==> (#[trigger] buses[i]).bus_number == bs[i] && devices_match(
            fab,
            bs[i],
            found_before(fab, bs[i], 256),
            buses[i].devices@,
        )
}

/// `buses` is the catalog of the configuration space `fab`: every bus on which a
/// function is found, in order, with its functions in slot and function order.
pub open spec fn catalog_of(fab: spec_fn(u32) -> u32, buses: Seq<PciBus>) -> bool {
    buses_match(fab, buses_before(fab, 256), buses)
}

impl PciScanner {
    /// The scanner has read, so far, what `fab` holds.
    pub open spec fn tracks(&self, fab: spec_fn(u32) -> u32) -> bool {
        let b = self.bus as int;
        let sl = self.slot as int;
        let f = self.func as int;
        &&& self.wf()
        &&& buses_match(fab, buses_before(fab, b), self.buses@)
        &&& !self.done() ==> {
            &&& forall|k: int|
                0 <= k < self.header@.len() ==> #[trigger] self.header@[k] == fabric_dword(fab, b, sl, f, k)
            &&& (f > 0 || self.header@.len() >= 4) ==> self.functions == if fabric_multi(fab, b, sl) {
                8u8
            } else {
                1u8
            }
            &&& f > 0 ==> fabric_present(fab, b, sl, 0) && fabric_multi(fab, b, sl)
            &&& devices_match(fab, b, found_before(fab, b, 8 * sl + f), self.devices@)
        }
    }
}

/// No function with index in `lo..hi` is found: the found indices below `hi`
/// are those below `lo`.
proof fn lemma_found_skip(fab: spec_fn(u32) -> u32, b: int, lo: int, hi: int)
    requires
        0 <= lo <= hi,
        forall|n: int| lo <= n < hi ==> !fabric_found(fab, b, #[trigger] (n / 8), n % 8),
    ensures
        found_before(fab, b, hi) == found_before(fab, b, lo),
    decreases hi - lo,
{
    if hi > lo {
        lemma_found_skip(fab, b, lo, hi - 1);
        assert(found_before(fab, b, hi) =~= found_before(fab, b, hi - 1));
    }
}

/// Moving on to the next slot keeps the tracked devices when no function of the
/// current slot from `f` on is found.
proof fn lemma_rest_of_slot(fab: spec_fn(u32) -> u32, b: int, sl: int, f: int)
    requires
        0 <= sl < 32,
        0 <= f <= 8,
        forall|g: int| f <= g < 8 ==> !fabric_found(fab, b, sl, g),
    ensures
        found_before(fab, b, 8 * (sl + 1)) == found_before(fab, b, 8 * sl + f),
{
    assert forall|n: int| 8 * sl + f <= n < 8 * (sl + 1) implies !fabric_found(fab, b, #[trigger] (n / 8), n % 8) by {
        assert(n / 8 == sl && n % 8 == n - 8 * sl) by (nonlinear_arith)
            requires
                8 * sl <= n < 8 * sl + 8,
        ;
    }
    lemma_found_skip(fab, b, 8 * sl + f, 8 * (sl + 1));
}

/// Taking function `f` of slot `sl` as found appends its index.
proof fn lemma_found_one(fab: spec_fn(u32) -> u32, b: int, sl: int, f: int)
    requires
        0 <= sl < 32,
        0 <= f < 8,
    ensures
        found_before(fab, b, 8 * sl + f + 1) == found_before(fab, b, 8 * sl + f) + if fabric_found(fab, b, sl, f) {
            seq![8 * sl + f]
        } else {
            Seq::<int>::empty()
        },
{
    assert((8 * sl + f) / 8 == sl && (8 * sl + f) % 8 == f) by (nonlinear_arith)
        requires
            0 <= f < 8,
    ;
}

/// Closing bus `b` with the devices found on it gives the catalog up to `b + 1`.
proof fn lemma_close_bus(
    fab: spec_fn(u32) -> u32,
    s: &PciScanner,
    devices: Seq<PciDevice>,
    t: &PciScanner,
)
    requires
        s.wf(),
        !s.done(),
        s.slot == 31,
        buses_match(fab, buses_before(fab, s.bus as int), s.buses@),
        devices_match(fab, s.bus as int, found_before(fab, s.bus as int, 256), devices),
        PciScanner::moved_to_next_slot(s, devices, t),
    ensures
        buses_match(fab, buses_before(fab, t.bus as int), t.buses@),
{
    let b = s.bus as int;
    let bs = buses_before(fab, b);
    assert(t.bus as int == b + 1);
    if devices.len() > 0 {
        assert(buses_before(fab, b + 1) =~= bs.push(b));
        assert forall|i: int| 0 <= i < t.buses@.len() implies (#[trigger] t.buses@[i]).bus_number
            == buses_before(fab, b + 1)[i] && devices_match(
            fab,
            buses_before(fab, b + 1)[i],
            found_before(fab, buses_before(fab, b + 1)[i], 256),
            t.buses@[i].devices@,
        ) by {
            if i < s.buses@.len() {
                assert(t.buses@[i] == t.buses@.drop_last()[i]);
            }
        }
    } else {
        assert(buses_before(fab, b + 1) =~= bs);
    }
}


/// One step of a scan that reads `fab` keeps the scanner tracking `fab`.
proof fn lemma_feed_tracks(fab: spec_fn(u32) -> u32, s: &PciScanner, t: &PciScanner)
    requires
        s.tracks(fab),
        !s.done(),
        PciScanner::fed(s, fab(s.next_read()), t),
        t.wf(),
    ensures
        t.tracks(fab),
{
    let b = s.bus as int;
    let sl = s.slot as int;
    let f = s.func as int;
    let n = s.header@.len() as int;
    let value = fab(s.next_read());
    assert(value == fabric_dword(fab, b, sl, f, n));
    let h = s.header@.push(value);
    let multi_count: u8 = if fabric_multi(fab, b, sl) {
        8u8
    } else {
        1u8
    };
    if n == 0 && config_word(value, 0) == 0xFFFF {
        assert(!fabric_present(fab, b, sl, f));
        if f == 0 {
            lemma_rest_of_slot(fab, b, sl, 0);
            if sl + 1 < 32 {
                assert(t.tracks(fab));
            } else {
                lemma_close_bus(fab, s, s.devices@, t);
            }
        } else {
            lemma_found_one(fab, b, sl, f);
            if f + 1 < s.functions {
                assert(t.tracks(fab));
            } else {
                lemma_rest_of_slot(fab, b, sl, f + 1);
                if sl + 1 < 32 {
                    assert(t.tracks(fab));
                } else {
                    lemma_close_bus(fab, s, s.devices@, t);
                }
            }
        }
    } else if n + 1 == 16 {
        let d = choose|d: PciDevice|
            device_from_header(d, s.location(), h) && PciScanner::moved_to_next_function(
                s,
                s.devices@.push(d),
                t,
            );
        assert(h =~= fabric_header(fab, b, sl, f));
        assert(fabric_present(fab, b, sl, f)) by {
            assert(h[0] == s.header@[0]);
        }
        if f == 0 {
            assert(fabric_present(fab, b, sl, 0));
        }
        assert(fabric_found(fab, b, sl, f));
        lemma_found_one(fab, b, sl, f);
        let idx = found_before(fab, b, 8 * sl + f + 1);
        let devs = s.devices@.push(d);
        assert(idx.last() == 8 * sl + f);
        assert((8 * sl + f) / 8 == sl && (8 * sl + f) % 8 == f) by (nonlinear_arith)
            requires
                0 <= f < 8,
        ;
        assert(devices_match(fab, b, idx, devs)) by {
            assert forall|j: int| 0 <= j < devs.len() implies device_from_header(
                #[trigger] devs[j],
                PciLocation { bus: b as u8, slot: (idx[j] / 8) as u8, func: (idx[j] % 8) as u8 },
                fabric_header(fab, b, idx[j] / 8, idx[j] % 8),
            ) by {
                if j < s.devices@.len() {
                    assert(devs[j] == s.devices@[j]);
                    assert(idx[j] == found_before(fab, b, 8 * sl + f)[j]);
                }
            }
        }
        assert(s.functions == multi_count);
        if f + 1 < s.functions {
            assert(t.tracks(fab));
        } else {
            assert forall|g: int| f + 1 <= g < 8 implies !fabric_found(fab, b, sl, g) by {
                assert(!fabric_multi(fab, b, sl));
            }
            lemma_rest_of_slot(fab, b, sl, f + 1);
            if sl + 1 < 32 {
                assert(t.tracks(fab));
            } else {
                lemma_close_bus(fab, s, devs, t);
            }
        }
    } else {
        if f == 0 && n == 3 {
            assert(t.functions == multi_count);
        }
        assert forall|k: int| 0 <= k < t.header@.len() implies #[trigger] t.header@[k] == fabric_dword(
            fab,
            b,
            sl,
            f,
            k,
        ) by {
            if k < n {
                assert(t.header@[k] == s.header@[k]);
            }
        }
        assert(t.tracks(fab));
    }
}

/// Every state of a scan that reads `fab`, from a fresh start, tracks `fab`.
proof fn lemma_trace_tracks(fab: spec_fn(u32) -> u32, trace: Seq<PciScanner>, i: int)
    requires
        0 <= i < trace.len(),
        trace[0].tracks(fab),
        forall|j: int| 0 <= j < trace.len() ==> (#[trigger] trace[j]).wf(),
        forall|j: int|
            0 <= j < trace.len() - 1 ==> !(#[trigger] trace[j]).done() && PciScanner::fed(
                &trace[j],
                fab(trace[j].next_read()),
                &trace[j + 1],
            ),
    ensures
        trace[i].tracks(fab),
    decreases i,
{
    if i > 0 {
        lemma_trace_tracks(fab, trace, i - 1);
        lemma_feed_tracks(fab, &trace[i - 1], &trace[i]);
    }
}

/// A complete scan whose every read returned what the configuration space `fab`
/// holds at the address read ends with the catalog of `fab`. `trace` holds the
/// scanner's states, from `new()` to the end of the scan.
pub proof fn lemma_scan_yields_catalog(fab: spec_fn(u32) -> u32, trace: Seq<PciScanner>)
    requires
        trace.len() > 0,
        trace[0].wf(),
        trace[0].bus == 0 && trace[0].slot == 0 && trace[0].func == 0,
        trace[0].header@.len() == 0 && trace[0].devices@.len() == 0 && trace[0].buses@.len() == 0,
        forall|i: int| 0 <= i < trace.len() ==> (#[trigger] trace[i]).wf(),
        forall|i: int|
            0 <= i < trace.len() - 1 ==> !(#[trigger] trace[i]).done() && PciScanner::fed(
                &trace[i],
                fab(trace[i].next_read()),
                &trace[i + 1],
            ),
        trace.last().done(),
    ensures
        catalog_of(fab, trace.last().buses@),
{
    assert(buses_before(fab, 0) =~= Seq::<int>::empty());
    assert(found_before(fab, 0, 0) =~= Seq::<int>::empty());
    assert(trace[0].tracks(fab));
    lemma_trace_tracks(fab, trace, trace.len() - 1);
    assert(trace.last().bus == 256);
}

} // verus!
