use pci_rtl8139::access::DeviceAccess;
use pci_rtl8139::pci::{
    bar_size, catalog_devices, command_update, config_byte_at, config_dword_at, config_word_at, config_write_value,
    find_bsf, get_pci_device_id, PciBus, PciDevice, PciLocation, SizingStage,
};
use pci_rtl8139::scan::{functions_to_probe, PciScanner};

/// A configuration space holding the given functions: (bus, slot, func, header).
fn read_fabric(fabric: &[(u8, u8, u8, [u32; 16])], address: u32) -> u32 {
    assert_eq!(address & 0x8000_0003, 0x8000_0000);
    let bus = ((address >> 16) & 0xFF) as u8;
    let slot = ((address >> 11) & 0x1F) as u8;
    let func = ((address >> 8) & 0x7) as u8;
    let dword = ((address & 0xFC) / 4) as usize;
    for (b, s, f, h) in fabric {
        if *b == bus && *s == slot && *f == func {
            return h[dword];
        }
    }
    0xFFFF_FFFF
}

fn scan(fabric: &[(u8, u8, u8, [u32; 16])]) -> (Vec<PciBus>, Vec<u32>) {
    let mut scanner = PciScanner::new();
    let mut reads = Vec::new();
    while let Some(address) = scanner.next_address() {
        reads.push(address);
        scanner.feed(read_fabric(fabric, address));
    }
    assert!(scanner.is_done());
    (scanner.into_buses(), reads)
}

fn rtl8139_header() -> [u32; 16] {
    let mut h = [0u32; 16];
    h[0] = 0x8139_10EC;
    h[1] = 0x0290_0000;
    h[2] = 0x0200_0020;
    h[3] = 0x0000_0000;
    h[4] = 0xC001;
    h[15] = 0x0000_010B;
    h
}

fn device(bars: [u32; 6]) -> PciDevice {
    PciDevice {
        location: PciLocation::new(0, 0, 0).unwrap(),
        class: 0,
        subclass: 0,
        prog_if: 0,
        bars,
        vendor_id: 0x1234,
        device_id: 0x5678,
        command: 0,
        status: 0,
        revision_id: 0,
        cache_line_size: 0,
        latency_timer: 0,
        header_type: 0,
        bist: 0,
        int_pin: 0,
        int_line: 0,
    }
}

#[test]
fn config_address_is_aligned_with_enable_bit() {
    let loc = PciLocation::new(0x12, 0x1F, 0x7).unwrap();
    for offset in [0u8, 1, 2, 3, 0x3E, 0xFF] {
        let a = loc.pci_address(offset);
        assert_eq!(a & 0x3, 0);
        assert_eq!(a & 0x8000_0000, 0x8000_0000);
    }
    assert_eq!(loc.pci_address(0x3E), 0x8012_FF3C);
    let zero = PciLocation::new(0, 0, 0).unwrap();
    assert_eq!(zero.pci_address(0x0E), 0x8000_000C);
}

#[test]
fn location_getters_and_range() {
    let loc = PciLocation::new(3, 4, 5).unwrap();
    assert_eq!((loc.bus(), loc.slot(), loc.function()), (3, 4, 5));
    assert!(PciLocation::new(0, 32, 0).is_none());
    assert!(PciLocation::new(0, 0, 8).is_none());
}

#[test]
fn narrow_reads_shift_by_offset() {
    let raw = 0x8139_10EC;
    assert_eq!(config_dword_at(raw, 0), 0x8139_10EC);
    assert_eq!(config_word_at(raw, 0), 0x10EC);
    assert_eq!(config_word_at(raw, 2), 0x8139);
    assert_eq!(config_byte_at(raw, 1), 0x10);
    assert_eq!(config_byte_at(raw, 3), 0x81);
    assert_eq!(config_write_value(0x6, 0xABCD), 0xABCD_0000);
    assert_eq!(config_write_value(0x4, 0xABCD), 0xABCD);
}

#[test]
fn command_bits_written_only_when_missing() {
    assert_eq!(command_update(0x0290_0001, 0x0006), Some(0x0290_0007));
    assert_eq!(command_update(0x0290_0004, 0x0006), Some(0x0290_0006));
    assert_eq!(command_update(0x0290_0007, 0x0006), None);
}

#[test]
fn catalog_single_rtl8139() {
    let (buses, _) = scan(&[(0, 3, 0, rtl8139_header())]);
    assert_eq!(buses.len(), 1);
    assert_eq!(buses[0].bus_number, 0);
    assert_eq!(buses[0].devices.len(), 1);
    let d = buses[0].devices[0];
    assert_eq!((d.location.bus(), d.location.slot(), d.location.function()), (0, 3, 0));
    assert_eq!((d.vendor_id, d.device_id), (0x10EC, 0x8139));
    assert_eq!(d.header_type, 0);
    assert_eq!((d.class, d.subclass, d.prog_if, d.revision_id), (0x02, 0x00, 0x00, 0x20));
    assert_eq!((d.int_line, d.int_pin), (0x0B, 0x01));
    assert_eq!((d.command, d.status), (0x0000, 0x0290));
    assert_eq!(d.bars, [0xC001, 0, 0, 0, 0, 0]);
    assert_eq!(d.determine_iobase(0), Ok(0xC000));
    let found = get_pci_device_id(&buses, 0x10EC, 0x8139).unwrap();
    assert_eq!(found.location, d.location);
    assert!(get_pci_device_id(&buses, 0x10EC, 0x8168).is_none());
    assert!(find_bsf(&buses, 0, 3, 0).is_some());
    assert!(find_bsf(&buses, 0, 3, 1).is_none());
}

#[test]
fn scan_reads_one_dword_per_empty_slot() {
    let (buses, reads) = scan(&[]);
    assert!(buses.is_empty());
    assert_eq!(reads.len(), 256 * 32);
    let (_, reads) = scan(&[(0, 3, 0, rtl8139_header())]);
    assert_eq!(reads.len(), 256 * 32 - 1 + 16);
}

#[test]
fn scan_never_returns_absent_vendor() {
    let mut absent = rtl8139_header();
    absent[0] = 0xFFFF_FFFF;
    let mut multi = rtl8139_header();
    multi[3] = 0x0080_0000;
    let fabric = [(1, 0, 0, multi), (1, 0, 1, absent), (1, 0, 2, rtl8139_header()), (7, 31, 0, rtl8139_header())];
    let (buses, _) = scan(&fabric);
    assert_eq!(buses.iter().map(|b| b.bus_number).collect::<Vec<_>>(), vec![1, 7]);
    for b in &buses {
        for d in &b.devices {
            assert_ne!(d.vendor_id, 0xFFFF);
            assert_eq!(d.location.bus(), b.bus_number);
        }
    }
    assert_eq!(buses[0].devices.len(), 2);
    assert_eq!(buses[0].devices[1].location.function(), 2);
    let all: Vec<(u8, u8, u8)> = catalog_devices(&buses)
        .iter()
        .map(|d| (d.location.bus(), d.location.slot(), d.location.function()))
        .collect();
    assert_eq!(all, vec![(1, 0, 0), (1, 0, 2), (7, 31, 0)]);
}

#[test]
fn multi_function_slot_probes_all_eight() {
    assert_eq!(functions_to_probe(0x80), 8);
    assert_eq!(functions_to_probe(0x81), 8);
    assert_eq!(functions_to_probe(0x00), 1);
    assert_eq!(functions_to_probe(0x7F), 1);
    let mut multi = rtl8139_header();
    multi[3] = 0x0080_0000;
    let mut fabric = vec![(0u8, 5u8, 0u8, multi)];
    for f in 1..8 {
        fabric.push((0, 5, f, rtl8139_header()));
    }
    let (buses, _) = scan(&fabric);
    assert_eq!(buses[0].devices.len(), 8);
    // Without the multi-function bit, functions above 0 are never probed.
    fabric[0].3 = rtl8139_header();
    let (buses, reads) = scan(&fabric);
    assert_eq!(buses[0].devices.len(), 1);
    let probed_other = reads.iter().any(|a| (a >> 11) & 0x1F == 5 && (a >> 8) & 0x7 != 0);
    assert!(!probed_other);
}

#[test]
fn iobase_out_of_range() {
    let d = device([0xC001, 0, 0, 0, 0, 0xE003]);
    assert_eq!(d.determine_iobase(5), Ok(0xE000));
    assert!(d.determine_iobase(6).is_err());
}

#[test]
fn mem_base_64_bit_pair() {
    let d = device([0xFEB0_000C, 0x0000_0001, 0xFE00_0000, 0, 0, 0x0000_0004]);
    assert_eq!(d.mem_base(0), Ok(0x1_FEB0_0000));
    assert_eq!(d.mem_base(2), Ok(0xFE00_0000));
    assert!(d.mem_base(5).is_err());
    assert!(d.mem_base(6).is_err());
}

#[test]
fn mem_size_of_64k_bar() {
    assert_eq!(bar_size(0xFFFF_0000), 0x10000);
    assert_eq!(bar_size(0xFFFF_0008), 0x10000);
    assert_eq!(bar_size(0xFFFF_FF01), 0x100);
    assert_eq!(bar_size(0), 0);
    let d = device([0xFEB0_0000, 0, 0, 0, 0, 0]);
    assert!(d.mem_size(6).is_err());
    let mut sizing = d.mem_size(0).unwrap();
    let address = d.location.pci_address(0x10);
    let mut accesses = Vec::new();
    let mut bar = 0xFEB0_0000u32;
    while !sizing.is_done() {
        let access = sizing.action();
        accesses.push(access);
        let value = match access {
            DeviceAccess::ConfigRead { .. } => bar,
            DeviceAccess::ConfigWrite { value, .. } => {
                bar = if value == 0xFFFF_FFFF { 0xFFFF_0000 } else { value };
                0
            }
            _ => panic!("unexpected access"),
        };
        sizing.advance(value);
    }
    assert_eq!(sizing.stage, SizingStage::Done);
    assert_eq!(sizing.size(), 0x10000);
    assert_eq!(bar, 0xFEB0_0000);
    assert_eq!(
        accesses,
        vec![
            DeviceAccess::ConfigRead { address },
            DeviceAccess::ConfigWrite { address, value: 0xFFFF_FFFF },
            DeviceAccess::ConfigRead { address },
            DeviceAccess::ConfigWrite { address, value: 0xFEB0_0000 },
        ]
    );
}
