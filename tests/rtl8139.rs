use pci_rtl8139::access::DeviceAccess;
use pci_rtl8139::ethernet::send_empty_frame;
use pci_rtl8139::interrupts::MyInterruptIndex;
use pci_rtl8139::pci::{PciBus, PciDevice, PciLocation};
use pci_rtl8139::rtl8139::{
    init, BringUpStage, InterruptKind, InterruptService, ReceiveOutcome, Receiver, Rtl8139Context,
    Transmitter, RX_BUFFER_SIZE,
};

fn rtl8139_catalog() -> Vec<PciBus> {
    let d = PciDevice {
        location: PciLocation::new(0, 3, 0).unwrap(),
        class: 2,
        subclass: 0,
        prog_if: 0,
        bars: [0xC001, 0, 0, 0, 0, 0],
        vendor_id: 0x10EC,
        device_id: 0x8139,
        command: 0,
        status: 0,
        revision_id: 0x20,
        cache_line_size: 0,
        latency_timer: 0,
        header_type: 0,
        bist: 0,
        int_pin: 1,
        int_line: 11,
    };
    vec![PciBus { bus_number: 0, devices: vec![d] }]
}

#[test]
fn bring_up_sequence() {
    let buses = rtl8139_catalog();
    let mut index = MyInterruptIndex::with_defaults();
    let mut b = init(&buses, &mut index, 0x0012_3400).unwrap();
    assert_eq!(b.io_base, 0xC000);
    assert_eq!(b.irq_vector, Some(0x2B));
    assert_eq!(index.get("RTL8139"), Some(0x2B));
    let command_address = PciLocation::new(0, 3, 0).unwrap().pci_address(0x04);
    let mut accesses = Vec::new();
    let mut command_reg = 0x0290_0000u32;
    let mut reset_polls = 0;
    while !b.is_done() {
        let a = b.action();
        accesses.push(a);
        let value = match a {
            DeviceAccess::ConfigRead { .. } => command_reg,
            DeviceAccess::ConfigWrite { value, .. } => {
                command_reg = value;
                0
            }
            DeviceAccess::Read8 { offset: 0x37 } => {
                reset_polls += 1;
                if reset_polls < 3 { 0x10 } else { 0 }
            }
            DeviceAccess::Read8 { offset } => 0xA0 + offset as u32,
            _ => 0,
        };
        b.advance(value);
    }
    assert_eq!(command_reg & 0x6, 0x6);
    assert_eq!(reset_polls, 3);
    let mut expected = vec![
        DeviceAccess::ConfigRead { address: command_address },
        DeviceAccess::ConfigWrite { address: command_address, value: 0x0290_0006 },
    ];
    for i in 0..6 {
        expected.push(DeviceAccess::Read8 { offset: i });
    }
    expected.push(DeviceAccess::Write8 { offset: 0x52, value: 0x00 });
    expected.push(DeviceAccess::Write8 { offset: 0x37, value: 0x10 });
    for _ in 0..3 {
        expected.push(DeviceAccess::Read8 { offset: 0x37 });
    }
    expected.push(DeviceAccess::Write16 { offset: 0x3C, value: 0x000F });
    expected.push(DeviceAccess::Write8 { offset: 0x37, value: 0x0C });
    expected.push(DeviceAccess::Write32 { offset: 0x30, value: 0x0012_3400 });
    expected.push(DeviceAccess::Write32 { offset: 0x44, value: 0x8A });
    assert_eq!(accesses, expected);
    assert_eq!(b.stage, BringUpStage::Done);
    let ctx = b.context();
    assert_eq!(ctx.io_base, 0xC000);
    assert_eq!(ctx.mac, [0xA0, 0xA1, 0xA2, 0xA3, 0xA4, 0xA5]);
}

#[test]
fn bring_up_skips_write_when_bits_set() {
    let buses = rtl8139_catalog();
    let mut index = MyInterruptIndex::new();
    let mut b = init(&buses, &mut index, 0).unwrap();
    b.advance(0x0000_0007);
    assert_eq!(b.stage, BringUpStage::ReadMac);
}

#[test]
fn bring_up_absent_device() {
    let mut index = MyInterruptIndex::with_defaults();
    assert!(init(&Vec::new(), &mut index, 0).is_none());
    assert_eq!(index.get("RTL8139"), None);
    let mut other = rtl8139_catalog();
    other[0].devices[0].device_id = 0x8168;
    assert!(init(&other, &mut index, 0).is_none());
}

fn run_send(tx: &mut Transmitter, phys: u32, len: u32) -> Vec<DeviceAccess> {
    let mut t = tx.send_packet(phys, len);
    let mut accesses = Vec::new();
    let mut polls = 0;
    while !t.is_done() {
        let a = t.action();
        accesses.push(a);
        let value = match a {
            DeviceAccess::Read32 { .. } => {
                polls += 1;
                if polls < 2 { 0 } else { 0x2000 }
            }
            _ => 0,
        };
        t.advance(value);
    }
    accesses
}

#[test]
fn send_empty_frame_descriptor() {
    let ctx = Rtl8139Context { io_base: 0xC000, mac: [0xAA, 0xBB, 0xCC, 0xDD, 0xEE, 0xFF] };
    let frame = send_empty_frame(&ctx);
    let mut tx = Transmitter::new();
    assert_eq!(tx.descriptor, 0);
    let accesses = run_send(&mut tx, 0x0040_1000, frame.len() as u32);
    assert_eq!(
        accesses,
        vec![
            DeviceAccess::Read32 { offset: 0x10 },
            DeviceAccess::Read32 { offset: 0x10 },
            DeviceAccess::Write32 { offset: 0x20, value: 0x0040_1000 },
            DeviceAccess::Write32 { offset: 0x10, value: 14 },
        ]
    );
    assert_eq!(tx.descriptor, 1);
}

#[test]
fn four_sends_wrap_the_rotor() {
    let mut tx = Transmitter::new();
    let mut rotor = vec![tx.descriptor];
    let mut address_regs = Vec::new();
    for _ in 0..5 {
        for a in run_send(&mut tx, 0x1000, 60) {
            if let DeviceAccess::Write32 { offset, value: 0x1000 } = a {
                address_regs.push(offset);
            }
        }
        rotor.push(tx.descriptor);
    }
    assert_eq!(&rotor[..5], &[0, 1, 2, 3, 0]);
    assert_eq!(address_regs, vec![0x20, 0x24, 0x28, 0x2C, 0x20]);
}

#[test]
fn rotor_advances_from_any_state() {
    for d in 0..4u8 {
        let mut tx = Transmitter { descriptor: d };
        let t = tx.send_packet(0, 0);
        assert_eq!(t.descriptor, d);
        assert_eq!(tx.descriptor, (d + 1) % 4);
    }
}

#[test]
fn receive_one_frame() {
    let mut ring = vec![0u8; RX_BUFFER_SIZE];
    ring[0..4].copy_from_slice(&[0x01, 0x00, 0x10, 0x00]);
    for i in 0..12 {
        ring[4 + i] = 0x30 + i as u8;
    }
    ring[16..20].copy_from_slice(&[0xC1, 0xC2, 0xC3, 0xC4]);
    let mut rx = Receiver::new();
    match rx.receive_packets(&ring) {
        ReceiveOutcome::Frame { payload, capr } => {
            assert_eq!(payload, (0x30..0x3C).collect::<Vec<u8>>());
            assert_eq!(capr, 4);
        }
        other => panic!("unexpected {:?}", other),
    }
    assert_eq!(rx.receive_index, 20);
}

#[test]
fn receive_ring_wrap() {
    let mut ring = vec![0u8; RX_BUFFER_SIZE];
    ring[0x1FF8..0x1FFC].copy_from_slice(&[0x01, 0x00, 0x20, 0x00]);
    for i in 0..32 {
        ring[0x1FFC + i] = i as u8;
    }
    let mut rx = Receiver { receive_index: 0x1FF8 };
    match rx.receive_packets(&ring) {
        ReceiveOutcome::Frame { payload, capr } => {
            assert_eq!(payload, (0..28).collect::<Vec<u8>>());
            assert_eq!(capr, 0x0C);
        }
        other => panic!("unexpected {:?}", other),
    }
    assert_eq!(rx.receive_index, 0x1C);
}

#[test]
fn receive_index_stays_aligned() {
    let mut ring = vec![0u8; RX_BUFFER_SIZE];
    let mut rx = Receiver::new();
    for length in [5u16, 17, 64, 1518] {
        let i = rx.receive_index as usize;
        ring[i..i + 4].copy_from_slice(&[0x01, 0x00, length as u8, (length >> 8) as u8]);
        assert!(matches!(rx.receive_packets(&ring), ReceiveOutcome::Frame { .. }));
        assert_eq!(rx.receive_index % 4, 0);
        assert!(rx.receive_index < 0x2000);
    }
    // 0 + 8, 12 + 21, 36 + 68, 104 + 1522, each rounded up to 4.
    assert_eq!(rx.receive_index, 1628);
}

#[test]
fn receive_capr_wraps_below_sixteen() {
    let mut ring = vec![0u8; RX_BUFFER_SIZE];
    ring[0x1FF0..0x1FF4].copy_from_slice(&[0x01, 0x00, 0x0C, 0x00]);
    let mut rx = Receiver { receive_index: 0x1FF0 };
    match rx.receive_packets(&ring) {
        ReceiveOutcome::Frame { payload, capr } => {
            assert_eq!(payload.len(), 8);
            assert_eq!(capr, 0xFFF0);
        }
        other => panic!("unexpected {:?}", other),
    }
    assert_eq!(rx.receive_index, 0);
}

#[test]
fn receive_status_without_rok() {
    let mut ring = vec![0u8; RX_BUFFER_SIZE];
    ring[0..4].copy_from_slice(&[0x02, 0x00, 0x10, 0x00]);
    let mut rx = Receiver::new();
    assert!(matches!(rx.receive_packets(&ring), ReceiveOutcome::NotOk));
    assert_eq!(rx.receive_index, 0);
}

#[test]
fn receive_malformed_length() {
    let mut ring = vec![0u8; RX_BUFFER_SIZE];
    ring[0..4].copy_from_slice(&[0x01, 0x00, 0x03, 0x00]);
    let mut rx = Receiver::new();
    assert!(matches!(rx.receive_packets(&ring), ReceiveOutcome::Malformed));
    ring[0..4].copy_from_slice(&[0x01, 0x00, 0xFF, 0xFF]);
    assert!(matches!(rx.receive_packets(&ring), ReceiveOutcome::Malformed));
    assert_eq!(rx.receive_index, 0);
}

#[test]
fn interrupt_service_drains_ring() {
    let mut s = InterruptService::new();
    let mut accesses = Vec::new();
    let mut empties = vec![0u32, 0, 1];
    while !s.is_done() {
        let a = s.action();
        accesses.push(a);
        let value = match a {
            DeviceAccess::Read16 { .. } => 0x0005,
            DeviceAccess::Read8 { .. } => empties.remove(0),
            _ => 0,
        };
        s.advance(value);
    }
    assert_eq!(s.kind(), InterruptKind::ReceiveOk);
    assert_eq!(
        accesses,
        vec![
            DeviceAccess::Read16 { offset: 0x3E },
            DeviceAccess::Write16 { offset: 0x3E, value: 0x000F },
            DeviceAccess::Read8 { offset: 0x37 },
            DeviceAccess::ReceiveFrame,
            DeviceAccess::Read8 { offset: 0x37 },
            DeviceAccess::ReceiveFrame,
            DeviceAccess::Read8 { offset: 0x37 },
        ]
    );
}

#[test]
fn interrupt_service_transmit_only() {
    let mut s = InterruptService::new();
    s.advance(0x000C);
    assert_eq!(s.action(), DeviceAccess::Write16 { offset: 0x3E, value: 0x000F });
    s.advance(0);
    assert!(s.is_done());
    assert_eq!(s.kind(), InterruptKind::TransmitOk);
    let mut e = InterruptService::new();
    e.advance(0x000A);
    assert_eq!(e.kind(), InterruptKind::ReceiveError);
    let mut t = InterruptService::new();
    t.advance(0x0008);
    assert_eq!(t.kind(), InterruptKind::TransmitError);
    let mut o = InterruptService::new();
    o.advance(0x0010);
    assert_eq!(o.kind(), InterruptKind::Other);
}
