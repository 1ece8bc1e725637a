use pci_rtl8139::interrupts::{init_idt, regiser_interrupt, IdtVectors, MyInterruptIndex};

#[test]
fn index_lookup_first_match() {
    let mut index = MyInterruptIndex::new();
    assert_eq!(index.get("Timer"), None);
    index.insert("Timer", 0x20);
    index.insert("Timer", 0x30);
    assert_eq!(index.get("Timer"), Some(0x20));
    assert_eq!(index.get("Time"), None);
}

#[test]
fn register_line_adds_pic_offset() {
    let mut index = MyInterruptIndex::with_defaults();
    assert_eq!(index.get("Timer"), Some(0x20));
    assert_eq!(index.get("Keyboard"), Some(0x21));
    assert!(regiser_interrupt(&mut index, "RTL8139", 11));
    assert_eq!(index.get("RTL8139"), Some(0x2B));
    assert!(regiser_interrupt(&mut index, "Last", 0xDF));
    assert_eq!(index.get("Last"), Some(0xFF));
    assert!(!regiser_interrupt(&mut index, "Beyond", 0xE0));
    assert_eq!(index.get("Beyond"), None);
}

#[test]
fn idt_vectors_by_name() {
    let mut index = MyInterruptIndex::with_defaults();
    assert_eq!(init_idt(&index), Some(IdtVectors { timer: 0x20, keyboard: 0x21, rtl8139: None }));
    regiser_interrupt(&mut index, "RTL8139", 11);
    assert_eq!(init_idt(&index), Some(IdtVectors { timer: 0x20, keyboard: 0x21, rtl8139: Some(0x2B) }));
    assert_eq!(init_idt(&MyInterruptIndex::new()), None);
}
