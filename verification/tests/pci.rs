use kernel_core::pci;
use kernel_core::pci::ConfigFunction;
use kernel_core::pci::ConfigSpace;
use kernel_core::pci::Id;
use kernel_core::pci::Vendor;

/// An e1000-shaped configuration function at the given triple.
fn e1000_function(bus: u8, slot: u8, function: u8) -> ConfigFunction {
    let mut regs = [0u32; 16];
    regs[0] = 0x100E_8086; // device id 0x100E, vendor id 0x8086
    regs[1] = 0x0010_0000; // status, command all clear
    regs[2] = 0x0200_0003; // class 0x02 (network), subclass 0, revision 3
    regs[3] = 0x0001_0000; // header type 1
    regs[4] = 0xFEB0_0004; // BAR0: an MMIO window with flag bits set
    regs[5] = 0x0000_C001; // BAR1: a port window with the I/O bit set
    regs[6] = 0xFEB8_0000; // BAR2: the flash window
    regs[11] = 0x5678_1234;
    regs[15] = 0x0000_010B; // interrupt pin 1, interrupt line 11
    ConfigFunction { bus, slot, function, regs }
}

fn space_with(funcs: Vec<ConfigFunction>) -> ConfigSpace {
    ConfigSpace { funcs, address_latch: 0 }
}

#[test]
fn present_device_is_enumerated_with_its_header() {
    let mut cs = space_with(vec![e1000_function(0, 3, 0)]);
    let devices = pci::init(&mut cs);

    assert_eq!(devices.len(), 1);
    let d = &devices[0];
    assert_eq!((d.bus, d.slot, d.function), (0, 3, 0));
    assert_eq!(d.header.vendor_id, 0x8086);
    assert_eq!(d.header.device_id, 0x100E);
    assert_eq!(d.header.class_code, 0x02);
    assert_eq!(d.header.revision_id, 3);
    assert_eq!(d.header.header_type, 1);
    assert_eq!(d.header.subsystem_vendor_id, 0x1234);
    assert_eq!(d.header.subsystem_id, 0x5678);
    assert_eq!(d.base_addrs(), [0xFEB0_0004, 0x0000_C001, 0xFEB8_0000, 0, 0, 0]);
    assert_eq!(d.interrupt_line(), 11);
    assert_eq!(d.header.interrupt_pin, 1);
    assert!(d.is_network_controller());
}

#[test]
fn sentinel_vendor_yields_no_device() {
    // a function whose vendor identifier reads as the all-ones sentinel
    let mut absent = e1000_function(1, 2, 3);
    absent.regs[0] = 0xABCD_FFFF;
    let mut cs = space_with(vec![absent, e1000_function(2, 0, 0)]);

    let devices = pci::init(&mut cs);
    assert_eq!(devices.len(), 1);
    assert_eq!((devices[0].bus, devices[0].slot, devices[0].function), (2, 0, 0));
}

#[test]
fn empty_bus_enumerates_nothing() {
    let mut cs = space_with(Vec::new());
    assert!(pci::init(&mut cs).is_empty());
}

#[test]
fn devices_come_out_in_walk_order() {
    let mut cs = space_with(vec![
        e1000_function(5, 0, 1),
        e1000_function(0, 31, 7),
        e1000_function(5, 0, 0),
    ]);
    let devices = pci::init(&mut cs);
    let triples: Vec<(u8, u8, u8)> =
        devices.iter().map(|d| (d.bus, d.slot, d.function)).collect();
    assert_eq!(triples, vec![(0, 31, 7), (5, 0, 0), (5, 0, 1)]);
}

#[test]
fn enable_sets_exactly_the_three_command_bits() {
    let mut cs = space_with(vec![e1000_function(0, 3, 0), e1000_function(0, 4, 0)]);
    let devices = pci::init(&mut cs);

    devices[0].enable(&mut cs);

    assert_eq!(cs.funcs[0].regs[1], 0x0010_0007);
    // every other dword of both functions is untouched
    assert_eq!(cs.funcs[0].regs[0], 0x100E_8086);
    assert_eq!(cs.funcs[1].regs[1], 0x0010_0000);
}

#[test]
fn reads_go_through_the_address_latch() {
    let mut cs = space_with(vec![e1000_function(1, 2, 3)]);

    // the documented encoding: enable, bus 1, slot 2, function 3, dword 0
    cs.out_addr(0x8000_0000 | 1 << 16 | 2 << 11 | 3 << 8);
    assert_eq!(cs.in_data(), 0x100E_8086);

    // same triple, the status/command dword
    cs.out_addr(0x8000_0000 | 1 << 16 | 2 << 11 | 3 << 8 | 4);
    assert_eq!(cs.in_data(), 0x0010_0000);

    // a triple where nothing answers reads all-ones
    cs.out_addr(0x8000_0000 | 7 << 16);
    assert_eq!(cs.in_data(), 0xFFFF_FFFF);

    // without the enable bit the data port reads all-ones
    cs.out_addr(1 << 16 | 2 << 11 | 3 << 8);
    assert_eq!(cs.in_data(), 0xFFFF_FFFF);
}

#[test]
fn vendor_and_id_classify_known_hardware() {
    assert_eq!(Vendor::from(0x8086), Vendor::Intel);
    assert_eq!(Vendor::from(0x10EC), Vendor::Unknown);
    assert_eq!(Id::from(0x100E), Id::E1000);
    assert_eq!(Id::from(0x1533), Id::Unknown);

    let mut cs = space_with(vec![e1000_function(0, 0, 0)]);
    let devices = pci::init(&mut cs);
    assert_eq!(devices[0].vendor(), Vendor::Intel);
    assert_eq!(devices[0].id(), Id::E1000);
}
