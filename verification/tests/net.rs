use kernel_core::cpu::Cpu;
use kernel_core::error::Error;
use kernel_core::interrupts;
use kernel_core::interrupts::Idt;
use kernel_core::net;
use kernel_core::net::e1000;
use kernel_core::net::e1000::Driver;
use kernel_core::net::e1000::Rdesc;
use kernel_core::net::e1000::Regs;
use kernel_core::net::packet::EtherType;
use kernel_core::net::packet::Ethernet;
use kernel_core::net::packet::Packet;
use kernel_core::net::packet::Protocol;
use kernel_core::net::arp::Arp;
use kernel_core::net::Ipv4Address;
use kernel_core::net::MacAddress;
use kernel_core::pci;
use kernel_core::pci::ConfigFunction;
use kernel_core::pci::ConfigSpace;

/// A well-formed 42-byte frame: Ethernet header with an ARP type field,
/// then a 28-byte ARP body.
fn arp_frame() -> Vec<u8> {
    let mut frame = Vec::new();
    frame.extend_from_slice(&[0xFF, 0xFF, 0xFF, 0xFF, 0xFF, 0xFF]); // destination
    frame.extend_from_slice(&[0x52, 0x54, 0x00, 0x12, 0x34, 0x56]); // source
    frame.extend_from_slice(&[0x08, 0x06]); // type: ARP
    frame.extend_from_slice(&[0x00, 0x01]); // hardware type: Ethernet
    frame.extend_from_slice(&[0x08, 0x00]); // protocol type: IPv4
    frame.extend_from_slice(&[0x06, 0x04]); // hardware len, protocol len
    frame.extend_from_slice(&[0x00, 0x01]); // operation: request
    frame.extend_from_slice(&[0x52, 0x54, 0x00, 0x12, 0x34, 0x56]); // sender MAC
    frame.extend_from_slice(&[10, 0, 0, 1]); // sender IP
    frame.extend_from_slice(&[0x00, 0x00, 0x00, 0x00, 0x00, 0x00]); // target MAC
    frame.extend_from_slice(&[10, 0, 0, 2]); // target IP
    frame
}

#[test]
fn well_formed_arp_frame_decodes_with_split_fields() {
    let frame = arp_frame();
    let packet = Packet::deserialise(&frame).unwrap();

    assert_eq!(packet.ethernet.dst_mac, MacAddress([0xFF; 6]));
    assert_eq!(packet.ethernet.src_mac, MacAddress([0x52, 0x54, 0x00, 0x12, 0x34, 0x56]));
    assert_eq!(packet.ethernet.ether_type, EtherType::Arp);

    let Protocol::Arp(arp) = packet.protocol;
    assert_eq!(arp.hardware_ty, [0x00, 0x01]);
    assert_eq!(arp.protocol_ty, [0x08, 0x00]);
    assert_eq!(arp.hardware_len, 6);
    assert_eq!(arp.protocol_len, 4);
    assert_eq!(arp.operand, 1);
    assert_eq!(arp.src_mac, MacAddress([0x52, 0x54, 0x00, 0x12, 0x34, 0x56]));
    assert_eq!(arp.src_ip, Ipv4Address([10, 0, 0, 1]));
    assert_eq!(arp.dst_mac, MacAddress([0, 0, 0, 0, 0, 0]));
    assert_eq!(arp.dst_ip, Ipv4Address([10, 0, 0, 2]));
}

#[test]
fn unknown_ether_type_is_a_parse_failure_not_a_crash() {
    let mut frame = arp_frame();
    frame[12] = 0x99;
    frame[13] = 0x99;
    assert_eq!(Packet::deserialise(&frame), Err(Error::CouldNotParsePacket));
}

#[test]
fn short_input_is_a_parse_failure() {
    assert_eq!(Packet::deserialise(&[]), Err(Error::CouldNotParsePacket));
    assert_eq!(Packet::deserialise(&arp_frame()[..13]), Err(Error::CouldNotParsePacket));
    // full Ethernet header, truncated ARP body
    assert_eq!(Packet::deserialise(&arp_frame()[..41]), Err(Error::CouldNotParsePacket));
}

#[test]
fn ethernet_prefix_parses_alone() {
    let frame = arp_frame();
    let eth = Ethernet::deserialise(&frame[..14]).unwrap();
    assert_eq!(eth.dst_mac, MacAddress([0xFF; 6]));
    assert_eq!(eth.ether_type, EtherType::Arp);
    assert!(Ethernet::deserialise(&frame[..13]).is_err());
}

#[test]
fn arp_body_parses_alone() {
    let frame = arp_frame();
    let arp = Arp::deserialise(&frame[14..]).unwrap();
    assert_eq!(arp.operand, 1);
    assert!(Arp::deserialise(&frame[14..41]).is_err());
}

#[test]
fn ether_type_mapping_is_the_documented_one() {
    assert_eq!(EtherType::from([0x08, 0x00]), EtherType::IPv4);
    assert_eq!(EtherType::from([0x08, 0x06]), EtherType::Arp);
    assert_eq!(EtherType::from([0x86, 0xDD]), EtherType::IPv6);
    assert_eq!(EtherType::from([0x88, 0xE1]), EtherType::HomePlugAV);
    assert_eq!(EtherType::from([0x12, 0x34]), EtherType::Unknown([0x12, 0x34]));
}

/// An e1000 at (0, 3, 0) with BAR flag bits set and interrupt line 11.
fn e1000_function() -> ConfigFunction {
    let mut regs = [0u32; 16];
    regs[0] = 0x100E_8086;
    regs[2] = 0x0200_0000;
    regs[4] = 0xFEB0_0004;
    regs[5] = 0x0000_C001;
    regs[6] = 0xFEB8_0000;
    regs[15] = 0x0000_010B;
    ConfigFunction { bus: 0, slot: 3, function: 0, regs }
}

/// A register file whose MAC registers spell out a recognizable address.
fn mac_regs() -> Regs {
    Regs {
        ctrl: 0,
        status: 0,
        icr: 0,
        ics: 0,
        ims: 0,
        imc: 0,
        rctl: 0,
        rdbal0: 0,
        rdbah0: 0,
        rdlen0: 0,
        rdh0: 0,
        rdt0: 0,
        ral: 0x1234_5652, // bytes 0x52, 0x56, 0x34, 0x12 ...
        rah: 0x0000_3478, // ... then 0x78, 0x34
    }
}

fn built_driver() -> (Driver, ConfigSpace, Idt, Regs) {
    let mut cs = ConfigSpace { funcs: vec![e1000_function()], address_latch: 0 };
    let mut idt = Idt::init(1, 2);
    let regs = mac_regs();
    let devices = pci::init(&mut cs);
    let driver = Driver::new(&devices[0], &mut cs, &mut idt, &regs, 0x00C0_FFEE);
    (driver, cs, idt, regs)
}

#[test]
fn construction_recovers_windows_mac_and_vector() {
    let (driver, cs, idt, _) = built_driver();

    // the BAR flag bits are masked off
    assert_eq!(driver.mmio_base, 0xFEB0_0000);
    assert_eq!(driver.io_base, 0x0000_C000);
    assert_eq!(driver.flash_base, 0xFEB8_0000);
    assert_eq!(driver.mac(), MacAddress([0x52, 0x56, 0x34, 0x12, 0x78, 0x34]));

    // the device was enabled on the bus
    assert_eq!(cs.funcs[0].regs[1] & 0b111, 0b111);

    // the interrupt vector is the line behind the controller's offset
    let vector = (11 + 0x20) as usize;
    assert_eq!(idt.entries[vector].isr_low, 0xFFEE);
    assert_eq!(idt.entries[vector].isr_high, 0x00C0);
    assert_eq!(idt.entries[vector].attributes, interrupts::INTERRUPT_GATE_ATTRIBUTES);
}

#[test]
fn ring_bring_up_programs_the_documented_registers() {
    let (mut driver, _, _, mut regs) = built_driver();
    driver.init(&mut regs);

    // the ring's byte length: eight descriptors of sixteen bytes
    assert_eq!(regs.rdlen0, 8 * 16);
    assert_eq!(regs.rdh0, 20);
    assert_eq!(regs.rdt0, 4);
    assert_eq!(regs.rdbah0, 0);
    assert_eq!(regs.rdbal0, 0x0010_0000);
    assert_eq!(regs.rctl, 1 << 1 | 1 << 3 | 1 << 4 | 1 << 15 | 1 << 26);
    assert_eq!(regs.ims, 0xFFFF_FFFF);

    assert_eq!(driver.rdescs.len(), 8);
    for (i, desc) in driver.rdescs.iter().enumerate() {
        assert_eq!(desc.buffer, 0x0010_8000 + (i as u64) * 2048);
        assert_eq!(desc.status, 0);
        assert_eq!(desc.len, 0);
    }
}

#[test]
fn tail_wraps_around_the_ring_and_each_advance_clears_its_slot() {
    let (mut driver, _, _, mut regs) = built_driver();
    driver.init(&mut regs);
    assert_eq!(regs.rdt0, 4);

    // the hardware hands software all eight slots
    let frame = arp_frame();
    for i in 0..8 {
        driver.buffers[i][..42].copy_from_slice(&frame);
        driver.rdescs[i] = Rdesc { len: 42, status: 1, ..driver.rdescs[i] };
    }

    let results = driver.receive(&mut regs);

    // advancing the tail eight times from 4 returns to 4
    assert_eq!(regs.rdt0, 4);
    assert_eq!(results.len(), 8);
    for (i, desc) in driver.rdescs.iter().enumerate() {
        // exactly the consumed slot's status is cleared; the rest of the
        // descriptor is untouched
        assert_eq!(desc.status, 0);
        assert_eq!(desc.len, 42);
        assert_eq!(desc.buffer, 0x0010_8000 + (i as u64) * 2048);
    }
    for r in &results {
        assert!(r.is_ok());
    }
}

#[test]
fn receive_decodes_good_frames_and_drops_bad_ones() {
    let (mut driver, _, _, mut regs) = built_driver();
    driver.init(&mut regs);

    let frame = arp_frame();
    driver.buffers[2][..42].copy_from_slice(&frame);
    driver.rdescs[2] = Rdesc { len: 42, status: 1, ..driver.rdescs[2] };
    // slot 5 carries a frame of an unknown type
    let mut bad = frame.clone();
    bad[12] = 0x99;
    driver.buffers[5][..42].copy_from_slice(&bad);
    driver.rdescs[5] = Rdesc { len: 42, status: 4, ..driver.rdescs[5] };

    let results = driver.receive(&mut regs);

    assert_eq!(results.len(), 2);
    let good = results[0].as_ref().unwrap();
    assert_eq!(good.ethernet.ether_type, EtherType::Arp);
    assert_eq!(results[1], Err(Error::CouldNotParsePacket));
    assert_eq!(regs.rdt0, (4 + 2) % 8);
    assert_eq!(driver.rdescs[2].status, 0);
    assert_eq!(driver.rdescs[5].status, 0);
}

#[test]
fn receive_event_drains_and_acknowledges_once() {
    let (mut driver, _, _, mut regs) = built_driver();
    let mut cpu = Cpu::new();
    driver.init(&mut regs);

    let frame = arp_frame();
    driver.buffers[0][..42].copy_from_slice(&frame);
    driver.rdescs[0] = Rdesc { len: 42, status: 1, ..driver.rdescs[0] };
    regs.icr = 1 << 7; // receive timer expired

    let results = e1000::isr(&mut driver, &mut regs, &mut cpu);
    assert_eq!(results.len(), 1);
    assert_eq!(driver.rdescs[0].status, 0);
    // exactly one end-of-interrupt: two acknowledged controllers, each
    // write followed by its settle delay
    assert_eq!(cpu.writes.len(), 4);
}

#[test]
fn other_interrupt_causes_are_acknowledged_but_ignored() {
    let (mut driver, _, _, mut regs) = built_driver();
    let mut cpu = Cpu::new();
    driver.init(&mut regs);

    driver.rdescs[0] = Rdesc { len: 42, status: 1, ..driver.rdescs[0] };
    regs.icr = 1 << 2; // not the receive-timeout cause

    let results = e1000::isr(&mut driver, &mut regs, &mut cpu);
    assert!(results.is_empty());
    // the ring was not touched
    assert_eq!(driver.rdescs[0].status, 1);
    // but the interrupt was still acknowledged exactly once
    assert_eq!(cpu.writes.len(), 4);
}

#[test]
fn find_constructs_the_first_supported_controller() {
    let mut other = e1000_function();
    other.bus = 0;
    other.slot = 1;
    other.regs[0] = 0x1234_8086; // an Intel device this core has no driver for
    let mut cs = ConfigSpace { funcs: vec![other, e1000_function()], address_latch: 0 };
    let mut idt = Idt::init(1, 2);
    let regs = mac_regs();

    let devices = pci::init(&mut cs);
    assert_eq!(devices.len(), 2);
    let driver = net::find(&devices, &mut cs, &mut idt, &regs, 7).unwrap();
    assert_eq!(driver.mmio_base, 0xFEB0_0000);
}

#[test]
fn no_supported_controller_means_no_driver() {
    let mut unsupported = e1000_function();
    unsupported.regs[0] = 0x1234_8086;
    let mut cs = ConfigSpace { funcs: vec![unsupported], address_latch: 0 };
    let mut idt = Idt::init(1, 2);
    let mut regs = mac_regs();

    let devices = pci::init(&mut cs);
    assert!(net::init(&devices, &mut cs, &mut idt, &mut regs, 7).is_none());
}

#[test]
fn network_bring_up_leaves_the_ring_ready() {
    let mut cs = ConfigSpace { funcs: vec![e1000_function()], address_latch: 0 };
    let mut idt = Idt::init(1, 2);
    let mut regs = mac_regs();

    let devices = pci::init(&mut cs);
    let driver = net::init(&devices, &mut cs, &mut idt, &mut regs, 7).unwrap();
    assert_eq!(regs.ims, 0xFFFF_FFFF);
    assert_eq!(regs.rdt0, 4);
    assert_eq!(driver.rdescs.len(), 8);
    assert!(driver.rdescs.iter().all(|d| d.status == 0));
}
