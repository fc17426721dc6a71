//! Networking: the NIC driver, its receive-descriptor ring, and the frame
//! codec that turns received bytes into typed frames.

pub mod arp;
pub mod e1000;
pub mod packet;

use vstd::prelude::*;

use crate::error::Error;
use crate::interrupts;
use crate::interrupts::Idt;
use crate::pci;
use crate::pic;

verus! {

/// A 48-bit link-layer address.
#[derive(Clone, Copy, PartialEq, Eq, Debug)]
pub struct MacAddress(pub [u8; 6]);

impl View for MacAddress {
    type V = Seq<u8>;

    open spec fn view(&self) -> Seq<u8> {
        self.0@
    }
}

/// A 32-bit internet address, kept as its four network-order bytes.
#[derive(Clone, Copy, PartialEq, Eq, Debug)]
pub struct Ipv4Address(pub [u8; 4]);

impl View for Ipv4Address {
    type V = Seq<u8>;

    open spec fn view(&self) -> Seq<u8> {
        self.0@
    }
}

/// The capability set every network card driver offers: construct from a
/// matched PCI device, bring the hardware up, report the MAC, and service
/// a receive event. `Mmio` is the model of the card's register window,
/// and the two spec functions name the driver's invariant and what it
/// needs of the registers; the exact programming contracts live on the
/// implementing driver.
pub trait NetworkCard: Sized {
    /// The model of the card's MMIO register window.
    type Mmio;

    /// The driver's internal invariant.
    spec fn inv(&self) -> bool;

    /// What the driver needs of the register state before servicing
    /// receive.
    spec fn ready(mmio: Self::Mmio) -> bool;

    /// Construct the driver from its PCI device: recover its windows,
    /// enable the device and register its interrupt vector.
    fn new(
        device: &pci::Device,
        cs: &mut pci::ConfigSpace,
        idt: &mut Idt,
        mmio: &Self::Mmio,
        handler: u32,
    ) -> (r: Self)
        requires
            old(cs).wf(),
            old(idt).wf(),
            device.wf(),
            device.header.interrupt_line + crate::pic::IRQ0_OFFSET <= u8::MAX,
        ensures
            r.inv(),
            final(cs).wf(),
            final(idt).wf(),
    ;

    /// Program the card for reception.
    fn init(&mut self, mmio: &mut Self::Mmio)
        requires
            old(self).inv(),
        ensures
            final(self).inv(),
    ;

    /// The card's MAC address.
    fn mac(&self) -> MacAddress;

    /// Service a receive event: drain ready frames and hand the slots
    /// back to the hardware.
    fn receive(&mut self, mmio: &mut Self::Mmio) -> (results: Vec<
        Result<packet::Packet, Error>,
    >)
        requires
            old(self).inv(),
            Self::ready(*old(mmio)),
        ensures
            final(self).inv(),
    ;
}

impl NetworkCard for e1000::Driver {
    type Mmio = e1000::Regs;

    open spec fn inv(&self) -> bool {
        self.wf()
    }

    open spec fn ready(mmio: e1000::Regs) -> bool {
        mmio.rdt0 < e1000::RDESCS_LENGTH
    }

    fn new(
        device: &pci::Device,
        cs: &mut pci::ConfigSpace,
        idt: &mut Idt,
        mmio: &e1000::Regs,
        handler: u32,
    ) -> (r: Self) {
        e1000::Driver::new(device, cs, idt, mmio, handler)
    }

    fn init(&mut self, mmio: &mut e1000::Regs) {
        e1000::Driver::init(self, mmio)
    }

    fn mac(&self) -> MacAddress {
        e1000::Driver::mac(self)
    }

    fn receive(&mut self, mmio: &mut e1000::Regs) -> (results: Vec<
        Result<packet::Packet, Error>,
    >) {
        e1000::Driver::receive(self, mmio)
    }
}

/// Whether this core has a driver for the device: a network controller
/// with the known (vendor, device) pair.
pub open spec fn is_supported(d: pci::Device) -> bool {
    &&& d.header.class_code == pci::NETWORK_CONTROLLER_CLASS
    &&& d.header.vendor_id == 0x8086
    &&& d.header.device_id == 0x100E
}

/// Whether `k` is the first supported device of the list, the one the
/// driver is constructed from.
pub open spec fn found_at(devices: Seq<pci::Device>, k: int) -> bool {
    &&& 0 <= k < devices.len()
    &&& is_supported(devices[k])
    &&& forall|j: int| 0 <= j < k ==> !is_supported(#[trigger] devices[j])
}

/// Scan the device list for the first supported network controller and
/// construct its driver; none found leaves every state untouched.
pub fn find(
    devices: &Vec<pci::Device>,
    cs: &mut pci::ConfigSpace,
    idt: &mut Idt,
    regs: &e1000::Regs,
    handler: u32,
) -> (r: Option<e1000::Driver>)
    requires
        old(cs).wf(),
        old(idt).wf(),
        forall|k: int| 0 <= k < devices@.len() ==> (#[trigger] devices@[k]).wf(),
        forall|k: int|
            0 <= k < devices@.len() && is_supported(#[trigger] devices@[k])
                ==> devices@[k].header.interrupt_line + pic::IRQ0_OFFSET <= u8::MAX,
    ensures
        final(cs).wf(),
        final(idt).wf(),
        r is None ==> {
            &&& forall|k: int| 0 <= k < devices@.len() ==> !is_supported(#[trigger] devices@[k])
            &&& *final(cs) == *old(cs)
            &&& *final(idt) == *old(idt)
        },
        r matches Some(d) ==> exists|k: int|
            {
                &&& #[trigger] found_at(devices@, k)
                &&& d.wf()
                &&& e1000::driver_matches(d, devices@[k], *regs)
                &&& pci::enable_effect(
                    old(cs).funcs@,
                    final(cs).funcs@,
                    devices@[k].bus,
                    devices@[k].slot,
                    devices@[k].function,
                )
                &&& final(idt).entries@ == old(idt).entries@.update(
                    devices@[k].header.interrupt_line + pic::IRQ0_OFFSET,
                    interrupts::gate(handler, interrupts::INTERRUPT_GATE_ATTRIBUTES),
                )
            },
{
    let mut i: usize = 0;
    while i < devices.len()
        invariant
            cs.wf(),
            idt.wf(),
            *cs == *old(cs),
            *idt == *old(idt),
            i <= devices@.len(),
            forall|k: int| 0 <= k < devices@.len() ==> (#[trigger] devices@[k]).wf(),
            forall|k: int|
                0 <= k < devices@.len() && is_supported(#[trigger] devices@[k])
                    ==> devices@[k].header.interrupt_line + pic::IRQ0_OFFSET <= u8::MAX,
            forall|j: int| 0 <= j < i ==> !is_supported(#[trigger] devices@[j]),
        decreases devices@.len() - i,
    {
        let device = &devices[i];
        if device.is_network_controller() {
            match (device.vendor(), device.id()) {
                (pci::Vendor::Intel, pci::Id::E1000) => {
                    let driver = e1000::Driver::new(device, cs, idt, regs, handler);
                    proof {
                        assert(found_at(devices@, i as int));
                    }
                    return Some(driver);
                },
                _ => {},
            }
        }
        i += 1;
    }
    None
}

/// Bring networking up: find the first supported controller, construct
/// its driver and program it for reception. Returns no driver exactly
/// when no supported controller is on the bus — a fatal boot condition
/// for a kernel that needs the network, left to the caller to halt on.
pub fn init(
    devices: &Vec<pci::Device>,
    cs: &mut pci::ConfigSpace,
    idt: &mut Idt,
    regs: &mut e1000::Regs,
    handler: u32,
) -> (r: Option<e1000::Driver>)
    requires
        old(cs).wf(),
        old(idt).wf(),
        forall|k: int| 0 <= k < devices@.len() ==> (#[trigger] devices@[k]).wf(),
        forall|k: int|
            0 <= k < devices@.len() && is_supported(#[trigger] devices@[k])
                ==> devices@[k].header.interrupt_line + pic::IRQ0_OFFSET <= u8::MAX,
    ensures
        final(cs).wf(),
        final(idt).wf(),
        r is None ==> {
            &&& forall|k: int| 0 <= k < devices@.len() ==> !is_supported(#[trigger] devices@[k])
            &&& *final(cs) == *old(cs)
            &&& *final(idt) == *old(idt)
            &&& *final(regs) == *old(regs)
        },
        r matches Some(d) ==> {
            &&& d.wf()
            &&& e1000::ring_initialized(d)
            &&& e1000::init_regs_programmed(*final(regs), *old(regs))
            &&& exists|k: int|
                {
                    &&& #[trigger] found_at(devices@, k)
                    &&& e1000::driver_matches(d, devices@[k], *old(regs))
                    &&& pci::enable_effect(
                        old(cs).funcs@,
                        final(cs).funcs@,
                        devices@[k].bus,
                        devices@[k].slot,
                        devices@[k].function,
                    )
                    &&& final(idt).entries@ == old(idt).entries@.update(
                        devices@[k].header.interrupt_line + pic::IRQ0_OFFSET,
                        interrupts::gate(handler, interrupts::INTERRUPT_GATE_ATTRIBUTES),
                    )
                }
        },
{
    let found = find(devices, cs, idt, regs, handler);
    match found {
        Some(mut driver) => {
            driver.init(regs);
            Some(driver)
        },
        None => None,
    }
}

} // verus!
