//! Driver for an e1000-class network controller: its MMIO register file,
//! its fixed-depth receive descriptor ring, and its interrupt service
//! path.
//!
//! On hardware the register file is a window of the device's first base
//! address register and the ring lives at a fixed physical address; here
//! [`Regs`] carries the registers this driver programs, with reads and
//! writes routed by the documented offsets, and the [`Driver`] owns the
//! descriptor ring and the packet buffers the hardware would share with
//! it.

use vstd::prelude::*;

use crate::cpu::Cpu;
use crate::error::Error;
use crate::interrupts;
use crate::interrupts::Idt;
use crate::net::MacAddress;
use crate::net::packet::Packet;
use crate::net::packet::packet_matches;
use crate::net::packet::packet_parses;
use crate::pci;
use crate::pci::ConfigSpace;
use crate::pci::Device;
use crate::pic;

verus! {

/// Size in bytes of one packet buffer.
pub const PACKET_SIZE: usize = 2048;
/// Physical address of the descriptor ring.
pub const RDESCS_BASE_ADDR: u64 = 0x100_000;
/// Depth of the descriptor ring.
pub const RDESCS_LENGTH: u32 = 8;
/// Size in bytes of one receive descriptor.
pub const RDESC_SIZE: u32 = 16;
/// Physical address of the packet buffer pool.
pub const RECEIVE_BUFFER_BASE_ADDR: u64 = 0x108_000;
/// Initial head index programmed into the controller.
pub const RECEIVE_QUEUE_HEAD_START: u32 = 20;
/// Initial tail index programmed into the controller.
pub const RECEIVE_QUEUE_TAIL_START: u32 = 4;

/// Device control register offset.
pub const REG_CTRL: u32 = 0x0000;
/// Device status register offset.
pub const REG_STATUS: u32 = 0x0008;
/// Interrupt cause read register offset.
pub const REG_ICR: u32 = 0x00C0;
/// Interrupt cause set register offset.
pub const REG_ICS: u32 = 0x00C8;
/// Interrupt mask set register offset.
pub const REG_IMS: u32 = 0x00D0;
/// Interrupt mask clear register offset (write only).
pub const REG_IMC: u32 = 0x00D8;
/// Receive control register offset.
pub const REG_RCTL: u32 = 0x0100;
/// Receive descriptor base address, low half.
pub const REG_RDBAL0: u32 = 0x2800;
/// Receive descriptor base address, high half.
pub const REG_RDBAH0: u32 = 0x2804;
/// Receive descriptor ring length register.
pub const REG_RDLEN0: u32 = 0x2808;
/// Receive descriptor head register.
pub const REG_RDH0: u32 = 0x2810;
/// Receive descriptor tail register.
pub const REG_RDT0: u32 = 0x2818;
/// MAC address register, low half.
pub const REG_RAL: u32 = 0x5400;
/// MAC address register, high half.
pub const REG_RAH: u32 = 0x5404;

/// Interrupt cause bit: receive timer expired, frames are ready.
pub const ICS_RXTO: u32 = 1 << 7;

/// Receive control: enable reception.
pub const RCTL_ENABLE: u32 = 1 << 1;
/// Receive control: accept every unicast frame.
pub const RCTL_UNICAST_PROMISCUOUS: u32 = 1 << 3;
/// Receive control: accept every multicast frame.
pub const RCTL_MULTICAST_PROMISCUOUS: u32 = 1 << 4;
/// Receive control: accept broadcast frames.
pub const RCTL_ACCEPT_BROADCAST: u32 = 1 << 15;
/// Receive control: strip the frame checksum.
pub const RCTL_STRIP_CRC: u32 = 1 << 26;

/// The controller's MMIO register window: the registers this driver
/// programs or reads, each a 32-bit register at its documented offset.
#[derive(Clone, Copy, PartialEq, Eq, Structural, Debug)]
pub struct Regs {
    pub ctrl: u32,
    pub status: u32,
    pub icr: u32,
    pub ics: u32,
    pub ims: u32,
    pub imc: u32,
    pub rctl: u32,
    pub rdbal0: u32,
    pub rdbah0: u32,
    pub rdlen0: u32,
    pub rdh0: u32,
    pub rdt0: u32,
    pub ral: u32,
    pub rah: u32,
}

/// What a read of the register at `offset` returns; an unmodeled offset
/// reads as zero.
pub open spec fn reg_read(regs: Regs, offset: u32) -> u32 {
    if offset == REG_CTRL {
        regs.ctrl
    } else if offset == REG_STATUS {
        regs.status
    } else if offset == REG_ICR {
        regs.icr
    } else if offset == REG_ICS {
        regs.ics
    } else if offset == REG_IMS {
        regs.ims
    } else if offset == REG_IMC {
        regs.imc
    } else if offset == REG_RCTL {
        regs.rctl
    } else if offset == REG_RDBAL0 {
        regs.rdbal0
    } else if offset == REG_RDBAH0 {
        regs.rdbah0
    } else if offset == REG_RDLEN0 {
        regs.rdlen0
    } else if offset == REG_RDH0 {
        regs.rdh0
    } else if offset == REG_RDT0 {
        regs.rdt0
    } else if offset == REG_RAL {
        regs.ral
    } else if offset == REG_RAH {
        regs.rah
    } else {
        0
    }
}

/// The register file after a write to the register at `offset`; a write
/// to an unmodeled offset changes nothing.
pub open spec fn reg_write(regs: Regs, offset: u32, value: u32) -> Regs {
    if offset == REG_CTRL {
        Regs { ctrl: value, ..regs }
    } else if offset == REG_STATUS {
        Regs { status: value, ..regs }
    } else if offset == REG_ICR {
        Regs { icr: value, ..regs }
    } else if offset == REG_ICS {
        Regs { ics: value, ..regs }
    } else if offset == REG_IMS {
        Regs { ims: value, ..regs }
    } else if offset == REG_IMC {
        Regs { imc: value, ..regs }
    } else if offset == REG_RCTL {
        Regs { rctl: value, ..regs }
    } else if offset == REG_RDBAL0 {
        Regs { rdbal0: value, ..regs }
    } else if offset == REG_RDBAH0 {
        Regs { rdbah0: value, ..regs }
    } else if offset == REG_RDLEN0 {
        Regs { rdlen0: value, ..regs }
    } else if offset == REG_RDH0 {
        Regs { rdh0: value, ..regs }
    } else if offset == REG_RDT0 {
        Regs { rdt0: value, ..regs }
    } else if offset == REG_RAL {
        Regs { ral: value, ..regs }
    } else if offset == REG_RAH {
        Regs { rah: value, ..regs }
    } else {
        regs
    }
}

/// One receive descriptor, 16 bytes as the hardware lays it out. A
/// nonzero status means the hardware has written a frame of `len` bytes
/// into the matching buffer; clearing the status returns the slot to the
/// hardware.
#[derive(Clone, Copy, PartialEq, Eq, Structural, Debug)]
pub struct Rdesc {
    pub buffer: u64,
    pub len: u16,
    pub checksum: u16,
    pub status: u8,
    pub errors: u8,
    pub special: u16,
}

/// The all-zero descriptor.
pub open spec fn zero_rdesc() -> Rdesc {
    Rdesc { buffer: 0, len: 0, checksum: 0, status: 0, errors: 0, special: 0 }
}

impl Default for Rdesc {
    /// The all-zero descriptor: no buffer assigned, slot owned by
    /// hardware.
    fn default() -> (r: Rdesc)
        ensures
            r == zero_rdesc(),
    {
        Rdesc { buffer: 0, len: 0, checksum: 0, status: 0, errors: 0, special: 0 }
    }
}

/// The six MAC address bytes as the two address registers hold them,
/// least-significant byte first.
pub open spec fn mac_bytes(ral: u32, rah: u32) -> Seq<u8> {
    seq![
        (ral & 0xFF) as u8,
        ((ral >> 8) & 0xFF) as u8,
        ((ral >> 16) & 0xFF) as u8,
        ((ral >> 24) & 0xFF) as u8,
        (rah & 0xFF) as u8,
        ((rah >> 8) & 0xFF) as u8,
    ]
}

/// The e1000 driver: the windows it found in the device's base address
/// registers, the MAC it read, and the receive ring it shares with the
/// hardware.
#[derive(Debug)]
pub struct Driver {
    pub mmio_base: u32,
    pub io_base: u32,
    pub flash_base: u32,
    pub mac_addr: MacAddress,
    pub rdescs: Vec<Rdesc>,
    pub buffers: Vec<Vec<u8>>,
}

impl Driver {
    /// The ring and its buffer pool have the fixed depth, every buffer is
    /// one packet slot, and a descriptor the hardware has filled reports
    /// a length that fits its buffer.
    pub open spec fn wf(&self) -> bool {
        &&& self.rdescs@.len() == RDESCS_LENGTH
        &&& self.buffers@.len() == RDESCS_LENGTH
        &&& forall|i: int| 0 <= i < RDESCS_LENGTH ==> (#[trigger] self.buffers@[i])@.len() == PACKET_SIZE
        &&& forall|i: int|
            0 <= i < RDESCS_LENGTH && (#[trigger] self.rdescs@[i]).status != 0
                ==> self.rdescs@[i].len <= PACKET_SIZE
    }

    /// Read a register of the MMIO window.
    pub fn read(&self, regs: &Regs, register_offset: u32) -> (r: u32)
        ensures
            r == reg_read(*regs, register_offset),
    {
        if register_offset == REG_CTRL {
            regs.ctrl
        } else if register_offset == REG_STATUS {
            regs.status
        } else if register_offset == REG_ICR {
            regs.icr
        } else if register_offset == REG_ICS {
            regs.ics
        } else if register_offset == REG_IMS {
            regs.ims
        } else if register_offset == REG_IMC {
            regs.imc
        } else if register_offset == REG_RCTL {
            regs.rctl
        } else if register_offset == REG_RDBAL0 {
            regs.rdbal0
        } else if register_offset == REG_RDBAH0 {
            regs.rdbah0
        } else if register_offset == REG_RDLEN0 {
            regs.rdlen0
        } else if register_offset == REG_RDH0 {
            regs.rdh0
        } else if register_offset == REG_RDT0 {
            regs.rdt0
        } else if register_offset == REG_RAL {
            regs.ral
        } else if register_offset == REG_RAH {
            regs.rah
        } else {
            0
        }
    }

    /// Write a register of the MMIO window.
    pub fn write(&self, regs: &mut Regs, register_offset: u32, value: u32)
        ensures
            *final(regs) == reg_write(*old(regs), register_offset, value),
    {
        if register_offset == REG_CTRL {
            regs.ctrl = value;
        } else if register_offset == REG_STATUS {
            regs.status = value;
        } else if register_offset == REG_ICR {
            regs.icr = value;
        } else if register_offset == REG_ICS {
            regs.ics = value;
        } else if register_offset == REG_IMS {
            regs.ims = value;
        } else if register_offset == REG_IMC {
            regs.imc = value;
        } else if register_offset == REG_RCTL {
            regs.rctl = value;
        } else if register_offset == REG_RDBAL0 {
            regs.rdbal0 = value;
        } else if register_offset == REG_RDBAH0 {
            regs.rdbah0 = value;
        } else if register_offset == REG_RDLEN0 {
            regs.rdlen0 = value;
        } else if register_offset == REG_RDH0 {
            regs.rdh0 = value;
        } else if register_offset == REG_RDT0 {
            regs.rdt0 = value;
        } else if register_offset == REG_RAL {
            regs.ral = value;
        } else if register_offset == REG_RAH {
            regs.rah = value;
        }
    }
}

/// The receive-control value programmed at ring bring-up: reception
/// enabled, unicast/multicast promiscuous, broadcast accepted, checksum
/// stripped.
pub const RCTL_INIT: u32 = RCTL_ENABLE | RCTL_UNICAST_PROMISCUOUS | RCTL_MULTICAST_PROMISCUOUS
    | RCTL_ACCEPT_BROADCAST | RCTL_STRIP_CRC;

/// How a driver value corresponds to the device it was constructed from
/// and the registers it read: the MMIO window is the first base address
/// register with its flag bits masked, the port window the second, the
/// flash window the third, and the MAC is the six bytes of the address
/// register pair.
pub open spec fn driver_matches(d: Driver, dev: Device, regs: Regs) -> bool {
    &&& d.mmio_base == dev.header.base_addrs@[0] & !0b1111u32
    &&& d.io_base == dev.header.base_addrs@[1] & !0b0011u32
    &&& d.flash_base == dev.header.base_addrs@[2]
    &&& d.mac_addr@ == mac_bytes(regs.ral, regs.rah)
}

/// The ring state [`Driver::init_recieve`] establishes: descriptor `i`
/// owns the `i`-th fixed packet buffer, everything else zeroed, every
/// slot owned by the hardware.
pub open spec fn ring_initialized(d: Driver) -> bool {
    forall|i: int|
        0 <= i < RDESCS_LENGTH ==> #[trigger] d.rdescs@[i] == (Rdesc {
            buffer: (RECEIVE_BUFFER_BASE_ADDR + i * PACKET_SIZE) as u64,
            len: 0,
            checksum: 0,
            status: 0,
            errors: 0,
            special: 0,
        })
}

/// The register state [`Driver::init_recieve`] establishes on top of a
/// prior register state: the ring's byte length, initial head and tail,
/// ring base, and the receive-control bits.
pub open spec fn receive_regs_programmed(now: Regs, before: Regs) -> bool {
    now == (Regs {
        rdlen0: (RDESCS_LENGTH * RDESC_SIZE) as u32,
        rdh0: RECEIVE_QUEUE_HEAD_START,
        rdt0: RECEIVE_QUEUE_TAIL_START,
        rdbah0: (RDESCS_BASE_ADDR >> 32) as u32,
        rdbal0: RDESCS_BASE_ADDR as u32,
        rctl: RCTL_INIT,
        ..before
    })
}

/// The register state [`Driver::init`] establishes on top of a prior
/// register state: the receive ring programmed and every interrupt cause
/// unmasked.
pub open spec fn init_regs_programmed(now: Regs, before: Regs) -> bool {
    now == (Regs {
        ims: u32::MAX,
        rdlen0: (RDESCS_LENGTH * RDESC_SIZE) as u32,
        rdh0: RECEIVE_QUEUE_HEAD_START,
        rdt0: RECEIVE_QUEUE_TAIL_START,
        rdbah0: (RDESCS_BASE_ADDR >> 32) as u32,
        rdbal0: RDESCS_BASE_ADDR as u32,
        rctl: RCTL_INIT,
        ..before
    })
}

/// Number of descriptors among the first `n` whose status is nonzero,
/// that is, how many frames the hardware has handed to software.
pub open spec fn count_ready(ring: Seq<Rdesc>, n: int) -> int
    decreases n,
{
    if n <= 0 {
        0
    } else {
        count_ready(ring, n - 1) + if ring[n - 1].status != 0 {
            1int
        } else {
            0int
        }
    }
}

/// The bytes of the frame the hardware wrote into slot `i`: the buffer's
/// prefix of the descriptor's reported length.
pub open spec fn frame_bytes(d: Driver, i: int) -> Seq<u8> {
    d.buffers@[i]@.subrange(0, d.rdescs@[i].len as int)
}

/// Everything [`Driver::receive`] does, relating the state before to the
/// state after: every slot is handed back to the hardware with only its
/// status cleared, the tail register advances once per consumed slot,
/// wrapping modulo the ring depth, nothing else moves, and the results
/// are the codec's verdicts on the consumed frames in slot order.
pub open spec fn receive_effect(
    old_d: Driver,
    new_d: Driver,
    old_r: Regs,
    new_r: Regs,
    results: Seq<Result<Packet, Error>>,
) -> bool {
    &&& new_d.mmio_base == old_d.mmio_base
    &&& new_d.io_base == old_d.io_base
    &&& new_d.flash_base == old_d.flash_base
    &&& new_d.mac_addr == old_d.mac_addr
    &&& new_d.buffers@ == old_d.buffers@
    &&& new_d.rdescs@.len() == old_d.rdescs@.len()
    &&& forall|i: int|
        0 <= i < RDESCS_LENGTH ==> #[trigger] new_d.rdescs@[i] == (Rdesc {
            status: 0,
            ..old_d.rdescs@[i]
        })
    &&& new_r == (Regs {
        rdt0: ((old_r.rdt0 + count_ready(old_d.rdescs@, RDESCS_LENGTH as int)) % (
        RDESCS_LENGTH as int)) as u32,
        ..old_r
    })
    &&& results.len() == count_ready(old_d.rdescs@, RDESCS_LENGTH as int)
    &&& forall|i: int|
        0 <= i < RDESCS_LENGTH && (#[trigger] old_d.rdescs@[i]).status != 0 ==> {
            let verdict = results[count_ready(old_d.rdescs@, i)];
            &&& (verdict is Ok <==> packet_parses(frame_bytes(old_d, i)))
            &&& (verdict matches Ok(p) ==> packet_matches(p, frame_bytes(old_d, i)))
            &&& (verdict matches Err(e) ==> e == Error::CouldNotParsePacket)
        }
}

impl Driver {
    /// Construct the driver from a matched PCI device: recover its MMIO,
    /// port and flash windows from the base address registers, read the
    /// MAC from the address register pair, enable the device on the bus,
    /// and register its interrupt vector — the device's line behind the
    /// controller's vector offset — before any register is programmed, so
    /// no interrupt can be lost during bring-up. The ring starts zeroed
    /// and owned by the hardware.
    pub fn new(device: &Device, cs: &mut ConfigSpace, idt: &mut Idt, regs: &Regs, handler: u32) -> (
        d: Driver)
        requires
            old(cs).wf(),
            old(idt).wf(),
            device.wf(),
            device.header.interrupt_line + pic::IRQ0_OFFSET <= u8::MAX,
        ensures
            d.wf(),
            driver_matches(d, *device, *regs),
            forall|i: int| 0 <= i < RDESCS_LENGTH ==> #[trigger] d.rdescs@[i] == zero_rdesc(),
            final(cs).wf(),
            pci::enable_effect(
                old(cs).funcs@,
                final(cs).funcs@,
                device.bus,
                device.slot,
                device.function,
            ),
            final(idt).wf(),
            final(idt).entries@ == old(idt).entries@.update(
                device.header.interrupt_line + pic::IRQ0_OFFSET,
                interrupts::gate(handler, interrupts::INTERRUPT_GATE_ATTRIBUTES),
            ),
    {
        let bars = device.base_addrs();
        let mmio_base = bars[0] & !0b1111u32;
        let io_base = bars[1] & !0b0011u32;
        let flash_base = bars[2];

        let ral = regs.ral;
        let rah = regs.rah;
        let mac_addr = MacAddress(
            [
                (ral & 0xFF) as u8,
                ((ral >> 8) & 0xFF) as u8,
                ((ral >> 16) & 0xFF) as u8,
                ((ral >> 24) & 0xFF) as u8,
                (rah & 0xFF) as u8,
                ((rah >> 8) & 0xFF) as u8,
            ],
        );
        proof {
            assert(mac_addr@ =~= mac_bytes(ral, rah));
        }

        device.enable(cs);

        idt.insert(handler, device.interrupt_line() + pic::IRQ0_OFFSET);

        let mut rdescs: Vec<Rdesc> = Vec::new();
        let mut buffers: Vec<Vec<u8>> = Vec::new();
        let mut i: usize = 0;
        while i < RDESCS_LENGTH as usize
            invariant
                i <= RDESCS_LENGTH,
                rdescs@.len() == i,
                buffers@.len() == i,
                forall|j: int| 0 <= j < i ==> #[trigger] rdescs@[j] == zero_rdesc(),
                forall|j: int| 0 <= j < i ==> (#[trigger] buffers@[j])@.len() == PACKET_SIZE,
            decreases RDESCS_LENGTH - i,
        {
            rdescs.push(Rdesc::default());
            buffers.push(zero_buffer());
            i += 1;
        }

        Driver { mmio_base, io_base, flash_base, mac_addr, rdescs, buffers }
    }

    /// The MAC address read at construction.
    pub fn mac(&self) -> (r: MacAddress)
        ensures
            r == self.mac_addr,
    {
        self.mac_addr
    }

    /// Program the receive ring: its length, initial head and tail, and
    /// base address registers; zero every descriptor and point each at
    /// its own fixed packet buffer; then enable reception promiscuously
    /// with checksum stripping.
    pub fn init_recieve(&mut self, regs: &mut Regs)
        requires
            old(self).wf(),
        ensures
            final(self).wf(),
            final(self).mmio_base == old(self).mmio_base,
            final(self).io_base == old(self).io_base,
            final(self).flash_base == old(self).flash_base,
            final(self).mac_addr == old(self).mac_addr,
            final(self).buffers@ == old(self).buffers@,
            ring_initialized(*final(self)),
            receive_regs_programmed(*final(regs), *old(regs)),
    {
        // Set the receive descriptor length
        self.write(regs, REG_RDLEN0, RDESCS_LENGTH * RDESC_SIZE);

        // Set the receive descriptor head/tail
        self.write(regs, REG_RDH0, RECEIVE_QUEUE_HEAD_START);
        self.write(regs, REG_RDT0, RECEIVE_QUEUE_TAIL_START);

        // Set the receive descriptor base address
        self.write(regs, REG_RDBAH0, (RDESCS_BASE_ADDR >> 32) as u32);
        self.write(regs, REG_RDBAL0, RDESCS_BASE_ADDR as u32);

        // Zero out every descriptor and hand each one the address of its
        // fixed slot in the packet buffer pool
        let mut offset: usize = 0;
        while offset < RDESCS_LENGTH as usize
            invariant
                old(self).wf(),
                offset <= RDESCS_LENGTH,
                self.rdescs@.len() == RDESCS_LENGTH,
                self.buffers == old(self).buffers,
                self.mmio_base == old(self).mmio_base,
                self.io_base == old(self).io_base,
                self.flash_base == old(self).flash_base,
                self.mac_addr == old(self).mac_addr,
                forall|j: int|
                    0 <= j < offset ==> #[trigger] self.rdescs@[j] == (Rdesc {
                        buffer: (RECEIVE_BUFFER_BASE_ADDR + j * PACKET_SIZE) as u64,
                        len: 0,
                        checksum: 0,
                        status: 0,
                        errors: 0,
                        special: 0,
                    }),
            decreases RDESCS_LENGTH - offset,
        {
            let rdesc = Rdesc {
                buffer: RECEIVE_BUFFER_BASE_ADDR + (offset * PACKET_SIZE) as u64,
                len: 0,
                checksum: 0,
                status: 0,
                errors: 0,
                special: 0,
            };
            self.rdescs[offset] = rdesc;
            offset += 1;
        }

        self.write(regs, REG_RCTL, RCTL_INIT);
    }

    /// Bring the controller up: program the receive ring, then unmask
    /// every interrupt cause.
    pub fn init(&mut self, regs: &mut Regs)
        requires
            old(self).wf(),
        ensures
            final(self).wf(),
            final(self).mmio_base == old(self).mmio_base,
            final(self).io_base == old(self).io_base,
            final(self).flash_base == old(self).flash_base,
            final(self).mac_addr == old(self).mac_addr,
            final(self).buffers@ == old(self).buffers@,
            ring_initialized(*final(self)),
            init_regs_programmed(*final(regs), *old(regs)),
    {
        self.init_recieve(regs);

        // Enable interrupts
        self.write(regs, REG_IMS, 0xFFFFFFFF);
    }

    /// Drain the ring: for every descriptor the hardware has filled, hand
    /// its frame to the codec, clear the descriptor's status to return
    /// the slot, and advance the tail register modulo the ring depth so
    /// the hardware may reuse it. Returns the codec's verdicts in slot
    /// order; an undecodable frame yields its distinct failure and
    /// processing continues.
    pub fn receive(&mut self, regs: &mut Regs) -> (results: Vec<Result<Packet, Error>>)
        requires
            old(self).wf(),
            old(regs).rdt0 < RDESCS_LENGTH,
        ensures
            final(self).wf(),
            receive_effect(*old(self), *final(self), *old(regs), *final(regs), results@),
    {
        let mut results: Vec<Result<Packet, Error>> = Vec::new();
        let mut offset: usize = 0;
        while offset < RDESCS_LENGTH as usize
            invariant
                old(self).wf(),
                self.wf(),
                offset <= RDESCS_LENGTH,
                self.mmio_base == old(self).mmio_base,
                self.io_base == old(self).io_base,
                self.flash_base == old(self).flash_base,
                self.mac_addr == old(self).mac_addr,
                self.buffers@ == old(self).buffers@,
                self.rdescs@.len() == RDESCS_LENGTH,
                forall|i: int|
                    0 <= i < offset ==> #[trigger] self.rdescs@[i] == (Rdesc {
                        status: 0,
                        ..old(self).rdescs@[i]
                    }),
                forall|i: int|
                    offset <= i < RDESCS_LENGTH ==> #[trigger] self.rdescs@[i] == old(
                        self,
                    ).rdescs@[i],
                results@.len() == count_ready(old(self).rdescs@, offset as int),
                forall|i: int|
                    0 <= i < offset && (#[trigger] old(self).rdescs@[i]).status != 0 ==> {
                        let verdict = results@[count_ready(old(self).rdescs@, i)];
                        &&& (verdict is Ok <==> packet_parses(frame_bytes(*old(self), i)))
                        &&& (verdict matches Ok(p) ==> packet_matches(p, frame_bytes(*old(self), i)))
                        &&& (verdict matches Err(e) ==> e == Error::CouldNotParsePacket)
                    },
                *regs == (Regs {
                    rdt0: ((old(regs).rdt0 + count_ready(old(self).rdescs@, offset as int)) % (
                    RDESCS_LENGTH as int)) as u32,
                    ..*old(regs)
                }),
            decreases RDESCS_LENGTH - offset,
        {
            let rdesc = self.rdescs[offset];

            // A nonzero status means a frame has arrived and is ready
            // for processing
            if rdesc.status != 0 {
                let len = rdesc.len as usize;
                let buffer = &self.buffers[offset];

                // Turn raw bytes into a typed frame
                let parsed = Packet::deserialise(vstd::slice::slice_subrange(
                    buffer.as_slice(),
                    0,
                    len,
                ));
                results.push(parsed);

                // Tell the NIC we are done with that slot
                let mut cleared = rdesc;
                cleared.status = 0;
                self.rdescs[offset] = cleared;

                // Advance the tail to give the hardware the slot back
                let tail = self.read(regs, REG_RDT0);
                self.write(regs, REG_RDT0, (tail + 1) % RDESCS_LENGTH);
            }
            offset += 1;
        }
        results
    }
}

/// The receive interrupt service path: read the interrupt cause; a
/// receive-timeout cause drains the ring, any other cause is ignored;
/// either way the handler ends by signaling end-of-interrupt exactly
/// once.
pub fn isr(driver: &mut Driver, regs: &mut Regs, cpu: &mut Cpu) -> (results: Vec<
    Result<Packet, Error>,
>)
    requires
        old(driver).wf(),
        old(regs).rdt0 < RDESCS_LENGTH,
    ensures
        final(driver).wf(),
        old(regs).icr & ICS_RXTO == ICS_RXTO ==> receive_effect(
            *old(driver),
            *final(driver),
            *old(regs),
            *final(regs),
            results@,
        ),
        old(regs).icr & ICS_RXTO != ICS_RXTO ==> *final(driver) == *old(driver) && *final(regs)
            == *old(regs) && results@.len() == 0,
        final(cpu).writes@ == old(cpu).writes@ + pic::eoi_seq(old(cpu).ints_enabled),
        final(cpu).ints_enabled == old(cpu).ints_enabled,
{
    let cause = driver.read(regs, REG_ICR);

    let results = if cause & ICS_RXTO == ICS_RXTO {
        driver.receive(regs)
    } else {
        Vec::new()
    };

    pic::end_of_interrupt(cpu);
    results
}

/// One zeroed packet buffer.
fn zero_buffer() -> (b: Vec<u8>)
    ensures
        b@.len() == PACKET_SIZE,
        forall|j: int| 0 <= j < PACKET_SIZE ==> b@[j] == 0,
{
    let mut b: Vec<u8> = Vec::new();
    let mut i: usize = 0;
    while i < PACKET_SIZE
        invariant
            i <= PACKET_SIZE,
            b@.len() == i,
            forall|j: int| 0 <= j < i ==> b@[j] == 0,
        decreases PACKET_SIZE - i,
    {
        b.push(0);
        i += 1;
    }
    b
}

} // verus!
