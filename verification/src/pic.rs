//! The two cascaded 8259 interrupt controllers.
//!
//! [`init`] issues the fixed four-step initialization-command-word sequence
//! that remaps both controllers' vectors away from the firmware defaults and
//! masks every line except the cascade line; [`unmask`] clears one line's
//! mask bit; [`end_of_interrupt`] acknowledges a serviced interrupt on both
//! controllers. The [`Pic`] value carries the controllers' mask registers,
//! the state a read of the data port would return on hardware, so the
//! read-modify-write in `unmask` is stated exactly.

use vstd::prelude::*;

use crate::cpu;
use crate::cpu::Cpu;
use crate::cpu::PortWrite;
use crate::cpu::out8_seq;

verus! {

pub const PIC1_COMMAND: u16 = 0x20;
pub const PIC1_DATA: u16 = 0x21;

pub const PIC2_COMMAND: u16 = 0xA0;
pub const PIC2_DATA: u16 = 0xA1;

pub const END_OF_INTERRUPT: u8 = 0x20;

pub const ICW1_INIT: u8 = 0x10;
pub const ICW1_ICW4: u8 = 0x01;

pub const ICW4_8086: u8 = 0x01;

/// Vector that line 0 of the master controller is remapped to.
pub const IRQ0_OFFSET: u8 = 0x20;
/// Vector that line 8, the slave controller's first line, is remapped to.
pub const IRQ8_OFFSET: u8 = 0x28;

/// Initial master mask: every line disabled except line 2, the cascade to
/// the slave controller.
pub const MASTER_INITIAL_MASK: u8 = 0b1111_1011;
/// Initial slave mask: every line disabled.
pub const SLAVE_INITIAL_MASK: u8 = 0b1111_1111;

/// Mask state of the two controllers, as a read of their data ports would
/// return it.
pub struct Pic {
    pub master_mask: u8,
    pub slave_mask: u8,
}

/// The full port-write sequence of the documented 8259 initialization:
/// start word, vector offsets, cascade identities, 8086 mode, initial
/// masks — every write issued with interrupts disabled, so the hardware
/// sees the command sequence atomically.
pub open spec fn init_seq() -> Seq<PortWrite> {
    out8_seq(PIC1_COMMAND, ICW1_INIT | ICW1_ICW4, false) + out8_seq(
        PIC2_COMMAND,
        ICW1_INIT | ICW1_ICW4,
        false,
    ) + out8_seq(PIC1_DATA, IRQ0_OFFSET, false) + out8_seq(PIC2_DATA, IRQ8_OFFSET, false)
        + out8_seq(PIC1_DATA, 0b0000_0100, false) + out8_seq(PIC2_DATA, 0b0000_0010, false)
        + out8_seq(PIC1_DATA, ICW4_8086, false) + out8_seq(PIC2_DATA, ICW4_8086, false)
        + out8_seq(PIC1_DATA, MASTER_INITIAL_MASK, false) + out8_seq(
        PIC2_DATA,
        SLAVE_INITIAL_MASK,
        false,
    )
}

/// The end-of-interrupt acknowledgment, sent to both controllers under
/// interrupt flag `ints`.
pub open spec fn eoi_seq(ints: bool) -> Seq<PortWrite> {
    out8_seq(PIC1_COMMAND, END_OF_INTERRUPT, ints) + out8_seq(
        PIC2_COMMAND,
        END_OF_INTERRUPT,
        ints,
    )
}

/// Remap both controllers and mask every line but the cascade. Runs with
/// interrupts disabled for the whole command sequence — every logged
/// write of `init_seq` carries a cleared flag — and re-enables them only
/// after completion.
pub fn init(cpu: &mut Cpu) -> (pic: Pic)
    ensures
        final(cpu).writes@ == old(cpu).writes@ + init_seq(),
        final(cpu).ints_enabled,
        pic.master_mask == MASTER_INITIAL_MASK,
        pic.slave_mask == SLAVE_INITIAL_MASK,
{
    cpu::cli(cpu);

    // Initialise the PIC
    cpu::out8(cpu, PIC1_COMMAND, ICW1_INIT | ICW1_ICW4);
    cpu::out8(cpu, PIC2_COMMAND, ICW1_INIT | ICW1_ICW4);

    // Point the PIC to the IDT indices
    cpu::out8(cpu, PIC1_DATA, IRQ0_OFFSET);
    cpu::out8(cpu, PIC2_DATA, IRQ8_OFFSET);

    // Tell master that slave is at line 2
    cpu::out8(cpu, PIC1_DATA, 0b0000_0100);
    // Tell slave its cascade identity
    cpu::out8(cpu, PIC2_DATA, 0b0000_0010);

    // Set 8086 mode
    cpu::out8(cpu, PIC1_DATA, ICW4_8086);
    cpu::out8(cpu, PIC2_DATA, ICW4_8086);

    // Start with every interrupt line disabled, except the cascade line
    // that in effect enables the slave's lines. Lines are enabled one by
    // one through [`unmask`].
    cpu::out8(cpu, PIC1_DATA, MASTER_INITIAL_MASK);
    cpu::out8(cpu, PIC2_DATA, SLAVE_INITIAL_MASK);

    cpu::sti(cpu);

    proof {
        assert(cpu.writes@ =~= old(cpu).writes@ + init_seq());
    }
    Pic { master_mask: MASTER_INITIAL_MASK, slave_mask: SLAVE_INITIAL_MASK }
}

/// Enable one interrupt line: clear its mask bit on the controller that
/// owns it (lines 0 to 7 master, 8 to 15 slave) and write the new mask
/// back, with interrupts disabled around the read-modify-write — the
/// logged mask write carries a cleared flag.
pub fn unmask(pic: &mut Pic, cpu: &mut Cpu, irq_pin: u8)
    requires
        irq_pin < 16,
    ensures
        final(cpu).ints_enabled,
        irq_pin < 8 ==> {
            &&& final(pic).master_mask == old(pic).master_mask & !(1u8 << irq_pin)
            &&& final(pic).slave_mask == old(pic).slave_mask
            &&& final(cpu).writes@ == old(cpu).writes@ + out8_seq(
                PIC1_DATA,
                old(pic).master_mask & !(1u8 << irq_pin),
                false,
            )
        },
        irq_pin >= 8 ==> {
            &&& final(pic).slave_mask == old(pic).slave_mask & !(1u8 << (irq_pin - 8) as u8)
            &&& final(pic).master_mask == old(pic).master_mask
            &&& final(cpu).writes@ == old(cpu).writes@ + out8_seq(
                PIC2_DATA,
                old(pic).slave_mask & !(1u8 << (irq_pin - 8) as u8),
                false,
            )
        },
{
    cpu::cli(cpu);
    if irq_pin < 8 {
        let mask = pic.master_mask & !(1u8 << irq_pin);
        pic.master_mask = mask;
        cpu::out8(cpu, PIC1_DATA, mask);
    } else {
        let mask = pic.slave_mask & !(1u8 << (irq_pin - 8));
        pic.slave_mask = mask;
        cpu::out8(cpu, PIC2_DATA, mask);
    }
    cpu::sti(cpu);
}

/// Acknowledge a serviced interrupt on both controllers; safe even though
/// only one of them raised it. Must be sent exactly once per handled
/// interrupt, or the owning controller delivers no further interrupts on
/// that line.
pub fn end_of_interrupt(cpu: &mut Cpu)
    ensures
        final(cpu).writes@ == old(cpu).writes@ + eoi_seq(old(cpu).ints_enabled),
        final(cpu).ints_enabled == old(cpu).ints_enabled,
{
    cpu::out8(cpu, PIC1_COMMAND, END_OF_INTERRUPT);
    cpu::out8(cpu, PIC2_COMMAND, END_OF_INTERRUPT);
    proof {
        assert(cpu.writes@ =~= old(cpu).writes@ + eoi_seq(old(cpu).ints_enabled));
    }
}

} // verus!
