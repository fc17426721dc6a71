//! The programmable interval timer: programmed over its command and
//! channel ports, it fires the line-0 interrupt at a chosen rate, and the
//! kernel sleeps by halting until enough of those interrupts have been
//! serviced.
//!
//! In the model each halt of the sleep loop wakes on exactly one timer
//! interrupt, whose handler advances the tick count and acknowledges the
//! controllers; [`Pit`] carries the tick count the interrupt handler
//! maintains.

use vstd::prelude::*;

use crate::cpu;
use crate::cpu::Cpu;
use crate::cpu::PortWrite;
use crate::cpu::out8_seq;
use crate::interrupts;
use crate::interrupts::Idt;
use crate::pic;
use crate::pic::Pic;

verus! {

/// Data port of the timer's first channel.
pub const CHANNEL_0: u16 = 0x40;
/// The timer's command port.
pub const COMMAND: u16 = 0x43;
/// The interrupt line the timer is wired to.
pub const IRQ_PIN: u8 = 0;
/// The timer's input clock in ticks per second.
pub const CLOCK_SPEED: u32 = 1193182;

/// The command byte written at bring-up: channel zero, both counter
/// bytes accessed in order, operating mode three.
pub const COMMAND_BYTE: u8 = 0b0011_0110;

/// The timer state the interrupt handler maintains: how many times the
/// timer has fired.
pub struct Pit {
    pub ticks: u64,
}

/// The 16-bit divisor programmed for a requested rate: the input clock
/// over the rate, saturated to the counter's width.
pub open spec fn spec_divisor(hertz: u32) -> u16
    recommends
        hertz >= 1,
{
    if CLOCK_SPEED / hertz > 0xFFFF {
        0xFFFF
    } else {
        (CLOCK_SPEED / hertz) as u16
    }
}

/// The port-write sequence of timer bring-up: the command byte, then the
/// divisor's low and high bytes on the channel port, all issued with
/// interrupts disabled so the hardware sees the sequence atomically.
pub open spec fn init_seq(hertz: u32) -> Seq<PortWrite> {
    out8_seq(COMMAND, COMMAND_BYTE, false) + out8_seq(
        CHANNEL_0,
        (spec_divisor(hertz) & 0xFF) as u8,
        false,
    ) + out8_seq(CHANNEL_0, (spec_divisor(hertz) >> 8) as u8, false)
}

/// The timer interrupt handler: count the tick (wrapping at the counter's
/// width, as the hardware counter would) and acknowledge the controllers.
pub fn isr(pit: &mut Pit, cpu: &mut Cpu)
    ensures
        final(pit).ticks == if old(pit).ticks == u64::MAX {
            0u64
        } else {
            (old(pit).ticks + 1) as u64
        },
        final(cpu).writes@ == old(cpu).writes@ + pic::eoi_seq(old(cpu).ints_enabled),
        final(cpu).ints_enabled == old(cpu).ints_enabled,
{
    if pit.ticks == u64::MAX {
        pit.ticks = 0;
    } else {
        pit.ticks = pit.ticks + 1;
    }
    pic::end_of_interrupt(cpu);
}

/// `n` end-of-interrupt acknowledgments in sequence, all issued under
/// interrupt flag `ints`.
pub open spec fn eoi_repeated(n: int, ints: bool) -> Seq<PortWrite>
    decreases n,
{
    if n <= 0 {
        Seq::empty()
    } else {
        eoi_repeated(n - 1, ints) + pic::eoi_seq(ints)
    }
}

/// Sleep for `ticks` timer periods: halt until the timer interrupt has
/// fired that many more times. Every wake services one timer interrupt,
/// so exactly one acknowledgment per elapsed tick reaches the
/// controllers.
pub fn sleep_ms(pit: &mut Pit, cpu: &mut Cpu, ticks: u64)
    requires
        old(pit).ticks + ticks <= u64::MAX,
    ensures
        final(pit).ticks == old(pit).ticks + ticks,
        final(cpu).writes@ == old(cpu).writes@ + eoi_repeated(
            ticks as int,
            old(cpu).ints_enabled,
        ),
        final(cpu).ints_enabled == old(cpu).ints_enabled,
{
    let current_ticks = pit.ticks;
    let target_ticks = current_ticks + ticks;
    proof {
        assert(cpu.writes@ =~= old(cpu).writes@ + eoi_repeated(0, old(cpu).ints_enabled));
    }
    while pit.ticks < target_ticks
        invariant
            current_ticks == old(pit).ticks,
            target_ticks == old(pit).ticks + ticks,
            current_ticks <= pit.ticks <= target_ticks,
            cpu.writes@ == old(cpu).writes@ + eoi_repeated(
                pit.ticks - current_ticks,
                old(cpu).ints_enabled,
            ),
            cpu.ints_enabled == old(cpu).ints_enabled,
        decreases target_ticks - pit.ticks,
    {
        let ghost done = pit.ticks - current_ticks;
        isr(pit, cpu);
        proof {
            assert(cpu.writes@ =~= old(cpu).writes@ + eoi_repeated(
                done + 1,
                old(cpu).ints_enabled,
            ));
        }
    }
}

/// Program the timer to fire `hertz` times a second and route its
/// interrupt: write the command byte and the saturated divisor with
/// interrupts disabled, gate the timer's vector, unmask its line, and
/// re-enable interrupts.
pub fn init(cpu: &mut Cpu, idt: &mut Idt, pic: &mut Pic, hertz: u32, handler: u32) -> (pit: Pit)
    requires
        hertz >= 1,
        old(idt).wf(),
    ensures
        pit.ticks == 0,
        final(idt).wf(),
        final(idt).entries@ == old(idt).entries@.update(
            pic::IRQ0_OFFSET + IRQ_PIN,
            interrupts::gate(handler, interrupts::INTERRUPT_GATE_ATTRIBUTES),
        ),
        final(pic).master_mask == old(pic).master_mask & !(1u8 << IRQ_PIN),
        final(pic).slave_mask == old(pic).slave_mask,
        final(cpu).writes@ == old(cpu).writes@ + init_seq(hertz) + out8_seq(
            pic::PIC1_DATA,
            old(pic).master_mask & !(1u8 << IRQ_PIN),
            false,
        ),
        final(cpu).ints_enabled,
{
    cpu::cli(cpu);

    cpu::out8(cpu, COMMAND, COMMAND_BYTE);

    let quotient = CLOCK_SPEED / hertz;
    let divisor: u16 = if quotient > 0xFFFF {
        0xFFFF
    } else {
        quotient as u16
    };

    cpu::out8(cpu, CHANNEL_0, (divisor & 0xFF) as u8);
    cpu::out8(cpu, CHANNEL_0, (divisor >> 8) as u8);

    idt.insert(handler, pic::IRQ0_OFFSET + IRQ_PIN);
    pic::unmask(pic, cpu, IRQ_PIN);
    cpu::sti(cpu);

    proof {
        assert(cpu.writes@ =~= old(cpu).writes@ + init_seq(hertz) + out8_seq(
            pic::PIC1_DATA,
            old(pic).master_mask & !(1u8 << IRQ_PIN),
            false,
        ));
    }
    Pit { ticks: 0 }
}

} // verus!
