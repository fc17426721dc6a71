//! Processor-level primitives: port output, the interrupt flag, and the
//! register block handed to real-mode calls.
//!
//! On hardware each port write is a single `out` instruction. Here the
//! processor is modeled by [`Cpu`], which keeps the ordered log of every
//! write issued together with the interrupt flag, so that the contracts of
//! the device-programming code can state the exact command sequences the
//! hardware would observe.

use vstd::prelude::*;

verus! {

/// Transfer width of a port access.
#[derive(Clone, Copy, PartialEq, Eq, Structural, Debug)]
pub enum Width {
    Bits8,
    Bits32,
}

/// One `out` instruction as the bus would observe it, together with the
/// state of the interrupt flag at the instant it issued — the record that
/// lets a contract say a whole command sequence ran with interrupts
/// disabled.
#[derive(Clone, Copy, PartialEq, Eq, Structural, Debug)]
pub struct PortWrite {
    pub width: Width,
    pub port: u16,
    pub value: u32,
    pub ints_enabled: bool,
}

/// The processor's externally visible I/O state: the ordered log of port
/// writes issued so far, and the interrupt-accept flag.
pub struct Cpu {
    pub writes: Vec<PortWrite>,
    pub ints_enabled: bool,
}

/// The diagnostic port used for the settle delay after 8-bit writes.
pub const DELAY_PORT: u16 = 0x80;

/// An 8-bit write issued under interrupt flag `ints`, as logged.
pub open spec fn w8(port: u16, value: u8, ints: bool) -> PortWrite {
    PortWrite { width: Width::Bits8, port, value: value as u32, ints_enabled: ints }
}

/// A 32-bit write issued under interrupt flag `ints`, as logged.
pub open spec fn w32(port: u16, value: u32, ints: bool) -> PortWrite {
    PortWrite { width: Width::Bits32, port, value, ints_enabled: ints }
}

/// What `out8` emits under interrupt flag `ints`: the write itself, then
/// the settle write.
pub open spec fn out8_seq(port: u16, value: u8, ints: bool) -> Seq<PortWrite> {
    seq![w8(port, value, ints), w8(DELAY_PORT, 0, ints)]
}

/// What `out32` emits under interrupt flag `ints`: the write itself, then
/// the settle write.
pub open spec fn out32_seq(port: u16, value: u32, ints: bool) -> Seq<PortWrite> {
    seq![w32(port, value, ints), w8(DELAY_PORT, 0, ints)]
}

impl Cpu {
    /// The processor state at kernel entry: nothing written yet, interrupts
    /// disabled by the boot path.
    pub fn new() -> (cpu: Cpu)
        ensures
            cpu.writes@ == Seq::<PortWrite>::empty(),
            !cpu.ints_enabled,
    {
        let cpu = Cpu { writes: Vec::new(), ints_enabled: false };
        proof {
            assert(cpu.writes@ =~= Seq::<PortWrite>::empty());
        }
        cpu
    }
}

/// A bare 8-bit write with no settle delay.
fn out8_fast(cpu: &mut Cpu, port: u16, value: u8)
    ensures
        final(cpu).writes@ == old(cpu).writes@.push(w8(port, value, old(cpu).ints_enabled)),
        final(cpu).ints_enabled == old(cpu).ints_enabled,
{
    let w = PortWrite {
        width: Width::Bits8,
        port,
        value: value as u32,
        ints_enabled: cpu.ints_enabled,
    };
    cpu.writes.push(w);
}

/// A bare 32-bit write with no settle delay.
fn out32_fast(cpu: &mut Cpu, port: u16, value: u32)
    ensures
        final(cpu).writes@ == old(cpu).writes@.push(w32(port, value, old(cpu).ints_enabled)),
        final(cpu).ints_enabled == old(cpu).ints_enabled,
{
    let w = PortWrite { width: Width::Bits32, port, value, ints_enabled: cpu.ints_enabled };
    cpu.writes.push(w);
}

/// Settle delay: a dummy write to the diagnostic port, for controllers that
/// cannot absorb back-to-back port writes.
pub fn iowait(cpu: &mut Cpu)
    ensures
        final(cpu).writes@ == old(cpu).writes@.push(
            w8(DELAY_PORT, 0, old(cpu).ints_enabled),
        ),
        final(cpu).ints_enabled == old(cpu).ints_enabled,
{
    out8_fast(cpu, DELAY_PORT, 0);
}

/// 8-bit port write followed by the mandatory settle delay.
pub fn out8(cpu: &mut Cpu, port: u16, value: u8)
    ensures
        final(cpu).writes@ == old(cpu).writes@ + out8_seq(
            port,
            value,
            old(cpu).ints_enabled,
        ),
        final(cpu).ints_enabled == old(cpu).ints_enabled,
{
    out8_fast(cpu, port, value);
    iowait(cpu);
    proof {
        assert(cpu.writes@ =~= old(cpu).writes@ + out8_seq(
            port,
            value,
            old(cpu).ints_enabled,
        ));
    }
}

/// 32-bit port write followed by the mandatory settle delay.
pub fn out32(cpu: &mut Cpu, port: u16, value: u32)
    ensures
        final(cpu).writes@ == old(cpu).writes@ + out32_seq(
            port,
            value,
            old(cpu).ints_enabled,
        ),
        final(cpu).ints_enabled == old(cpu).ints_enabled,
{
    out32_fast(cpu, port, value);
    iowait(cpu);
    proof {
        assert(cpu.writes@ =~= old(cpu).writes@ + out32_seq(
            port,
            value,
            old(cpu).ints_enabled,
        ));
    }
}

/// Clear the interrupt flag: the processor stops accepting maskable
/// interrupts until `sti`.
pub fn cli(cpu: &mut Cpu)
    ensures
        final(cpu).writes@ == old(cpu).writes@,
        !final(cpu).ints_enabled,
{
    cpu.ints_enabled = false;
}

/// Set the interrupt flag: the processor accepts maskable interrupts again.
pub fn sti(cpu: &mut Cpu)
    ensures
        final(cpu).writes@ == old(cpu).writes@,
        final(cpu).ints_enabled,
{
    cpu.ints_enabled = true;
}

/// The 16-bit register block exchanged with real-mode interrupt services.
#[derive(Clone, Copy, PartialEq, Eq, Structural, Debug)]
pub struct Registers {
    pub ax: u16,
    pub bx: u16,
    pub cx: u16,
    pub dx: u16,
    pub di: u16,
    pub si: u16,
    pub sp: u16,
    pub bp: u16,
}

impl Default for Registers {
    /// All registers zeroed, the state handed to a real-mode call that
    /// takes no inputs.
    fn default() -> (r: Registers)
        ensures
            r == (Registers { ax: 0, bx: 0, cx: 0, dx: 0, di: 0, si: 0, sp: 0, bp: 0 }),
    {
        Registers { ax: 0, bx: 0, cx: 0, dx: 0, di: 0, si: 0, sp: 0, bp: 0 }
    }
}

} // verus!
