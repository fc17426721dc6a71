//! The interrupt descriptor table: 256 gate descriptors mapping each vector
//! to a handler address and gate attributes.
//!
//! On hardware the table lives at a fixed physical base and is activated by
//! loading a [`LidtDesc`] with the `lidt` instruction; that single
//! instruction belongs to the platform layer. The table itself, the bit
//! layout of its entries and the rule that every vector must be populated
//! before activation are verified here.

use vstd::prelude::*;

use crate::cpu;
use crate::cpu::Cpu;
use crate::pic;

verus! {

/// Number of vectors the processor can deliver; every one must be gated.
pub const IDT_ENTRIES: usize = 256;
/// Size in bytes of one gate descriptor.
pub const IDT_ENTRY_SIZE: u16 = 8;
/// The limit field loaded with the table: size in bytes minus one.
pub const IDT_LIMIT: u16 = 256 * 8 - 1;
/// The kernel code segment's offset in the descriptor table.
pub const CODE_SELECTOR_OFFSET: u16 = 8;

/// First CPU exception vector.
pub const EXCEPTION_START: u8 = 0x00;
/// Last CPU exception vector.
pub const EXCEPTION_END: u8 = 0x1F;

/// Present, ring 0, 32-bit trap gate.
pub const TRAP_GATE_ATTRIBUTES: u8 = 0x8F;
/// Present, ring 0, 32-bit interrupt gate.
pub const INTERRUPT_GATE_ATTRIBUTES: u8 = 0x8E;

/// One gate descriptor, laid out as the processor reads it: the handler
/// address split into a low and a high half around the selector and
/// attribute bytes.
#[derive(Clone, Copy, PartialEq, Eq, Structural, Debug)]
pub struct IdtEntry {
    pub isr_low: u16,
    pub kernel_cs: u16,
    pub reserved: u8,
    pub attributes: u8,
    pub isr_high: u16,
}

/// The operand of the `lidt` instruction: table size in bytes minus one,
/// and the table's physical base.
#[derive(Clone, Copy, PartialEq, Eq, Structural, Debug)]
pub struct LidtDesc {
    pub limit: u16,
    pub base: u32,
}

/// A gate descriptor that points its vector at `handler` with the chosen
/// attribute byte: the address in two 16-bit halves, the kernel code
/// selector, reserved byte zero.
pub open spec fn gate(handler: u32, attributes: u8) -> IdtEntry {
    IdtEntry {
        isr_low: (handler & 0xFFFF) as u16,
        kernel_cs: CODE_SELECTOR_OFFSET,
        reserved: 0,
        attributes,
        isr_high: (handler >> 16) as u16,
    }
}

/// The handler address an entry points at, reassembled from its two halves.
pub open spec fn entry_handler_addr(e: IdtEntry) -> int {
    e.isr_low + e.isr_high * 0x10000
}

/// Build one gate descriptor; the two address halves reassemble to the
/// handler address.
fn make_entry(handler: u32, attributes: u8) -> (e: IdtEntry)
    ensures
        e == gate(handler, attributes),
        entry_handler_addr(e) == handler,
{
    proof {
        assert(((handler & 0xFFFF) as u16) + (((handler >> 16) as u16) as int) * 0x10000
            == handler) by (bit_vector);
    }
    IdtEntry {
        isr_low: (handler & 0xFFFF) as u16,
        kernel_cs: CODE_SELECTOR_OFFSET,
        reserved: 0,
        attributes,
        isr_high: (handler >> 16) as u16,
    }
}

/// The interrupt descriptor table. The state machine is uninitialized to
/// initialized: [`Idt::init`] populates every vector before the table may
/// be activated, and [`Idt::insert`] later replaces single entries.
pub struct Idt {
    pub entries: Vec<IdtEntry>,
}

impl Idt {
    /// A table is well formed when it gates every one of the 256 vectors.
    pub open spec fn wf(&self) -> bool {
        self.entries@.len() == IDT_ENTRIES
    }

    /// Populate the whole table: the CPU exception vectors get a trap gate
    /// to the trap handler, every other vector an interrupt gate to the
    /// default handler. No entry is left absent, so a spurious vector
    /// delivered after activation finds a populated gate.
    pub fn init(trap_handler: u32, default_handler: u32) -> (idt: Idt)
        ensures
            idt.wf(),
            forall|v: int|
                0 <= v <= EXCEPTION_END ==> idt.entries@[v] == gate(
                    trap_handler,
                    TRAP_GATE_ATTRIBUTES,
                ),
            forall|v: int|
                EXCEPTION_END < v < IDT_ENTRIES ==> idt.entries@[v] == gate(
                    default_handler,
                    INTERRUPT_GATE_ATTRIBUTES,
                ),
            // every entry is populated: its present bit is set, so none is
            // the all-zero absent entry, whatever the handler addresses
            forall|v: int|
                0 <= v < IDT_ENTRIES ==> #[trigger] idt.entries@[v].attributes & 0x80u8
                    == 0x80u8,
            forall|v: int|
                0 <= v < IDT_ENTRIES ==> #[trigger] idt.entries@[v] != (IdtEntry {
                    isr_low: 0,
                    kernel_cs: 0,
                    reserved: 0,
                    attributes: 0,
                    isr_high: 0,
                }),
    {
        let mut entries: Vec<IdtEntry> = Vec::new();
        let mut vector: usize = 0;

        while vector < IDT_ENTRIES
            invariant
                vector <= IDT_ENTRIES,
                entries@.len() == vector,
                forall|v: int|
                    0 <= v < vector && v <= EXCEPTION_END ==> entries@[v] == gate(
                        trap_handler,
                        TRAP_GATE_ATTRIBUTES,
                    ),
                forall|v: int|
                    EXCEPTION_END < v < vector ==> entries@[v] == gate(
                        default_handler,
                        INTERRUPT_GATE_ATTRIBUTES,
                    ),
            decreases IDT_ENTRIES - vector,
        {
            if vector <= EXCEPTION_END as usize {
                entries.push(make_entry(trap_handler, TRAP_GATE_ATTRIBUTES));
            } else {
                entries.push(make_entry(default_handler, INTERRUPT_GATE_ATTRIBUTES));
            }
            vector += 1;
        }

        proof {
            assert(TRAP_GATE_ATTRIBUTES & 0x80u8 == 0x80u8) by (bit_vector);
            assert(INTERRUPT_GATE_ATTRIBUTES & 0x80u8 == 0x80u8) by (bit_vector);
        }
        Idt { entries }
    }

    /// Install a device handler: overwrite the chosen vector's entry with
    /// an interrupt gate to `handler`, leaving every other vector
    /// untouched. Callers pick a vector that collides neither with an
    /// exception vector nor with another device.
    pub fn insert(&mut self, handler: u32, vector: u8)
        requires
            old(self).wf(),
        ensures
            final(self).wf(),
            final(self).entries@ == old(self).entries@.update(
                vector as int,
                gate(handler, INTERRUPT_GATE_ATTRIBUTES),
            ),
    {
        let e = make_entry(handler, INTERRUPT_GATE_ATTRIBUTES);
        self.entries[vector as usize] = e;
    }

    /// The `lidt` operand for this table placed at `base`.
    pub fn descriptor(&self, base: u32) -> (desc: LidtDesc)
        requires
            self.wf(),
        ensures
            desc.limit == IDT_LIMIT,
            desc.base == base,
    {
        LidtDesc { limit: IDT_LIMIT, base }
    }
}

/// The default interrupt-gate handler: the interrupt carries no work, so
/// the only obligation is the end-of-interrupt acknowledgment.
pub fn isr(cpu: &mut Cpu)
    ensures
        final(cpu).writes@ == old(cpu).writes@ + pic::eoi_seq(old(cpu).ints_enabled),
        final(cpu).ints_enabled == old(cpu).ints_enabled,
{
    pic::end_of_interrupt(cpu);
}

} // verus!
