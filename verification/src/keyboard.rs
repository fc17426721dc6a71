//! Keyboard bring-up: the scan-code translation itself is a collaborator
//! outside this core; all the core owes it is the IDT registration of its
//! interrupt vector.

use vstd::prelude::*;

use crate::interrupts;
use crate::interrupts::Idt;
use crate::pic;

verus! {

/// The keyboard controller interrupts on line 1 of the master controller.
pub const KEYBOARD_VECTOR: u8 = pic::IRQ0_OFFSET + 1;

/// Register the keyboard handler at its vector, touching no other entry.
pub fn init(idt: &mut Idt, handler: u32)
    requires
        old(idt).wf(),
    ensures
        final(idt).wf(),
        final(idt).entries@ == old(idt).entries@.update(
            KEYBOARD_VECTOR as int,
            interrupts::gate(handler, interrupts::INTERRUPT_GATE_ATTRIBUTES),
        ),
{
    idt.insert(handler, KEYBOARD_VECTOR);
}

} // verus!
