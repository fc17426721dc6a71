//! Hardware bring-up and interrupt-driven I/O core of a small x86 kernel.
//!
//! The crate verifies the logic that must be exactly right on bare metal:
//! the port-write sequences that program the interrupt controllers and the
//! timer, the layout of interrupt gate descriptors, the bump allocator that
//! carves an arena out of the firmware memory map, the PCI configuration
//! address encoding and bus walk, the e1000 receive-ring protocol, and the
//! Ethernet/ARP frame codec.
//!
//! The hardware itself is represented by explicit state: a [`cpu::Cpu`]
//! records every `out` instruction the code issues and the state of the
//! processor's interrupt flag, and each device model (PIC mask registers,
//! PCI configuration space, NIC register file) holds the register values a
//! real device would. Contracts relate each operation to that state, so the
//! exact byte sequences and register programming are proved, while the
//! single-instruction port accesses themselves remain the platform layer's
//! concern.

pub mod cpu;
pub mod error;
pub mod interrupts;
pub mod keyboard;
pub mod mm;
pub mod net;
pub mod pci;
pub mod pic;
pub mod pit;
