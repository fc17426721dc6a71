//! PCI bus enumeration over the configuration address/data port pair.
//!
//! The configuration mechanism is modeled faithfully: a write to the
//! address port latches an encoded (enable, bus, slot, function, register)
//! word, and a read or write of the data port then reaches the latched
//! function's configuration dword, or reads all-ones where no function
//! answers. [`ConfigSpace`] carries the latch and the functions that are
//! present; the address encoding, its decoding, the 64-byte header parse
//! and the full bus walk are verified against it.

use vstd::prelude::*;

verus! {

/// Address port of the configuration mechanism.
pub const CONFIG_ADDR: u16 = 0xCF8;
/// Data port of the configuration mechanism.
pub const CONFIG_DATA: u16 = 0xCFC;

/// Bit 31 of the address word: the access reaches configuration space.
pub const ENABLE_BIT: u32 = 0x8000_0000;

/// Byte offset of the vendor/device identification dword.
pub const DID_VID_OFFSET: u8 = 0;
/// Byte offset of the status/command dword.
pub const COMMAND_OFFSET: u8 = 4;

/// Command register bit: respond to port I/O accesses.
pub const IO_ENABLE: u8 = 1 << 0;
/// Command register bit: respond to memory-mapped accesses.
pub const MMIO_ENABLE: u8 = 1 << 1;
/// Command register bit: the device may master the bus (DMA).
pub const BUS_MASTER: u8 = 1 << 2;

/// Class code of a network controller.
pub const NETWORK_CONTROLLER_CLASS: u8 = 0x02;

/// Vendor identifier read from a (bus, slot, function) triple where no
/// device answers: the bus floats high.
pub const NO_DEVICE_SENTINEL: u16 = 0xFFFF;

/// One present PCI function: its address triple and its 16 configuration
/// dwords.
#[derive(Clone, Copy, Debug)]
pub struct ConfigFunction {
    pub bus: u8,
    pub slot: u8,
    pub function: u8,
    pub regs: [u32; 16],
}

/// The configuration space as the two ports expose it: the functions that
/// answer, and the address word last written to the address port.
pub struct ConfigSpace {
    pub funcs: Vec<ConfigFunction>,
    pub address_latch: u32,
}

/// Whether `cf` answers at the given triple.
pub open spec fn is_at(cf: ConfigFunction, bus: u8, slot: u8, function: u8) -> bool {
    cf.bus == bus && cf.slot == slot && cf.function == function
}

/// The address triple of a function, for stating uniqueness.
pub open spec fn triple_of(cf: ConfigFunction) -> (u8, u8, u8) {
    (cf.bus, cf.slot, cf.function)
}

/// Whether some function answers at the triple.
pub open spec fn has_function(funcs: Seq<ConfigFunction>, bus: u8, slot: u8, function: u8) -> bool {
    exists|k: int| 0 <= k < funcs.len() && is_at(#[trigger] funcs[k], bus, slot, function)
}

/// Index of the function answering at the triple (unique under
/// [`ConfigSpace::wf`]).
pub open spec fn func_index(funcs: Seq<ConfigFunction>, bus: u8, slot: u8, function: u8) -> int {
    choose|k: int| 0 <= k < funcs.len() && is_at(#[trigger] funcs[k], bus, slot, function)
}

/// What a configuration read of dword `reg` at the triple returns: the
/// function's register, or all-ones where no function answers.
pub open spec fn spec_read(
    funcs: Seq<ConfigFunction>,
    bus: u8,
    slot: u8,
    function: u8,
    reg: int,
) -> u32 {
    if has_function(funcs, bus, slot, function) {
        funcs[func_index(funcs, bus, slot, function)].regs@[reg]
    } else {
        u32::MAX
    }
}

/// Whether a device answers at the triple: the vendor identifier read from
/// its first dword is not the all-ones sentinel.
pub open spec fn present(funcs: Seq<ConfigFunction>, bus: u8, slot: u8, function: u8) -> bool {
    spec_read(funcs, bus, slot, function, 0) & 0xFFFF != NO_DEVICE_SENTINEL
}

/// The 16 configuration dwords readable at the triple.
pub open spec fn device_dwords(funcs: Seq<ConfigFunction>, bus: u8, slot: u8, function: u8) -> Seq<
    u32,
> {
    Seq::new(16, |i: int| spec_read(funcs, bus, slot, function, i))
}

/// The documented encoding of a configuration address: enable bit, bus in
/// bits 23-16, slot in 15-11, function in 10-8, dword-aligned offset in
/// 7-2.
pub open spec fn spec_config_address(bus: u8, slot: u8, function: u8, offset: u8) -> u32 {
    ENABLE_BIT | (bus as u32) << 16 | (slot as u32) << 11 | (function as u32) << 8 | (
    (offset as u32) & 0xFC)
}

/// Whether a latched address word has the enable bit set.
pub open spec fn addr_enabled(address: u32) -> bool {
    address & ENABLE_BIT != 0
}

/// Bus field of a latched address word.
pub open spec fn addr_bus(address: u32) -> u8 {
    ((address >> 16) & 0xFF) as u8
}

/// Slot field of a latched address word.
pub open spec fn addr_slot(address: u32) -> u8 {
    ((address >> 11) & 0x1F) as u8
}

/// Function field of a latched address word.
pub open spec fn addr_function(address: u32) -> u8 {
    ((address >> 8) & 0x7) as u8
}

/// Register (dword) index of a latched address word.
pub open spec fn addr_reg(address: u32) -> u32 {
    (address & 0xFC) >> 2
}

/// What a read of the data port returns under the current latch.
pub open spec fn spec_data_read(cs: ConfigSpace) -> u32 {
    if addr_enabled(cs.address_latch) {
        spec_read(
            cs.funcs@,
            addr_bus(cs.address_latch),
            addr_slot(cs.address_latch),
            addr_function(cs.address_latch),
            addr_reg(cs.address_latch) as int,
        )
    } else {
        u32::MAX
    }
}

/// Decoding inverts the encoding, field by field; a header offset below 64
/// lands on one of the 16 header dwords.
pub proof fn lemma_address_roundtrip(bus: u8, slot: u8, function: u8, offset: u8)
    requires
        slot < 32,
        function < 8,
    ensures
        addr_enabled(spec_config_address(bus, slot, function, offset)),
        addr_bus(spec_config_address(bus, slot, function, offset)) == bus,
        addr_slot(spec_config_address(bus, slot, function, offset)) == slot,
        addr_function(spec_config_address(bus, slot, function, offset)) == function,
        addr_reg(spec_config_address(bus, slot, function, offset)) == offset / 4,
{
    let a = ENABLE_BIT | (bus as u32) << 16 | (slot as u32) << 11 | (function as u32) << 8 | (
    (offset as u32) & 0xFC);
    assert(a & ENABLE_BIT != 0) by (bit_vector)
        requires
            a == ENABLE_BIT | (bus as u32) << 16 | (slot as u32) << 11 | (function as u32) << 8 | (
            (offset as u32) & 0xFC),
    ;
    assert(((a >> 16) & 0xFF) as u8 == bus && ((a >> 11) & 0x1F) as u8 == slot && ((a >> 8) & 0x7)
        as u8 == function && (a & 0xFC) >> 2 == (offset / 4) as u32) by (bit_vector)
        requires
            slot < 32,
            function < 8,
            a == ENABLE_BIT | (bus as u32) << 16 | (slot as u32) << 11 | (function as u32) << 8 | (
            (offset as u32) & 0xFC),
    ;
}

impl ConfigSpace {
    /// Well formed: at most one function answers at any triple.
    pub open spec fn wf(&self) -> bool {
        forall|k1: int, k2: int|
            0 <= k1 < k2 < self.funcs@.len() ==> triple_of(#[trigger] self.funcs@[k1]) != triple_of(
                #[trigger] self.funcs@[k2],
            )
    }

    /// Latch an address word on the address port.
    pub fn out_addr(&mut self, address: u32)
        ensures
            final(self).funcs == old(self).funcs,
            final(self).address_latch == address,
    {
        self.address_latch = address;
    }

    /// Read the data port: returns the latched function's dword, or
    /// all-ones where the latch is not enabled or no function answers.
    pub fn in_data(&self) -> (r: u32)
        requires
            self.wf(),
            addr_enabled(self.address_latch) ==> addr_reg(self.address_latch) < 16,
        ensures
            r == spec_data_read(*self),
    {
        if self.address_latch & ENABLE_BIT == 0 {
            return u32::MAX;
        }
        let bus = ((self.address_latch >> 16) & 0xFF) as u8;
        let slot = ((self.address_latch >> 11) & 0x1F) as u8;
        let function = ((self.address_latch >> 8) & 0x7) as u8;
        let reg = ((self.address_latch & 0xFC) >> 2) as usize;

        let mut k: usize = 0;
        while k < self.funcs.len()
            invariant
                self.wf(),
                addr_enabled(self.address_latch),
                addr_reg(self.address_latch) < 16,
                bus == addr_bus(self.address_latch),
                slot == addr_slot(self.address_latch),
                function == addr_function(self.address_latch),
                reg == addr_reg(self.address_latch),
                k <= self.funcs@.len(),
                forall|j: int| 0 <= j < k ==> !is_at(#[trigger] self.funcs@[j], bus, slot, function),
            decreases self.funcs@.len() - k,
        {
            let cf = self.funcs[k];
            if cf.bus == bus && cf.slot == slot && cf.function == function {
                proof {
                    lemma_func_index_is(self.funcs@, bus, slot, function, k as int);
                }
                return cf.regs[reg];
            }
            k += 1;
        }
        assert(!has_function(self.funcs@, bus, slot, function));
        u32::MAX
    }

    /// Write the data port: replaces the latched function's dword; the
    /// write is dropped where the latch is not enabled or no function
    /// answers.
    pub fn write_data(&mut self, value: u32)
        requires
            old(self).wf(),
            addr_enabled(old(self).address_latch) ==> addr_reg(old(self).address_latch) < 16,
        ensures
            final(self).wf(),
            final(self).address_latch == old(self).address_latch,
            final(self).funcs@.len() == old(self).funcs@.len(),
            forall|b: u8, s: u8, f: u8|
                has_function(final(self).funcs@, b, s, f) == has_function(
                    old(self).funcs@,
                    b,
                    s,
                    f,
                ),
            forall|b: u8, s: u8, f: u8, reg: int|
                0 <= reg < 16 ==> #[trigger] spec_read(final(self).funcs@, b, s, f, reg) == (
                if write_targets(*old(self), b, s, f, reg) {
                    value
                } else {
                    spec_read(old(self).funcs@, b, s, f, reg)
                }),
    {
        if self.address_latch & ENABLE_BIT == 0 {
            return;
        }
        let bus = ((self.address_latch >> 16) & 0xFF) as u8;
        let slot = ((self.address_latch >> 11) & 0x1F) as u8;
        let function = ((self.address_latch >> 8) & 0x7) as u8;
        let reg = ((self.address_latch & 0xFC) >> 2) as usize;

        let mut k: usize = 0;
        while k < self.funcs.len()
            invariant
                self.wf(),
                *self == *old(self),
                addr_enabled(self.address_latch),
                addr_reg(self.address_latch) < 16,
                bus == addr_bus(self.address_latch),
                slot == addr_slot(self.address_latch),
                function == addr_function(self.address_latch),
                reg == addr_reg(self.address_latch),
                k <= self.funcs@.len(),
                forall|j: int| 0 <= j < k ==> !is_at(#[trigger] self.funcs@[j], bus, slot, function),
            decreases self.funcs@.len() - k,
        {
            let cf = self.funcs[k];
            if cf.bus == bus && cf.slot == slot && cf.function == function {
                proof {
                    lemma_func_index_is(self.funcs@, bus, slot, function, k as int);
                }
                let mut updated = cf;
                updated.regs[reg] = value;
                self.funcs[k] = updated;
                proof {
                    lemma_write_frame(old(self).funcs@, self.funcs@, k as int, reg as int, value);
                }
                return;
            }
            k += 1;
        }
        assert(!has_function(self.funcs@, bus, slot, function));
    }
}

/// Whether a data-port write under `cs`'s latch reaches the dword
/// (`b`, `s`, `f`, `reg`).
pub open spec fn write_targets(cs: ConfigSpace, b: u8, s: u8, f: u8, reg: int) -> bool {
    &&& addr_enabled(cs.address_latch)
    &&& b == addr_bus(cs.address_latch)
    &&& s == addr_slot(cs.address_latch)
    &&& f == addr_function(cs.address_latch)
    &&& reg == addr_reg(cs.address_latch)
    &&& has_function(cs.funcs@, b, s, f)
}

/// A function found by linear search is the unique answering function.
proof fn lemma_func_index_is(funcs: Seq<ConfigFunction>, bus: u8, slot: u8, function: u8, k: int)
    requires
        forall|k1: int, k2: int|
            0 <= k1 < k2 < funcs.len() ==> triple_of(#[trigger] funcs[k1]) != triple_of(
                #[trigger] funcs[k2],
            ),
        0 <= k < funcs.len(),
        is_at(funcs[k], bus, slot, function),
    ensures
        has_function(funcs, bus, slot, function),
        func_index(funcs, bus, slot, function) == k,
{
    assert(has_function(funcs, bus, slot, function));
    let k0 = func_index(funcs, bus, slot, function);
    assert(0 <= k0 < funcs.len() && is_at(funcs[k0], bus, slot, function));
    if k0 < k {
        assert(triple_of(funcs[k0]) != triple_of(funcs[k]));
    } else if k < k0 {
        assert(triple_of(funcs[k]) != triple_of(funcs[k0]));
    }
}

/// Updating one register of the function at index `k` changes exactly that
/// function's dword `reg` as seen through `spec_read`, and nothing else.
proof fn lemma_write_frame(
    before: Seq<ConfigFunction>,
    after: Seq<ConfigFunction>,
    k: int,
    reg: int,
    value: u32,
)
    requires
        forall|k1: int, k2: int|
            0 <= k1 < k2 < before.len() ==> triple_of(#[trigger] before[k1]) != triple_of(
                #[trigger] before[k2],
            ),
        0 <= k < before.len(),
        0 <= reg < 16,
        after.len() == before.len(),
        after[k].bus == before[k].bus,
        after[k].slot == before[k].slot,
        after[k].function == before[k].function,
        after[k].regs@ == before[k].regs@.update(reg, value),
        forall|j: int| 0 <= j < before.len() && j != k ==> after[j] == before[j],
    ensures
        forall|k1: int, k2: int|
            0 <= k1 < k2 < after.len() ==> triple_of(#[trigger] after[k1]) != triple_of(
                #[trigger] after[k2],
            ),
        forall|b: u8, s: u8, f: u8|
            has_function(after, b, s, f) == has_function(before, b, s, f),
        forall|b: u8, s: u8, f: u8, r: int|
            0 <= r < 16 ==> #[trigger] spec_read(after, b, s, f, r) == (
            if b == before[k].bus && s == before[k].slot && f == before[k].function && r == reg {
                value
            } else {
                spec_read(before, b, s, f, r)
            }),
{
    assert forall|k1: int, k2: int| 0 <= k1 < k2 < after.len() implies triple_of(
        #[trigger] after[k1],
    ) != triple_of(#[trigger] after[k2]) by {
        assert(triple_of(after[k1]) == triple_of(before[k1]));
        assert(triple_of(after[k2]) == triple_of(before[k2]));
    }
    assert forall|b: u8, s: u8, f: u8|
        has_function(after, b, s, f) == has_function(before, b, s, f) by {
        if has_function(before, b, s, f) {
            let j = func_index(before, b, s, f);
            assert(is_at(after[j], b, s, f));
        }
        if has_function(after, b, s, f) {
            let j = choose|j: int| 0 <= j < after.len() && is_at(#[trigger] after[j], b, s, f);
            assert(is_at(before[j], b, s, f));
        }
    }
    assert forall|b: u8, s: u8, f: u8, r: int| 0 <= r < 16 implies #[trigger] spec_read(
        after,
        b,
        s,
        f,
        r,
    ) == (if b == before[k].bus && s == before[k].slot && f == before[k].function && r == reg {
        value
    } else {
        spec_read(before, b, s, f, r)
    }) by {
        if has_function(before, b, s, f) {
            let j = func_index(before, b, s, f);
            assert(0 <= j < before.len() && is_at(before[j], b, s, f));
            assert(is_at(after[j], b, s, f));
            lemma_func_index_is(before, b, s, f, j);
            lemma_func_index_is(after, b, s, f, j);
            if j == k {
                assert(is_at(before[k], b, s, f));
            } else {
                assert(after[j] == before[j]);
            }
        } else {
            assert(!has_function(after, b, s, f)) by {
                if has_function(after, b, s, f) {
                    let j = choose|j: int|
                        0 <= j < after.len() && is_at(#[trigger] after[j], b, s, f);
                    assert(is_at(before[j], b, s, f));
                }
            }
        }
    }
}

/// Known PCI vendors.
#[derive(Clone, Copy, PartialEq, Eq, Structural, Debug)]
pub enum Vendor {
    Intel,
    Unknown,
}

/// The vendor a 16-bit vendor identifier names.
pub open spec fn vendor_from(value: u16) -> Vendor {
    if value == 0x8086 {
        Vendor::Intel
    } else {
        Vendor::Unknown
    }
}

impl From<u16> for Vendor {
    fn from(value: u16) -> (r: Self) {
        match value {
            0x8086 => Self::Intel,
            _ => Self::Unknown,
        }
    }
}

impl vstd::std_specs::convert::FromSpecImpl<u16> for Vendor {
    open spec fn obeys_from_spec() -> bool {
        true
    }

    open spec fn from_spec(value: u16) -> Self {
        vendor_from(value)
    }
}

/// Known PCI device identifiers.
#[derive(Clone, Copy, PartialEq, Eq, Structural, Debug)]
pub enum Id {
    E1000,
    Unknown,
}

/// The device model a 16-bit device identifier names.
pub open spec fn id_from(value: u16) -> Id {
    if value == 0x100E {
        Id::E1000
    } else {
        Id::Unknown
    }
}

impl From<u16> for Id {
    fn from(value: u16) -> (r: Self) {
        match value {
            0x100E => Self::E1000,
            _ => Self::Unknown,
        }
    }
}

impl vstd::std_specs::convert::FromSpecImpl<u16> for Id {
    open spec fn obeys_from_spec() -> bool {
        true
    }

    open spec fn from_spec(value: u16) -> Self {
        id_from(value)
    }
}

/// The 64-byte configuration header, parsed field by field from its 16
/// dwords, which hold their sub-fields least-significant first.
#[derive(Clone, Copy, Debug)]
pub struct Header {
    pub vendor_id: u16,
    pub device_id: u16,
    pub command: u16,
    pub status: u16,
    pub revision_id: u8,
    pub prog_if: u8,
    pub subclass: u8,
    pub class_code: u8,
    pub cache_line_size: u8,
    pub latency_timer: u8,
    pub header_type: u8,
    pub bist: u8,
    pub base_addrs: [u32; 6],
    pub cardbus_cis_ptr: u32,
    pub subsystem_vendor_id: u16,
    pub subsystem_id: u16,
    pub expansion_rom_base_addr: u32,
    pub capabilities_ptr: u8,
    pub interrupt_line: u8,
    pub interrupt_pin: u8,
    pub min_grant: u8,
    pub max_latency: u8,
}

/// Field-by-field correspondence of a parsed header with the 16
/// configuration dwords it came from.
pub open spec fn header_matches(h: Header, dw: Seq<u32>) -> bool {
    &&& dw.len() == 16
    &&& h.vendor_id == (dw[0] & 0xFFFF) as u16
    &&& h.device_id == (dw[0] >> 16) as u16
    &&& h.command == (dw[1] & 0xFFFF) as u16
    &&& h.status == (dw[1] >> 16) as u16
    &&& h.revision_id == (dw[2] & 0xFF) as u8
    &&& h.prog_if == ((dw[2] >> 8) & 0xFF) as u8
    &&& h.subclass == ((dw[2] >> 16) & 0xFF) as u8
    &&& h.class_code == (dw[2] >> 24) as u8
    &&& h.cache_line_size == (dw[3] & 0xFF) as u8
    &&& h.latency_timer == ((dw[3] >> 8) & 0xFF) as u8
    &&& h.header_type == ((dw[3] >> 16) & 0xFF) as u8
    &&& h.bist == (dw[3] >> 24) as u8
    &&& h.base_addrs@ =~= dw.subrange(4, 10)
    &&& h.cardbus_cis_ptr == dw[10]
    &&& h.subsystem_vendor_id == (dw[11] & 0xFFFF) as u16
    &&& h.subsystem_id == (dw[11] >> 16) as u16
    &&& h.expansion_rom_base_addr == dw[12]
    &&& h.capabilities_ptr == (dw[13] & 0xFF) as u8
    &&& h.interrupt_line == (dw[15] & 0xFF) as u8
    &&& h.interrupt_pin == ((dw[15] >> 8) & 0xFF) as u8
    &&& h.min_grant == ((dw[15] >> 16) & 0xFF) as u8
    &&& h.max_latency == (dw[15] >> 24) as u8
}

impl Header {
    /// One configuration read: latch the encoded address, read the data
    /// port.
    pub fn read32(cs: &mut ConfigSpace, bus: u8, slot: u8, function: u8, offset: u8) -> (r: u32)
        requires
            old(cs).wf(),
            slot < 32,
            function < 8,
            offset < 64,
        ensures
            final(cs).wf(),
            final(cs).funcs == old(cs).funcs,
            final(cs).address_latch == spec_config_address(bus, slot, function, offset),
            r == spec_read(old(cs).funcs@, bus, slot, function, offset as int / 4),
    {
        // Request info about the PCI device header
        let request: u32 = ENABLE_BIT | (bus as u32) << 16 | (slot as u32) << 11 | (function
            as u32) << 8 | (offset as u32) & 0xFC;
        proof {
            lemma_address_roundtrip(bus, slot, function, offset);
        }
        cs.out_addr(request);
        cs.in_data()
    }

    /// One configuration write: latch the encoded address, write the data
    /// port.
    pub fn write32(
        cs: &mut ConfigSpace,
        bus: u8,
        slot: u8,
        function: u8,
        offset: u8,
        value: u32,
    )
        requires
            old(cs).wf(),
            slot < 32,
            function < 8,
            offset < 64,
        ensures
            final(cs).wf(),
            final(cs).funcs@.len() == old(cs).funcs@.len(),
            forall|b: u8, s: u8, f: u8|
                has_function(final(cs).funcs@, b, s, f) == has_function(old(cs).funcs@, b, s, f),
            forall|b: u8, s: u8, f: u8, reg: int|
                0 <= reg < 16 ==> #[trigger] spec_read(final(cs).funcs@, b, s, f, reg) == (
                if b == bus && s == slot && f == function && reg == offset as int / 4
                    && has_function(old(cs).funcs@, bus, slot, function) {
                    value
                } else {
                    spec_read(old(cs).funcs@, b, s, f, reg)
                }),
    {
        // Address the chosen dword of the PCI device header
        let request: u32 = ENABLE_BIT | (bus as u32) << 16 | (slot as u32) << 11 | (function
            as u32) << 8 | (offset as u32) & 0xFC;
        proof {
            lemma_address_roundtrip(bus, slot, function, offset);
        }
        cs.out_addr(request);
        cs.write_data(value);
    }

    /// Read and parse the whole 64-byte header at a triple.
    pub fn new(cs: &mut ConfigSpace, bus: u8, slot: u8, function: u8) -> (h: Header)
        requires
            old(cs).wf(),
            slot < 32,
            function < 8,
        ensures
            final(cs).wf(),
            final(cs).funcs == old(cs).funcs,
            header_matches(h, device_dwords(old(cs).funcs@, bus, slot, function)),
    {
        let mut dwords: Vec<u32> = Vec::new();
        let mut i: usize = 0;
        while i < 16
            invariant
                cs.wf(),
                cs.funcs == old(cs).funcs,
                slot < 32,
                function < 8,
                i <= 16,
                dwords@.len() == i,
                forall|j: int|
                    0 <= j < i ==> dwords@[j] == spec_read(
                        old(cs).funcs@,
                        bus,
                        slot,
                        function,
                        j,
                    ),
            decreases 16 - i,
        {
            let dw = Self::read32(cs, bus, slot, function, (i as u8) * 4);
            proof {
                assert((i as u8 * 4) as int / 4 == i as int);
            }
            dwords.push(dw);
            i += 1;
        }

        let ghost dw = device_dwords(old(cs).funcs@, bus, slot, function);
        proof {
            assert(dwords@ =~= dw);
        }
        Header {
            vendor_id: (dwords[0] & 0xFFFF) as u16,
            device_id: (dwords[0] >> 16) as u16,
            command: (dwords[1] & 0xFFFF) as u16,
            status: (dwords[1] >> 16) as u16,
            revision_id: (dwords[2] & 0xFF) as u8,
            prog_if: ((dwords[2] >> 8) & 0xFF) as u8,
            subclass: ((dwords[2] >> 16) & 0xFF) as u8,
            class_code: (dwords[2] >> 24) as u8,
            cache_line_size: (dwords[3] & 0xFF) as u8,
            latency_timer: ((dwords[3] >> 8) & 0xFF) as u8,
            header_type: ((dwords[3] >> 16) & 0xFF) as u8,
            bist: (dwords[3] >> 24) as u8,
            base_addrs: [dwords[4], dwords[5], dwords[6], dwords[7], dwords[8], dwords[9]],
            cardbus_cis_ptr: dwords[10],
            subsystem_vendor_id: (dwords[11] & 0xFFFF) as u16,
            subsystem_id: (dwords[11] >> 16) as u16,
            expansion_rom_base_addr: dwords[12],
            capabilities_ptr: (dwords[13] & 0xFF) as u8,
            interrupt_line: (dwords[15] & 0xFF) as u8,
            interrupt_pin: ((dwords[15] >> 8) & 0xFF) as u8,
            min_grant: ((dwords[15] >> 16) & 0xFF) as u8,
            max_latency: (dwords[15] >> 24) as u8,
        }
    }
}

/// What enabling a device does to configuration space: only the enabled
/// device's command register changes, and it gains exactly the I/O,
/// memory and bus-master enable bits.
pub open spec fn enable_effect(
    old_funcs: Seq<ConfigFunction>,
    new_funcs: Seq<ConfigFunction>,
    bus: u8,
    slot: u8,
    function: u8,
) -> bool {
    &&& new_funcs.len() == old_funcs.len()
    &&& forall|b: u8, s: u8, f: u8|
        has_function(new_funcs, b, s, f) == has_function(old_funcs, b, s, f)
    &&& forall|b: u8, s: u8, f: u8, reg: int|
        0 <= reg < 16 ==> #[trigger] spec_read(new_funcs, b, s, f, reg) == (
        if b == bus && s == slot && f == function && reg == 1 && has_function(
            old_funcs,
            bus,
            slot,
            function,
        ) {
            spec_read(old_funcs, bus, slot, function, 1) | (IO_ENABLE | MMIO_ENABLE | BUS_MASTER)
                as u32
        } else {
            spec_read(old_funcs, b, s, f, reg)
        })
}

/// A discovered PCI device: its address triple and its configuration
/// header as read at discovery time.
#[derive(Clone, Copy, Debug)]
pub struct Device {
    pub header: Header,
    pub bus: u8,
    pub slot: u8,
    pub function: u8,
}

/// Position of a triple in the bus walk's lexicographic order.
pub open spec fn triple_index(bus: u8, slot: u8, function: u8) -> int {
    bus * 256 + slot * 8 + function
}

/// Position of a device's triple in the bus walk's order.
pub open spec fn device_index(d: Device) -> int {
    triple_index(d.bus, d.slot, d.function)
}

/// A device record is faithful to the configuration space: its triple is
/// in range, a device answers there, and its header holds that triple's
/// dwords.
pub open spec fn dev_ok(d: Device, funcs: Seq<ConfigFunction>) -> bool {
    &&& d.slot < 32
    &&& d.function < 8
    &&& present(funcs, d.bus, d.slot, d.function)
    &&& header_matches(d.header, device_dwords(funcs, d.bus, d.slot, d.function))
}

/// Whether the device list holds an entry for the triple.
pub open spec fn has_device(devs: Seq<Device>, bus: u8, slot: u8, function: u8) -> bool {
    exists|k: int|
        0 <= k < devs.len() && (#[trigger] devs[k]).bus == bus && devs[k].slot == slot
            && devs[k].function == function
}

impl Device {
    /// A device's triple lies in the configuration address space.
    pub open spec fn wf(&self) -> bool {
        self.slot < 32 && self.function < 8
    }

    /// Read the header at a triple and record the device.
    pub fn new(cs: &mut ConfigSpace, bus: u8, slot: u8, function: u8) -> (d: Device)
        requires
            old(cs).wf(),
            slot < 32,
            function < 8,
        ensures
            final(cs).wf(),
            final(cs).funcs == old(cs).funcs,
            d.bus == bus && d.slot == slot && d.function == function,
            d.wf(),
            header_matches(d.header, device_dwords(old(cs).funcs@, bus, slot, function)),
    {
        Device { header: Header::new(cs, bus, slot, function), bus, slot, function }
    }

    /// One configuration read addressed at this device.
    pub fn read32(&self, cs: &mut ConfigSpace, offset: u8) -> (r: u32)
        requires
            old(cs).wf(),
            self.wf(),
            offset < 64,
        ensures
            final(cs).wf(),
            final(cs).funcs == old(cs).funcs,
            r == spec_read(old(cs).funcs@, self.bus, self.slot, self.function, offset as int / 4),
    {
        Header::read32(cs, self.bus, self.slot, self.function, offset)
    }

    /// One configuration write addressed at this device.
    pub fn write32(&self, cs: &mut ConfigSpace, offset: u8, value: u32)
        requires
            old(cs).wf(),
            self.wf(),
            offset < 64,
        ensures
            final(cs).wf(),
            final(cs).funcs@.len() == old(cs).funcs@.len(),
            forall|b: u8, s: u8, f: u8|
                has_function(final(cs).funcs@, b, s, f) == has_function(old(cs).funcs@, b, s, f),
            forall|b: u8, s: u8, f: u8, reg: int|
                0 <= reg < 16 ==> #[trigger] spec_read(final(cs).funcs@, b, s, f, reg) == (
                if b == self.bus && s == self.slot && f == self.function && reg == offset as int
                    / 4 && has_function(old(cs).funcs@, self.bus, self.slot, self.function) {
                    value
                } else {
                    spec_read(old(cs).funcs@, b, s, f, reg)
                }),
    {
        Header::write32(cs, self.bus, self.slot, self.function, offset, value)
    }

    /// The six base address registers.
    pub fn base_addrs(&self) -> (r: [u32; 6])
        ensures
            r == self.header.base_addrs,
    {
        self.header.base_addrs
    }

    /// The interrupt line the firmware routed this device to.
    pub fn interrupt_line(&self) -> (r: u8)
        ensures
            r == self.header.interrupt_line,
    {
        self.header.interrupt_line
    }

    /// Set the I/O-enable, memory-enable and bus-master bits in the
    /// device's command register by a read-modify-write, leaving every
    /// other configuration dword of every function untouched. Required
    /// before a driver touches the device's MMIO space or starts DMA.
    pub fn enable(&self, cs: &mut ConfigSpace)
        requires
            old(cs).wf(),
            self.wf(),
        ensures
            final(cs).wf(),
            enable_effect(old(cs).funcs@, final(cs).funcs@, self.bus, self.slot, self.function),
    {
        let enable_bits = IO_ENABLE | MMIO_ENABLE | BUS_MASTER;

        let current_command = self.read32(cs, COMMAND_OFFSET);

        self.write32(cs, COMMAND_OFFSET, current_command | enable_bits as u32);
    }

    /// Whether the class code identifies a network controller.
    pub fn is_network_controller(&self) -> (r: bool)
        ensures
            r == (self.header.class_code == NETWORK_CONTROLLER_CLASS),
    {
        self.header.class_code == NETWORK_CONTROLLER_CLASS
    }

    /// The device's vendor, by its vendor identifier.
    pub fn vendor(&self) -> (r: Vendor)
        ensures
            r == vendor_from(self.header.vendor_id),
    {
        self.header.vendor_id.into()
    }

    /// The device's model, by its device identifier.
    pub fn id(&self) -> (r: Id)
        ensures
            r == id_from(self.header.device_id),
    {
        self.header.device_id.into()
    }
}

/// Walk every (bus, slot, function) triple in order; skip the triples
/// whose vendor identifier reads as the all-ones sentinel, and record a
/// [`Device`] with its full header for every other triple.
fn get_devices(cs: &mut ConfigSpace) -> (devices: Vec<Device>)
    requires
        old(cs).wf(),
    ensures
        final(cs).wf(),
        final(cs).funcs == old(cs).funcs,
        // sound: every record is faithful, in walk order, at most one per triple
        forall|k: int| 0 <= k < devices@.len() ==> dev_ok(#[trigger] devices@[k], old(cs).funcs@),
        forall|k1: int, k2: int|
            0 <= k1 < k2 < devices@.len() ==> device_index(devices@[k1]) < device_index(
                devices@[k2],
            ),
        // complete: every answering triple is recorded
        forall|b: u8, s: u8, f: u8|
            s < 32 && f < 8 && #[trigger] present(old(cs).funcs@, b, s, f) ==> has_device(
                devices@,
                b,
                s,
                f,
            ),
{
    let mut devices: Vec<Device> = Vec::new();
    let mut bus: u16 = 0;
    while bus < 256
        invariant
            cs.wf(),
            cs.funcs == old(cs).funcs,
            bus <= 256,
            forall|k: int| 0 <= k < devices@.len() ==> dev_ok(#[trigger] devices@[k], old(cs).funcs@),
            forall|k1: int, k2: int|
                0 <= k1 < k2 < devices@.len() ==> device_index(devices@[k1]) < device_index(
                    devices@[k2],
                ),
            forall|k: int|
                0 <= k < devices@.len() ==> device_index(#[trigger] devices@[k]) < bus * 256,
            forall|b: u8, s: u8, f: u8|
                s < 32 && f < 8 && triple_index(b, s, f) < bus * 256 && #[trigger] present(
                    old(cs).funcs@,
                    b,
                    s,
                    f,
                ) ==> has_device(devices@, b, s, f),
        decreases 256 - bus,
    {
        let mut slot: u8 = 0;
        while slot < 32
            invariant
                cs.wf(),
                cs.funcs == old(cs).funcs,
                bus < 256,
                slot <= 32,
                forall|k: int|
                    0 <= k < devices@.len() ==> dev_ok(#[trigger] devices@[k], old(cs).funcs@),
                forall|k1: int, k2: int|
                    0 <= k1 < k2 < devices@.len() ==> device_index(devices@[k1]) < device_index(
                        devices@[k2],
                    ),
                forall|k: int|
                    0 <= k < devices@.len() ==> device_index(#[trigger] devices@[k]) < bus * 256
                        + slot * 8,
                forall|b: u8, s: u8, f: u8|
                    s < 32 && f < 8 && triple_index(b, s, f) < bus * 256 + slot * 8
                        && #[trigger] present(old(cs).funcs@, b, s, f) ==> has_device(
                        devices@,
                        b,
                        s,
                        f,
                    ),
            decreases 32 - slot,
        {
            let mut function: u8 = 0;
            while function < 8
                invariant
                    cs.wf(),
                    cs.funcs == old(cs).funcs,
                    bus < 256,
                    slot < 32,
                    function <= 8,
                    forall|k: int|
                        0 <= k < devices@.len() ==> dev_ok(#[trigger] devices@[k], old(cs).funcs@),
                    forall|k1: int, k2: int|
                        0 <= k1 < k2 < devices@.len() ==> device_index(devices@[k1])
                            < device_index(devices@[k2]),
                    forall|k: int|
                        0 <= k < devices@.len() ==> device_index(#[trigger] devices@[k]) < bus
                            * 256 + slot * 8 + function,
                    forall|b: u8, s: u8, f: u8|
                        s < 32 && f < 8 && triple_index(b, s, f) < bus * 256 + slot * 8 + function
                            && #[trigger] present(old(cs).funcs@, b, s, f) ==> has_device(
                            devices@,
                            b,
                            s,
                            f,
                        ),
                decreases 8 - function,
            {
                let ghost devs0 = devices@;
                let ghost bound = bus * 256 + slot * 8 + function;

                let did_vid = Header::read32(cs, bus as u8, slot, function, DID_VID_OFFSET);
                proof {
                    assert(did_vid & 0xFFFF < 0x10000) by (bit_vector);
                }
                let vendor = (did_vid & 0xFFFF) as u16;

                if vendor != NO_DEVICE_SENTINEL {
                    let d = Device::new(cs, bus as u8, slot, function);
                    devices.push(d);
                    proof {
                        assert(present(old(cs).funcs@, bus as u8, slot, function));
                        assert(devices@[devs0.len() as int] == d);
                        assert forall|b: u8, s: u8, f: u8|
                            s < 32 && f < 8 && triple_index(b, s, f) < bound + 1
                                && #[trigger] present(old(cs).funcs@, b, s, f) implies has_device(
                            devices@,
                            b,
                            s,
                            f,
                        ) by {
                            if triple_index(b, s, f) == bound {
                                assert(b == bus as u8 && s == slot && f == function);
                                assert((devices@[devs0.len() as int]).bus == b);
                            } else {
                                let k = choose|k: int|
                                    0 <= k < devs0.len() && (#[trigger] devs0[k]).bus == b
                                        && devs0[k].slot == s && devs0[k].function == f;
                                assert(devices@[k] == devs0[k]);
                            }
                        }
                    }
                } else {
                    proof {
                        assert(!present(old(cs).funcs@, bus as u8, slot, function));
                        assert forall|b: u8, s: u8, f: u8|
                            s < 32 && f < 8 && triple_index(b, s, f) < bound + 1
                                && #[trigger] present(old(cs).funcs@, b, s, f) implies has_device(
                            devices@,
                            b,
                            s,
                            f,
                        ) by {
                            if triple_index(b, s, f) == bound {
                                assert(b == bus as u8 && s == slot && f == function);
                            }
                        }
                    }
                }
                function += 1;
            }
            slot += 1;
        }
        bus += 1;
    }
    devices
}

/// Law: the sentinel is skipped. In any device list that is faithful to a
/// configuration space — as the one [`init`] returns is — a triple whose
/// vendor identifier reads as the all-ones sentinel has no entry.
pub proof fn lemma_sentinel_yields_no_device(
    devices: Seq<Device>,
    funcs: Seq<ConfigFunction>,
    bus: u8,
    slot: u8,
    function: u8,
)
    requires
        forall|k: int| 0 <= k < devices.len() ==> dev_ok(#[trigger] devices[k], funcs),
        spec_read(funcs, bus, slot, function, 0) & 0xFFFF == NO_DEVICE_SENTINEL,
    ensures
        !has_device(devices, bus, slot, function),
{
    if has_device(devices, bus, slot, function) {
        let k = choose|k: int|
            0 <= k < devices.len() && (#[trigger] devices[k]).bus == bus && devices[k].slot
                == slot && devices[k].function == function;
        assert(dev_ok(devices[k], funcs));
        assert(present(funcs, bus, slot, function));
    }
}

/// Enumerate the bus: the list of present devices with their headers. A
/// triple whose vendor identifier reads as the sentinel yields no entry.
pub fn init(cs: &mut ConfigSpace) -> (devices: Vec<Device>)
    requires
        old(cs).wf(),
    ensures
        final(cs).wf(),
        final(cs).funcs == old(cs).funcs,
        forall|k: int| 0 <= k < devices@.len() ==> dev_ok(#[trigger] devices@[k], old(cs).funcs@),
        forall|k1: int, k2: int|
            0 <= k1 < k2 < devices@.len() ==> device_index(devices@[k1]) < device_index(
                devices@[k2],
            ),
        forall|b: u8, s: u8, f: u8|
            s < 32 && f < 8 && #[trigger] present(old(cs).funcs@, b, s, f) ==> has_device(
                devices@,
                b,
                s,
                f,
            ),
{
    get_devices(cs)
}

} // verus!
