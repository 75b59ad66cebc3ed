//! Global Descriptor Table.
//!
//! The table defines the memory segments of the processor. This kernel uses
//! the flat model: every segment begins at address 0 and spans 4 GiB, and the
//! segments differ in their access byte only.
//!
//! A descriptor is eight bytes in memory, least significant byte first:
//!
//! | byte | content                                              |
//! |------|------------------------------------------------------|
//! | 0, 1 | bits 0..16 of the limit                              |
//! | 2, 3 | bits 0..16 of the base                               |
//! | 4    | bits 16..24 of the base                              |
//! | 5    | access byte                                          |
//! | 6    | bits 16..20 of the limit (low nibble), mode (high)   |
//! | 7    | bits 24..32 of the base                              |

use vstd::prelude::*;

verus! {

/// Address at which the table pointer is kept.
pub const GDT_BASE: u32 = 0x800;

/// Number of descriptors in the table.
pub const GDT_ENTRIES: usize = 7;

/// Size of a descriptor in bytes.
pub const ENTRY_SIZE: usize = 8;

/// Mode byte of a 32-bit protected mode segment with 4 KiB granularity.
pub const FLAGS: u8 = 0xCF;

/// Base of every segment of the flat model.
pub const BASE: u32 = 0x0000_0000;

/// Limit of every segment of the flat model.
pub const LIMIT: u32 = 0xFFFF_FFFF;

/// One segment descriptor, field by field.
#[derive(Debug, Clone, Copy, PartialEq, Eq, Structural)]
pub struct Entry {
    /// Bits 0..16 of the limit.
    pub limit: u16,
    /// Bits 0..16 of the base.
    pub base_low: u16,
    /// Bits 16..24 of the base.
    pub base_mid: u8,
    /// Privileges of the segment.
    pub access: u8,
    /// Segment mode in the upper nibble, bits 16..20 of the limit in the lower.
    pub flags: u8,
    /// Bits 24..32 of the base.
    pub base_high: u8,
}

impl Default for Entry {
    /// The null descriptor.
    fn default() -> (entry: Self)
        ensures
            entry == Entry::spec_null(),
    {
        Entry { limit: 0, base_low: 0, base_mid: 0, access: 0, flags: 0, base_high: 0 }
    }
}

impl Entry {
    /// The descriptor that holds no data.
    pub open spec fn spec_null() -> Entry {
        Entry { limit: 0, base_low: 0, base_mid: 0, access: 0, flags: 0, base_high: 0 }
    }

    /// The descriptor of the segment that begins at `base`, with the low 20
    /// bits of `limit`, the access byte `access` and the upper nibble of
    /// `flags`.
    pub open spec fn spec_new(base: u32, limit: u32, access: u8, flags: u8) -> Entry {
        Entry {
            limit: (limit & 0xFFFF) as u16,
            base_low: (base & 0xFFFF) as u16,
            base_mid: ((base >> 16) & 0xFF) as u8,
            access,
            flags: (((limit >> 16) & 0x0F) as u8) | (flags & 0xF0),
            base_high: ((base >> 24) & 0xFF) as u8,
        }
    }

    /// The linear address at which the segment begins.
    pub open spec fn spec_base(&self) -> u32 {
        (self.base_low as u32) | ((self.base_mid as u32) << 16) | ((self.base_high as u32) << 24)
    }

    /// The 20-bit limit of the segment.
    pub open spec fn spec_limit(&self) -> u32 {
        (self.limit as u32) | (((self.flags & 0x0F) as u32) << 16)
    }

    /// The mode nibble, in place (bits 4..8 of the flags byte).
    pub open spec fn spec_mode(&self) -> u8 {
        self.flags & 0xF0
    }

    /// The last byte offset inside the segment: the limit itself, or, with
    /// the granularity bit set, the limit counted in pages of 4 KiB.
    pub open spec fn spec_last_offset(&self) -> u32 {
        if self.flags & 0x80 != 0 {
            (self.spec_limit() << 12) | 0xFFF
        } else {
            self.spec_limit()
        }
    }

    /// The eight bytes of the descriptor as the processor reads them.
    pub open spec fn spec_to_bytes(&self) -> Seq<u8> {
        seq![
            (self.limit & 0xFF) as u8,
            (self.limit >> 8) as u8,
            (self.base_low & 0xFF) as u8,
            (self.base_low >> 8) as u8,
            self.base_mid,
            self.access,
            self.flags,
            self.base_high,
        ]
    }

    /// The descriptor that eight bytes in memory stand for.
    pub open spec fn spec_from_bytes(bytes: Seq<u8>) -> Entry {
        Entry {
            limit: (bytes[0] as u16) | ((bytes[1] as u16) << 8),
            base_low: (bytes[2] as u16) | ((bytes[3] as u16) << 8),
            base_mid: bytes[4],
            access: bytes[5],
            flags: bytes[6],
            base_high: bytes[7],
        }
    }

    /// Packs `base`, the low 20 bits of `limit`, `access` and the upper nibble
    /// of `flags` into a descriptor.
    pub fn new(base: u32, limit: u32, access: u8, flags: u8) -> (entry: Self)
        ensures
            entry == Entry::spec_new(base, limit, access, flags),
            entry.spec_base() == base,
            entry.spec_limit() == limit & 0xF_FFFF,
            entry.spec_mode() == flags & 0xF0,
            entry.access == access,
    {
        let entry_base_low: u16 = (base & 0xFFFF) as u16;
        let entry_base_mid: u8 = ((base >> 16) & 0xFF) as u8;
        let entry_base_high: u8 = ((base >> 24) & 0xFF) as u8;
        let entry_limit: u16 = (limit & 0xFFFF) as u16;
        let mut entry_flags: u8 = ((limit >> 16) & 0x0F) as u8;
        entry_flags |= flags & 0xF0;
        proof {
            lemma_new_unpacks(base, limit, access, flags);
        }
        Entry {
            base_high: entry_base_high,
            base_low: entry_base_low,
            base_mid: entry_base_mid,
            limit: entry_limit,
            flags: entry_flags,
            access,
        }
    }

    /// The linear address at which the segment begins.
    pub fn base(&self) -> (base: u32)
        ensures
            base == self.spec_base(),
    {
        (self.base_low as u32) | ((self.base_mid as u32) << 16) | ((self.base_high as u32) << 24)
    }

    /// The 20-bit limit of the segment.
    pub fn limit(&self) -> (limit: u32)
        ensures
            limit == self.spec_limit(),
    {
        (self.limit as u32) | (((self.flags & 0x0F) as u32) << 16)
    }

    /// The eight bytes of the descriptor as the processor reads them.
    pub fn to_bytes(&self) -> (bytes: [u8; 8])
        ensures
            bytes@ == self.spec_to_bytes(),
    {
        let bytes: [u8; 8] = [
            (self.limit & 0xFF) as u8,
            (self.limit >> 8) as u8,
            (self.base_low & 0xFF) as u8,
            (self.base_low >> 8) as u8,
            self.base_mid,
            self.access,
            self.flags,
            self.base_high,
        ];
        assert(bytes@ =~= self.spec_to_bytes());
        bytes
    }

    /// Reads a descriptor from its eight bytes in memory.
    pub fn from_bytes(bytes: &[u8; 8]) -> (entry: Self)
        ensures
            entry == Entry::spec_from_bytes(bytes@),
    {
        Entry {
            limit: (bytes[0] as u16) | ((bytes[1] as u16) << 8),
            base_low: (bytes[2] as u16) | ((bytes[3] as u16) << 8),
            base_mid: bytes[4],
            access: bytes[5],
            flags: bytes[6],
            base_high: bytes[7],
        }
    }
}

/// The base, the low 20 bits of the limit and the mode nibble that a
/// descriptor was made from can be read back from its fields.
pub proof fn lemma_new_unpacks(base: u32, limit: u32, access: u8, flags: u8)
    ensures
        Entry::spec_new(base, limit, access, flags).spec_base() == base,
        Entry::spec_new(base, limit, access, flags).spec_limit() == limit & 0xF_FFFF,
        limit <= 0xF_FFFF ==> Entry::spec_new(base, limit, access, flags).spec_limit() == limit,
        Entry::spec_new(base, limit, access, flags).spec_mode() == flags & 0xF0,
        Entry::spec_new(base, limit, access, flags).access == access,
{
    assert(((base & 0xFFFF) as u16 as u32) | ((((base >> 16) & 0xFF) as u8 as u32) << 16) | ((((
    base >> 24) & 0xFF) as u8 as u32) << 24) == base) by (bit_vector);
    assert(((limit & 0xFFFF) as u16 as u32) | ((((((limit >> 16) & 0x0F) as u8) | (flags & 0xF0))
        & 0x0F) as u32) << 16 == limit & 0xF_FFFF) by (bit_vector);
    assert(((((limit >> 16) & 0x0F) as u8) | (flags & 0xF0)) & 0xF0 == flags & 0xF0)
        by (bit_vector);
    assert(limit <= 0xF_FFFF ==> limit & 0xF_FFFF == limit) by (bit_vector);
}

/// A descriptor written to memory and read back is the same descriptor.
pub proof fn lemma_bytes_round_trip(entry: Entry)
    ensures
        entry.spec_to_bytes().len() == 8,
        Entry::spec_from_bytes(entry.spec_to_bytes()) == entry,
{
    let limit = entry.limit;
    let base_low = entry.base_low;
    assert((((limit & 0xFF) as u8) as u16) | ((((limit >> 8) as u8) as u16) << 8) == limit)
        by (bit_vector);
    assert((((base_low & 0xFF) as u8) as u16) | ((((base_low >> 8) as u8) as u16) << 8)
        == base_low) by (bit_vector);
}

/// Packing a segment into the eight bytes of its descriptor and unpacking
/// them gives back the 32-bit base and the 20-bit limit exactly.
pub proof fn lemma_descriptor_round_trip(base: u32, limit: u32, access: u8, flags: u8)
    ensures
        Entry::spec_from_bytes(
            Entry::spec_new(base, limit, access, flags).spec_to_bytes(),
        ).spec_base() == base,
        Entry::spec_from_bytes(
            Entry::spec_new(base, limit, access, flags).spec_to_bytes(),
        ).spec_limit() == limit & 0xF_FFFF,
        limit <= 0xF_FFFF ==> Entry::spec_from_bytes(
            Entry::spec_new(base, limit, access, flags).spec_to_bytes(),
        ).spec_limit() == limit,
        Entry::spec_from_bytes(
            Entry::spec_new(base, limit, access, flags).spec_to_bytes(),
        ).access == access,
        Entry::spec_from_bytes(
            Entry::spec_new(base, limit, access, flags).spec_to_bytes(),
        ).spec_mode() == flags & 0xF0,
{
    lemma_new_unpacks(base, limit, access, flags);
    lemma_bytes_round_trip(Entry::spec_new(base, limit, access, flags));
}

/// Table pointer: what the processor is given to find the table.
#[derive(Debug, Clone, Copy, PartialEq, Eq, Structural)]
pub struct Pointer {
    /// Size of the table in bytes, less one.
    pub size: u16,
    /// Linear address of the table.
    pub offset: u32,
}

/// The segments of the table.
#[derive(Debug, Clone, Copy, PartialEq, Eq, Structural)]
pub enum Segment {
    Null,
    KernelCode,
    KernelData,
    KernelStack,
    UserCode,
    UserData,
    UserStack,
}

impl Segment {
    /// Place of the segment's descriptor in the table.
    pub open spec fn spec_index(self) -> int {
        match self {
            Segment::Null => 0,
            Segment::KernelCode => 1,
            Segment::KernelData => 2,
            Segment::KernelStack => 3,
            Segment::UserCode => 4,
            Segment::UserData => 5,
            Segment::UserStack => 6,
        }
    }

    /// Place of the segment's descriptor in the table.
    pub fn index(self) -> (index: usize)
        ensures
            index == self.spec_index(),
            index < GDT_ENTRIES,
    {
        match self {
            Segment::Null => 0,
            Segment::KernelCode => 1,
            Segment::KernelData => 2,
            Segment::KernelStack => 3,
            Segment::UserCode => 4,
            Segment::UserData => 5,
            Segment::UserStack => 6,
        }
    }

    /// Offset of the segment's descriptor in the table, in bytes.
    pub fn offset(self) -> (offset: u8)
        ensures
            offset == 8 * self.spec_index(),
    {
        match self {
            Segment::Null => 0x00,
            Segment::KernelCode => 0x08,
            Segment::KernelData => 0x10,
            Segment::KernelStack => 0x18,
            Segment::UserCode => 0x20,
            Segment::UserData => 0x28,
            Segment::UserStack => 0x30,
        }
    }
}

/// The access bytes of the segments.
#[derive(Debug, Clone, Copy, PartialEq, Eq, Structural)]
pub enum Access {
    KernelCode,
    KernelData,
    KernelStack,
    UserCode,
    UserData,
    UserStack,
}

impl Access {
    /// The access byte.
    pub open spec fn spec_byte(self) -> u8 {
        match self {
            Access::KernelCode => 0x9A,
            Access::KernelData => 0x93,
            Access::KernelStack => 0x97,
            Access::UserCode => 0xFA,
            Access::UserData => 0xF2,
            Access::UserStack => 0xF7,
        }
    }

    /// The access byte.
    pub fn byte(self) -> (byte: u8)
        ensures
            byte == self.spec_byte(),
    {
        match self {
            Access::KernelCode => 0x9A,
            Access::KernelData => 0x93,
            Access::KernelStack => 0x97,
            Access::UserCode => 0xFA,
            Access::UserData => 0xF2,
            Access::UserStack => 0xF7,
        }
    }
}

/// The name of the segment that an access byte belongs to.
pub open spec fn spec_access_name(access: u8) -> Seq<char> {
    match access {
        0x00 => "Null"@,
        0x9A => "Kernel code"@,
        0x93 => "Kernel data"@,
        0x97 => "Kernel stack"@,
        0xFA => "User code"@,
        0xF2 => "User data"@,
        0xF7 => "User stack"@,
        _ => "Unknown"@,
    }
}

/// Names the segment that an access byte belongs to.
pub fn access_to_str(access: u8) -> (name: &'static str)
    ensures
        name@ == spec_access_name(access),
{
    match access {
        0x00 => "Null",
        0x9A => "Kernel code",
        0x93 => "Kernel data",
        0x97 => "Kernel stack",
        0xFA => "User code",
        0xF2 => "User data",
        0xF7 => "User stack",
        _ => "Unknown",
    }
}

/// The descriptor of a flat segment with the given access byte.
pub open spec fn spec_flat_entry(access: Access) -> Entry {
    Entry::spec_new(BASE, LIMIT, access.spec_byte(), FLAGS)
}

/// The table of the flat memory model.
pub open spec fn spec_flat_table() -> Seq<Entry> {
    seq![
        Entry::spec_null(),
        spec_flat_entry(Access::KernelCode),
        spec_flat_entry(Access::KernelData),
        spec_flat_entry(Access::KernelStack),
        spec_flat_entry(Access::UserCode),
        spec_flat_entry(Access::UserData),
        spec_flat_entry(Access::UserStack),
    ]
}

/// Whether a table has the null descriptor first and after it only segments
/// that begin at address 0 and end at 0xFFFF_FFFF.
pub open spec fn spec_is_flat(table: Seq<Entry>) -> bool {
    &&& table.len() == 7
    &&& table[0] == Entry::spec_null()
    &&& forall|i: int|
        1 <= i < 7 ==> (#[trigger] table[i]).spec_base() == 0 && table[i].spec_last_offset()
            == 0xFFFF_FFFF
}

/// A flat segment begins at address 0 and ends at 0xFFFF_FFFF, whatever its
/// access byte.
pub proof fn lemma_flat_entry(access: u8)
    ensures
        Entry::spec_new(BASE, LIMIT, access, FLAGS).spec_base() == 0,
        Entry::spec_new(BASE, LIMIT, access, FLAGS).spec_limit() == 0xF_FFFF,
        Entry::spec_new(BASE, LIMIT, access, FLAGS).spec_last_offset() == 0xFFFF_FFFF,
        Entry::spec_new(BASE, LIMIT, access, FLAGS).access == access,
{
    lemma_new_unpacks(BASE, LIMIT, access, FLAGS);
    let entry = Entry::spec_new(BASE, LIMIT, access, FLAGS);
    assert(0xFFFF_FFFFu32 & 0xF_FFFF == 0xF_FFFF) by (bit_vector);
    assert((((0xFFFF_FFFFu32 >> 16) & 0x0F) as u8) | (0xCFu8 & 0xF0) == 0xCF) by (bit_vector);
    assert(0xCFu8 & 0x80 != 0) by (bit_vector);
    assert((0xF_FFFFu32 << 12) | 0xFFF == 0xFFFF_FFFF) by (bit_vector);
}

/// The table of the flat memory model is flat.
pub proof fn lemma_flat_table()
    ensures
        spec_is_flat(spec_flat_table()),
{
    lemma_flat_entry(Access::KernelCode.spec_byte());
    lemma_flat_entry(Access::KernelData.spec_byte());
    lemma_flat_entry(Access::KernelStack.spec_byte());
    lemma_flat_entry(Access::UserCode.spec_byte());
    lemma_flat_entry(Access::UserData.spec_byte());
    lemma_flat_entry(Access::UserStack.spec_byte());
}

/// Fills the table with the descriptors of the flat memory model.
pub fn set_entries(gdt: &mut [Entry; 7])
    ensures
        final(gdt)@ == spec_flat_table(),
        spec_is_flat(final(gdt)@),
{
    let null = Entry::default();
    let kern_code = Entry::new(BASE, LIMIT, Access::KernelCode.byte(), FLAGS);
    let kern_data = Entry::new(BASE, LIMIT, Access::KernelData.byte(), FLAGS);
    let kern_stack = Entry::new(BASE, LIMIT, Access::KernelStack.byte(), FLAGS);
    let user_code = Entry::new(BASE, LIMIT, Access::UserCode.byte(), FLAGS);
    let user_data = Entry::new(BASE, LIMIT, Access::UserData.byte(), FLAGS);
    let user_stack = Entry::new(BASE, LIMIT, Access::UserStack.byte(), FLAGS);

    // (Null descriptor) should always contain no data.
    gdt[0] = null;

    // Kernel space segments.
    gdt[1] = kern_code;
    gdt[2] = kern_data;
    gdt[3] = kern_stack;

    // User space segments.
    gdt[4] = user_code;
    gdt[5] = user_data;
    gdt[6] = user_stack;

    proof {
        assert(gdt@ =~= spec_flat_table());
        lemma_flat_table();
    }
}

/// Sets the table pointer for a table of seven descriptors at the linear
/// address `offset`.
pub fn set_pointer(pointer: &mut Pointer, offset: u32)
    ensures
        final(pointer).size == 8 * 7 - 1,
        final(pointer).offset == offset,
{
    pointer.size = (ENTRY_SIZE * GDT_ENTRIES - 1) as u16;
    pointer.offset = offset;
}

/// Builds the table of the flat memory model in `gdt` and the pointer to it.
/// What remains is to hand the pointer to the processor.
pub fn init(gdt: &mut [Entry; 7], pointer: &mut Pointer, offset: u32)
    ensures
        final(gdt)@ == spec_flat_table(),
        spec_is_flat(final(gdt)@),
        *final(pointer) == (Pointer { size: 55, offset }),
{
    set_entries(gdt);
    set_pointer(pointer, offset);
}

} // verus!
