use nos::arch::x86::gdt::access_to_str;
use nos::arch::x86::gdt::init;
use nos::arch::x86::gdt::set_entries;
use nos::arch::x86::gdt::set_pointer;
use nos::arch::x86::gdt::Access;
use nos::arch::x86::gdt::Entry;
use nos::arch::x86::gdt::Pointer;
use nos::arch::x86::gdt::Segment;

#[test]
fn new_packs_the_fields() {
    let entry = Entry::new(0x1234_5678, 0x000A_BCDE, 0x9A, 0xC0);
    assert_eq!(entry.limit, 0xBCDE);
    assert_eq!(entry.base_low, 0x5678);
    assert_eq!(entry.base_mid, 0x34);
    assert_eq!(entry.base_high, 0x12);
    assert_eq!(entry.access, 0x9A);
    assert_eq!(entry.flags, 0xCA);
}

#[test]
fn new_round_trips_base_and_limit() {
    let bases = [0u32, 1, 0x800, 0x00FF_FFFF, 0x0100_0000, 0x1234_5678, 0xFFFF_FFFF];
    let limits = [0u32, 1, 0xFFFF, 0x1_0000, 0xA_BCDE, 0xF_FFFF];
    for &base in bases.iter() {
        for &limit in limits.iter() {
            let entry = Entry::new(base, limit, 0x93, 0xCF);
            assert_eq!(entry.base(), base);
            assert_eq!(entry.limit(), limit);
            let read = Entry::from_bytes(&entry.to_bytes());
            assert_eq!(read, entry);
            assert_eq!(read.base(), base);
            assert_eq!(read.limit(), limit);
            assert_eq!(read.access, 0x93);
            assert_eq!(read.flags & 0xF0, 0xC0);
        }
    }
}

#[test]
fn new_keeps_twenty_bits_of_the_limit() {
    let entry = Entry::new(0, 0xFFFF_FFFF, 0x9A, 0xCF);
    assert_eq!(entry.limit(), 0xF_FFFF);
    let entry = Entry::new(0, 0x0012_3456, 0x9A, 0x00);
    assert_eq!(entry.limit(), 0x2_3456);
    assert_eq!(entry.flags, 0x02);
}

#[test]
fn new_ignores_the_low_nibble_of_the_flags() {
    let entry = Entry::new(0, 0, 0, 0xCF);
    assert_eq!(entry.flags, 0xC0);
}

#[test]
fn to_bytes_follows_the_hardware_layout() {
    let entry = Entry::new(0x1234_5678, 0x000A_BCDE, 0x9A, 0xC0);
    assert_eq!(entry.to_bytes(), [0xDE, 0xBC, 0x78, 0x56, 0x34, 0x9A, 0xCA, 0x12]);
}

#[test]
fn flat_code_descriptor_bytes() {
    let entry = Entry::new(0, 0xFFFF_FFFF, 0x9A, 0xCF);
    assert_eq!(entry.to_bytes(), [0xFF, 0xFF, 0x00, 0x00, 0x00, 0x9A, 0xCF, 0x00]);
}

#[test]
fn default_entry_is_null() {
    let entry = Entry::default();
    assert_eq!(entry.to_bytes(), [0u8; 8]);
}

#[test]
fn table_has_seven_flat_entries() {
    let mut gdt = [Entry::new(1, 2, 3, 4); 7];
    set_entries(&mut gdt);
    assert_eq!(gdt.len(), 7);
    assert_eq!(gdt[0].to_bytes(), [0u8; 8]);
    let access = [0x9Au8, 0x93, 0x97, 0xFA, 0xF2, 0xF7];
    for i in 1..7 {
        assert_eq!(gdt[i].base(), 0);
        assert_eq!(gdt[i].limit(), 0xF_FFFF);
        assert_eq!(gdt[i].flags, 0xCF);
        assert_eq!(gdt[i].access, access[i - 1]);
    }
}

#[test]
fn pointer_holds_size_less_one_and_address() {
    let mut pointer = Pointer { size: 0, offset: 0 };
    set_pointer(&mut pointer, 0x0010_2000);
    assert_eq!(pointer.size, 55);
    assert_eq!(pointer.offset, 0x0010_2000);
}

#[test]
fn init_builds_table_and_pointer() {
    let mut gdt = [Entry::default(); 7];
    let mut pointer = Pointer { size: 0, offset: 0 };
    init(&mut gdt, &mut pointer, 0x1000);
    assert_eq!(pointer, Pointer { size: 55, offset: 0x1000 });
    assert_eq!(gdt[0], Entry::default());
    assert_eq!(gdt[1], Entry::new(0, 0xFFFF_FFFF, 0x9A, 0xCF));
    assert_eq!(gdt[6], Entry::new(0, 0xFFFF_FFFF, 0xF7, 0xCF));
    // A second run leaves the same table.
    let first = gdt;
    init(&mut gdt, &mut pointer, 0x1000);
    assert_eq!(gdt, first);
}

#[test]
fn segment_offsets() {
    assert_eq!(Segment::Null.offset(), 0x00);
    assert_eq!(Segment::KernelCode.offset(), 0x08);
    assert_eq!(Segment::KernelData.offset(), 0x10);
    assert_eq!(Segment::KernelStack.offset(), 0x18);
    assert_eq!(Segment::UserCode.offset(), 0x20);
    assert_eq!(Segment::UserData.offset(), 0x28);
    assert_eq!(Segment::UserStack.offset(), 0x30);
    assert_eq!(Segment::UserStack.index(), 6);
}

#[test]
fn access_bytes_and_names() {
    assert_eq!(Access::KernelCode.byte(), 0x9A);
    assert_eq!(Access::KernelData.byte(), 0x93);
    assert_eq!(Access::KernelStack.byte(), 0x97);
    assert_eq!(Access::UserCode.byte(), 0xFA);
    assert_eq!(Access::UserData.byte(), 0xF2);
    assert_eq!(Access::UserStack.byte(), 0xF7);
    assert_eq!(access_to_str(0x00), "Null");
    assert_eq!(access_to_str(0x9A), "Kernel code");
    assert_eq!(access_to_str(0x93), "Kernel data");
    assert_eq!(access_to_str(0x97), "Kernel stack");
    assert_eq!(access_to_str(0xFA), "User code");
    assert_eq!(access_to_str(0xF2), "User data");
    assert_eq!(access_to_str(0xF7), "User stack");
    assert_eq!(access_to_str(0x42), "Unknown");
}
