//! CPU identification.
//!
//! The identification instruction takes a leaf and answers with four
//! registers. Leaf 0 holds the vendor identifier and the highest leaf, leaf 1
//! family, model, stepping and features, leaves 0x8000_0002 to 0x8000_0004 the
//! brand string, and leaf 0x4000_0000 the identifier of a hypervisor. The
//! functions here decode what the instruction answered.

use crate::hal::cpu::spec_zeros;
use crate::hal::cpu::CPUInfo;
use crate::hal::cpu::CPUInfoView;
use vstd::prelude::*;

verus! {

/// Leaf of the vendor identifier and the highest supported leaf.
pub const LEAF_BASIC: u32 = 0;

/// Leaf of family, model, stepping and features.
pub const LEAF_PROCESSOR: u32 = 1;

/// Leaf of the hypervisor's identifier.
pub const LEAF_HYPERVISOR: u32 = 0x4000_0000;

/// First of the three leaves of the brand string.
pub const LEAF_BRAND: u32 = 0x8000_0002;

/// What the identification instruction answered.
#[derive(Debug, Clone, Copy, PartialEq, Eq, Structural)]
pub struct CpuidResult {
    /// EAX register.
    pub eax: u32,
    /// EBX register.
    pub ebx: u32,
    /// ECX register.
    pub ecx: u32,
    /// EDX register.
    pub edx: u32,
}

impl Default for CpuidResult {
    fn default() -> (result: Self)
        ensures
            result == (CpuidResult { eax: 0, ebx: 0, ecx: 0, edx: 0 }),
    {
        CpuidResult { eax: 0, ebx: 0, ecx: 0, edx: 0 }
    }
}

/// The four bytes of `value`, least significant first.
pub open spec fn spec_le_bytes(value: u32) -> Seq<u8> {
    seq![
        (value & 0xFF) as u8,
        ((value >> 8) & 0xFF) as u8,
        ((value >> 16) & 0xFF) as u8,
        ((value >> 24) & 0xFF) as u8,
    ]
}

/// The sixteen bytes of the four registers, EAX first.
pub open spec fn spec_register_bytes(leaf: CpuidResult) -> Seq<u8> {
    spec_le_bytes(leaf.eax) + spec_le_bytes(leaf.ebx) + spec_le_bytes(leaf.ecx) + spec_le_bytes(
        leaf.edx,
    )
}

/// The twelve characters of the vendor identifier in leaf 0.
pub open spec fn spec_vendor(basic: CpuidResult) -> Seq<u8> {
    spec_le_bytes(basic.ebx) + spec_le_bytes(basic.edx) + spec_le_bytes(basic.ecx)
}

/// The hypervisor's identifier in its buffer: twelve characters from leaf
/// 0x4000_0000, then zeros.
pub open spec fn spec_hypervisor_id(hypervisor: CpuidResult) -> Seq<u8> {
    spec_le_bytes(hypervisor.ebx) + spec_le_bytes(hypervisor.ecx) + spec_le_bytes(hypervisor.edx)
        + spec_zeros(20)
}

/// The brand string in its buffer: sixteen characters from each of the three
/// brand leaves, then zeros.
pub open spec fn spec_brand(brand: Seq<CpuidResult>) -> Seq<u8> {
    spec_register_bytes(brand[0]) + spec_register_bytes(brand[1]) + spec_register_bytes(brand[2])
        + spec_zeros(16)
}

/// Base family: bits 8..12 of EAX of leaf 1.
pub open spec fn spec_base_family(eax: u32) -> u32 {
    (eax >> 8) & 0x0F
}

/// Base model: bits 4..8 of EAX of leaf 1.
pub open spec fn spec_base_model(eax: u32) -> u32 {
    (eax >> 4) & 0x0F
}

/// Extended model: bits 16..20 of EAX of leaf 1.
pub open spec fn spec_ext_model(eax: u32) -> u32 {
    (eax >> 16) & 0x0F
}

/// Extended family: bits 20..28 of EAX of leaf 1.
pub open spec fn spec_ext_family(eax: u32) -> u32 {
    (eax >> 20) & 0xFF
}

/// Stepping: bits 0..4 of EAX of leaf 1.
pub open spec fn spec_stepping(eax: u32) -> u32 {
    eax & 0x0F
}

/// The family of the processor: the base family, to which the extended
/// family is added when the base family is 15.
pub open spec fn spec_family(eax: u32) -> int {
    if spec_base_family(eax) == 15 {
        spec_base_family(eax) + spec_ext_family(eax)
    } else {
        spec_base_family(eax) as int
    }
}

/// The model of the processor: the base model, to which sixteen times the
/// extended model is added when the base family is 6 or 15.
pub open spec fn spec_model(eax: u32) -> int {
    if spec_base_family(eax) == 6 || spec_base_family(eax) == 15 {
        16 * spec_ext_model(eax) + spec_base_model(eax)
    } else {
        spec_base_model(eax) as int
    }
}

/// What the leaves 0, 1 and 0x8000_0002 to 0x8000_0004 tell of the processor.
pub open spec fn spec_cpu_info(basic: CpuidResult, processor: CpuidResult, brand: Seq<CpuidResult>) -> CPUInfoView {
    CPUInfoView {
        vendor_id: spec_vendor(basic) + spec_zeros(20),
        brand: spec_brand(brand),
        family: spec_family(processor.eax) as u32,
        model: spec_model(processor.eax) as u32,
        stepping: spec_stepping(processor.eax),
        features: processor.edx,
        max_cpuid: basic.eax,
    }
}

impl CpuidResult {
    /// Whether leaf 1 tells that the CPU supports virtualization: bit 5 of
    /// ECX.
    pub open spec fn spec_supports_virtualization(&self) -> bool {
        self.ecx & 0x20 != 0
    }

    /// Whether leaf 1 tells that a hypervisor is present: bit 31 of ECX.
    pub open spec fn spec_hypervisor_present(&self) -> bool {
        self.ecx & 0x8000_0000 != 0
    }
}

/// The four bytes of `value`, least significant first.
pub fn le_bytes(value: u32) -> (bytes: [u8; 4])
    ensures
        bytes@ == spec_le_bytes(value),
{
    let bytes: [u8; 4] = [
        (value & 0xFF) as u8,
        ((value >> 8) & 0xFF) as u8,
        ((value >> 16) & 0xFF) as u8,
        ((value >> 24) & 0xFF) as u8,
    ];
    assert(bytes@ =~= spec_le_bytes(value));
    bytes
}

/// Writes the four bytes of `value` into `buffer` from `start` on.
fn put_le_bytes<const N: usize>(buffer: &mut [u8; N], start: usize, value: u32)
    requires
        start + 4 <= N,
    ensures
        final(buffer)@ == old(buffer)@.subrange(0, start as int) + spec_le_bytes(value) + old(
            buffer,
        )@.subrange(start + 4, N as int),
{
    let bytes = le_bytes(value);
    buffer[start] = bytes[0];
    buffer[start + 1] = bytes[1];
    buffer[start + 2] = bytes[2];
    buffer[start + 3] = bytes[3];
    assert(buffer@ =~= old(buffer)@.subrange(0, start as int) + spec_le_bytes(value) + old(
        buffer,
    )@.subrange(start + 4, N as int));
}

/// Stores the vendor identifier and the highest leaf from leaf 0.
pub fn set_cpuid_basic_info(info: &mut CPUInfo, basic: &CpuidResult)
    ensures
        final(info)@ == (CPUInfoView {
            vendor_id: spec_vendor(*basic) + old(info)@.vendor_id.subrange(12, 32),
            max_cpuid: basic.eax,
            ..old(info)@
        }),
{
    let mut vendor_id: [u8; 32] = info.vendor_id;
    // Extracting vendor ID assuming that byte order is little endian.
    put_le_bytes(&mut vendor_id, 0, basic.ebx);
    put_le_bytes(&mut vendor_id, 4, basic.edx);
    put_le_bytes(&mut vendor_id, 8, basic.ecx);
    assert(vendor_id@ =~= spec_vendor(*basic) + old(info)@.vendor_id.subrange(12, 32));
    info.vendor_id = vendor_id;
    // Extracting max CPUID leaf count.
    info.max_cpuid = basic.eax;
}

/// Stores family, model, stepping and features from leaf 1.
pub fn set_cpuid_processor_info(info: &mut CPUInfo, processor: &CpuidResult)
    ensures
        final(info)@ == (CPUInfoView {
            family: spec_family(processor.eax) as u32,
            model: spec_model(processor.eax) as u32,
            stepping: spec_stepping(processor.eax),
            features: processor.edx,
            ..old(info)@
        }),
        final(info).family == spec_family(processor.eax),
        final(info).model == spec_model(processor.eax),
{
    let eax: u32 = processor.eax;
    let model: u32 = (eax >> 4) & 0x0F;
    let family: u32 = (eax >> 8) & 0x0F;
    let ext_model: u32 = (eax >> 16) & 0x0F;
    let ext_family: u32 = (eax >> 20) & 0xFF;
    assert((eax >> 4) & 0x0F <= 0x0F) by (bit_vector);
    assert((eax >> 8) & 0x0F <= 0x0F) by (bit_vector);
    assert((eax >> 16) & 0x0F <= 0x0F) by (bit_vector);
    assert((eax >> 20) & 0xFF <= 0xFF) by (bit_vector);
    assert(ext_model << 4 == 16 * ext_model) by (bit_vector)
        requires
            ext_model <= 0x0F,
    ;

    info.stepping = eax & 0x0F;
    info.features = processor.edx;

    // Set actual CPU model.
    info.model = if family == 6 || family == 15 {
        (ext_model << 4) + model
    } else {
        model
    };

    // Set actual CPU family.
    info.family = family;

    if family == 15 {
        info.family += ext_family;
    }
}

/// Stores the brand string from the three brand leaves.
pub fn set_cpuid_brand(info: &mut CPUInfo, leaves: &[CpuidResult; 3])
    ensures
        final(info)@ == (CPUInfoView { brand: spec_brand(leaves@), ..old(info)@ }),
{
    let mut brand: [u8; 64] = [0u8; 64];
    let ghost zeros = brand@;
    // Retrieve the three parts of the CPU brand.
    let mut part: usize = 0;
    while part < 3
        invariant
            part <= 3,
            brand@.len() == 64,
            forall|i: int| 16 * part <= i < 64 ==> brand@[i] == 0,
            forall|k: int|
                0 <= k < part ==> brand@.subrange(16 * k, 16 * k + 16) == spec_register_bytes(
                    #[trigger] leaves@[k],
                ),
        decreases 3 - part,
    {
        let leaf: CpuidResult = leaves[part];
        let start: usize = part * 16;
        let ghost previous = brand@;
        // Copy the data into the brand array.
        put_le_bytes(&mut brand, start, leaf.eax);
        put_le_bytes(&mut brand, start + 4, leaf.ebx);
        put_le_bytes(&mut brand, start + 8, leaf.ecx);
        put_le_bytes(&mut brand, start + 12, leaf.edx);
        proof {
            assert(brand@.subrange(16 * part, 16 * part + 16) =~= spec_register_bytes(leaf));
            assert forall|k: int| 0 <= k < part implies brand@.subrange(16 * k, 16 * k + 16)
                == spec_register_bytes(#[trigger] leaves@[k]) by {
                assert(brand@.subrange(16 * k, 16 * k + 16) =~= previous.subrange(
                    16 * k,
                    16 * k + 16,
                ));
            }
        }
        part += 1;
    }
    proof {
        assert(brand@.subrange(0, 16) == spec_register_bytes(leaves@[0]));
        assert(brand@.subrange(16, 32) == spec_register_bytes(leaves@[1]));
        assert(brand@.subrange(32, 48) == spec_register_bytes(leaves@[2]));
        assert(brand@ =~= brand@.subrange(0, 16) + brand@.subrange(16, 32) + brand@.subrange(
            32,
            48,
        ) + spec_zeros(16));
    }
    info.brand = brand;
}

/// Tells from leaf 1 whether the CPU supports virtualization.
pub fn is_support_virtualization(processor: &CpuidResult) -> (supported: bool)
    ensures
        supported == processor.spec_supports_virtualization(),
{
    assert(1u32 << 5 == 0x20) by (bit_vector);
    (processor.ecx & (1 << 5)) != 0x0
}

/// Tells from leaf 1 whether the kernel runs on top of a hypervisor.
pub fn is_hypervisor_present(processor: &CpuidResult) -> (present: bool)
    ensures
        present == processor.spec_hypervisor_present(),
{
    assert(1u32 << 31 == 0x8000_0000) by (bit_vector);
    (processor.ecx & (1 << 31)) != 0x0
}

/// The hypervisor's identifier from leaf 0x4000_0000, if leaf 1 tells that a
/// hypervisor is present.
pub fn get_hypervisor_id(processor: &CpuidResult, hypervisor: &CpuidResult) -> (id: Option<
    [u8; 32],
>)
    ensures
        id is Some == processor.spec_hypervisor_present(),
        id matches Some(bytes) ==> bytes@ == spec_hypervisor_id(*hypervisor),
{
    // Check whether OS running on real hardware.
    if !is_hypervisor_present(processor) {
        return None;
    }
    let mut hypervisor_id: [u8; 32] = [0u8; 32];

    // Extracting vendor ID assuming that byte order is little endian.
    put_le_bytes(&mut hypervisor_id, 0, hypervisor.ebx);
    put_le_bytes(&mut hypervisor_id, 4, hypervisor.ecx);
    put_le_bytes(&mut hypervisor_id, 8, hypervisor.edx);
    assert(hypervisor_id@ =~= spec_hypervisor_id(*hypervisor));

    Some(hypervisor_id)
}

/// Puts together what the identification leaves tell of the processor.
pub fn get_cpu_info(basic: &CpuidResult, processor: &CpuidResult, brand: &[CpuidResult; 3]) -> (info:
    CPUInfo)
    ensures
        info@ == spec_cpu_info(*basic, *processor, brand@),
{
    let mut info = CPUInfo::default();

    set_cpuid_basic_info(&mut info, basic);
    set_cpuid_processor_info(&mut info, processor);
    set_cpuid_brand(&mut info, brand);

    assert(info@.vendor_id =~= spec_vendor(*basic) + spec_zeros(20));
    info
}

} // verus!
