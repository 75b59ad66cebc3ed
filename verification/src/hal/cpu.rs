//! CPU declarations that do not depend on the architecture.

use crate::arch::x86::cpu::spec_cpu_info;
use crate::arch::x86::cpu::spec_hypervisor_id;
use crate::arch::x86::cpu::CpuidResult;
use vstd::prelude::*;

verus! {

/// Size of the buffer that holds a vendor identifier.
pub const VENDOR_ID_SIZE: usize = 32;

/// Size of the buffer that holds a brand string.
pub const BRAND_SIZE: usize = 64;

/// What is known of the processor.
#[derive(Debug, Clone, Copy)]
pub struct CPUInfo {
    /// Vendor identifier: twelve characters, then zeros.
    pub vendor_id: [u8; 32],
    /// Brand string: forty-eight characters, then zeros.
    pub brand: [u8; 64],
    /// CPU family.
    pub family: u32,
    /// CPU model.
    pub model: u32,
    /// CPU stepping.
    pub stepping: u32,
    /// CPU features (bitmask).
    pub features: u32,
    /// Highest identification leaf that the processor supports.
    pub max_cpuid: u32,
}

/// The content of a [`CPUInfo`].
pub struct CPUInfoView {
    /// Vendor identifier.
    pub vendor_id: Seq<u8>,
    /// Brand string.
    pub brand: Seq<u8>,
    /// CPU family.
    pub family: u32,
    /// CPU model.
    pub model: u32,
    /// CPU stepping.
    pub stepping: u32,
    /// CPU features (bitmask).
    pub features: u32,
    /// Highest identification leaf that the processor supports.
    pub max_cpuid: u32,
}

impl View for CPUInfo {
    type V = CPUInfoView;

    open spec fn view(&self) -> CPUInfoView {
        CPUInfoView {
            vendor_id: self.vendor_id@,
            brand: self.brand@,
            family: self.family,
            model: self.model,
            stepping: self.stepping,
            features: self.features,
            max_cpuid: self.max_cpuid,
        }
    }
}

/// A buffer of `len` zero bytes.
pub open spec fn spec_zeros(len: nat) -> Seq<u8> {
    Seq::new(len, |i: int| 0u8)
}

impl Default for CPUInfo {
    /// Nothing known: every field zero.
    fn default() -> (info: Self)
        ensures
            info@ == (CPUInfoView {
                vendor_id: spec_zeros(32),
                brand: spec_zeros(64),
                family: 0,
                model: 0,
                stepping: 0,
                features: 0,
                max_cpuid: 0,
            }),
    {
        let info = CPUInfo {
            vendor_id: [0u8; 32],
            brand: [0u8; 64],
            family: 0,
            model: 0,
            stepping: 0,
            features: 0,
            max_cpuid: 0,
        };
        assert(info.vendor_id@ =~= spec_zeros(32));
        assert(info.brand@ =~= spec_zeros(64));
        info
    }
}

/// Tells from the processor leaf whether the CPU supports virtualization.
pub fn is_support_virtualization(processor: &CpuidResult) -> (supported: bool)
    ensures
        supported == processor.spec_supports_virtualization(),
{
    crate::arch::x86::cpu::is_support_virtualization(processor)
}

/// Tells from the processor leaf whether the kernel runs on top of a
/// hypervisor.
pub fn is_hypervisor_present(processor: &CpuidResult) -> (present: bool)
    ensures
        present == processor.spec_hypervisor_present(),
{
    crate::arch::x86::cpu::is_hypervisor_present(processor)
}

/// The hypervisor's identifier, if the kernel runs on top of one.
pub fn get_hypervisor_id(processor: &CpuidResult, hypervisor: &CpuidResult) -> (id: Option<
    [u8; 32],
>)
    ensures
        id is Some == processor.spec_hypervisor_present(),
        id matches Some(bytes) ==> bytes@ == spec_hypervisor_id(*hypervisor),
{
    crate::arch::x86::cpu::get_hypervisor_id(processor, hypervisor)
}

/// Puts together what the identification leaves tell of the processor.
pub fn get_cpu_info(basic: &CpuidResult, processor: &CpuidResult, brand: &[CpuidResult; 3]) -> (info:
    CPUInfo)
    ensures
        info@ == spec_cpu_info(*basic, *processor, brand@),
{
    crate::arch::x86::cpu::get_cpu_info(basic, processor, brand)
}

} // verus!
