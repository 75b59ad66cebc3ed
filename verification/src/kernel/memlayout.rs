//! Kernel memory layout.
//!
//! The addresses come from the linker. They are handed in as a
//! [`MemoryLayout`]; what is here reads it.

use vstd::prelude::*;

verus! {

/// Physical address of memory begin.
pub const MEM_START_PADDR: u32 = 0x00000000;

/// Where the linker put the kernel and its stack.
#[derive(Debug, Clone, Copy, PartialEq, Eq, Structural)]
pub struct MemoryLayout {
    /// Physical address of the kernel's first byte.
    pub kernel_phys_begin: u32,
    /// Physical address after the kernel's last byte.
    pub kernel_phys_end: u32,
    /// Virtual address of the kernel's first byte.
    pub kernel_virt_begin: u32,
    /// Virtual address after the kernel's last byte.
    pub kernel_virt_end: u32,
    /// Virtual base address of the kernel.
    pub base_address: u32,
    /// Virtual address of the bottom of the stack.
    pub stack_bottom: usize,
    /// Virtual address of the top of the stack.
    pub stack_top: usize,
}

impl MemoryLayout {
    /// The kernel does not end before it begins, and neither does the stack.
    pub open spec fn spec_is_ordered(&self) -> bool {
        &&& self.kernel_phys_begin <= self.kernel_phys_end
        &&& self.stack_bottom <= self.stack_top
    }

    /// Tells whether the kernel and the stack end no earlier than they begin.
    pub fn is_ordered(&self) -> (ordered: bool)
        ensures
            ordered == self.spec_is_ordered(),
    {
        self.kernel_phys_begin <= self.kernel_phys_end && self.stack_bottom <= self.stack_top
    }
}

/// Kernel begin physical address.
pub fn kernel_begin_paddr(layout: &MemoryLayout) -> (address: u32)
    ensures
        address == layout.kernel_phys_begin,
{
    layout.kernel_phys_begin
}

/// Kernel end physical address.
pub fn kernel_end_paddr(layout: &MemoryLayout) -> (address: u32)
    ensures
        address == layout.kernel_phys_end,
{
    layout.kernel_phys_end
}

/// Kernel begin virtual address.
pub fn kernel_begin_vaddr(layout: &MemoryLayout) -> (address: u32)
    ensures
        address == layout.kernel_virt_begin,
{
    layout.kernel_virt_begin
}

/// Kernel end virtual address.
pub fn kernel_end_vaddr(layout: &MemoryLayout) -> (address: u32)
    ensures
        address == layout.kernel_virt_end,
{
    layout.kernel_virt_end
}

/// Kernel virtual base address.
pub fn base_vaddr(layout: &MemoryLayout) -> (address: u32)
    ensures
        address == layout.base_address,
{
    layout.base_address
}

/// Kernel size in bytes.
pub fn kernel_size(layout: &MemoryLayout) -> (size: u32)
    requires
        layout.kernel_phys_begin <= layout.kernel_phys_end,
    ensures
        size == layout.kernel_phys_end - layout.kernel_phys_begin,
{
    kernel_end_paddr(layout) - kernel_begin_paddr(layout)
}

/// Virtual address of the bottom of the stack.
pub fn stack_bottom_vaddr(layout: &MemoryLayout) -> (address: usize)
    ensures
        address == layout.stack_bottom,
{
    layout.stack_bottom
}

/// Virtual address of the top of the stack.
pub fn stack_top_vaddr(layout: &MemoryLayout) -> (address: usize)
    ensures
        address == layout.stack_top,
{
    layout.stack_top
}

/// Kernel stack size in bytes.
pub fn stack_size(layout: &MemoryLayout) -> (size: usize)
    requires
        layout.stack_bottom <= layout.stack_top,
    ensures
        size == layout.stack_top - layout.stack_bottom,
{
    stack_top_vaddr(layout) - stack_bottom_vaddr(layout)
}

} // verus!
