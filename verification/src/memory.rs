//! Memory-related API.
//!
//! The memory interface is declared here as an explicit trait: the
//! hypervisor hands its implementation in as a value, and the public
//! functions forward to it, each promising exactly the implementation's
//! own postcondition — the round trip through the forwarding layer is
//! transparent. Physical and virtual addresses are carried as plain
//! machine words.

use vstd::prelude::*;

verus! {

/// A physical address.
#[derive(Clone, Copy, PartialEq, Eq, Structural, Debug)]
pub struct PhysAddr {
    pub addr: usize,
}

impl PhysAddr {
    /// Make a physical address from its machine word.
    pub fn from_usize(addr: usize) -> (r: PhysAddr)
        ensures
            r.addr == addr,
    {
        PhysAddr { addr }
    }

    /// The machine word of this address.
    pub fn as_usize(&self) -> (r: usize)
        ensures
            r == self.addr,
    {
        self.addr
    }
}

/// A virtual address.
#[derive(Clone, Copy, PartialEq, Eq, Structural, Debug)]
pub struct VirtAddr {
    pub addr: usize,
}

impl VirtAddr {
    /// Make a virtual address from its machine word.
    pub fn from_usize(addr: usize) -> (r: VirtAddr)
        ensures
            r.addr == addr,
    {
        VirtAddr { addr }
    }

    /// The machine word of this address.
    pub fn as_usize(&self) -> (r: usize)
        ensures
            r == self.addr,
    {
        self.addr
    }
}

/// The memory interface: declared here, implemented by exactly one
/// provider elsewhere. Each allocation or deallocation method's behaviour
/// is whatever its provider promises through the corresponding relation;
/// the address conversions are pure functions of the address.
pub trait MemoryApi: Sized {
    /// What the provider promises of one frame allocation.
    spec fn alloc_frame_post(pre: Self, post: Self, r: Option<PhysAddr>) -> bool;

    /// What the provider promises of one contiguous allocation.
    spec fn alloc_contiguous_post(
        pre: Self,
        post: Self,
        num_frames: usize,
        frame_align_pow2: usize,
        r: Option<PhysAddr>,
    ) -> bool;

    /// What the provider promises of one frame deallocation.
    spec fn dealloc_frame_post(pre: Self, post: Self, addr: PhysAddr) -> bool;

    /// What the provider promises of one contiguous deallocation.
    spec fn dealloc_contiguous_post(
        pre: Self,
        post: Self,
        first_addr: PhysAddr,
        num_frames: usize,
    ) -> bool;

    /// The provider's physical-to-virtual conversion.
    spec fn phys_to_virt_spec(addr: PhysAddr) -> VirtAddr;

    /// The provider's virtual-to-physical conversion.
    spec fn virt_to_phys_spec(addr: VirtAddr) -> PhysAddr;

    /// Allocate a frame.
    fn alloc_frame(&mut self) -> (r: Option<PhysAddr>)
        ensures
            Self::alloc_frame_post(*old(self), *final(self), r),
    ;

    /// Allocate a number of contiguous frames, with a specified alignment.
    fn alloc_contiguous_frames(&mut self, num_frames: usize, frame_align_pow2: usize) -> (r:
        Option<PhysAddr>)
        ensures
            Self::alloc_contiguous_post(
                *old(self),
                *final(self),
                num_frames,
                frame_align_pow2,
                r,
            ),
    ;

    /// Deallocate a frame.
    fn dealloc_frame(&mut self, addr: PhysAddr)
        ensures
            Self::dealloc_frame_post(*old(self), *final(self), addr),
    ;

    /// Deallocate a number of contiguous frames.
    fn dealloc_contiguous_frames(&mut self, first_addr: PhysAddr, num_frames: usize)
        ensures
            Self::dealloc_contiguous_post(*old(self), *final(self), first_addr, num_frames),
    ;

    /// Convert a physical address to a virtual address.
    fn phys_to_virt(addr: PhysAddr) -> (r: VirtAddr)
        ensures
            r == Self::phys_to_virt_spec(addr),
    ;

    /// Convert a virtual address to a physical address.
    fn virt_to_phys(addr: VirtAddr) -> (r: PhysAddr)
        ensures
            r == Self::virt_to_phys_spec(addr),
    ;
}

/// Allocate a frame.
pub fn alloc_frame<T: MemoryApi>(api: &mut T) -> (r: Option<PhysAddr>)
    ensures
        T::alloc_frame_post(*old(api), *final(api), r),
{
    api.alloc_frame()
}

/// Allocate a number of contiguous frames, with a specified alignment.
pub fn alloc_contiguous_frames<T: MemoryApi>(
    api: &mut T,
    num_frames: usize,
    frame_align_pow2: usize,
) -> (r: Option<PhysAddr>)
    ensures
        T::alloc_contiguous_post(*old(api), *final(api), num_frames, frame_align_pow2, r),
{
    api.alloc_contiguous_frames(num_frames, frame_align_pow2)
}

/// Deallocate a frame.
pub fn dealloc_frame<T: MemoryApi>(api: &mut T, addr: PhysAddr)
    ensures
        T::dealloc_frame_post(*old(api), *final(api), addr),
{
    api.dealloc_frame(addr)
}

/// Deallocate a number of contiguous frames.
pub fn dealloc_contiguous_frames<T: MemoryApi>(api: &mut T, first_addr: PhysAddr, num_frames:
    usize)
    ensures
        T::dealloc_contiguous_post(*old(api), *final(api), first_addr, num_frames),
{
    api.dealloc_contiguous_frames(first_addr, num_frames)
}

/// Convert a physical address to a virtual address.
pub fn phys_to_virt<T: MemoryApi>(addr: PhysAddr) -> (r: VirtAddr)
    ensures
        r == T::phys_to_virt_spec(addr),
{
    T::phys_to_virt(addr)
}

/// Convert a virtual address to a physical address.
pub fn virt_to_phys<T: MemoryApi>(addr: VirtAddr) -> (r: PhysAddr)
    ensures
        r == T::virt_to_phys_spec(addr),
{
    T::virt_to_phys(addr)
}

/// Adapter giving the memory interface the shape the address-space
/// layer's hardware-abstraction trait expects: it holds the provider and
/// forwards every call unchanged.
pub struct AxMmHalApiImpl<T: MemoryApi> {
    pub api: T,
}

impl<T: MemoryApi> AxMmHalApiImpl<T> {
    /// Allocate a frame.
    pub fn alloc_frame(&mut self) -> (r: Option<PhysAddr>)
        ensures
            T::alloc_frame_post(old(self).api, final(self).api, r),
    {
        self.api.alloc_frame()
    }

    /// Deallocate a frame.
    pub fn dealloc_frame(&mut self, addr: PhysAddr)
        ensures
            T::dealloc_frame_post(old(self).api, final(self).api, addr),
    {
        self.api.dealloc_frame(addr)
    }

    /// Convert a physical address to a virtual address.
    pub fn phys_to_virt(&self, addr: PhysAddr) -> (r: VirtAddr)
        ensures
            r == T::phys_to_virt_spec(addr),
    {
        T::phys_to_virt(addr)
    }

    /// Convert a virtual address to a physical address.
    pub fn virt_to_phys(&self, addr: VirtAddr) -> (r: PhysAddr)
        ensures
            r == T::virt_to_phys_spec(addr),
    {
        T::virt_to_phys(addr)
    }
}

/// The offset the sample provider puts between a physical address and its
/// virtual alias.
pub const VA_PA_OFFSET: usize = 0x1000;

/// A sample provider: allocates frames at consecutive page-sized
/// addresses starting at zero, and accumulates the addresses handed back,
/// saturating at the machine-word maximum. It demonstrates the interface
/// and backs the crate's tests.
pub struct CountingMemory {
    pub next_addr: usize,
    pub returned_sum: usize,
}

impl CountingMemory {
    /// A fresh provider: nothing allocated, nothing returned.
    pub fn new() -> (r: CountingMemory)
        ensures
            r.next_addr == 0,
            r.returned_sum == 0,
    {
        CountingMemory { next_addr: 0, returned_sum: 0 }
    }

    /// Reset the provider.
    pub fn clear(&mut self)
        ensures
            final(self).next_addr == 0,
            final(self).returned_sum == 0,
    {
        self.next_addr = 0;
        self.returned_sum = 0;
    }

    /// The sum of all returned physical addresses.
    pub fn get_returned_sum(&self) -> (r: usize)
        ensures
            r == self.returned_sum,
    {
        self.returned_sum
    }
}

impl MemoryApi for CountingMemory {
    open spec fn alloc_frame_post(pre: Self, post: Self, r: Option<PhysAddr>) -> bool {
        if pre.next_addr <= usize::MAX - 0x1000 {
            &&& r == Some(PhysAddr { addr: pre.next_addr })
            &&& post.next_addr == pre.next_addr + 0x1000
            &&& post.returned_sum == pre.returned_sum
        } else {
            r is None && post == pre
        }
    }

    open spec fn alloc_contiguous_post(
        pre: Self,
        post: Self,
        num_frames: usize,
        frame_align_pow2: usize,
        r: Option<PhysAddr>,
    ) -> bool {
        r is None && post == pre
    }

    open spec fn dealloc_frame_post(pre: Self, post: Self, addr: PhysAddr) -> bool {
        &&& post.next_addr == pre.next_addr
        &&& post.returned_sum == if pre.returned_sum + addr.addr <= usize::MAX {
            pre.returned_sum + addr.addr
        } else {
            usize::MAX as int
        }
    }

    open spec fn dealloc_contiguous_post(
        pre: Self,
        post: Self,
        first_addr: PhysAddr,
        num_frames: usize,
    ) -> bool {
        post == pre
    }

    open spec fn phys_to_virt_spec(addr: PhysAddr) -> VirtAddr {
        VirtAddr {
            addr: if addr.addr + VA_PA_OFFSET <= usize::MAX {
                (addr.addr + VA_PA_OFFSET) as usize
            } else {
                (addr.addr - (usize::MAX - VA_PA_OFFSET + 1)) as usize
            },
        }
    }

    open spec fn virt_to_phys_spec(addr: VirtAddr) -> PhysAddr {
        PhysAddr {
            addr: if addr.addr >= VA_PA_OFFSET {
                (addr.addr - VA_PA_OFFSET) as usize
            } else {
                (addr.addr + (usize::MAX - VA_PA_OFFSET + 1)) as usize
            },
        }
    }

    fn alloc_frame(&mut self) -> (r: Option<PhysAddr>) {
        if self.next_addr <= usize::MAX - 0x1000 {
            let addr = self.next_addr;
            self.next_addr = self.next_addr + 0x1000;
            Some(PhysAddr { addr })
        } else {
            None
        }
    }

    fn alloc_contiguous_frames(&mut self, num_frames: usize, frame_align_pow2: usize) -> (r:
        Option<PhysAddr>) {
        None
    }

    fn dealloc_frame(&mut self, addr: PhysAddr) {
        if addr.addr <= usize::MAX - self.returned_sum {
            self.returned_sum = self.returned_sum + addr.addr;
        } else {
            self.returned_sum = usize::MAX;
        }
    }

    fn dealloc_contiguous_frames(&mut self, first_addr: PhysAddr, num_frames: usize) {
    }

    fn phys_to_virt(addr: PhysAddr) -> (r: VirtAddr) {
        if addr.addr <= usize::MAX - VA_PA_OFFSET {
            VirtAddr { addr: addr.addr + VA_PA_OFFSET }
        } else {
            VirtAddr { addr: addr.addr - (usize::MAX - VA_PA_OFFSET + 1) }
        }
    }

    fn virt_to_phys(addr: VirtAddr) -> (r: PhysAddr) {
        if addr.addr >= VA_PA_OFFSET {
            PhysAddr { addr: addr.addr - VA_PA_OFFSET }
        } else {
            PhysAddr { addr: addr.addr + (usize::MAX - VA_PA_OFFSET + 1) }
        }
    }
}

} // verus!
