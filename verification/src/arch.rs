//! Architecture-specific API.
//!
//! The architecture interface covers what only one processor family
//! offers: injecting a virtual interrupt through the interrupt
//! controller's hypervisor extension, and reading two of its
//! identification registers. Reads promise nothing — hardware registers
//! answer for themselves.

use vstd::prelude::*;

use crate::vmm::InterruptVector;

verus! {

/// The architecture interface: declared here, implemented by exactly one
/// provider elsewhere.
pub trait ArchApi: Sized {
    /// What the provider promises of one hardware virtual-interrupt
    /// injection.
    spec fn hardware_inject_post(pre: Self, post: Self, vector: InterruptVector) -> bool;

    /// Inject a virtual interrupt to the current virtual CPU through the
    /// interrupt controller's hypervisor extension.
    fn hardware_inject_virtual_interrupt(&mut self, vector: InterruptVector)
        ensures
            Self::hardware_inject_post(*old(self), *final(self), vector),
    ;

    /// Read the distributor's type register.
    fn read_vgicd_typer(&self) -> u32;

    /// Read the distributor's implementer-identification register.
    fn read_vgicd_iidr(&self) -> u32;
}

/// Inject a virtual interrupt to the current virtual CPU.
pub fn hardware_inject_virtual_interrupt<T: ArchApi>(api: &mut T, vector: InterruptVector)
    ensures
        T::hardware_inject_post(*old(api), *final(api), vector),
{
    api.hardware_inject_virtual_interrupt(vector)
}

/// Read the distributor's type register.
pub fn read_vgicd_typer<T: ArchApi>(api: &T) -> u32 {
    api.read_vgicd_typer()
}

/// Read the distributor's implementer-identification register.
pub fn read_vgicd_iidr<T: ArchApi>(api: &T) -> u32 {
    api.read_vgicd_iidr()
}

/// A sample provider: fixed register values and a record of the last
/// injected vector. It demonstrates the interface and backs the crate's
/// tests.
pub struct SimArch {
    pub typer: u32,
    pub iidr: u32,
    pub last_injected: Option<InterruptVector>,
}

impl ArchApi for SimArch {
    open spec fn hardware_inject_post(pre: Self, post: Self, vector: InterruptVector) -> bool {
        &&& post.typer == pre.typer
        &&& post.iidr == pre.iidr
        &&& post.last_injected == Some(vector)
    }

    fn hardware_inject_virtual_interrupt(&mut self, vector: InterruptVector) {
        self.last_injected = Some(vector);
    }

    fn read_vgicd_typer(&self) -> u32 {
        self.typer
    }

    fn read_vgicd_iidr(&self) -> u32 {
        self.iidr
    }
}

} // verus!
