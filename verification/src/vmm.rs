//! Virtual machine management API.
//!
//! The virtual-machine interface is declared as an explicit trait. The
//! provider promises that the identifier it reports for the current
//! virtual machine is one it can answer questions about, which is what
//! lets the current-machine queries return a plain value.

use vstd::prelude::*;

use vstd::pervasive::unreached;

verus! {

/// Virtual machine ID.
pub type VMId = usize;

/// Virtual CPU ID.
pub type VCpuId = usize;

/// Interrupt vector.
pub type InterruptVector = u8;

/// The virtual-machine interface: declared here, implemented by exactly
/// one provider elsewhere.
pub trait VmmApi: Sized {
    /// The provider's answer to how many virtual CPUs a machine has.
    spec fn vcpu_num_spec(&self, vm: VMId) -> Option<usize>;

    /// The provider's answer to which virtual CPUs of a machine are
    /// active, as a mask.
    spec fn active_vcpus_spec(&self, vm: VMId) -> Option<usize>;

    /// What the provider promises of one interrupt injection.
    spec fn inject_post(pre: Self, post: Self, vm: VMId, vcpu: VCpuId, vector: InterruptVector)
        -> bool;

    /// What the provider promises of one timer-expiry notification.
    spec fn timer_expired_post(pre: Self, post: Self, vm: VMId, vcpu: VCpuId) -> bool;

    /// Get the ID of the current virtual machine. The provider answers
    /// the per-machine queries for the machine it reports as current.
    fn current_vm_id(&self) -> (r: VMId)
        ensures
            self.vcpu_num_spec(r) is Some,
            self.active_vcpus_spec(r) is Some,
    ;

    /// Get the ID of the current virtual CPU.
    fn current_vcpu_id(&self) -> VCpuId;

    /// Get the number of virtual CPUs in a virtual machine.
    fn vcpu_num(&self, vm: VMId) -> (r: Option<usize>)
        ensures
            r == self.vcpu_num_spec(vm),
    ;

    /// Get the mask of active virtual CPUs in a virtual machine.
    fn active_vcpus(&self, vm: VMId) -> (r: Option<usize>)
        ensures
            r == self.active_vcpus_spec(vm),
    ;

    /// Inject an interrupt to a virtual CPU.
    fn inject_interrupt(&mut self, vm: VMId, vcpu: VCpuId, vector: InterruptVector)
        ensures
            Self::inject_post(*old(self), *final(self), vm, vcpu, vector),
    ;

    /// Notify that a virtual CPU timer has expired.
    fn notify_vcpu_timer_expired(&mut self, vm: VMId, vcpu: VCpuId)
        ensures
            Self::timer_expired_post(*old(self), *final(self), vm, vcpu),
    ;
}

/// Get the ID of the current virtual machine.
pub fn current_vm_id<T: VmmApi>(api: &T) -> (r: VMId)
    ensures
        api.vcpu_num_spec(r) is Some,
        api.active_vcpus_spec(r) is Some,
{
    api.current_vm_id()
}

/// Get the ID of the current virtual CPU.
pub fn current_vcpu_id<T: VmmApi>(api: &T) -> VCpuId {
    api.current_vcpu_id()
}

/// Get the number of virtual CPUs in a virtual machine.
pub fn vcpu_num<T: VmmApi>(api: &T, vm: VMId) -> (r: Option<usize>)
    ensures
        r == api.vcpu_num_spec(vm),
{
    api.vcpu_num(vm)
}

/// Get the mask of active virtual CPUs in a virtual machine.
pub fn active_vcpus<T: VmmApi>(api: &T, vm: VMId) -> (r: Option<usize>)
    ensures
        r == api.active_vcpus_spec(vm),
{
    api.active_vcpus(vm)
}

/// Inject an interrupt to a virtual CPU.
pub fn inject_interrupt<T: VmmApi>(api: &mut T, vm: VMId, vcpu: VCpuId, vector: InterruptVector)
    ensures
        T::inject_post(*old(api), *final(api), vm, vcpu, vector),
{
    api.inject_interrupt(vm, vcpu, vector)
}

/// Notify that a virtual CPU timer has expired.
pub fn notify_vcpu_timer_expired<T: VmmApi>(api: &mut T, vm: VMId, vcpu: VCpuId)
    ensures
        T::timer_expired_post(*old(api), *final(api), vm, vcpu),
{
    api.notify_vcpu_timer_expired(vm, vcpu)
}

/// Get the number of virtual CPUs in the current virtual machine: the
/// provider's answer for some machine it reports as current.
pub fn current_vm_vcpu_num<T: VmmApi>(api: &T) -> (r: usize)
    ensures
        exists|vm: VMId| api.vcpu_num_spec(vm) == Some(r),
{
    let id = api.current_vm_id();
    match api.vcpu_num(id) {
        Some(n) => {
            proof {
                assert(api.vcpu_num_spec(id) == Some(n));
            }
            n
        },
        None => unreached(),
    }
}

/// Get the mask of active virtual CPUs in the current virtual machine.
pub fn current_vm_active_vcpus<T: VmmApi>(api: &T) -> (r: usize)
    ensures
        exists|vm: VMId| api.active_vcpus_spec(vm) == Some(r),
{
    let id = api.current_vm_id();
    match api.active_vcpus(id) {
        Some(n) => {
            proof {
                assert(api.active_vcpus_spec(id) == Some(n));
            }
            n
        },
        None => unreached(),
    }
}

/// A sample provider: one virtual machine, with a fixed virtual-CPU count
/// and active mask, recording the last injected interrupt. It
/// demonstrates the interface and backs the crate's tests.
pub struct SimVmm {
    pub vcpus: usize,
    pub active: usize,
    pub last_injected: Option<(VMId, VCpuId, InterruptVector)>,
    pub last_timer_expired: Option<(VMId, VCpuId)>,
}

impl VmmApi for SimVmm {
    open spec fn vcpu_num_spec(&self, vm: VMId) -> Option<usize> {
        if vm == 0 {
            Some(self.vcpus)
        } else {
            None
        }
    }

    open spec fn active_vcpus_spec(&self, vm: VMId) -> Option<usize> {
        if vm == 0 {
            Some(self.active)
        } else {
            None
        }
    }

    open spec fn inject_post(
        pre: Self,
        post: Self,
        vm: VMId,
        vcpu: VCpuId,
        vector: InterruptVector,
    ) -> bool {
        &&& post.vcpus == pre.vcpus
        &&& post.active == pre.active
        &&& post.last_injected == Some((vm, vcpu, vector))
        &&& post.last_timer_expired == pre.last_timer_expired
    }

    open spec fn timer_expired_post(pre: Self, post: Self, vm: VMId, vcpu: VCpuId) -> bool {
        &&& post.vcpus == pre.vcpus
        &&& post.active == pre.active
        &&& post.last_injected == pre.last_injected
        &&& post.last_timer_expired == Some((vm, vcpu))
    }

    fn current_vm_id(&self) -> (r: VMId) {
        0
    }

    fn current_vcpu_id(&self) -> VCpuId {
        0
    }

    fn vcpu_num(&self, vm: VMId) -> (r: Option<usize>) {
        if vm == 0 {
            Some(self.vcpus)
        } else {
            None
        }
    }

    fn active_vcpus(&self, vm: VMId) -> (r: Option<usize>) {
        if vm == 0 {
            Some(self.active)
        } else {
            None
        }
    }

    fn inject_interrupt(&mut self, vm: VMId, vcpu: VCpuId, vector: InterruptVector) {
        self.last_injected = Some((vm, vcpu, vector));
    }

    fn notify_vcpu_timer_expired(&mut self, vm: VMId, vcpu: VCpuId) {
        self.last_timer_expired = Some((vm, vcpu));
    }
}

} // verus!
