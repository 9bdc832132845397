//! Tests of the API facade: memory, time, and virtual-machine management.

use axvisor_api::memory::{self, AxMmHalApiImpl, CountingMemory, PhysAddr, VirtAddr, VA_PA_OFFSET};
use axvisor_api::time::{self, SimTime, TimeValue};
use axvisor_api::arch::{self, SimArch};
use axvisor_api::vmm::{self, SimVmm};

#[test]
pub fn test_memory() {
    let mut api = CountingMemory::new();
    api.clear();

    let frame1 = memory::alloc_frame(&mut api);
    let frame2 = memory::alloc_frame(&mut api);
    let frame3 = memory::alloc_frame(&mut api);

    assert_eq!(frame1, Some(PhysAddr::from_usize(0x0)));
    assert_eq!(frame2, Some(PhysAddr::from_usize(0x1000)));
    assert_eq!(frame3, Some(PhysAddr::from_usize(0x2000)));

    memory::dealloc_frame(&mut api, frame2.unwrap());
    assert_eq!(api.get_returned_sum(), 0x1000);
    memory::dealloc_frame(&mut api, frame3.unwrap());
    assert_eq!(api.get_returned_sum(), 0x3000);
    memory::dealloc_frame(&mut api, frame1.unwrap());
    assert_eq!(api.get_returned_sum(), 0x3000);

    assert_eq!(
        memory::phys_to_virt::<CountingMemory>(PhysAddr::from_usize(0)),
        VirtAddr::from_usize(VA_PA_OFFSET)
    );
    assert_eq!(
        memory::virt_to_phys::<CountingMemory>(VirtAddr::from_usize(VA_PA_OFFSET)),
        PhysAddr::from_usize(0)
    );
}

#[test]
fn memory_hal_adapter_forwards() {
    let mut hal = AxMmHalApiImpl { api: CountingMemory::new() };
    let frame1 = hal.alloc_frame();
    let frame2 = hal.alloc_frame();
    assert_eq!(frame1, Some(PhysAddr::from_usize(0x0)));
    assert_eq!(frame2, Some(PhysAddr::from_usize(0x1000)));
    hal.dealloc_frame(frame2.unwrap());
    assert_eq!(hal.api.get_returned_sum(), 0x1000);
    assert_eq!(hal.phys_to_virt(PhysAddr::from_usize(0x2000)), VirtAddr::from_usize(0x3000));
    assert_eq!(hal.virt_to_phys(VirtAddr::from_usize(0x3000)), PhysAddr::from_usize(0x2000));
}

#[test]
fn memory_contiguous_sample_declines() {
    let mut api = CountingMemory::new();
    assert_eq!(memory::alloc_contiguous_frames(&mut api, 4, 0), None);
    memory::dealloc_contiguous_frames(&mut api, PhysAddr::from_usize(0), 4);
    assert_eq!(api.get_returned_sum(), 0);
}

#[test]
fn time_conversions() {
    let clock = SimTime { now: 7, registered: 0, cancelled: 0 };
    assert_eq!(time::current_time_nanos(&clock), 70);
    assert_eq!(time::current_time(&clock), TimeValue::from_nanos(70));
    assert_eq!(time::ticks_to_time(&clock, 5), TimeValue::from_nanos(50));
    assert_eq!(time::time_to_ticks(&clock, TimeValue::from_nanos(123)), 12);
    assert_eq!(TimeValue::from_nanos(99).as_nanos(), 99);
}

#[test]
fn time_conversion_saturates() {
    let clock = SimTime { now: 0, registered: 0, cancelled: 0 };
    assert_eq!(time::ticks_to_time(&clock, u64::MAX).as_nanos(), u64::MAX);
}

#[test]
fn vmm_current_machine_queries() {
    let api = SimVmm { vcpus: 4, active: 0b1011, last_injected: None, last_timer_expired: None };
    assert_eq!(vmm::current_vm_id(&api), 0);
    assert_eq!(vmm::current_vcpu_id(&api), 0);
    assert_eq!(vmm::current_vm_vcpu_num(&api), 4);
    assert_eq!(vmm::current_vm_active_vcpus(&api), 0b1011);
    assert_eq!(vmm::vcpu_num(&api, 0), Some(4));
    assert_eq!(vmm::vcpu_num(&api, 1), None);
    assert_eq!(vmm::active_vcpus(&api, 1), None);
}

#[test]
fn vmm_injection_recorded() {
    let mut api = SimVmm { vcpus: 1, active: 1, last_injected: None, last_timer_expired: None };
    vmm::inject_interrupt(&mut api, 0, 0, 32);
    assert_eq!(api.last_injected, Some((0, 0, 32)));
    vmm::notify_vcpu_timer_expired(&mut api, 0, 0);
    assert_eq!(api.last_timer_expired, Some((0, 0)));
}

#[test]
fn arch_injection_recorded() {
    let mut api = SimArch { typer: 0x10, iidr: 0x43b, last_injected: None };
    assert_eq!(arch::read_vgicd_typer(&api), 0x10);
    assert_eq!(arch::read_vgicd_iidr(&api), 0x43b);
    arch::hardware_inject_virtual_interrupt(&mut api, 27);
    assert_eq!(api.last_injected, Some(27));
}

#[test]
fn time_timer_registration_counted() {
    let mut clock = SimTime { now: 0, registered: 0, cancelled: 0 };
    let t0 = time::register_timer(&mut clock, TimeValue::from_nanos(100), |_deadline| {});
    let t1 = time::register_timer(&mut clock, TimeValue::from_nanos(200), |_deadline| {});
    assert_eq!(t0, 0);
    assert_eq!(t1, 1);
    time::cancel_timer(&mut clock, t0);
    assert_eq!(clock.registered, 2);
    assert_eq!(clock.cancelled, 1);
}

