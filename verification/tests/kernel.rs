use brig::vmcs_setup::{control_msrs, vmcs_writes, VmcsField, VmcsHostState};
use brig::vmx::guest_io_bitmap;
use brig::machine::{adjust_feature_control_msr, decode_assert_meta, updated_cr0, updated_cr4, updated_efer, AssertLocation, HypervisorError};
use brig::virtio::{VirtQueue, VirtRingDescr};
use brig::irq::{IrqError, IrqManager, UsedInterruptVectors};
use brig::machine::MachineContext;
use brig::pl011::{Pl011, Pl011Effects};
use brig::sysreg::{encode_sysreg_id, from_le_bytes, to_le_bytes, SysregHandlers, SysregWrite, AT_S1E1R};
use brig::vmcs::{
    compute_vmx_control, ept_pointer, guest_control_register, revision_id, supports_vmx_control, Vmcs, VmcsError,
    VmcsRegion, VmxExitReason,
};
use brig::vmx::{IoBitmap, MsrBitmap};

fn bit(bytes: &[u8], index: usize) -> bool {
    (bytes[index / 8] >> (index % 8)) & 1 == 1
}

#[test]
fn io_bitmap_starts_all_exiting_and_clears_one_port() {
    let mut b = IoBitmap::new();
    assert!(b.as_bytes().iter().all(|&x| x == 0xff));
    b.set_io_exiting(0x3f8, false);
    assert!(!bit(b.as_bytes(), 0x3f8));
    assert!(bit(b.as_bytes(), 0x3f9));
    assert_eq!(b.as_bytes()[0x3f8 / 8], 0xfe);
    b.set_io_exiting(0x3f8, true);
    assert_eq!(b.as_bytes()[0x3f8 / 8], 0xff);
}

#[test]
fn msr_bitmap_read_and_write_bits() {
    let mut b = MsrBitmap::new();
    assert!(b.as_bytes().iter().all(|&x| x == 0));
    b.set_msr_read_exiting(0x10, true);
    assert!(bit(b.as_bytes(), 0x10));
    b.set_msr_write_exiting(0xc000_0080, true);
    assert!(bit(b.as_bytes(), 0x80 + 3 * 8 * 1024));
    b.set_msr_read_exiting(0xc000_0080, true);
    assert!(bit(b.as_bytes(), 0x80 + 8 * 1024));
    b.set_msr_read_exiting(0x10, false);
    assert!(!bit(b.as_bytes(), 0x10));
    assert_eq!(b.as_bytes().iter().map(|x| x.count_ones()).sum::<u32>(), 2);
}

#[test]
fn interrupt_vectors_reserve_once() {
    let mut used = UsedInterruptVectors::new();
    assert!(!used.get(0x50));
    assert_eq!(used.reserve(0x50), Ok(()));
    assert!(used.get(0x50));
    assert_eq!(used.reserve(0x50), Err(IrqError::IrqAlreadyReserved(0x50)));
    assert!(!used.get(0x51));
}

#[test]
fn interrupt_setup_reserves_exceptions_and_translation_vectors() {
    let mut used = UsedInterruptVectors::new();
    assert_eq!(used.setup(), Ok(()));
    for v in [0u8, 1, 3, 8, 13, 14, 0x50, 0x51, 0x52, 0x53] {
        assert!(used.get(v));
    }
    assert!(!used.get(2));
    assert!(!used.get(0x54));
    let mut used = UsedInterruptVectors::new();
    used.set(0x52);
    assert_eq!(used.setup(), Err(IrqError::IrqAlreadyReserved(0x52)));
}

#[test]
fn uart_reset_values_and_id() {
    let uart = Pl011::new(66);
    let mut dst = [0u8; 2];
    uart.read(0x030, &mut dst);
    assert_eq!(dst, [0x00, 0x03]);
    uart.read(0x034, &mut dst);
    assert_eq!(dst, [0x12, 0x00]);
    let mut b = [0u8; 1];
    uart.read(0xfe0, &mut b);
    assert_eq!(b, [0x11]);
    uart.read(0xffc, &mut b);
    assert_eq!(b, [0xb1]);
    uart.read(0x018, &mut b);
    assert_eq!(b, [0xc0]);
    assert_eq!(uart.address_space_size(), 0x1000);
}

#[test]
fn uart_write_reads_back() {
    let mut uart = Pl011::new(66);
    uart.write(0x024, &[0x34, 0x12]);
    let mut dst = [0u8; 2];
    uart.read(0x024, &mut dst);
    assert_eq!(dst, [0x34, 0x12]);
    uart.write(0x028, &[0xff, 0xff]);
    uart.read(0x028, &mut dst);
    assert_eq!(dst, [0x3f, 0x00]);
    uart.write(0x02c, &[0x10, 0xff]);
    uart.read(0x02c, &mut dst);
    assert_eq!(dst, [0x10, 0x00]);
    let mut b = [0u8; 1];
    uart.read(0x018, &mut b);
    assert_eq!(b, [0x80]);
}

#[test]
fn uart_transmit_raises_interrupt_when_unmasked() {
    let mut uart = Pl011::new(66);
    let e = uart.write(0x000, &[b'A']);
    assert_eq!(e, Pl011Effects { output: Some(b'A'), irq: Some(false) });
    let e = uart.write(0x038, &[0x20, 0x00]);
    assert_eq!(e, Pl011Effects { output: None, irq: Some(true) });
    let e = uart.write(0x044, &[0x20, 0x00]);
    assert_eq!(e, Pl011Effects { output: None, irq: Some(false) });
    let mut status = [0u8; 4];
    uart.read(0x03c, &mut status);
    assert_eq!(status, [0, 0, 0, 0]);
}

#[test]
fn uart_access_checks() {
    assert!(Pl011::can_read(0x024, 2));
    assert!(!Pl011::can_read(0x024, 1));
    assert!(!Pl011::can_read(0x008, 4));
    assert!(Pl011::can_write(0x044, 2));
    assert!(!Pl011::can_write(0x018, 1));
}

#[test]
fn sysreg_ids_and_table() {
    assert_eq!(encode_sysreg_id(1, 0, 7, 8, 0), AT_S1E1R);
    assert_eq!(encode_sysreg_id(3, 0, 1, 0, 0), (3 << 19) | (1 << 12));
    let mut table = SysregHandlers::new();
    assert!(table.handler_exists(AT_S1E1R));
    let id = encode_sysreg_id(3, 3, 14, 0, 1);
    assert!(!table.handler_exists(id));
    table.register_device(id, 4);
    assert!(table.handler_exists(id));
    assert_eq!(table.sys_reg_read(id), 4);
    assert_eq!(
        table.sys_reg_write(id, 0x0102_0304_0506_0708, 8),
        SysregWrite::Device { device: 4, bytes: [8, 7, 6, 5, 4, 3, 2, 1] }
    );
    assert_eq!(table.sys_reg_write(AT_S1E1R, 0x1000, 8), SysregWrite::AddressTranslation(0x1000));
}

#[test]
fn le_bytes_round_trip() {
    let v = 0xdead_beef_0123_4567u64;
    assert_eq!(to_le_bytes(v), v.to_le_bytes());
    assert_eq!(from_le_bytes(v.to_le_bytes()), v);
}

#[test]
fn vmcs_state() {
    let mut vmcs = Vmcs::new();
    assert!(!vmcs.is_launched());
    assert_eq!(vmcs.ensure_active(), Err(VmcsError::NotActive));
    assert_eq!(vmcs.read_vm_exit_reason(10), Err(VmcsError::NotActive));
    assert_eq!(vmcs.deactivate(true), Err(VmcsError::NotActive));
    assert_eq!(vmcs.activate(false), Err(VmcsError::Failed));
    assert_eq!(vmcs.activate(true), Ok(()));
    assert_eq!(vmcs.read_vm_exit_reason(48), Ok(VmxExitReason::EptViolation));
    assert_eq!(vmcs.read_vm_instruction_error(Some(5)), Ok("vmresume with non-launched vmcs"));
    assert_eq!(vmcs.read_vm_instruction_error(None), Err(VmcsError::Failed));
    vmcs.set_launched();
    assert!(vmcs.is_launched());
    assert_eq!(vmcs.deactivate(false), Err(VmcsError::Failed));
    assert_eq!(vmcs.deactivate(true), Ok(()));
    assert_eq!(vmcs.ensure_active(), Err(VmcsError::NotActive));
}

#[test]
fn exit_reasons_by_number() {
    assert_eq!(VmxExitReason::from(0), VmxExitReason::Exception);
    assert_eq!(VmxExitReason::from(30), VmxExitReason::IoInstruction);
    assert_eq!(VmxExitReason::from(52), VmxExitReason::VmxPreemptionTimerExpired);
}

#[test]
fn vmx_controls() {
    let control = (0xffff_ffffu64 << 32) | 0x16;
    assert!(supports_vmx_control(control, 0x40));
    assert_eq!(compute_vmx_control(control, 0x40), 0x56);
    let restricted = (0x0000_00ffu64 << 32) | 0x16;
    assert!(!supports_vmx_control(restricted, 0x100));
    assert_eq!(guest_control_register(0x0000_0000_8005_0033, 0x8000_0021, 0xffff_ffff), 0x8005_0033);
    assert_eq!(guest_control_register(0, 0x21, 0xffff_ffff_ffff_ffff), 0x21);
    assert_eq!(guest_control_register(0xff, 0, 0x0f), 0x0f);
    assert_eq!(revision_id(0xffff_ffff_8000_0004), 4);
    assert_eq!(ept_pointer(0x1000), 0x101e);
    let region = VmcsRegion::new(0x12);
    assert_eq!(region.revision_id, 0x12);
    assert_eq!(region.data.len(), 4092);
}

#[test]
fn machine_context_empty() {
    let m = MachineContext::empty();
    assert_eq!(m.rax, 0);
    assert_eq!(m.ss, 0);
    assert_eq!(m, MachineContext::empty());
}

#[test]
fn feature_control_and_control_registers() {
    assert_eq!(adjust_feature_control_msr(0), Ok(Some(5)));
    assert_eq!(adjust_feature_control_msr(0x1), Err(HypervisorError::VMXBIOSLock));
    assert_eq!(adjust_feature_control_msr(0x5), Ok(None));
    assert_eq!(updated_cr0(0x11), 0x8001_0031);
    assert_eq!(updated_cr4(0x0010_0000), 0x0001_2090);
    assert_eq!(updated_efer(0x500), 0x501);
}

#[test]
fn assert_location_unpacks() {
    let meta = (8u64 << 32) | (0x12 << 16) | 0x34;
    assert_eq!(decode_assert_meta(meta), AssertLocation { function: 7, block: 0x12, statement: 0x34 });
}

#[test]
fn virtqueue_registers_and_rings() {
    let mut q = VirtQueue::new(0);
    assert!(!q.ready());
    assert_eq!(q.num_max(), 0x1000);
    q.set_num(8);
    q.set_descriptor_low(0x1000);
    q.set_descriptor_high(0x2);
    q.set_available_high(0x3);
    q.set_available_low(0x2000);
    q.set_used_low(0x3000);
    assert_eq!(q.addresses(), (0x2_0000_1000, 0x3_0000_2000, 0x3000));
    q.set_ready(true);
    assert!(q.ready());
    assert_eq!(q.pop_slot(0), None);
    assert_eq!(q.pop_slot(2), Some(0));
    assert_eq!(q.pop_slot(2), Some(1));
    assert_eq!(q.pop_slot(2), None);
    assert_eq!(q.push_slot(9), 1);
    let d = VirtRingDescr { addr: 0, length: 16, flags: 3, next: 1 };
    assert!(d.has_next() && d.is_write() && !d.is_indirect());
}

#[test]
fn guest_io_bitmap_passes_through_listed_ports() {
    let b = guest_io_bitmap();
    for port in [0x0du16, 0xda, 0xd6, 0xd4, 0x20, 0x21, 0xa0, 0xa1, 0x92, 0x510] {
        assert!(!bit(b.as_bytes(), port as usize));
    }
    assert!(bit(b.as_bytes(), 0x3f8));
    assert!(bit(b.as_bytes(), 0x60));
}

fn host_state() -> VmcsHostState {
    let all = 0xffff_ffffu64 << 32;
    VmcsHostState {
        vmx_basic: 1 << 55,
        pinbased_msr: all | 0x16,
        entry_msr: all,
        exit_msr: all,
        procbased_msr: all,
        procbased2_msr: all,
        virtual_apic: 0x5000,
        io_bitmap_a: 0x6000,
        ept_pml4: 0x9000,
        cr0: 0x8005_0033,
        cr3: 0x1000,
        cr4: 0x2020,
        fs_base: 0,
        gs_base: 0x7000,
        host_rip: 0xffff_8000_0000_1000,
        code_selector: 0x8,
        data_selector: 0x10,
        tss_selector: 0x28,
        efer: 0xd01,
        idt_base: 0xa000,
        idt_limit: 0xfff,
        gdt_base: 0xb000,
        gdt_limit: 0x37,
        tss_base: 0xc000,
        tss_size: 0x68,
        cr0_fixed0: 0x8000_0021,
        cr0_fixed1: 0xffff_ffff,
        cr4_fixed0: 0x2000,
        cr4_fixed1: 0x3f_ffff,
        guest_rip: 0x1234,
    }
}

#[test]
fn vmcs_plan_of_host_state() {
    assert_eq!(control_msrs(1 << 55), (0x48d, 0x490, 0x48f, 0x48e, 0x48b));
    assert_eq!(control_msrs(0), (0x481, 0x484, 0x483, 0x482, 0x48b));
    let w = vmcs_writes(&host_state());
    assert_eq!(w.len(), 77);
    assert_eq!(w[0], (VmcsField::PinBasedVmExecControl, 0x56));
    assert_eq!(w[3], (VmcsField::CpuBasedVmExecControl, 0x8000_0000));
    assert!(w.contains(&(VmcsField::IoBitmapB, 0x7000)));
    assert!(w.contains(&(VmcsField::EptPointer, 0x901e)));
    assert!(w.contains(&(VmcsField::GuestCr0, 0x8005_0033)));
    assert!(w.contains(&(VmcsField::GuestCsArBytes, 0b10_0000_1001_1011)));
    assert!(w.contains(&(VmcsField::GuestTrLimit, 0x67)));
    assert_eq!(*w.last().unwrap(), (VmcsField::GuestRflags, 2));
}

#[test]
fn irq_manager_installs_handlers_once() {
    let mut m = IrqManager::new();
    assert_eq!(m.handler(0x50), None);
    assert_eq!(m.assign_irq(0x50, 0xdead_0000), Ok(()));
    assert_eq!(m.handler(0x50), Some(0xdead_0000));
    assert_eq!(m.handler(0x51), None);
    assert_eq!(m.assign_irq(0x50, 0xbeef_0000), Err(IrqError::IrqAlreadyReserved(0x50)));
    assert_eq!(m.handler(0x50), Some(0xdead_0000));
}
