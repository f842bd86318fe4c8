use brig::encoder::{BlockRef, Instruction, MemoryScale, Opcode, Operand};
use brig::registers::{PhysicalRegister, Register, RegisterClass, SegmentRegister};
use brig::naive::Range;
use brig::text::decimal_string;
use brig::width::Width;

#[test]
fn move_of_immediate_into_register() {
    let i = Instruction(Opcode::MOV(Operand::imm(Width::_64, 5), Operand::preg(Width::_64, PhysicalRegister::RAX)));
    assert_eq!(i.to_string(), "mov $5:64, %rax:64");
}

#[test]
fn memory_operands() {
    let base = Operand::mem_base_displ(Width::_64, Register::Physical(PhysicalRegister::RBP), -8);
    assert_eq!(base.to_string(), "-8(%rbp):64");
    let indexed = Operand::mem_base_idx_scale_displ(
        Width::_32,
        Register::Physical(PhysicalRegister::R8),
        Register::Virtual { index: 3, class: RegisterClass::General },
        MemoryScale::S4,
        16,
    );
    assert_eq!(indexed.to_string(), "16(%r8, vg3, * 4):32");
    let segment = Operand::mem_seg_displ(8, SegmentRegister::FS, 24);
    assert_eq!(segment.to_string(), "fs24(%riz):8");
    let lowest = Operand::mem_base_displ(Width::_16, Register::Global(7), i32::MIN);
    assert_eq!(lowest.to_string(), "-2147483648(g7):16");
}

#[test]
fn registers_and_widths() {
    assert_eq!(Register::Virtual { index: 12, class: RegisterClass::Xmm }.to_string(), "vx12");
    assert_eq!(Register::Global(0).to_string(), "g0");
    assert_eq!(RegisterClass::General.to_string(), "gpr");
    assert_eq!(PhysicalRegister::XMM7.to_string(), "xmm7");
    assert_eq!(Width::_128.to_string(), "128");
    assert_eq!(MemoryScale::S8.to_string(), "* 8");
    assert_eq!(decimal_string(u64::MAX), "18446744073709551615");
    assert_eq!(decimal_string(0), "0");
}

#[test]
fn mnemonics_follow_their_templates() {
    let rax = Operand::preg(Width::_32, PhysicalRegister::RAX);
    assert_eq!(Instruction(Opcode::OR(Operand::imm(Width::_32, 1), rax)).to_string(), "or $1:32, %rax:32,");
    assert_eq!(Instruction(Opcode::RET).to_string(), "ret");
    assert_eq!(Instruction(Opcode::IDIV(rax)).to_string(), "idiv RDX:RAX %rax:32");
    assert_eq!(Instruction(Opcode::JMP(Operand::target(BlockRef(3)))).to_string(), "jmp BlockRef(3):64");
    assert_eq!(
        Instruction(Opcode::CALL { function: Operand::imm(Width::_64, 4096), nr_input_args: 2, nr_output_args: 1 })
            .to_string(),
        "call $4096:64"
    );
    assert_eq!(Instruction(Opcode::DEAD).to_string(), "dead instruction");
}

#[test]
fn ranges_as_text() {
    assert_eq!(Range::new(2, 5).to_string(), "2..5");
    assert_eq!(Range::new_partial(3).to_string(), "3..");
}

#[test]
fn vmcs_report_lines() {
    let fields = brig::vmcs_report::report_fields();
    assert_eq!(fields.len(), brig::vmcs_report::REPORT_LINES);
    assert_eq!(fields[0], brig::vmcs_setup::VmcsField::GuestActivityState);
    let mut values: Vec<u64> = (0..fields.len() as u64).collect();
    values[2] = 0xdead_beef;
    let last = values.len() - 1;
    values[last] = u64::MAX;
    let report = brig::vmcs_report::vmcs_report(&values);
    let lines: Vec<&str> = report.lines().collect();
    assert_eq!(lines.len(), fields.len() + 1);
    assert_eq!(lines[0], "GUEST VM STATE");
    assert_eq!(lines[1], "activity_state=0000000000000000");
    assert_eq!(lines[3], "cr0=00000000deadbeef");
    assert_eq!(lines[9], "cs_selector=0000000000000008");
    assert_eq!(lines[fields.len()], "vmcs_link_ptr=ffffffffffffffff");
    assert!(report.ends_with('\n'));
}
