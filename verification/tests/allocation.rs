use brig::encoder::{Instruction, Opcode, Operand, OperandKind};
use brig::regalloc::{allocate, calculate_vreg_live_ranges};
use brig::registers::{PhysicalRegister, Register};
use brig::regset::RegisterTracker;
use brig::width::Width;

fn mov(src: Operand, dst: Operand) -> Instruction {
    Instruction(Opcode::MOV(src, dst))
}

#[test]
fn live_ranges_run_from_first_write_to_last_read() {
    let mut instrs = vec![
        mov(Operand::imm(Width::_64, 1), Operand::vreg(Width::_64, 0)),
        mov(Operand::imm(Width::_64, 2), Operand::vreg(Width::_64, 1)),
        Instruction(Opcode::ADD(Operand::vreg(Width::_64, 0), Operand::vreg(Width::_64, 1))),
        mov(Operand::vreg(Width::_64, 1), Operand::preg(Width::_64, PhysicalRegister::RAX)),
    ];
    let original = instrs.clone();
    let mut tracker = RegisterTracker::new(2);
    calculate_vreg_live_ranges(&mut tracker, &mut instrs);
    assert_eq!(instrs, original);
    assert_eq!(tracker.virt[0].first_def, Some(0));
    assert_eq!(tracker.virt[0].last_use, Some(2));
    assert_eq!(tracker.virt[1].first_def, Some(1));
    assert_eq!(tracker.virt[1].last_use, Some(3));
}

#[test]
fn unread_write_before_rewrite_dies() {
    let mut instrs = vec![
        mov(Operand::imm(Width::_64, 1), Operand::vreg(Width::_64, 0)),
        mov(Operand::imm(Width::_64, 2), Operand::vreg(Width::_64, 0)),
        mov(Operand::vreg(Width::_64, 0), Operand::preg(Width::_64, PhysicalRegister::RAX)),
    ];
    let mut tracker = RegisterTracker::new(1);
    calculate_vreg_live_ranges(&mut tracker, &mut instrs);
    assert_eq!(instrs[0], Instruction(Opcode::DEAD));
    assert_eq!(instrs[1], mov(Operand::imm(Width::_64, 2), Operand::vreg(Width::_64, 0)));
    assert_eq!(tracker.virt[0].first_def, Some(1));
    assert_eq!(tracker.virt[0].last_use, Some(2));
}

#[test]
fn never_read_register_has_no_last_use() {
    let mut instrs = vec![mov(Operand::imm(Width::_64, 1), Operand::vreg(Width::_64, 0))];
    let mut tracker = RegisterTracker::new(2);
    calculate_vreg_live_ranges(&mut tracker, &mut instrs);
    assert_eq!(tracker.virt[0].first_def, Some(0));
    assert_eq!(tracker.virt[0].last_use, None);
    assert_eq!(tracker.virt[1].first_def, None);
}

#[test]
fn committing_host_registers_and_globals() {
    let global = Operand { kind: OperandKind::Register(Register::Global(2)), width_in_bits: Width::_64 };
    let mut instrs = vec![
        mov(Operand::imm(Width::_64, 5), global),
        mov(Operand::preg(Width::_64, PhysicalRegister::RBX), Operand::preg(Width::_64, PhysicalRegister::RCX)),
        mov(Operand::preg(Width::_64, PhysicalRegister::RAX), Operand::preg(Width::_64, PhysicalRegister::RAX)),
        mov(Operand::preg(Width::_32, PhysicalRegister::RDX), Operand::preg(Width::_32, PhysicalRegister::RDX)),
    ];
    assert_eq!(allocate(&mut instrs, 0, 0x100), Ok(()));
    assert_eq!(
        instrs[0],
        mov(
            Operand::imm(Width::_64, 5),
            Operand::mem_base_displ(Width::_64, Register::Physical(PhysicalRegister::RBP), 0x110)
        )
    );
    assert_eq!(
        instrs[1],
        mov(Operand::preg(Width::_64, PhysicalRegister::RBX), Operand::preg(Width::_64, PhysicalRegister::RCX))
    );
    assert_eq!(instrs[2], Instruction(Opcode::DEAD));
    assert_eq!(
        instrs[3],
        mov(Operand::preg(Width::_32, PhysicalRegister::RDX), Operand::preg(Width::_32, PhysicalRegister::RDX))
    );
}

#[test]
fn virtual_registers_get_host_registers() {
    let mut instrs = vec![
        mov(Operand::imm(Width::_64, 7), Operand::vreg(Width::_64, 0)),
        mov(Operand::vreg(Width::_64, 0), Operand::preg(Width::_64, PhysicalRegister::RAX)),
    ];
    assert_eq!(allocate(&mut instrs, 1, 0), Ok(()));
    for instr in &instrs {
        if let Opcode::MOV(src, dst) = &instr.0 {
            assert!(!matches!(src.kind, OperandKind::Register(Register::Virtual { .. })));
            assert!(!matches!(dst.kind, OperandKind::Register(Register::Virtual { .. })));
        }
    }
}
