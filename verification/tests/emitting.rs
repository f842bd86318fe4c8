use brig::context::{Callbacks, RegisterFileLayout, X86TranslationContext};
use brig::emitter::{PanicReason, X86Emitter};
use brig::encoder::{BlockRef, Instruction, Opcode, Operand, OperandKind, UseDefMut};
use brig::fold::constant;
use brig::ir::{BinaryOperationKind, NodeKind, Type};
use brig::registers::{PhysicalRegister, Register};
use brig::unary::{get_flags, read_register};
use brig::width::Width;

fn layout() -> RegisterFileLayout {
    RegisterFileLayout {
        pc: 0x100,
        el: 0x108,
        sctlr_el1: 0x110,
        ttbr0_el1: 0x118,
        ttbr1_el1: 0x120,
        n: 0x200,
        z: 0x201,
        c: 0x202,
        v: 0x203,
        global_register_size: 1024,
    }
}

fn callbacks() -> Callbacks {
    Callbacks {
        el_changed_callback: 0x1000,
        trace_instruction_start: 0x2000,
        trace_instruction_end: 0x3000,
        trace_register_read: 0x4000,
        trace_register_write: 0x5000,
        trace_memory_read: 0x6000,
        trace_memory_write: 0x7000,
    }
}

fn emitter(memory_mask: bool) -> X86Emitter {
    X86Emitter::new(X86TranslationContext::new_with_allocator(&layout(), memory_mask, 0x800, callbacks()))
}

fn current_instructions(em: &X86Emitter) -> Vec<Instruction> {
    em.ctx().arena()[em.get_current_block().0].instructions().to_vec()
}

fn rbp(width: Width, displacement: i32) -> Operand {
    Operand::mem_base_displ(width, Register::Physical(PhysicalRegister::RBP), displacement)
}

#[test]
fn write_register_stores_into_register_file() {
    let mut em = emitter(false);
    em.write_register(0x40, constant(5, Type::Unsigned(64))).unwrap();
    let instrs = current_instructions(&em);
    assert_eq!(
        *instrs.last().unwrap(),
        Instruction(Opcode::MOV(Operand::imm(Width::_64, 5), rbp(Width::_64, 0x40)))
    );
    assert!(!em.need_tlb_invalidate());
}

#[test]
fn write_of_translation_register_asks_for_tlb_invalidation() {
    let mut em = emitter(false);
    em.write_register(0x118, constant(0x1000, Type::Unsigned(64))).unwrap();
    assert!(em.need_tlb_invalidate());
    em.leave().unwrap();
    let instrs = current_instructions(&em);
    let n = instrs.len();
    assert_eq!(instrs[n - 1], Instruction(Opcode::RET));
    assert_eq!(
        instrs[n - 2],
        Instruction(Opcode::OR(Operand::imm(Width::_32, 1), Operand::preg(Width::_32, PhysicalRegister::RAX)))
    );
}

#[test]
fn leave_without_result_bits() {
    let mut em = emitter(false);
    em.leave().unwrap();
    let instrs = current_instructions(&em);
    assert_eq!(instrs.len(), 3);
    assert_eq!(
        instrs[1],
        Instruction(Opcode::SHL(Operand::imm(Width::_32, 2), Operand::preg(Width::_32, PhysicalRegister::RAX)))
    );
    assert_eq!(instrs[2], Instruction(Opcode::RET));
}

#[test]
fn write_register_out_of_displacement_range_is_refused() {
    let mut em = emitter(false);
    assert!(em.write_register(0x8000_0000, constant(5, Type::Unsigned(64))).is_err());
}

#[test]
fn flag_write_of_add_with_carry_flags_stores_the_host_flag() {
    let mut em = emitter(false);
    let a = read_register(0x10, Type::Unsigned(64));
    let b = read_register(0x18, Type::Unsigned(64));
    let carry = constant(0, Type::Unsigned(1));
    let adc = brig::unary::ternary_operation(brig::ir::TernaryOperationKind::AddWithCarry(a, b, carry));
    let flags = get_flags(adc);
    em.write_register(0x201, flags).unwrap();
    let instrs = current_instructions(&em);
    assert_eq!(*instrs.last().unwrap(), Instruction(Opcode::SETE(rbp(Width::_8, 0x201))));
}

#[test]
fn panic_raises_the_vector_of_its_reason() {
    let mut em = emitter(false);
    em.panic(PanicReason::Match);
    assert_eq!(PanicReason::Match.vector(), 0x54);
    let instrs = current_instructions(&em);
    assert_eq!(*instrs.last().unwrap(), Instruction(Opcode::INT(Operand::imm(Width::_8, 0x54))));
}

#[test]
fn constant_assert_of_zero_raises_interrupt() {
    let mut em = emitter(false);
    em.guest_assert(constant(0, Type::Unsigned(1)), 7).unwrap();
    let instrs = current_instructions(&em);
    assert_eq!(instrs, vec![Instruction(Opcode::INT(Operand::imm(Width::_8, 0x52)))]);
    let mut em = emitter(false);
    em.guest_assert(constant(1, Type::Unsigned(1)), 7).unwrap();
    assert!(current_instructions(&em).is_empty());
}

#[test]
fn assert_of_register_jumps_to_panic_block() {
    let mut em = emitter(false);
    em.guest_assert(read_register(0x30, Type::Unsigned(1)), 0xabcd).unwrap();
    let instrs = current_instructions(&em);
    let n = instrs.len();
    assert_eq!(instrs[n - 1], Instruction::jne(em.ctx().panic_block()));
    assert_eq!(
        instrs[n - 2],
        Instruction(Opcode::MOV(Operand::imm(Width::_64, 0xabcd), Operand::preg(Width::_64, PhysicalRegister::R15)))
    );
}

#[test]
fn branch_on_equality_jumps_to_false_target_on_inequality() {
    let mut em = emitter(false);
    let t = em.create_block();
    let f = em.create_block();
    let cond = brig::checked::try_binary(BinaryOperationKind::CompareEqual(
        read_register(0x10, Type::Unsigned(64)),
        constant(3, Type::Unsigned(64)),
    ))
    .unwrap();
    em.branch(&cond, t, f).unwrap();
    let instrs = current_instructions(&em);
    let n = instrs.len();
    assert_eq!(instrs[n - 2], Instruction::jne(f));
    assert_eq!(instrs[n - 1], Instruction::jmp(t));
    assert_eq!(em.ctx().arena()[0].next_blocks().to_vec(), vec![f, t]);
}

#[test]
fn branch_on_constant_is_refused() {
    let mut em = emitter(false);
    let t = em.create_block();
    let f = em.create_block();
    assert!(em.branch(&constant(1, Type::Unsigned(1)), t, f).is_err());
}

#[test]
fn masked_memory_read_masks_the_address() {
    let mut em = emitter(true);
    let node = em.read_memory(&constant(0x4000, Type::Unsigned(64)), Type::Unsigned(32)).unwrap();
    assert!(matches!(node.kind(), NodeKind::Operand(_)));
    let instrs = current_instructions(&em);
    assert!(instrs.iter().any(|i| *i
        == Instruction(Opcode::MOV(
            Operand::imm(Width::_64, 0x0000_00ff_ffff_ffff),
            Operand::vreg(Width::_64, 1)
        ))));
    match instrs.last().unwrap() {
        Instruction(Opcode::MOV(src, dst)) => {
            assert_eq!(dst.width_in_bits, Width::_32);
            assert!(matches!(src.kind, OperandKind::Memory { .. }));
        },
        other => panic!("unexpected {:?}", other),
    }
}

#[test]
fn unprivileged_write_clears_the_flag_last() {
    let mut em = emitter(false);
    em.write_memory(&read_register(0x10, Type::Unsigned(64)), &constant(1, Type::Unsigned(8)), true).unwrap();
    let instrs = current_instructions(&em);
    match instrs.last().unwrap() {
        Instruction(Opcode::MOV(src, _)) => assert_eq!(*src, Operand::imm(Width::_32, 0)),
        other => panic!("unexpected {:?}", other),
    }
}

#[test]
fn call_saves_placeholders_around_the_call() {
    let mut em = emitter(false);
    em.emit_trace_instruction_start(0x1234, 0x8000).unwrap();
    let instrs = current_instructions(&em);
    assert_eq!(instrs.len(), 1 + 2 + 9 + 1 + 9);
    assert_eq!(instrs[0], Instruction(Opcode::MOV(Operand::imm(Width::_64, 0x2000), Operand::vreg(Width::_64, 0))));
    assert_eq!(
        instrs[12],
        Instruction(Opcode::CALL { function: Operand::vreg(Width::_64, 0), nr_input_args: 2, nr_output_args: 0 })
    );
    assert_eq!(instrs[3], Instruction(Opcode::DEAD));
}

#[test]
fn leave_with_cache_makes_a_returning_block() {
    let mut em = emitter(false);
    em.leave_with_cache(0x10_0000).unwrap();
    assert_eq!(em.get_current_block(), BlockRef(2));
    assert_eq!(current_instructions(&em), vec![Instruction(Opcode::RET)]);
    assert_eq!(em.ctx().arena()[0].next_blocks().to_vec(), vec![BlockRef(2)]);
}

#[test]
fn compiled_translation_ends_in_ret() {
    let mut em = emitter(false);
    em.write_register(0x40, constant(5, Type::Unsigned(64))).unwrap();
    em.leave().unwrap();
    let vregs = em.next_vreg();
    let ctx = em.into_ctx();
    assert!(ctx.can_compile(vregs));
    let code = ctx.compile(vregs).unwrap();
    assert!(code.contains(&0xc3));
    assert!(code.windows(2).any(|w| w == [0xcd, 0x53]));
}

#[test]
fn addition_of_registers_is_a_move_and_an_add() {
    let mut em = emitter(false);
    let a = read_register(0x10, Type::Unsigned(64));
    let b = read_register(0x18, Type::Unsigned(64));
    let sum = brig::fold::binary_operation(BinaryOperationKind::Add(a, b));
    let dst = em.to_operand(&sum).unwrap();
    let instrs = current_instructions(&em);
    let n = instrs.len();
    assert_eq!(n, 4);
    assert!(matches!(instrs[n - 2].0, Opcode::MOV(_, d) if d == dst));
    assert!(matches!(instrs[n - 1].0, Opcode::ADD(_, d) if d == dst));
    assert!(matches!(dst.kind, OperandKind::Register(_)));
}

#[test]
fn complement_of_register_ends_in_not() {
    let mut em = emitter(false);
    let a = read_register(0x10, Type::Unsigned(32));
    let c = brig::unary::unary_operation(brig::ir::UnaryOperationKind::Complement(a));
    let dst = em.to_operand(&c).unwrap();
    let instrs = current_instructions(&em);
    assert_eq!(*instrs.last().unwrap(), Instruction(Opcode::NOT(dst)));
    assert_eq!(dst.width_in_bits, Width::_32);
}

#[test]
fn left_shift_by_constant_ends_in_shl() {
    let mut em = emitter(false);
    let a = read_register(0x10, Type::Unsigned(64));
    let s = brig::unary::shift(a, constant(3, Type::Unsigned(8)), brig::ir::ShiftOperationKind::LogicalShiftLeft);
    let dst = em.to_operand(&s).unwrap();
    let instrs = current_instructions(&em);
    assert_eq!(*instrs.last().unwrap(), Instruction(Opcode::SHL(Operand::imm(Width::_8, 3), dst)));
}

#[test]
fn zero_extension_ends_in_movzx() {
    let mut em = emitter(false);
    let a = read_register(0x10, Type::Unsigned(32));
    let c = brig::unary::cast(a, Type::Unsigned(64), brig::ir::CastOperationKind::ZeroExtend);
    let dst = em.to_operand(&c).unwrap();
    let instrs = current_instructions(&em);
    assert!(matches!(instrs.last().unwrap().0, Opcode::MOVZX(_, d) if d == dst));
}

#[test]
fn unsigned_less_than_of_registers_sets_below() {
    let mut em = emitter(false);
    let a = read_register(0x10, Type::Unsigned(64));
    let b = read_register(0x18, Type::Unsigned(64));
    let lt = brig::fold::binary_operation(BinaryOperationKind::CompareLessThan(a, b));
    let dst = em.to_operand(&lt).unwrap();
    let instrs = current_instructions(&em);
    let n = instrs.len();
    assert!(matches!(instrs[n - 2].0, Opcode::CMP(_, _)));
    assert_eq!(instrs[n - 1], Instruction(Opcode::SETB(dst)));
    assert_eq!(dst.width_in_bits, Width::_8);
}

#[test]
fn signed_compare_with_immediate_turns_the_condition_round() {
    let mut em = emitter(false);
    let a = read_register(0x10, Type::Signed(64));
    let lt = brig::fold::binary_operation(BinaryOperationKind::CompareLessThan(a, constant(5, Type::Signed(64))));
    let dst = em.to_operand(&lt).unwrap();
    let instrs = current_instructions(&em);
    let n = instrs.len();
    assert!(matches!(instrs[n - 2].0, Opcode::CMP(Operand { kind: OperandKind::Immediate(5), .. }, _)));
    assert_eq!(instrs[n - 1], Instruction(Opcode::SETGE(dst)));
}

#[test]
fn select_ends_in_conditional_move() {
    let mut em = emitter(false);
    let c = read_register(0x20, Type::Unsigned(1));
    let a = read_register(0x10, Type::Unsigned(64));
    let b = read_register(0x18, Type::Unsigned(64));
    let sel = brig::unary::select(c, a, b);
    let dst = em.to_operand(&sel).unwrap();
    let instrs = current_instructions(&em);
    let n = instrs.len();
    assert!(matches!(instrs[n - 3].0, Opcode::MOV(_, d) if d == dst));
    assert!(matches!(instrs[n - 2].0, Opcode::TEST(x, y) if x == y));
    assert!(matches!(instrs[n - 1].0, Opcode::CMOVNE(_, d) if d == dst));
}

#[test]
fn extraction_from_register_ends_in_bextr() {
    let mut em = emitter(false);
    let a = read_register(0x10, Type::Unsigned(64));
    let start = read_register(0x30, Type::Unsigned(64));
    let e = brig::extract::bit_extract(a, start, constant(8, Type::Unsigned(64)));
    assert!(matches!(e.kind(), NodeKind::BitExtract { .. }));
    let dst = em.to_operand(&e).unwrap();
    let instrs = current_instructions(&em);
    assert!(matches!(instrs.last().unwrap().0, Opcode::BEXTR(_, _, d) if d == dst));
    assert_eq!(dst.width_in_bits, Width::_64);
}

#[test]
fn operand_changed_in_place() {
    let mut i = Instruction(Opcode::ADD(Operand::imm(Width::_64, 1), rbp(Width::_64, 8)));
    *i.get_operands_mut(1) = Operand::preg(Width::_64, PhysicalRegister::RCX);
    assert_eq!(
        i,
        Instruction(Opcode::ADD(Operand::imm(Width::_64, 1), Operand::preg(Width::_64, PhysicalRegister::RCX)))
    );
    assert_eq!(*i.get_operands_mut(0), Operand::imm(Width::_64, 1));
}

#[test]
fn register_use_changed_in_place() {
    let v0 = Operand::vreg_general(Width::_64, 0);
    let mut i = Instruction(Opcode::ADD(v0, rbp(Width::_64, 8)));
    match i.get_use_defs_mut(1) {
        UseDefMut::Use(r) => *r = Register::Physical(PhysicalRegister::RCX),
        _ => panic!("the base of a memory operand is only read"),
    }
    assert_eq!(
        i,
        Instruction(Opcode::ADD(v0, Operand::mem_base_displ(Width::_64, Register::Physical(PhysicalRegister::RCX), 8)))
    );
    match i.get_use_defs_mut(0) {
        UseDefMut::Use(r) => *r = Register::Physical(PhysicalRegister::RDX),
        _ => panic!("the source of an add is only read"),
    }
    assert_eq!(
        i,
        Instruction(Opcode::ADD(
            Operand::preg(Width::_64, PhysicalRegister::RDX),
            Operand::mem_base_displ(Width::_64, Register::Physical(PhysicalRegister::RCX), 8)
        ))
    );
}

#[test]
fn remainder_is_taken_from_rdx() {
    let mut em = emitter(false);
    let a = read_register(0x10, Type::Unsigned(64));
    let b = read_register(0x18, Type::Unsigned(64));
    let m = brig::fold::binary_operation(BinaryOperationKind::Modulo(a, b));
    let dst = em.to_operand(&m).unwrap();
    let instrs = current_instructions(&em);
    assert_eq!(
        *instrs.last().unwrap(),
        Instruction(Opcode::MOV(Operand::preg(Width::_64, PhysicalRegister::RDX), dst))
    );
}

#[test]
fn block_listing_has_a_line_per_instruction() {
    let mut em = emitter(false);
    em.leave().unwrap();
    let listing = em.ctx().arena()[em.get_current_block().0].listing();
    assert_eq!(listing.lines().count(), 3);
    assert!(listing.ends_with("\tret\n"));
    assert!(listing.starts_with('\t'));
}

#[test]
fn lowering_a_register_read_twice_reuses_the_operand() {
    let mut em = emitter(false);
    let a = read_register(0x10, Type::Unsigned(64));
    let first = em.to_operand_inner_at(&a, 10).unwrap();
    assert_eq!(first, Operand::vreg(Width::_64, 0));
    assert_eq!(current_instructions(&em), vec![Instruction(Opcode::MOV(rbp(Width::_64, 0x10), first))]);
    let second = em.to_operand_inner_at(&a, 10).unwrap();
    assert_eq!(second, first);
    assert_eq!(current_instructions(&em).len(), 1);
}

#[test]
fn subtraction_with_narrower_left_subtracts_the_right() {
    let mut em = emitter(false);
    let a = read_register(0x10, Type::Unsigned(32));
    let b = read_register(0x18, Type::Unsigned(64));
    let diff = brig::fold::binary_operation(BinaryOperationKind::Sub(a, b));
    let dst = em.to_operand(&diff).unwrap();
    let v = |w, i| Operand::vreg(w, i);
    assert_eq!(dst, v(Width::_64, 3));
    assert_eq!(
        current_instructions(&em),
        vec![
            Instruction(Opcode::MOV(rbp(Width::_32, 0x10), v(Width::_32, 0))),
            Instruction(Opcode::MOV(rbp(Width::_64, 0x18), v(Width::_64, 1))),
            Instruction(Opcode::MOVZX(v(Width::_32, 0), v(Width::_64, 2))),
            Instruction(Opcode::MOV(v(Width::_64, 2), v(Width::_64, 3))),
            Instruction(Opcode::SUB(v(Width::_64, 1), v(Width::_64, 3))),
        ]
    );
}

#[test]
fn wide_constant_is_promoted_to_an_xmm_register() {
    let mut em = emitter(false);
    let c = constant(0x1234, Type::Unsigned(128));
    let dst = em.to_operand(&c).unwrap();
    assert_eq!(dst, Operand::vreg(Width::_128, 1));
    assert_eq!(
        current_instructions(&em),
        vec![
            Instruction(Opcode::MOV(Operand::imm(Width::_64, 0x1234), Operand::vreg(Width::_64, 0))),
            Instruction(Opcode::MOVQ(Operand::vreg(Width::_64, 0), Operand::vreg_xmm(Width::_64, 1))),
        ]
    );
}

#[test]
fn partial_insertion_at_bit_zero_stays_an_insertion() {
    let target = read_register(0x10, Type::Unsigned(16));
    let source = read_register(0x18, Type::Unsigned(16));
    let partial = brig::extract::bit_insert(
        target.dup(),
        source.dup(),
        constant(0, Type::Unsigned(64)),
        constant(12, Type::Unsigned(64)),
    );
    assert!(matches!(partial.kind(), NodeKind::BitInsert { .. }));
    let whole = brig::extract::bit_insert(target, source, constant(0, Type::Unsigned(64)), constant(16, Type::Unsigned(64)));
    assert!(matches!(whole.kind(), NodeKind::GuestRegister { offset: 0x18 }));
}

#[test]
fn complement_and_negation_of_register_reads() {
    let mut em = emitter(false);
    let a = read_register(0x10, Type::Unsigned(32));
    let c = brig::unary::unary_operation(brig::ir::UnaryOperationKind::Complement(a));
    let dst = em.to_operand(&c).unwrap();
    assert_eq!(dst, Operand::vreg(Width::_32, 0));
    assert_eq!(
        current_instructions(&em),
        vec![
            Instruction(Opcode::MOV(rbp(Width::_32, 0x10), Operand::vreg(Width::_32, 1))),
            Instruction(Opcode::MOV(Operand::vreg(Width::_32, 1), dst)),
            Instruction(Opcode::NOT(dst)),
        ]
    );
    let mut em = emitter(false);
    let b = read_register(0x18, Type::Unsigned(64));
    let n = brig::unary::unary_operation(brig::ir::UnaryOperationKind::Negate(b));
    let dst = em.to_operand(&n).unwrap();
    assert_eq!(dst, Operand::vreg(Width::_64, 0));
    assert_eq!(
        current_instructions(&em),
        vec![Instruction(Opcode::MOV(rbp(Width::_64, 0x18), dst)), Instruction(Opcode::NEG(dst))]
    );
}

#[test]
fn signed_operands_keep_their_order() {
    let v = |w, i| Operand::vreg(w, i);
    let mut em = emitter(false);
    let a = read_register(0x10, Type::Signed(32));
    let b = read_register(0x18, Type::Signed(32));
    let diff = brig::fold::binary_operation(BinaryOperationKind::Sub(a, b));
    let dst = em.to_operand(&diff).unwrap();
    assert_eq!(dst, v(Width::_32, 2));
    assert_eq!(
        current_instructions(&em),
        vec![
            Instruction(Opcode::MOV(rbp(Width::_32, 0x10), v(Width::_32, 0))),
            Instruction(Opcode::MOV(rbp(Width::_32, 0x18), v(Width::_32, 1))),
            Instruction(Opcode::MOV(v(Width::_32, 0), dst)),
            Instruction(Opcode::SUB(v(Width::_32, 1), dst)),
        ]
    );
    let mut em = emitter(false);
    let a = read_register(0x10, Type::Signed(32));
    let b = read_register(0x18, Type::Signed(64));
    let diff = brig::fold::binary_operation(BinaryOperationKind::Sub(a, b));
    let dst = em.to_operand(&diff).unwrap();
    assert_eq!(dst, v(Width::_64, 3));
    assert_eq!(
        current_instructions(&em),
        vec![
            Instruction(Opcode::MOV(rbp(Width::_32, 0x10), v(Width::_32, 0))),
            Instruction(Opcode::MOV(rbp(Width::_64, 0x18), v(Width::_64, 1))),
            Instruction(Opcode::MOVSX(v(Width::_32, 0), v(Width::_64, 2))),
            Instruction(Opcode::MOV(v(Width::_64, 2), dst)),
            Instruction(Opcode::SUB(v(Width::_64, 1), dst)),
        ]
    );
}

#[test]
fn promoting_a_large_constant_builds_it_from_halves() {
    let v = |i| Operand::vreg(Width::_64, i);
    let mut em = emitter(false);
    let c = constant(0x1_2345_6789, Type::Unsigned(64));
    let dst = em.to_operand_reg_promote(&c).unwrap();
    assert_eq!(dst, v(0));
    assert_eq!(
        current_instructions(&em),
        vec![
            Instruction(Opcode::MOV(Operand::imm(Width::_64, 0x2345_6789), v(1))),
            Instruction(Opcode::MOV(Operand::imm(Width::_64, 1), v(2))),
            Instruction(Opcode::SHL(Operand::imm(Width::_16, 32), v(2))),
            Instruction(Opcode::OR(v(1), v(2))),
            Instruction(Opcode::MOV(v(2), v(0))),
        ]
    );
}
