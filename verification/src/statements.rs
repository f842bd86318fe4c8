//! The emitter's statements: the operations that write guest state, reach
//! memory, call host functions, and end a block.
use vstd::prelude::*;
use crate::checked::{try_cast, try_unary};
use crate::context::{RegisterFileLayout, valid_ref};
use crate::flags::{contains_get_flags, flags_source};
use crate::unary::{function_ptr, read_register};
use crate::emitter::{
    EmitError, PanicReason, X86Emitter, displacement, lowered_to_register, lemma_current_valid, lemma_grows_refl, lemma_grows_trans, width_of,
};
use crate::encoder::{ARG_REGS, BlockRef, CALLER_SAVED, Instruction, MemoryScale, Opcode, Operand, OperandKind};
use crate::ir::{BinaryOperationKind, CastOperationKind, NodeKind, Type, UnaryOperationKind, X86NodeRef, mk_node};
use crate::registers::{PhysicalRegister, Register, SegmentRegister};
use crate::width::Width;

verus! {

/// Whether emitted code reports register writes and memory accesses to the
/// tracing callbacks.
pub const EMIT_TRACING: bool = false;

/// Where, in the guest execution context that `fs` points at, the flag
/// that an interrupt is pending lives.
pub const INTERRUPT_PENDING_OFFSET: i32 = 8;

/// Where, in the guest execution context that `fs` points at, the flag
/// that memory is being accessed as unprivileged lives.
pub const UNPRIVILEGED_ACCESS_OFFSET: i32 = 16;

/// How a translated block finished, as the bits the block leaves in `eax`
/// next to the pending-interrupt bit.
#[derive(Debug, Clone, Copy, PartialEq, Eq, Structural)]
pub struct ExecutionResult {
    need_tlb_invalidate: bool,
}

impl ExecutionResult {
    /// Whether the TLB must be invalidated before running on.
    pub closed spec fn spec_need_tlb_invalidate(self) -> bool {
        self.need_tlb_invalidate
    }

    /// The bits of the result.
    pub closed spec fn spec_as_u32(self) -> u32 {
        if self.need_tlb_invalidate {
            1
        } else {
            0
        }
    }

    /// A result asking for nothing.
    pub fn new() -> (r: ExecutionResult)
        ensures
            !r.spec_need_tlb_invalidate(),
    {
        ExecutionResult { need_tlb_invalidate: false }
    }

    /// Sets whether the TLB must be invalidated.
    pub fn set_need_tlb_invalidate(&mut self, value: bool)
        ensures
            final(self).spec_need_tlb_invalidate() == value,
    {
        self.need_tlb_invalidate = value;
    }

    /// Whether the TLB must be invalidated.
    pub fn need_tlb_invalidate(&self) -> (r: bool)
        ensures
            r == self.spec_need_tlb_invalidate(),
    {
        self.need_tlb_invalidate
    }

    /// The bits of the result: bit 0 asks for the TLB to be invalidated.
    pub fn as_u32(&self) -> (r: u32)
        ensures
            r == self.spec_as_u32(),
    {
        if self.need_tlb_invalidate {
            1
        } else {
            0
        }
    }
}

/// The instruction `DEAD`, a placeholder that register allocation fills
/// with the saves and restores of caller-saved registers.
pub open spec fn dead() -> Instruction {
    Instruction(Opcode::DEAD)
}

/// One placeholder for each caller-saved register.
pub open spec fn dead_slots() -> Seq<Instruction> {
    Seq::new(CALLER_SAVED@.len(), |i: int| dead())
}

/// The moves of the first arguments (at most six) into the argument
/// registers.
pub open spec fn argument_moves(arguments: Seq<Operand>) -> Seq<Instruction> {
    Seq::new(
        if arguments.len() < 6 { arguments.len() } else { 6 },
        |i: int| Instruction(Opcode::MOV(arguments[i], Operand::spec_preg(Width::_64, ARG_REGS@[i]))),
    )
}

/// The instructions of a call of `function` through `function_reg`.
pub open spec fn call_sequence(
    function: Operand,
    function_reg: Operand,
    arguments: Seq<Operand>,
    has_return_value: bool,
) -> Seq<Instruction> {
    seq![Instruction(Opcode::MOV(function, function_reg))] + argument_moves(arguments) + dead_slots() + seq![
        Instruction(
            Opcode::CALL {
                function: function_reg,
                nr_input_args: arguments.len() as usize,
                nr_output_args: if has_return_value { 1 } else { 0 },
            },
        ),
    ] + dead_slots()
}

/// Whether the moves of a call can be built: the function into its
/// register and each of the first six arguments into its argument
/// register.
pub open spec fn call_moves_ok(function: Operand, function_reg: Operand, arguments: Seq<Operand>) -> bool {
    &&& crate::encoder::mov_spec(function, function_reg) is Ok
    &&& forall|i: int| 0 <= i < argument_moves(arguments).len() ==> (#[trigger] crate::encoder::mov_spec(
        arguments[i],
        Operand::spec_preg(Width::_64, ARG_REGS@[i]),
    )) is Ok
}

impl X86Emitter {
    /// Appends the placeholders for the caller-saved registers.
    fn emit_dead_slots(&mut self)
        requires
            old(self).wf(),
        ensures
            Self::grows(old(self), final(self)),
            final(self).instrs() == old(self).instrs() + dead_slots(),
            final(self).vregs() == old(self).vregs(),
            final(self).cache() == old(self).cache(),
    {
        broadcast use lemma_grows_trans;
        proof {
            lemma_grows_refl(&*self);
        }
        let mut i: usize = 0;
        while i < CALLER_SAVED.len()
            invariant
                i <= CALLER_SAVED@.len(),
                self.wf(),
                Self::grows(old(self), self),
                self.instrs() == old(self).instrs() + Seq::new(i as nat, |k: int| dead()),
                self.vregs() == old(self).vregs(),
                self.cache() == old(self).cache(),
            decreases CALLER_SAVED@.len() - i,
        {
            let ghost before = *self;
            self.emit(Instruction(Opcode::DEAD));
            proof {
                lemma_grows_trans(&*old(self), &before, &*self);
                assert(Seq::new((i + 1) as nat, |k: int| dead()) =~= Seq::new(i as nat, |k: int| dead()).push(dead()));
            }
            i = i + 1;
        }
        proof {
            assert(Seq::new(i as nat, |k: int| dead()) =~= dead_slots());
        }
    }

    /// Calls `function` with `arguments`: the function's address goes into
    /// a fresh register, the first six arguments into the argument
    /// registers, and the call is surrounded by one placeholder for each
    /// caller-saved register (see [`call_sequence`]).
    pub fn emit_call(&mut self, function: Operand, arguments: Vec<Operand>, has_return_value: bool) -> (r: Result<
        (),
        EmitError,
    >)
        requires
            old(self).wf(),
        ensures
            Self::grows(old(self), final(self)),
            final(self).cache() == old(self).cache(),
            r is Ok ==> final(self).instrs() == old(self).instrs() + call_sequence(
                function,
                Operand::spec_vreg(Width::_64, old(self).vregs() as usize),
                arguments@,
                has_return_value,
            ),
            r is Ok <==> old(self).vregs() < usize::MAX && call_moves_ok(
                function,
                Operand::spec_vreg(Width::_64, old(self).vregs() as usize),
                arguments@,
            ),
            r is Ok ==> final(self).vregs() == old(self).vregs() + 1,
    {
        broadcast use lemma_grows_trans;
        proof {
            lemma_grows_refl(&*self);
        }
        let function_reg = match self.fresh(Width::_64) {
            Ok(o) => o,
            Err(e) => return Err(e),
        };
        match self.emit_mov(function, function_reg) {
            Ok(()) => {},
            Err(e) => return Err(e),
        }
        let ghost start = *self;
        proof {
            lemma_grows_refl(&start);
        }
        let arg_count = arguments.len();
        let bound: usize = if arg_count < 6 { arg_count } else { 6 };
        let mut i: usize = 0;
        while i < bound
            invariant
                bound == (if arguments@.len() < 6 { arguments@.len() } else { 6 }),
                i <= bound,
                self.wf(),
                Self::grows(old(self), self),
                Self::grows(&start, self),
                self.instrs() == start.instrs() + argument_moves(arguments@).take(i as int),
                self.cache() == old(self).cache(),
                self.vregs() == old(self).vregs() + 1,
                old(self).vregs() < usize::MAX,
                function_reg == Operand::spec_vreg(Width::_64, old(self).vregs() as usize),
                crate::encoder::mov_spec(function, function_reg) is Ok,
                forall|j: int| 0 <= j < i ==> (#[trigger] crate::encoder::mov_spec(
                    arguments@[j],
                    Operand::spec_preg(Width::_64, ARG_REGS@[j]),
                )) is Ok,
            decreases bound - i,
        {
            let ghost before = *self;
            let dst = Operand::preg(Width::_64, ARG_REGS[i]);
            let moved = self.emit_mov(arguments[i], dst);
            proof {
                lemma_grows_trans(&*old(self), &before, &*self);
                lemma_grows_trans(&start, &before, &*self);
            }
            match moved {
                Ok(()) => {},
                Err(e) => {
                    proof {
                        assert(!(crate::encoder::mov_spec(arguments@[i as int], Operand::spec_preg(Width::_64, ARG_REGS@[i as int]))
                            is Ok));
                    }
                    return Err(e);
                },
            }
            proof {
                assert(argument_moves(arguments@).take(i + 1) =~= argument_moves(arguments@).take(i as int).push(
                    Instruction(Opcode::MOV(arguments@[i as int], dst)),
                ));
            }
            i = i + 1;
        }
        proof {
            assert(argument_moves(arguments@).take(i as int) =~= argument_moves(arguments@));
        }
        self.emit_dead_slots();
        let nr_output_args: usize = if has_return_value { 1 } else { 0 };
        self.emit(Instruction::call(function_reg, arg_count, nr_output_args));
        self.emit_dead_slots();
        proof {
            assert(self.instrs() =~= old(self).instrs() + call_sequence(
                function,
                function_reg,
                arguments@,
                has_return_value,
            ));
        }
        Ok(())
    }

    /// Reports the start of a guest instruction to the tracing callback.
    pub fn emit_trace_instruction_start(&mut self, opcode: u32, pc: u64) -> (r: Result<(), EmitError>)
        requires
            old(self).wf(),
        ensures
            Self::grows(old(self), final(self)),
            r is Ok ==> final(self).instrs() == old(self).instrs() + call_sequence(
                Operand { kind: OperandKind::Immediate(old(self).context().spec_callbacks().trace_instruction_start), width_in_bits: Width::_64 },
                Operand::spec_vreg(Width::_64, old(self).vregs() as usize),
                seq![
                    Operand { kind: OperandKind::Immediate(opcode as u64), width_in_bits: Width::_64 },
                    Operand { kind: OperandKind::Immediate(pc), width_in_bits: Width::_64 },
                ],
                false,
            ),
            r is Ok <==> old(self).vregs() < usize::MAX,
            r is Ok ==> final(self).vregs() == old(self).vregs() + 1,
    {
        let function = Operand::imm(Width::_64, self.ctx().callbacks().trace_instruction_start);
        let mut arguments: Vec<Operand> = Vec::new();
        arguments.push(Operand::imm(Width::_64, opcode as u64));
        arguments.push(Operand::imm(Width::_64, pc));
        proof {
            assert(arguments@ =~= seq![
                Operand { kind: OperandKind::Immediate(opcode as u64), width_in_bits: Width::_64 },
                Operand { kind: OperandKind::Immediate(pc), width_in_bits: Width::_64 },
            ]);
        }
        self.emit_call(function, arguments, false)
    }

    /// Reports the end of a guest instruction to the tracing callback.
    pub fn emit_trace_instruction_end(&mut self) -> (r: Result<(), EmitError>)
        requires
            old(self).wf(),
        ensures
            Self::grows(old(self), final(self)),
            r is Ok ==> final(self).instrs() == old(self).instrs() + call_sequence(
                Operand { kind: OperandKind::Immediate(old(self).context().spec_callbacks().trace_instruction_end), width_in_bits: Width::_64 },
                Operand::spec_vreg(Width::_64, old(self).vregs() as usize),
                seq![],
                false,
            ),
            r is Ok <==> old(self).vregs() < usize::MAX,
            r is Ok ==> final(self).vregs() == old(self).vregs() + 1,
    {
        let function = Operand::imm(Width::_64, self.ctx().callbacks().trace_instruction_end);
        let arguments: Vec<Operand> = Vec::new();
        proof {
            assert(arguments@ =~= Seq::<Operand>::empty());
        }
        self.emit_call(function, arguments, false)
    }

    /// Lowers each argument, in order.
    fn arguments_to_operands(&mut self, arguments: &Vec<X86NodeRef>) -> (r: Result<Vec<Operand>, EmitError>)
        requires
            old(self).wf(),
        ensures
            Self::grows(old(self), final(self)),
            r matches Ok(ops) ==> ops@.len() == arguments@.len(),
    {
        broadcast use lemma_grows_trans;
        proof {
            lemma_grows_refl(&*self);
        }
        let mut ops: Vec<Operand> = Vec::new();
        let mut i: usize = 0;
        while i < arguments.len()
            invariant
                i <= arguments@.len(),
                ops@.len() == i,
                self.wf(),
                Self::grows(old(self), self),
            decreases arguments@.len() - i,
        {
            let ghost before = *self;
            let lowered = self.to_operand(&arguments[i]);
            proof {
                lemma_grows_trans(&*old(self), &before, &*self);
            }
            let op = match lowered {
                Ok(o) => o,
                Err(e) => return Err(e),
            };
            ops.push(op);
            i = i + 1;
        }
        Ok(ops)
    }

    /// Calls the function `function` evaluates to with the values of
    /// `arguments`, lowering the function first and then the arguments in
    /// order; nothing is returned.
    pub fn call(&mut self, function: &X86NodeRef, arguments: &Vec<X86NodeRef>) -> (r: Result<(), EmitError>)
        requires
            old(self).wf(),
        ensures
            Self::grows(old(self), final(self)),
            r is Ok ==> exists|f: Operand, args: Seq<Operand>, v: nat|
                args.len() == arguments@.len() && #[trigger] final(self).instrs().subrange(
                    final(self).instrs().len() - call_sequence(f, Operand::spec_vreg(Width::_64, v as usize), args, false).len(),
                    final(self).instrs().len() as int,
                ) == call_sequence(f, Operand::spec_vreg(Width::_64, v as usize), args, false),
    {
        broadcast use lemma_grows_trans;
        let f = match self.to_operand(function) {
            Ok(o) => o,
            Err(e) => return Err(e),
        };
        let ops = match self.arguments_to_operands(arguments) {
            Ok(o) => o,
            Err(e) => return Err(e),
        };
        let ghost before = *self;
        let ghost args = ops@;
        let result = self.emit_call(f, ops, false);
        proof {
            if result is Ok {
                let seq = call_sequence(f, Operand::spec_vreg(Width::_64, before.vregs() as usize), args, false);
                assert(self.instrs().subrange(self.instrs().len() - seq.len(), self.instrs().len() as int) =~= seq);
            }
        }
        result
    }

    /// Calls the function `function` evaluates to with the values of
    /// `arguments` (see [`X86Emitter::call`]) and returns the node of its
    /// 64-bit result.
    pub fn call_with_return(&mut self, function: &X86NodeRef, arguments: &Vec<X86NodeRef>) -> (r: Result<
        X86NodeRef,
        EmitError,
    >)
        requires
            old(self).wf(),
        ensures
            Self::grows(old(self), final(self)),
            r matches Ok(n) ==> n.0.typ == Type::Unsigned(64) && n.0.kind == NodeKind::CallReturnValue,
            r is Ok ==> exists|f: Operand, args: Seq<Operand>, v: nat|
                args.len() == arguments@.len() && #[trigger] final(self).instrs().subrange(
                    final(self).instrs().len() - call_sequence(f, Operand::spec_vreg(Width::_64, v as usize), args, true).len(),
                    final(self).instrs().len() as int,
                ) == call_sequence(f, Operand::spec_vreg(Width::_64, v as usize), args, true),
    {
        broadcast use lemma_grows_trans;
        let f = match self.to_operand(function) {
            Ok(o) => o,
            Err(e) => return Err(e),
        };
        let ops = match self.arguments_to_operands(arguments) {
            Ok(o) => o,
            Err(e) => return Err(e),
        };
        let ghost before = *self;
        let ghost args = ops@;
        match self.emit_call(f, ops, true) {
            Ok(()) => {},
            Err(e) => return Err(e),
        }
        proof {
            let seq = call_sequence(f, Operand::spec_vreg(Width::_64, before.vregs() as usize), args, true);
            assert(self.instrs().subrange(self.instrs().len() - seq.len(), self.instrs().len() as int) =~= seq);
        }
        Ok(mk_node(Type::Unsigned(64), NodeKind::CallReturnValue))
    }
}

/// The 32-bit operand `fs:[displacement]`.
pub open spec fn fs_operand(displacement: i32) -> Operand {
    Operand {
        kind: OperandKind::Memory {
            base: None,
            index: None,
            scale: MemoryScale::S1,
            displacement,
            segment_override: Some(SegmentRegister::FS),
        },
        width_in_bits: Width::_32,
    }
}

/// The moves that mask a guest address to 40 bits, with `first` the
/// number of the first of the two fresh registers they use.
pub open spec fn mask_sequence(address: Operand, first: nat) -> Seq<Instruction> {
    seq![
        Instruction(Opcode::MOV(Operand { kind: OperandKind::Immediate(0x0000_00ff_ffff_ffff), width_in_bits: Width::_64 }, Operand::spec_vreg(Width::_64, first as usize))),
        Instruction(Opcode::MOV(address, Operand::spec_vreg(Width::_64, (first + 1) as usize))),
        Instruction(Opcode::AND(Operand::spec_vreg(Width::_64, first as usize), Operand::spec_vreg(Width::_64, (first + 1) as usize))),
    ]
}

impl X86Emitter {
    /// The operand holding a guest address as host code uses it: where the
    /// context masks memory, a fresh register holding the address with all
    /// but its low 40 bits cleared; otherwise the address itself.
    fn prepare_memory_address(&mut self, address: Operand) -> (r: Result<Operand, EmitError>)
        requires
            old(self).wf(),
        ensures
            Self::grows(old(self), final(self)),
            final(self).cache() == old(self).cache(),
            !old(self).context().spec_memory_mask() ==> r == Ok::<Operand, EmitError>(address) && final(self).instrs()
                == old(self).instrs(),
            old(self).context().spec_memory_mask() && r is Ok ==> r == Ok::<Operand, EmitError>(
                Operand::spec_vreg(Width::_64, (old(self).vregs() + 1) as usize),
            ) && final(self).instrs() == old(self).instrs() + mask_sequence(address, old(self).vregs()),
            old(self).context().spec_memory_mask() && old(self).vregs() + 2 <= usize::MAX && crate::encoder::mov_spec(
                address,
                Operand::spec_vreg(Width::_64, (old(self).vregs() + 1) as usize),
            ) is Ok ==> r is Ok,
            r is Ok ==> final(self).vregs() == old(self).vregs() + if old(self).context().spec_memory_mask() {
                2nat
            } else {
                0nat
            },
    {
        broadcast use lemma_grows_trans;
        proof {
            lemma_grows_refl(&*self);
        }
        if !self.ctx().memory_mask() {
            return Ok(address);
        }
        let mask = match self.fresh(Width::_64) {
            Ok(o) => o,
            Err(e) => return Err(e),
        };
        match self.emit_mov(Operand::imm(Width::_64, 0x0000_00ff_ffff_ffff), mask) {
            Ok(()) => {},
            Err(e) => return Err(e),
        }
        let masked = match self.fresh(Width::_64) {
            Ok(o) => o,
            Err(e) => return Err(e),
        };
        match self.emit_mov(address, masked) {
            Ok(()) => {},
            Err(e) => return Err(e),
        }
        self.emit(Instruction::and(mask, masked));
        proof {
            assert(self.instrs() =~= old(self).instrs() + mask_sequence(address, old(self).vregs()));
        }
        Ok(masked)
    }

    /// `value` as a 64-bit operand for a tracing callback, zero-extended
    /// into a fresh register where it is narrower.
    fn widen_for_trace(&mut self, value: Operand) -> (r: Result<Operand, EmitError>)
        requires
            old(self).wf(),
        ensures
            Self::grows(old(self), final(self)),
    {
        broadcast use lemma_grows_trans;
        proof {
            lemma_grows_refl(&*self);
        }
        if value.width().narrower_than(&Width::_64) {
            let op = match self.fresh(Width::_64) {
                Ok(o) => o,
                Err(e) => return Err(e),
            };
            match self.emit_movzx(value, op) {
                Ok(()) => {},
                Err(e) => return Err(e),
            }
            Ok(op)
        } else {
            Ok(value)
        }
    }

    /// Reports a memory access of `width` at `address` to `callback`.
    fn trace_access(&mut self, callback: u64, address: Operand, value: Operand, width: Width) -> (r: Result<
        (),
        EmitError,
    >)
        requires
            old(self).wf(),
        ensures
            Self::grows(old(self), final(self)),
    {
        broadcast use lemma_grows_trans;
        proof {
            lemma_grows_refl(&*self);
        }
        let value = match self.widen_for_trace(value) {
            Ok(o) => o,
            Err(e) => return Err(e),
        };
        let mut arguments: Vec<Operand> = Vec::new();
        arguments.push(address);
        arguments.push(value);
        arguments.push(Operand::imm(Width::_64, width.as_u16() as u64));
        self.emit_call(Operand::imm(Width::_64, callback), arguments, false)
    }

    /// Loads a value of type `typ` from the guest address `address`
    /// evaluates to (masked, see [`X86Emitter::prepare_memory_address`])
    /// into a fresh register, and returns the node of that register.
    pub fn read_memory(&mut self, address: &X86NodeRef, typ: Type) -> (r: Result<X86NodeRef, EmitError>)
        requires
            old(self).wf(),
        ensures
            Self::grows(old(self), final(self)),
            typ.spec_width() == 0 ==> r is Err,
            r matches Ok(n) ==> n.0.typ == typ && exists|base: Register, dest: Operand|
                n.0.kind == NodeKind::Operand(dest) && dest.width_in_bits == Width::canonical(typ.spec_width() as u64)
                    && #[trigger] final(self).instrs().last() == Instruction(
                    Opcode::MOV(Operand::spec_mem_base_displ(dest.width_in_bits, base, 0), dest),
                ),
            1 <= typ.spec_width() <= 64 && lowered_to_register(old(self), *address, Width::_64) && old(self).vregs() + 3
                <= usize::MAX ==> r is Ok,
    {
        broadcast use lemma_grows_trans;
        proof {
            lemma_grows_refl(&*self);
        }
        let width = match width_of(typ) {
            Ok(w) => w,
            Err(e) => return Err(e),
        };
        let address = match self.to_operand(address) {
            Ok(o) => o,
            Err(e) => return Err(e),
        };
        let dest = match self.fresh(width) {
            Ok(o) => o,
            Err(e) => return Err(e),
        };
        let masked = match self.prepare_memory_address(address) {
            Ok(o) => o,
            Err(e) => return Err(e),
        };
        let base = match masked.kind {
            OperandKind::Register(reg) => reg,
            _ => return Err(EmitError::Unsupported),
        };
        let source = Operand::mem_base_displ(width, base, 0);
        match self.emit_mov(source, dest) {
            Ok(()) => {},
            Err(e) => return Err(e),
        }
        if EMIT_TRACING {
            let callback = self.ctx().callbacks().trace_memory_read;
            match self.trace_access(callback, address, dest, width) {
                Ok(()) => {},
                Err(e) => return Err(e),
            }
        }
        proof {
            assert(self.instrs().last() == Instruction(Opcode::MOV(source, dest)));
        }
        Ok(mk_node(typ, NodeKind::Operand(dest)))
    }

    /// Stores the value of `value` at the guest address `address` evaluates
    /// to (masked, see [`X86Emitter::prepare_memory_address`]); an
    /// unprivileged store is bracketed by setting and clearing the
    /// unprivileged-access flag of the guest execution context.
    pub fn write_memory(&mut self, address: &X86NodeRef, value: &X86NodeRef, is_unprivileged: bool) -> (r: Result<
        (),
        EmitError,
    >)
        requires
            old(self).wf(),
        ensures
            Self::grows(old(self), final(self)),
            r is Ok && is_unprivileged ==> final(self).instrs().last() == Instruction(
                Opcode::MOV(Operand { kind: OperandKind::Immediate(0), width_in_bits: Width::_32 }, fs_operand(UNPRIVILEGED_ACCESS_OFFSET)),
            ),
            r is Ok && !is_unprivileged ==> exists|base: Register, v: Operand|
                #[trigger] final(self).instrs().last() == Instruction(
                    Opcode::MOV(v, Operand::spec_mem_base_displ(v.width_in_bits, base, 0)),
                ),
            lowered_to_register(old(self), *address, Width::_64) && (exists|w: Width| lowered_to_register(
                old(self),
                *value,
                w,
            )) && old(self).vregs() + 2 <= usize::MAX ==> r is Ok,
    {
        broadcast use lemma_grows_trans;
        proof {
            lemma_grows_refl(&*self);
        }
        let address = match self.to_operand(address) {
            Ok(o) => o,
            Err(e) => return Err(e),
        };
        let value = match self.to_operand(value) {
            Ok(o) => o,
            Err(e) => return Err(e),
        };
        let width = value.width();
        let masked = match self.prepare_memory_address(address) {
            Ok(o) => o,
            Err(e) => return Err(e),
        };
        if is_unprivileged {
            match self.emit_mov(Operand::imm(Width::_32, 1), Operand::mem_seg_displ(32, SegmentRegister::FS, UNPRIVILEGED_ACCESS_OFFSET)) {
                Ok(()) => {},
                Err(e) => return Err(e),
            }
        }
        let base = match masked.kind {
            OperandKind::Register(reg) => reg,
            _ => return Err(EmitError::Unsupported),
        };
        let target = Operand::mem_base_displ(width, base, 0);
        match self.emit_mov(value, target) {
            Ok(()) => {},
            Err(e) => return Err(e),
        }
        if EMIT_TRACING {
            let callback = self.ctx().callbacks().trace_memory_write;
            match self.trace_access(callback, address, value, width) {
                Ok(()) => {},
                Err(e) => return Err(e),
            }
        }
        if is_unprivileged {
            match self.emit_mov(Operand::imm(Width::_32, 0), Operand::mem_seg_displ(32, SegmentRegister::FS, UNPRIVILEGED_ACCESS_OFFSET)) {
                Ok(()) => {},
                Err(e) => return Err(e),
            }
        }
        proof {
            if !is_unprivileged {
                assert(self.instrs().last() == Instruction(Opcode::MOV(value, target)));
            }
        }
        Ok(())
    }

    /// Atomically compares the value at the guest address `address`
    /// evaluates to with `compare_operand` and, where they are equal,
    /// stores `operand` there (`lock cmpxchg`); returns the node of a fresh
    /// register holding the value found at the address.
    pub fn compare_exchange(
        &mut self,
        address: &X86NodeRef,
        compare_operand: &X86NodeRef,
        operand: &X86NodeRef,
    ) -> (r: Result<X86NodeRef, EmitError>)
        requires
            old(self).wf(),
        ensures
            Self::grows(old(self), final(self)),
            r matches Ok(n) ==> n.0.typ == operand.0.typ && exists|dest: Operand|
                n.0.kind == NodeKind::Operand(dest) && #[trigger] final(self).instrs().last() == Instruction(
                    Opcode::MOV(Operand::spec_preg(dest.width_in_bits, PhysicalRegister::RAX), dest),
                ),
            !(address.0.kind is Constant || address.0.kind is FunctionPointer) && lowered_to_register(
                old(self),
                *address,
                Width::_64,
            ) && (exists|w: Width| lowered_to_register(old(self), *compare_operand, w) && lowered_to_register(
                old(self),
                *operand,
                w,
            )) && old(self).vregs() + 3 <= usize::MAX ==> r is Ok,
    {
        broadcast use lemma_grows_trans;
        proof {
            lemma_grows_refl(&*self);
        }
        let typ = operand.typ();
        let compare = match self.to_operand(compare_operand) {
            Ok(o) => o,
            Err(e) => return Err(e),
        };
        let new_value = match self.to_operand(operand) {
            Ok(o) => o,
            Err(e) => return Err(e),
        };
        let width = compare.width();
        let address = match self.to_operand_reg_promote(address) {
            Ok(o) => o,
            Err(e) => return Err(e),
        };
        let masked = match self.prepare_memory_address(address) {
            Ok(o) => o,
            Err(e) => return Err(e),
        };
        let base = match masked.kind {
            OperandKind::Register(reg) => reg,
            _ => return Err(EmitError::Unsupported),
        };
        let target = Operand::mem_base_displ(width, base, 0);
        if width == Width::_128 {
            return Err(EmitError::WidthMismatch);
        }
        let rax = Operand::preg(width, PhysicalRegister::RAX);
        match self.emit_mov(compare, rax) {
            Ok(()) => {},
            Err(e) => return Err(e),
        }
        self.emit(Instruction::cmpxchg(new_value, target));
        let dest = match self.fresh(width) {
            Ok(o) => o,
            Err(e) => return Err(e),
        };
        match self.emit_mov(rax, dest) {
            Ok(()) => {},
            Err(e) => return Err(e),
        }
        proof {
            assert(self.instrs().last() == Instruction(Opcode::MOV(rax, dest)));
        }
        Ok(mk_node(typ, NodeKind::Operand(dest)))
    }

    /// Stores the value of `value` in the translation's variable `id`.
    pub fn write_stack_variable(&mut self, id: usize, value: &X86NodeRef) -> (r: Result<(), EmitError>)
        requires
            old(self).wf(),
        ensures
            Self::grows(old(self), final(self)),
            r is Ok ==> exists|v: Operand|
                #[trigger] final(self).instrs().last() == Instruction(
                    Opcode::MOV(v, Operand { kind: OperandKind::Register(Register::Global(id)), width_in_bits: v.width_in_bits }),
                ),
    {
        broadcast use lemma_grows_trans;
        proof {
            lemma_grows_refl(&*self);
        }
        let value = match self.to_operand(value) {
            Ok(o) => o,
            Err(e) => return Err(e),
        };
        let slot = Operand::greg(value.width(), id);
        match self.emit_mov(value, slot) {
            Ok(()) => {},
            Err(e) => return Err(e),
        }
        proof {
            assert(self.instrs().last() == Instruction(Opcode::MOV(value, slot)));
        }
        Ok(())
    }
}

/// A jump to a block if the zero flag is clear.
pub open spec fn jne_to(block: BlockRef) -> Instruction {
    Instruction(Opcode::JNE(Operand { kind: OperandKind::Target(block), width_in_bits: Width::_64 }))
}

/// A jump to a block.
pub open spec fn jmp_to(block: BlockRef) -> Instruction {
    Instruction(Opcode::JMP(Operand { kind: OperandKind::Target(block), width_in_bits: Width::_64 }))
}

/// Whether `new` is `old` with the current block grown and then ended by
/// a jump to `taken` if the zero flag is clear and a jump to `other`
/// otherwise, the two being the block's successors in that order.
pub open spec fn ends_with_branch(old: &X86Emitter, new: &X86Emitter, taken: BlockRef, other: BlockRef) -> bool {
    &&& new.wf()
    &&& new.current() == old.current()
    &&& new.context().blocks().len() == old.context().blocks().len()
    &&& forall|b: int|
        0 <= b < new.context().blocks().len() && b != old.current().0 ==> #[trigger] new.context().blocks()[b]
            == old.context().blocks()[b]
    &&& new.instrs().len() >= old.instrs().len() + 2
    &&& new.instrs().take(old.instrs().len() as int) == old.instrs()
    &&& new.instrs()[new.instrs().len() - 2] == jne_to(taken)
    &&& new.instrs()[new.instrs().len() - 1] == jmp_to(other)
    &&& new.context().blocks()[new.current().0 as int].nexts() == old.context().blocks()[old.current().0 as int].nexts().push(
        taken,
    ).push(other)
    &&& new.vregs() >= old.vregs()
    &&& new.tlb_invalidate() == old.tlb_invalidate()
}

/// Whether the node compares two values for equality.
pub open spec fn is_compare_equal(n: X86NodeRef) -> bool {
    n.0.kind matches NodeKind::BinaryOperation(BinaryOperationKind::CompareEqual(..))
}

/// The bits the execution result of an emitter leaves in `eax`.
pub open spec fn result_bits(tlb_invalidate: bool) -> u32 {
    if tlb_invalidate {
        1
    } else {
        0
    }
}

/// The instructions that put the pending-interrupt flag in bit 2 of `eax`
/// and the execution result's bits below it.
pub open spec fn leave_prefix(bits: u32) -> Seq<Instruction> {
    seq![
        Instruction(Opcode::MOV(fs_operand(INTERRUPT_PENDING_OFFSET), Operand::spec_preg(Width::_32, PhysicalRegister::RAX))),
        Instruction(Opcode::SHL(Operand { kind: OperandKind::Immediate(2), width_in_bits: Width::_32 }, Operand::spec_preg(Width::_32, PhysicalRegister::RAX))),
    ] + if bits != 0 {
        seq![
            Instruction(Opcode::OR(Operand { kind: OperandKind::Immediate(bits as u64), width_in_bits: Width::_32 }, Operand::spec_preg(Width::_32, PhysicalRegister::RAX))),
        ]
    } else {
        seq![]
    }
}

proof fn lemma_branch_after_growth(a: &X86Emitter, b: &X86Emitter, c: &X86Emitter, taken: BlockRef, other: BlockRef)
    requires
        X86Emitter::grows(a, b),
        ends_with_branch(b, c, taken, other),
    ensures
        ends_with_branch(a, c, taken, other),
{
    assert(c.instrs().take(a.instrs().len() as int) =~= c.instrs().take(b.instrs().len() as int).take(
        a.instrs().len() as int,
    ));
    assert forall|x: int|
        0 <= x < c.context().blocks().len() && x != a.current().0 implies #[trigger] c.context().blocks()[x]
        == a.context().blocks()[x] by {
        assert(b.context().blocks()[x] == a.context().blocks()[x]);
    }
}

impl X86Emitter {
    /// The result the translation leaves with.
    pub fn execution_result(&self) -> (r: ExecutionResult)
        ensures
            r.spec_as_u32() == result_bits(self.tlb_invalidate()),
            r.spec_need_tlb_invalidate() == self.tlb_invalidate(),
    {
        let mut result = ExecutionResult::new();
        result.set_need_tlb_invalidate(self.need_tlb_invalidate());
        result
    }

    /// Ends the current block with a conditional jump to `taken` and a
    /// jump to `other`.
    fn end_with_branch(&mut self, taken: BlockRef, other: BlockRef)
        requires
            old(self).wf(),
            valid_ref(old(self).context().blocks(), taken),
            valid_ref(old(self).context().blocks(), other),
            old(self).context().blocks()[old(self).current().0 as int].nexts().len() == 0,
        ensures
            ends_with_branch(old(self), final(self), taken, other),
            final(self).instrs() == old(self).instrs().push(jne_to(taken)).push(jmp_to(other)),
            final(self).vregs() == old(self).vregs(),
    {
        self.emit(Instruction::jne(taken));
        self.push_target(taken);
        self.push_instruction(Instruction::jmp(other));
        self.push_target(other);
        proof {
            assert(self.instrs().take(old(self).instrs().len() as int) =~= old(self).instrs());
        }
    }

    /// Sets the zero flag where `left` equals `right`: `test` where `right`
    /// is the immediate zero, `cmp` otherwise, the immediate first; two
    /// immediates are refused.
    fn emit_equality_test(&mut self, left: Operand, right: Operand) -> (r: Result<(), EmitError>)
        requires
            old(self).wf(),
        ensures
            Self::grows(old(self), final(self)),
    {
        proof {
            lemma_grows_refl(&*self);
        }
        match (left.kind, right.kind) {
            (OperandKind::Immediate(_), OperandKind::Immediate(_)) => Err(EmitError::Unsupported),
            (_, OperandKind::Immediate(0)) => self.emit_test(left, left),
            (_, OperandKind::Immediate(_)) => {
                self.emit(Instruction::cmp(right, left));
                Ok(())
            },
            _ => {
                self.emit(Instruction::cmp(left, right));
                Ok(())
            },
        }
    }

    /// Ends the current block with a branch on `condition`: to `true_target`
    /// where it is not zero and to `false_target` where it is. An equality
    /// comparison is tested with `cmp` (or `test` against zero) and jumps to
    /// `false_target` on inequality; a constant condition is refused.
    pub fn branch(&mut self, condition: &X86NodeRef, true_target: BlockRef, false_target: BlockRef) -> (r: Result<
        (),
        EmitError,
    >)
        requires
            old(self).wf(),
            valid_ref(old(self).context().blocks(), true_target),
            valid_ref(old(self).context().blocks(), false_target),
            old(self).context().blocks()[old(self).current().0 as int].nexts().len() == 0,
        ensures
            final(self).wf(),
            condition.is_const() ==> r is Err,
            (condition.0.kind matches NodeKind::GuestRegister { offset } && offset <= 0x7fff_ffff)
                && condition.0.typ.spec_width() != 0 && old(self).vregs() < usize::MAX && !old(self).is_cached(*condition)
                && !old(self).flags_set(*condition) ==> r is Ok,
            r is Ok && is_compare_equal(*condition) ==> ends_with_branch(old(self), final(self), false_target, true_target),
            r is Ok && !is_compare_equal(*condition) ==> ends_with_branch(old(self), final(self), true_target, false_target),
    {
        broadcast use lemma_grows_trans;
        proof {
            lemma_grows_refl(&*self);
        }
        match condition.kind() {
            NodeKind::Constant { .. } => Err(EmitError::Unsupported),
            NodeKind::BinaryOperation(BinaryOperationKind::CompareEqual(left, right)) => {
                let left_op = match self.to_operand(left) {
                    Ok(o) => o,
                    Err(e) => return Err(e),
                };
                let right_op = match self.to_operand(right) {
                    Ok(o) => o,
                    Err(e) => return Err(e),
                };
                match self.emit_equality_test(left_op, right_op) {
                    Ok(()) => {},
                    Err(e) => return Err(e),
                }
                let ghost mid = *self;
                self.end_with_branch(false_target, true_target);
                proof {
                    lemma_branch_after_growth(&*old(self), &mid, &*self, false_target, true_target);
                }
                Ok(())
            },
            _ => {
                let op = match self.to_operand(condition) {
                    Ok(o) => o,
                    Err(e) => return Err(e),
                };
                match self.emit_test(op, op) {
                    Ok(()) => {},
                    Err(e) => return Err(e),
                }
                let ghost mid = *self;
                self.end_with_branch(true_target, false_target);
                proof {
                    lemma_branch_after_growth(&*old(self), &mid, &*self, true_target, false_target);
                }
                Ok(())
            },
        }
    }

    /// Checks `condition` at run time: where it is zero, `meta` is put in
    /// `r15` and control goes to the panic block. A constant condition is
    /// decided now: zero raises the constant-assert interrupt, anything
    /// else emits nothing.
    pub fn guest_assert(&mut self, condition: X86NodeRef, meta: u64) -> (r: Result<(), EmitError>)
        requires
            old(self).wf(),
        ensures
            Self::grows(old(self), final(self)),
            condition.const_value() == Some(0u64) ==> r is Ok && final(self).instrs() == old(self).instrs().push(
                Instruction(Opcode::INT(Operand { kind: OperandKind::Immediate(PanicReason::ConstantAssertFailed.spec_vector()), width_in_bits: Width::_8 })),
            ),
            condition.const_value() matches Some(v) && v != 0 ==> r is Ok && final(self).instrs() == old(self).instrs(),
            r is Ok && !condition.is_const() ==> final(self).instrs().len() >= old(self).instrs().len() + 2
                && final(self).instrs().last() == jne_to(old(self).context().panic_ref())
                && final(self).instrs()[final(self).instrs().len() - 2] == Instruction(
                Opcode::MOV(
                    Operand { kind: OperandKind::Immediate(meta), width_in_bits: Width::_64 },
                    Operand::spec_preg(Width::_64, PhysicalRegister::R15),
                ),
            ),
    {
        broadcast use lemma_grows_trans;
        proof {
            lemma_grows_refl(&*self);
        }
        if let NodeKind::Constant { value, .. } = condition.kind() {
            if *value == 0 {
                self.panic(PanicReason::ConstantAssertFailed);
            }
            return Ok(());
        }
        let not_condition = match try_unary(UnaryOperationKind::Not(condition)) {
            Ok(n) => n,
            Err(e) => return Err(e),
        };
        let op = match self.to_operand(&not_condition) {
            Ok(o) => o,
            Err(e) => return Err(e),
        };
        match self.emit_test(op, op) {
            Ok(()) => {},
            Err(e) => return Err(e),
        }
        match self.emit_mov(Operand::imm(Width::_64, meta), Operand::preg(Width::_64, PhysicalRegister::R15)) {
            Ok(()) => {},
            Err(e) => return Err(e),
        }
        let panic_block = self.ctx().panic_block();
        self.emit(Instruction::jne(panic_block));
        Ok(())
    }

    /// Ends the translation: `eax` gets the pending-interrupt flag of the
    /// guest execution context in bit 2 and the execution result's bits
    /// below it, and the block returns.
    pub fn leave(&mut self) -> (r: Result<(), EmitError>)
        requires
            old(self).wf(),
        ensures
            Self::grows(old(self), final(self)),
            r is Ok,
            final(self).instrs() == old(self).instrs() + leave_prefix(result_bits(old(self).tlb_invalidate())) + seq![
                Instruction(Opcode::RET),
            ],
            final(self).vregs() == old(self).vregs(),
    {
        broadcast use lemma_grows_trans;
        proof {
            lemma_grows_refl(&*self);
        }
        match self.emit_leave_prefix() {
            Ok(()) => {},
            Err(e) => return Err(e),
        }
        self.emit(Instruction::ret());
        Ok(())
    }

    fn emit_leave_prefix(&mut self) -> (r: Result<(), EmitError>)
        requires
            old(self).wf(),
        ensures
            Self::grows(old(self), final(self)),
            final(self).cache() == old(self).cache(),
            final(self).vregs() == old(self).vregs(),
            r is Ok,
            final(self).instrs() == old(self).instrs() + leave_prefix(result_bits(old(self).tlb_invalidate())),
    {
        broadcast use lemma_grows_trans;
        proof {
            lemma_grows_refl(&*self);
        }
        let eax = Operand::preg(Width::_32, PhysicalRegister::RAX);
        let pending = Operand::mem_seg_displ(32, SegmentRegister::FS, INTERRUPT_PENDING_OFFSET);
        match self.emit_mov(pending, eax) {
            Ok(()) => {},
            Err(e) => return Err(e),
        }
        self.emit(Instruction::shl(Operand::imm(Width::_32, 2), eax));
        let bits = self.execution_result().as_u32();
        if bits != 0 {
            self.emit(Instruction::or(Operand::imm(Width::_32, bits as u64), eax));
        }
        proof {
            assert(self.instrs() =~= old(self).instrs() + leave_prefix(result_bits(old(self).tlb_invalidate())));
        }
        Ok(())
    }
}

/// The jump through the chain cache: to the address stored 8 bytes past
/// the tag of the cache entry at `base` plus `index`.
pub open spec fn chain_jump(base: Register, index: Register) -> Instruction {
    Instruction(
        Opcode::JMP(
            Operand {
                kind: OperandKind::Memory {
                    base: Some(base),
                    index: Some(index),
                    scale: MemoryScale::S1,
                    displacement: 8,
                    segment_override: None,
                },
                width_in_bits: Width::_64,
            },
        ),
    )
}

impl X86Emitter {
    /// Ends the translation, chaining to the next one where it can: as
    /// [`X86Emitter::leave`] computes `eax`; where that is zero and the
    /// chain cache at `chain_cache` holds an entry tagged with the guest's
    /// program counter (indexed by its bits 2 to 17), control jumps to the
    /// entry's translation; otherwise control goes to a new block that
    /// returns, which becomes the current block.
    pub fn leave_with_cache(&mut self, chain_cache: u64) -> (r: Result<(), EmitError>)
        requires
            old(self).wf(),
            old(self).context().blocks().len() < usize::MAX,
            old(self).context().blocks()[old(self).current().0 as int].nexts().len() < 2,
        ensures
            final(self).wf(),
            r is Ok <==> old(self).vregs() + 5 <= usize::MAX,
            r is Ok ==> {
                let left = final(self).context().blocks()[old(self).current().0 as int];
                &&& final(self).current().0 == old(self).context().blocks().len()
                &&& final(self).context().blocks().len() == old(self).context().blocks().len() + 1
                &&& final(self).instrs() == seq![Instruction(Opcode::RET)]
                &&& left.nexts() == old(self).context().blocks()[old(self).current().0 as int].nexts().push(final(self).current())
                &&& left.instrs().len() > old(self).instrs().len()
                &&& left.instrs().take(old(self).instrs().len() as int) == old(self).instrs()
                &&& exists|base: Register, index: Register| #[trigger] chain_jump(base, index) == left.instrs().last()
            },
    {
        broadcast use lemma_grows_trans;
        let ghost start = *self;
        proof {
            lemma_current_valid(&start);
        }
        let return_block = self.create_block();
        proof {
            assert(self.context().blocks()[start.current().0 as int] == self.context().blocks().take(
                start.context().blocks().len() as int,
            )[start.current().0 as int]);
            lemma_grows_refl(&*self);
        }
        let ghost created = *self;
        match self.emit_leave_prefix() {
            Ok(()) => {},
            Err(e) => return Err(e),
        }
        let eax = Operand::preg(Width::_32, PhysicalRegister::RAX);
        match self.emit_test(eax, eax) {
            Ok(()) => {},
            Err(e) => return Err(e),
        }
        self.emit(Instruction::jne(return_block));
        let ghost before_target = *self;
        self.push_target(return_block);
        let ghost targeted = *self;
        proof {
            lemma_grows_refl(&*self);
        }
        let pc_vreg = match self.fresh(Width::_64) {
            Ok(o) => o,
            Err(e) => return Err(e),
        };
        let pc_slot = Operand::mem_base_displ(
            Width::_64,
            Register::Physical(PhysicalRegister::RBP),
            self.ctx().pc_offset() as i32,
        );
        match self.emit_mov(pc_slot, pc_vreg) {
            Ok(()) => {},
            Err(e) => return Err(e),
        }
        let shifted_index = match self.fresh_index() {
            Ok(i) => i,
            Err(e) => return Err(e),
        };
        let shifted_pc = Operand::vreg(Width::_64, shifted_index);
        match self.emit_mov(pc_vreg, shifted_pc) {
            Ok(()) => {},
            Err(e) => return Err(e),
        }
        self.emit(Instruction::shr(Operand::imm(Width::_8, 2), shifted_pc));
        let masked = match self.fresh(Width::_32) {
            Ok(o) => o,
            Err(e) => return Err(e),
        };
        match self.emit_movzx(Operand::vreg(Width::_16, shifted_index), masked) {
            Ok(()) => {},
            Err(e) => return Err(e),
        }
        self.emit(Instruction::shl(Operand::imm(Width::_64, 4), masked));
        let tag = match self.fresh(Width::_64) {
            Ok(o) => o,
            Err(e) => return Err(e),
        };
        let chain_cache_reg = match self.fresh(Width::_64) {
            Ok(o) => o,
            Err(e) => return Err(e),
        };
        match self.emit_mov(Operand::imm(Width::_64, chain_cache), chain_cache_reg) {
            Ok(()) => {},
            Err(e) => return Err(e),
        }
        let base = match chain_cache_reg.as_register() {
            Some(reg) => reg,
            None => return Err(EmitError::Unsupported),
        };
        let index = match masked.as_register() {
            Some(reg) => reg,
            None => return Err(EmitError::Unsupported),
        };
        match self.emit_mov(Operand::mem_base_idx_scale(Width::_64, base, index, MemoryScale::S1), tag) {
            Ok(()) => {},
            Err(e) => return Err(e),
        }
        self.emit_compare(tag, pc_vreg);
        self.emit(Instruction::jne(return_block));
        let entry = Operand::mem_base_idx_scale_displ(Width::_64, base, index, MemoryScale::S1, 8);
        self.emit(Instruction(Opcode::JMP(entry)));
        let ghost jumped = *self;
        proof {
            assert(jumped.instrs().last() == chain_jump(base, index));
            assert(jumped.instrs().take(start.instrs().len() as int) =~= jumped.instrs().take(
                targeted.instrs().len() as int,
            ).take(start.instrs().len() as int));
            assert(targeted.instrs() == before_target.instrs());
            assert(before_target.instrs().take(start.instrs().len() as int) =~= before_target.instrs().take(
                created.instrs().len() as int,
            ).take(start.instrs().len() as int));
        }
        self.set_current_block(return_block);
        let ghost moved = *self;
        self.push_instruction(Instruction::ret());
        proof {
            assert(self.context().blocks()[start.current().0 as int] == moved.context().blocks()[start.current().0 as int]);
            assert(self.instrs() =~= seq![Instruction(Opcode::RET)]);
        }
        Ok(())
    }

    fn emit_compare(&mut self, a: Operand, b: Operand)
        requires
            old(self).wf(),
        ensures
            Self::grows(old(self), final(self)),
            final(self).instrs() == old(self).instrs().push(Instruction(Opcode::CMP(a, b))),
            final(self).vregs() == old(self).vregs(),
    {
        self.emit(Instruction::cmp(a, b));
    }
}

/// Whether `offset` is where one of the guest's condition flags lives.
pub open spec fn is_flag_offset(layout: RegisterFileLayout, offset: u64) -> bool {
    offset == layout.n || offset == layout.z || offset == layout.c || offset == layout.v
}

/// Whether `offset` is where one of the guest's translation registers
/// (`SCTLR_EL1`, `TTBR0_EL1`, `TTBR1_EL1`) lives.
pub open spec fn is_translation_offset(layout: RegisterFileLayout, offset: u64) -> bool {
    offset == layout.sctlr_el1 || offset == layout.ttbr0_el1 || offset == layout.ttbr1_el1
}

/// The instruction that stores the host flag matching the guest flag at
/// `offset` into `dest`: sign for N, zero for Z, carry for C, overflow for
/// V.
pub open spec fn flag_store(layout: RegisterFileLayout, offset: u64, dest: Operand) -> Instruction {
    if offset == layout.n {
        Instruction(Opcode::SETS(dest))
    } else if offset == layout.z {
        Instruction(Opcode::SETE(dest))
    } else if offset == layout.c {
        Instruction(Opcode::SETC(dest))
    } else {
        Instruction(Opcode::SETO(dest))
    }
}

/// The byte of the register file at `offset`.
pub open spec fn register_file_byte(offset: u64) -> Operand {
    Operand::spec_mem_base_displ(Width::_8, Register::Physical(PhysicalRegister::RBP), offset as i32)
}

/// Whether writing `value` at `offset` stores a flag of an earlier
/// operation rather than the value.
pub open spec fn writes_flag(layout: RegisterFileLayout, offset: u64, value: X86NodeRef) -> bool {
    is_flag_offset(layout, offset) && flags_source(value) matches Some(Some(_))
}

impl X86Emitter {
    /// Stores the flag at `offset` of the add-with-carry `target`, whose
    /// result is first computed (once, into a variable) so that the host
    /// flags are those it sets.
    fn write_flag(&mut self, offset: u64, layout: RegisterFileLayout, target: X86NodeRef) -> (r: Result<(), EmitError>)
        requires
            old(self).wf(),
            layout == old(self).context().offsets(),
        ensures
            Self::grows(old(self), final(self)),
            offset > 0x7fff_ffff ==> r is Err,
            !(target.0.kind is TernaryOperation) ==> r is Err,
            r is Ok ==> final(self).instrs().last() == flag_store(layout, offset, register_file_byte(offset)),
    {
        broadcast use lemma_grows_trans;
        proof {
            lemma_grows_refl(&*self);
        }
        match target.kind() {
            NodeKind::TernaryOperation(_) => {},
            _ => return Err(EmitError::Unsupported),
        }
        let operand = match self.to_operand(&target) {
            Ok(o) => o,
            Err(e) => return Err(e),
        };
        if self.flags_variable(&target).is_none() {
            let id = match self.allocate_variable() {
                Ok(id) => id,
                Err(e) => return Err(e),
            };
            match self.emit_mov(operand, Operand::greg(operand.width(), id)) {
                Ok(()) => {},
                Err(e) => return Err(e),
            }
            self.record_flags(&target, id);
        }
        let d = match displacement(offset) {
            Ok(d) => d,
            Err(e) => return Err(e),
        };
        let dest = Operand::mem_base_displ(Width::_8, Register::Physical(PhysicalRegister::RBP), d);
        let instr = if offset == layout.n {
            Instruction::sets(dest)
        } else if offset == layout.z {
            Instruction::sete(dest)
        } else if offset == layout.c {
            Instruction::setc(dest)
        } else {
            Instruction::seto(dest)
        };
        self.emit(instr);
        proof {
            assert(dest == register_file_byte(offset));
        }
        Ok(())
    }

    /// Calls the exception-level callback with the old and the new level.
    fn report_el_change(&mut self, value: &X86NodeRef) -> (r: Result<(), EmitError>)
        requires
            old(self).wf(),
        ensures
            Self::grows(old(self), final(self)),
    {
        let callbacks = self.ctx().callbacks();
        let layout = self.ctx().register_layout();
        let function = function_ptr(callbacks.el_changed_callback);
        let old_level = read_register(layout.el, Type::Unsigned(64));
        let new_level = match try_cast(value.dup(), Type::Unsigned(64), CastOperationKind::ZeroExtend) {
            Ok(n) => n,
            Err(e) => {
                proof {
                    lemma_grows_refl(&*self);
                }
                return Err(e);
            },
        };
        let mut arguments: Vec<X86NodeRef> = Vec::new();
        arguments.push(old_level);
        arguments.push(new_level);
        self.call(&function, &arguments)
    }

    /// Writes `value` to the guest register at `offset` of the register
    /// file. A write of a condition flag whose value reads the flags of an
    /// add-with-carry stores the matching host flag instead; a write of the
    /// exception level first calls the exception-level callback; a write
    /// of a translation register marks the TLB for invalidation.
    pub fn write_register(&mut self, offset: u64, value: X86NodeRef) -> (r: Result<(), EmitError>)
        requires
            old(self).wf(),
        ensures
            Self::extends(old(self), final(self)),
            offset > 0x7fff_ffff ==> r is Err,
            is_flag_offset(old(self).context().offsets(), offset) && flags_source(value) is None ==> r is Err,
            r is Ok && writes_flag(old(self).context().offsets(), offset, value) ==> final(self).instrs().last()
                == flag_store(old(self).context().offsets(), offset, register_file_byte(offset))
                && final(self).tlb_invalidate() == old(self).tlb_invalidate(),
            r is Ok && !writes_flag(old(self).context().offsets(), offset, value) ==> (exists|v: Operand|
                #[trigger] final(self).instrs().last() == Instruction(
                    Opcode::MOV(v, Operand::spec_mem_base_displ(v.width_in_bits, Register::Physical(PhysicalRegister::RBP), offset as i32)),
                )) && final(self).tlb_invalidate() == (old(self).tlb_invalidate() || is_translation_offset(
                old(self).context().offsets(),
                offset,
            )),
            offset <= 0x7fff_ffff && !is_flag_offset(old(self).context().offsets(), offset) && offset != old(
                self,
            ).context().offsets().el && (exists|w: Width| lowered_to_register(old(self), value, w)) ==> r is Ok,
    {
        broadcast use lemma_grows_trans;
        proof {
            lemma_grows_refl(&*self);
        }
        let layout = self.ctx().register_layout();
        if offset == layout.n || offset == layout.z || offset == layout.c || offset == layout.v {
            match contains_get_flags(&value) {
                Err(()) => return Err(EmitError::Unsupported),
                Ok(Some(target)) => return self.write_flag(offset, layout, target),
                Ok(None) => {},
            }
        }
        if offset == layout.el {
            match self.report_el_change(&value) {
                Ok(()) => {},
                Err(e) => return Err(e),
            }
        }
        let v = match self.to_operand(&value) {
            Ok(o) => o,
            Err(e) => return Err(e),
        };
        let d = match displacement(offset) {
            Ok(d) => d,
            Err(e) => return Err(e),
        };
        let dest = Operand::mem_base_displ(v.width(), Register::Physical(PhysicalRegister::RBP), d);
        match self.emit_mov(v, dest) {
            Ok(()) => {},
            Err(e) => return Err(e),
        }
        if EMIT_TRACING {
            let traced = match self.widen_for_trace(v) {
                Ok(o) => o,
                Err(e) => return Err(e),
            };
            let mut arguments: Vec<Operand> = Vec::new();
            arguments.push(Operand::imm(Width::_64, offset));
            arguments.push(traced);
            let callback = self.ctx().callbacks().trace_register_write;
            match self.emit_call(Operand::imm(Width::_64, callback), arguments, false) {
                Ok(()) => {},
                Err(e) => return Err(e),
            }
        }
        proof {
            assert(self.instrs().last() == Instruction(Opcode::MOV(v, dest)));
        }
        if offset == layout.sctlr_el1 || offset == layout.ttbr0_el1 || offset == layout.ttbr1_el1 {
            let ghost before = *self;
            self.set_need_tlb_invalidate();
            proof {
                lemma_grows_refl(&before);
                assert(self.instrs() == before.instrs());
            }
        }
        Ok(())
    }
}

} // verus!
