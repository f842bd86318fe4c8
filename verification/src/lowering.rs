//! Which assembler forms each instruction is encoded as.
use vstd::prelude::*;
use crate::asm_forms::{AsmOp, EncodeError, MemBase, MemRef, ScaledIndex};
use crate::encoder::{Instruction, MemoryScale, Opcode, Operand, OperandKind};
use crate::registers::{PhysicalRegister, Register, SegmentRegister};
use crate::width::Width;

verus! {

/// The number as a signed 32-bit immediate, if it is at most `i32::MAX`.
pub open spec fn spec_to_i32(v: u64) -> Option<i32> {
    if v <= 0x7fff_ffffu64 {
        Some(v as i32)
    } else {
        None
    }
}

/// The number as an unsigned 32-bit immediate, if it fits.
pub open spec fn spec_to_u32(v: u64) -> Option<u32> {
    if v <= 0xffff_ffffu64 {
        Some(v as u32)
    } else {
        None
    }
}

/// The number read as a signed 64-bit number, as a signed 32-bit immediate
/// if it fits.
pub open spec fn spec_signed_to_i32(v: u64) -> Option<i32> {
    if v <= 0x7fff_ffffu64 || v >= 0xffff_ffff_8000_0000u64 {
        Some(v as i32)
    } else {
        None
    }
}

fn to_i32(v: u64) -> (r: Option<i32>)
    ensures
        r == spec_to_i32(v),
{
    if v <= 0x7fff_ffffu64 {
        Some(v as i32)
    } else {
        None
    }
}

fn to_u32(v: u64) -> (r: Option<u32>)
    ensures
        r == spec_to_u32(v),
{
    if v <= 0xffff_ffffu64 {
        Some(v as u32)
    } else {
        None
    }
}

fn signed_to_i32(v: u64) -> (r: Option<i32>)
    ensures
        r == spec_signed_to_i32(v),
{
    if v <= 0x7fff_ffffu64 || v >= 0xffff_ffff_8000_0000u64 {
        Some(v as i32)
    } else {
        None
    }
}

/// The index part of a memory operand: only a physical index register is
/// passed on.
pub open spec fn spec_index(index: Option<Register>, scale: MemoryScale) -> Option<ScaledIndex> {
    match index {
        Some(Register::Physical(r)) => Some(ScaledIndex { register: r, scale }),
        _ => None,
    }
}

/// A memory operand addressed from a base register.
pub open spec fn spec_mem_from_base(base: PhysicalRegister, index: Option<Register>, scale: MemoryScale, displacement: i32) -> MemRef {
    MemRef { base: MemBase::Register(base), index: spec_index(index, scale), displacement }
}

/// A memory operand addressed from a segment register.
pub open spec fn spec_mem_from_segment(segment: SegmentRegister, index: Option<Register>, scale: MemoryScale, displacement: i32) -> MemRef {
    MemRef { base: MemBase::Segment(segment), index: spec_index(index, scale), displacement }
}

fn index_of(index: Option<Register>, scale: MemoryScale) -> (r: Option<ScaledIndex>)
    ensures
        r == spec_index(index, scale),
{
    match index {
        Some(Register::Physical(r)) => Some(ScaledIndex { register: r, scale }),
        _ => None,
    }
}

fn mem_from_base(base: PhysicalRegister, index: Option<Register>, scale: MemoryScale, displacement: i32) -> (r: MemRef)
    ensures
        r == spec_mem_from_base(base, index, scale, displacement),
{
    MemRef { base: MemBase::Register(base), index: index_of(index, scale), displacement }
}

fn mem_from_segment(segment: SegmentRegister, index: Option<Register>, scale: MemoryScale, displacement: i32) -> (r: MemRef)
    ensures
        r == spec_mem_from_segment(segment, index, scale, displacement),
{
    MemRef { base: MemBase::Segment(segment), index: index_of(index, scale), displacement }
}

/// One form.
pub open spec fn seq1(a: AsmOp) -> Seq<AsmOp> {
    seq![a]
}

/// Two forms, in order.
pub open spec fn seq2(a: AsmOp, b: AsmOp) -> Seq<AsmOp> {
    seq![a, b]
}

fn one(a: AsmOp) -> (r: Vec<AsmOp>)
    ensures
        r@ == seq1(a),
{
    let mut v = Vec::new();
    v.push(a);
    proof {
        assert(v@ =~= seq1(a));
    }
    v
}

fn two(a: AsmOp, b: AsmOp) -> (r: Vec<AsmOp>)
    ensures
        r@ == seq2(a, b),
{
    let mut v = Vec::new();
    v.push(a);
    v.push(b);
    proof {
        assert(v@ =~= seq2(a, b));
    }
    v
}

/// Whether an encoding result matches its statement.
pub open spec fn same_plan(r: Result<Vec<AsmOp>, EncodeError>, s: Result<Seq<AsmOp>, EncodeError>) -> bool {
    match (r, s) {
        (Ok(v), Ok(q)) => v@ == q,
        (Err(e), Err(f)) => e == f,
        _ => false,
    }
}

/// The forms an instruction built on `mov` is encoded as.
pub open spec fn lower_mov_spec(instr: Instruction, src: Operand, dst: Operand) -> Result<Seq<AsmOp>, EncodeError> {
match (src, dst) {
    (Operand { kind: OperandKind::Register(Register::Physical(s)), width_in_bits: Width::_64 }, Operand { kind: OperandKind::Register(Register::Physical(d)), width_in_bits: Width::_64 }) => if s.spec_is_xmm() { Err(EncodeError::Unsupported(instr)) } else { Ok(seq1(AsmOp::MovR64R64 { dst: d, src: s })) },
    (Operand { kind: OperandKind::Register(Register::Physical(s)), width_in_bits: Width::_128 }, Operand { kind: OperandKind::Register(Register::Physical(d)), width_in_bits: Width::_128 }) => Ok(seq1(AsmOp::Movdqa { dst: d, src: s })),
    (Operand { kind: OperandKind::Register(Register::Physical(s)), width_in_bits: Width::_8 }, Operand { kind: OperandKind::Register(Register::Physical(d)), width_in_bits: Width::_8 }) => Ok(seq1(AsmOp::MovR8R8 { dst: d, src: s })),
    (Operand { kind: OperandKind::Register(Register::Physical(s)), width_in_bits: Width::_32 }, Operand { kind: OperandKind::Register(Register::Physical(d)), width_in_bits: Width::_32 }) => if s.spec_is_xmm() { Ok(seq1(AsmOp::MovqXX { dst: d, src: s })) } else { Ok(seq1(AsmOp::MovR32R32 { dst: d, src: s })) },
    (Operand { kind: OperandKind::Register(Register::Physical(s)), width_in_bits: Width::_16 }, Operand { kind: OperandKind::Register(Register::Physical(d)), width_in_bits: Width::_16 }) => Ok(seq1(AsmOp::MovR16R16 { dst: d, src: s })),
    (Operand { kind: OperandKind::Memory { base: Some(Register::Physical(b)), index: ix, scale: sc, displacement: di, .. }, width_in_bits: Width::_64 }, Operand { kind: OperandKind::Register(Register::Physical(d)), width_in_bits: Width::_64 }) => if d.spec_is_xmm() { Err(EncodeError::Unsupported(instr)) } else { Ok(seq1(AsmOp::MovR64Mem { dst: d, mem: spec_mem_from_base(b, ix, sc, di) })) },
    (Operand { kind: OperandKind::Memory { base: Some(Register::Physical(b)), index: ix, scale: sc, displacement: di, .. }, width_in_bits: Width::_8 }, Operand { kind: OperandKind::Register(Register::Physical(d)), width_in_bits: Width::_8 }) => Ok(seq1(AsmOp::MovR8Mem { dst: d, mem: spec_mem_from_base(b, ix, sc, di) })),
    (Operand { kind: OperandKind::Memory { base: Some(Register::Physical(b)), index: ix, scale: sc, displacement: di, .. }, width_in_bits: Width::_16 }, Operand { kind: OperandKind::Register(Register::Physical(d)), width_in_bits: Width::_16 }) => Ok(seq1(AsmOp::MovR16Mem { dst: d, mem: spec_mem_from_base(b, ix, sc, di) })),
    (Operand { kind: OperandKind::Memory { base: Some(Register::Physical(b)), index: ix, scale: sc, displacement: di, .. }, width_in_bits: Width::_32 }, Operand { kind: OperandKind::Register(Register::Physical(d)), width_in_bits: Width::_32 }) => Ok(seq1(AsmOp::MovR32Mem { dst: d, mem: spec_mem_from_base(b, ix, sc, di) })),
    (Operand { kind: OperandKind::Immediate(v), width_in_bits: Width::_32 }, Operand { kind: OperandKind::Memory { base: None, index: ix, scale: sc, displacement: di, segment_override: Some(sg) }, width_in_bits: Width::_32 }) => match spec_to_i32(v) {
        Some(i) => Ok(seq1(AsmOp::MovDwordMemI32 { mem: spec_mem_from_segment(sg, ix, sc, di), imm: i })),
        None => Err(EncodeError::ImmediateOutOfRange(v)),
    },
    (Operand { kind: OperandKind::Memory { base: None, index: ix, scale: sc, displacement: di, segment_override: Some(sg) }, width_in_bits: Width::_64 }, Operand { kind: OperandKind::Register(Register::Physical(d)), width_in_bits: Width::_64 }) => Ok(seq1(AsmOp::MovR64Mem { dst: d, mem: spec_mem_from_segment(sg, ix, sc, di) })),
    (Operand { kind: OperandKind::Memory { base: None, index: ix, scale: sc, displacement: di, segment_override: Some(sg) }, width_in_bits: Width::_32 }, Operand { kind: OperandKind::Register(Register::Physical(d)), width_in_bits: Width::_32 }) => Ok(seq1(AsmOp::MovR64Mem { dst: d, mem: spec_mem_from_segment(sg, ix, sc, di) })),
    (Operand { kind: OperandKind::Register(Register::Physical(s)), width_in_bits: Width::_8 }, Operand { kind: OperandKind::Memory { base: Some(Register::Physical(b)), index: ix, scale: sc, displacement: di, .. }, width_in_bits: Width::_8 }) => Ok(seq1(AsmOp::MovMemR8 { mem: spec_mem_from_base(b, ix, sc, di), src: s })),
    (Operand { kind: OperandKind::Register(Register::Physical(s)), width_in_bits: Width::_16 }, Operand { kind: OperandKind::Memory { base: Some(Register::Physical(b)), index: ix, scale: sc, displacement: di, .. }, width_in_bits: Width::_16 }) => Ok(seq1(AsmOp::MovMemR16 { mem: spec_mem_from_base(b, ix, sc, di), src: s })),
    (Operand { kind: OperandKind::Register(Register::Physical(s)), width_in_bits: Width::_32 }, Operand { kind: OperandKind::Memory { base: Some(Register::Physical(b)), index: ix, scale: sc, displacement: di, .. }, width_in_bits: Width::_32 }) => Ok(seq1(AsmOp::MovMemR32 { mem: spec_mem_from_base(b, ix, sc, di), src: s })),
    (Operand { kind: OperandKind::Register(Register::Physical(s)), width_in_bits: Width::_64 }, Operand { kind: OperandKind::Memory { base: Some(Register::Physical(b)), index: ix, scale: sc, displacement: di, .. }, width_in_bits: Width::_64 }) => Ok(seq1(AsmOp::MovMemR64 { mem: spec_mem_from_base(b, ix, sc, di), src: s })),
    (Operand { kind: OperandKind::Immediate(v), width_in_bits: Width::_32 }, Operand { kind: OperandKind::Memory { base: Some(Register::Physical(b)), index: ix, scale: sc, displacement: di, .. }, width_in_bits: Width::_32 }) => Ok(seq1(AsmOp::MovDwordMemU32 { mem: spec_mem_from_base(b, ix, sc, di), imm: v as u32 })),
    (Operand { kind: OperandKind::Immediate(v), width_in_bits: Width::_8 }, Operand { kind: OperandKind::Memory { base: Some(Register::Physical(b)), index: ix, scale: sc, displacement: di, .. }, width_in_bits: Width::_8 }) => match spec_to_u32(v) {
        Some(i) => Ok(seq1(AsmOp::MovByteMemU32 { mem: spec_mem_from_base(b, ix, sc, di), imm: i })),
        None => Err(EncodeError::ImmediateOutOfRange(v)),
    },
    (Operand { kind: OperandKind::Immediate(v), width_in_bits: Width::_16 }, Operand { kind: OperandKind::Memory { base: Some(Register::Physical(b)), index: ix, scale: sc, displacement: di, .. }, width_in_bits: Width::_16 }) => match spec_to_u32(v) {
        Some(i) => Ok(seq1(AsmOp::MovWordMemU32 { mem: spec_mem_from_base(b, ix, sc, di), imm: i })),
        None => Err(EncodeError::ImmediateOutOfRange(v)),
    },
    (Operand { kind: OperandKind::Immediate(v), width_in_bits: Width::_64 }, Operand { kind: OperandKind::Memory { base: Some(Register::Physical(b)), index: ix, scale: sc, displacement: di, .. }, width_in_bits: Width::_64 }) => if di > 0x7fff_fffbi32 {
        Err(EncodeError::DisplacementOutOfRange(di))
    } else {
        Ok(seq2(
            AsmOp::MovDwordMemU32 { mem: spec_mem_from_base(b, ix, sc, di), imm: (v & 0xffff_ffffu64) as u32 },
            AsmOp::MovDwordMemU32 { mem: spec_mem_from_base(b, ix, sc, (di + 4) as i32), imm: ((v >> 32u64) & 0xffff_ffffu64) as u32 },
        ))
    },
    (Operand { kind: OperandKind::Immediate(v), width_in_bits: Width::_8 }, Operand { kind: OperandKind::Register(Register::Physical(d)), width_in_bits: Width::_8 }) => if v == 0 { Ok(seq1(AsmOp::XorR8R8 { dst: d, src: d })) } else {
        match spec_to_i32(v) {
            Some(i) => Ok(seq1(AsmOp::MovR8I32 { dst: d, imm: i })),
            None => Err(EncodeError::ImmediateOutOfRange(v)),
        }
    },
    (Operand { kind: OperandKind::Immediate(v), width_in_bits: Width::_16 }, Operand { kind: OperandKind::Register(Register::Physical(d)), width_in_bits: Width::_16 }) => if v == 0 { Ok(seq1(AsmOp::XorR16R16 { dst: d, src: d })) } else {
        match spec_to_i32(v) {
            Some(i) => Ok(seq1(AsmOp::MovR16I32 { dst: d, imm: i })),
            None => Err(EncodeError::ImmediateOutOfRange(v)),
        }
    },
    (Operand { kind: OperandKind::Immediate(v), width_in_bits: Width::_64 }, Operand { kind: OperandKind::Register(Register::Physical(d)), width_in_bits: Width::_64 }) => if !d.spec_is_xmm() {
        if v == 0 {
            Ok(seq1(AsmOp::XorR32R32 { dst: d, src: d }))
        } else if v < 0x7fff_ffffu64 {
            Ok(seq1(AsmOp::MovR32I32 { dst: d, imm: v as i32 }))
        } else {
            Ok(seq1(AsmOp::MovR64U64 { dst: d, imm: v }))
        }
    } else if v == 0 {
        Ok(seq1(AsmOp::Pxor { dst: d, src: d }))
    } else {
        Err(EncodeError::Unsupported(instr))
    },
    (Operand { kind: OperandKind::Immediate(v), width_in_bits: Width::_32 }, Operand { kind: OperandKind::Register(Register::Physical(d)), width_in_bits: Width::_32 }) => if !d.spec_is_xmm() {
        if v == 0 { Ok(seq1(AsmOp::XorR32R32 { dst: d, src: d })) } else { Ok(seq1(AsmOp::MovR32U32 { dst: d, imm: v as u32 })) }
    } else if v == 0 {
        Ok(seq1(AsmOp::Pxor { dst: d, src: d }))
    } else {
        Err(EncodeError::Unsupported(instr))
    },
    (Operand { kind: OperandKind::Immediate(v), width_in_bits: Width::_8 }, Operand { kind: OperandKind::Register(Register::Physical(d)), width_in_bits: Width::_32 }) => if v == 0 { Ok(seq1(AsmOp::XorR32R32 { dst: d, src: d })) } else {
        match spec_to_i32(v) {
            Some(i) => Ok(seq1(AsmOp::MovR32I32 { dst: d, imm: i })),
            None => Err(EncodeError::ImmediateOutOfRange(v)),
        }
    },
    (Operand { kind: OperandKind::Immediate(v), width_in_bits: Width::_8 }, Operand { kind: OperandKind::Register(Register::Physical(d)), width_in_bits: Width::_64 }) | (Operand { kind: OperandKind::Immediate(v), width_in_bits: Width::_32 }, Operand { kind: OperandKind::Register(Register::Physical(d)), width_in_bits: Width::_64 }) | (Operand { kind: OperandKind::Immediate(v), width_in_bits: Width::_16 }, Operand { kind: OperandKind::Register(Register::Physical(d)), width_in_bits: Width::_64 }) => match spec_to_i32(v) {
        Some(i) => Ok(seq1(AsmOp::MovR32I32 { dst: d, imm: i })),
        None => Err(EncodeError::ImmediateOutOfRange(v)),
    },
    (Operand { kind: OperandKind::Memory { base: Some(Register::Physical(b)), index: ix, scale: sc, displacement: di, .. }, width_in_bits: Width::_128 }, Operand { kind: OperandKind::Register(Register::Physical(d)), width_in_bits: Width::_128 }) => Ok(seq1(AsmOp::MovdquXMem { dst: d, mem: spec_mem_from_base(b, ix, sc, di) })),
    (Operand { kind: OperandKind::Register(Register::Physical(s)), width_in_bits: Width::_128 }, Operand { kind: OperandKind::Memory { base: Some(Register::Physical(b)), index: ix, scale: sc, displacement: di, .. }, width_in_bits: Width::_128 }) => Ok(seq1(AsmOp::MovdquMemX { mem: spec_mem_from_base(b, ix, sc, di), src: s })),
    (Operand { kind: OperandKind::Register(Register::Physical(s)), width_in_bits: Width::_128 }, Operand { kind: OperandKind::Register(Register::Physical(d)), width_in_bits: Width::_32 }) => Ok(seq1(AsmOp::MovdR32X { dst: d, src: s })),
    (Operand { kind: OperandKind::Register(Register::Physical(s)), width_in_bits: Width::_128 }, Operand { kind: OperandKind::Register(Register::Physical(d)), width_in_bits: Width::_64 }) => Ok(seq1(AsmOp::MovqXX { dst: d, src: s })),
    _ => Err(EncodeError::Unsupported(instr)),
}
}

fn lower_mov(instr: Instruction, src: Operand, dst: Operand) -> (r: Result<Vec<AsmOp>, EncodeError>)
    ensures
        same_plan(r, lower_mov_spec(instr, src, dst)),
{
match (src, dst) {
    (Operand { kind: OperandKind::Register(Register::Physical(s)), width_in_bits: Width::_64 }, Operand { kind: OperandKind::Register(Register::Physical(d)), width_in_bits: Width::_64 }) => if s.is_xmm() { Err(EncodeError::Unsupported(instr)) } else { Ok(one(AsmOp::MovR64R64 { dst: d, src: s })) },
    (Operand { kind: OperandKind::Register(Register::Physical(s)), width_in_bits: Width::_128 }, Operand { kind: OperandKind::Register(Register::Physical(d)), width_in_bits: Width::_128 }) => Ok(one(AsmOp::Movdqa { dst: d, src: s })),
    (Operand { kind: OperandKind::Register(Register::Physical(s)), width_in_bits: Width::_8 }, Operand { kind: OperandKind::Register(Register::Physical(d)), width_in_bits: Width::_8 }) => Ok(one(AsmOp::MovR8R8 { dst: d, src: s })),
    (Operand { kind: OperandKind::Register(Register::Physical(s)), width_in_bits: Width::_32 }, Operand { kind: OperandKind::Register(Register::Physical(d)), width_in_bits: Width::_32 }) => if s.is_xmm() { Ok(one(AsmOp::MovqXX { dst: d, src: s })) } else { Ok(one(AsmOp::MovR32R32 { dst: d, src: s })) },
    (Operand { kind: OperandKind::Register(Register::Physical(s)), width_in_bits: Width::_16 }, Operand { kind: OperandKind::Register(Register::Physical(d)), width_in_bits: Width::_16 }) => Ok(one(AsmOp::MovR16R16 { dst: d, src: s })),
    (Operand { kind: OperandKind::Memory { base: Some(Register::Physical(b)), index: ix, scale: sc, displacement: di, .. }, width_in_bits: Width::_64 }, Operand { kind: OperandKind::Register(Register::Physical(d)), width_in_bits: Width::_64 }) => if d.is_xmm() { Err(EncodeError::Unsupported(instr)) } else { Ok(one(AsmOp::MovR64Mem { dst: d, mem: mem_from_base(b, ix, sc, di) })) },
    (Operand { kind: OperandKind::Memory { base: Some(Register::Physical(b)), index: ix, scale: sc, displacement: di, .. }, width_in_bits: Width::_8 }, Operand { kind: OperandKind::Register(Register::Physical(d)), width_in_bits: Width::_8 }) => Ok(one(AsmOp::MovR8Mem { dst: d, mem: mem_from_base(b, ix, sc, di) })),
    (Operand { kind: OperandKind::Memory { base: Some(Register::Physical(b)), index: ix, scale: sc, displacement: di, .. }, width_in_bits: Width::_16 }, Operand { kind: OperandKind::Register(Register::Physical(d)), width_in_bits: Width::_16 }) => Ok(one(AsmOp::MovR16Mem { dst: d, mem: mem_from_base(b, ix, sc, di) })),
    (Operand { kind: OperandKind::Memory { base: Some(Register::Physical(b)), index: ix, scale: sc, displacement: di, .. }, width_in_bits: Width::_32 }, Operand { kind: OperandKind::Register(Register::Physical(d)), width_in_bits: Width::_32 }) => Ok(one(AsmOp::MovR32Mem { dst: d, mem: mem_from_base(b, ix, sc, di) })),
    (Operand { kind: OperandKind::Immediate(v), width_in_bits: Width::_32 }, Operand { kind: OperandKind::Memory { base: None, index: ix, scale: sc, displacement: di, segment_override: Some(sg) }, width_in_bits: Width::_32 }) => match to_i32(v) {
        Some(i) => Ok(one(AsmOp::MovDwordMemI32 { mem: mem_from_segment(sg, ix, sc, di), imm: i })),
        None => Err(EncodeError::ImmediateOutOfRange(v)),
    },
    (Operand { kind: OperandKind::Memory { base: None, index: ix, scale: sc, displacement: di, segment_override: Some(sg) }, width_in_bits: Width::_64 }, Operand { kind: OperandKind::Register(Register::Physical(d)), width_in_bits: Width::_64 }) => Ok(one(AsmOp::MovR64Mem { dst: d, mem: mem_from_segment(sg, ix, sc, di) })),
    (Operand { kind: OperandKind::Memory { base: None, index: ix, scale: sc, displacement: di, segment_override: Some(sg) }, width_in_bits: Width::_32 }, Operand { kind: OperandKind::Register(Register::Physical(d)), width_in_bits: Width::_32 }) => Ok(one(AsmOp::MovR64Mem { dst: d, mem: mem_from_segment(sg, ix, sc, di) })),
    (Operand { kind: OperandKind::Register(Register::Physical(s)), width_in_bits: Width::_8 }, Operand { kind: OperandKind::Memory { base: Some(Register::Physical(b)), index: ix, scale: sc, displacement: di, .. }, width_in_bits: Width::_8 }) => Ok(one(AsmOp::MovMemR8 { mem: mem_from_base(b, ix, sc, di), src: s })),
    (Operand { kind: OperandKind::Register(Register::Physical(s)), width_in_bits: Width::_16 }, Operand { kind: OperandKind::Memory { base: Some(Register::Physical(b)), index: ix, scale: sc, displacement: di, .. }, width_in_bits: Width::_16 }) => Ok(one(AsmOp::MovMemR16 { mem: mem_from_base(b, ix, sc, di), src: s })),
    (Operand { kind: OperandKind::Register(Register::Physical(s)), width_in_bits: Width::_32 }, Operand { kind: OperandKind::Memory { base: Some(Register::Physical(b)), index: ix, scale: sc, displacement: di, .. }, width_in_bits: Width::_32 }) => Ok(one(AsmOp::MovMemR32 { mem: mem_from_base(b, ix, sc, di), src: s })),
    (Operand { kind: OperandKind::Register(Register::Physical(s)), width_in_bits: Width::_64 }, Operand { kind: OperandKind::Memory { base: Some(Register::Physical(b)), index: ix, scale: sc, displacement: di, .. }, width_in_bits: Width::_64 }) => Ok(one(AsmOp::MovMemR64 { mem: mem_from_base(b, ix, sc, di), src: s })),
    (Operand { kind: OperandKind::Immediate(v), width_in_bits: Width::_32 }, Operand { kind: OperandKind::Memory { base: Some(Register::Physical(b)), index: ix, scale: sc, displacement: di, .. }, width_in_bits: Width::_32 }) => Ok(one(AsmOp::MovDwordMemU32 { mem: mem_from_base(b, ix, sc, di), imm: v as u32 })),
    (Operand { kind: OperandKind::Immediate(v), width_in_bits: Width::_8 }, Operand { kind: OperandKind::Memory { base: Some(Register::Physical(b)), index: ix, scale: sc, displacement: di, .. }, width_in_bits: Width::_8 }) => match to_u32(v) {
        Some(i) => Ok(one(AsmOp::MovByteMemU32 { mem: mem_from_base(b, ix, sc, di), imm: i })),
        None => Err(EncodeError::ImmediateOutOfRange(v)),
    },
    (Operand { kind: OperandKind::Immediate(v), width_in_bits: Width::_16 }, Operand { kind: OperandKind::Memory { base: Some(Register::Physical(b)), index: ix, scale: sc, displacement: di, .. }, width_in_bits: Width::_16 }) => match to_u32(v) {
        Some(i) => Ok(one(AsmOp::MovWordMemU32 { mem: mem_from_base(b, ix, sc, di), imm: i })),
        None => Err(EncodeError::ImmediateOutOfRange(v)),
    },
    (Operand { kind: OperandKind::Immediate(v), width_in_bits: Width::_64 }, Operand { kind: OperandKind::Memory { base: Some(Register::Physical(b)), index: ix, scale: sc, displacement: di, .. }, width_in_bits: Width::_64 }) => if di > 0x7fff_fffbi32 {
        Err(EncodeError::DisplacementOutOfRange(di))
    } else {
        Ok(two(
            AsmOp::MovDwordMemU32 { mem: mem_from_base(b, ix, sc, di), imm: (v & 0xffff_ffffu64) as u32 },
            AsmOp::MovDwordMemU32 { mem: mem_from_base(b, ix, sc, (di + 4) as i32), imm: ((v >> 32u64) & 0xffff_ffffu64) as u32 },
        ))
    },
    (Operand { kind: OperandKind::Immediate(v), width_in_bits: Width::_8 }, Operand { kind: OperandKind::Register(Register::Physical(d)), width_in_bits: Width::_8 }) => if v == 0 { Ok(one(AsmOp::XorR8R8 { dst: d, src: d })) } else {
        match to_i32(v) {
            Some(i) => Ok(one(AsmOp::MovR8I32 { dst: d, imm: i })),
            None => Err(EncodeError::ImmediateOutOfRange(v)),
        }
    },
    (Operand { kind: OperandKind::Immediate(v), width_in_bits: Width::_16 }, Operand { kind: OperandKind::Register(Register::Physical(d)), width_in_bits: Width::_16 }) => if v == 0 { Ok(one(AsmOp::XorR16R16 { dst: d, src: d })) } else {
        match to_i32(v) {
            Some(i) => Ok(one(AsmOp::MovR16I32 { dst: d, imm: i })),
            None => Err(EncodeError::ImmediateOutOfRange(v)),
        }
    },
    (Operand { kind: OperandKind::Immediate(v), width_in_bits: Width::_64 }, Operand { kind: OperandKind::Register(Register::Physical(d)), width_in_bits: Width::_64 }) => if !d.is_xmm() {
        if v == 0 {
            Ok(one(AsmOp::XorR32R32 { dst: d, src: d }))
        } else if v < 0x7fff_ffffu64 {
            Ok(one(AsmOp::MovR32I32 { dst: d, imm: v as i32 }))
        } else {
            Ok(one(AsmOp::MovR64U64 { dst: d, imm: v }))
        }
    } else if v == 0 {
        Ok(one(AsmOp::Pxor { dst: d, src: d }))
    } else {
        Err(EncodeError::Unsupported(instr))
    },
    (Operand { kind: OperandKind::Immediate(v), width_in_bits: Width::_32 }, Operand { kind: OperandKind::Register(Register::Physical(d)), width_in_bits: Width::_32 }) => if !d.is_xmm() {
        if v == 0 { Ok(one(AsmOp::XorR32R32 { dst: d, src: d })) } else { Ok(one(AsmOp::MovR32U32 { dst: d, imm: v as u32 })) }
    } else if v == 0 {
        Ok(one(AsmOp::Pxor { dst: d, src: d }))
    } else {
        Err(EncodeError::Unsupported(instr))
    },
    (Operand { kind: OperandKind::Immediate(v), width_in_bits: Width::_8 }, Operand { kind: OperandKind::Register(Register::Physical(d)), width_in_bits: Width::_32 }) => if v == 0 { Ok(one(AsmOp::XorR32R32 { dst: d, src: d })) } else {
        match to_i32(v) {
            Some(i) => Ok(one(AsmOp::MovR32I32 { dst: d, imm: i })),
            None => Err(EncodeError::ImmediateOutOfRange(v)),
        }
    },
    (Operand { kind: OperandKind::Immediate(v), width_in_bits: Width::_8 }, Operand { kind: OperandKind::Register(Register::Physical(d)), width_in_bits: Width::_64 }) | (Operand { kind: OperandKind::Immediate(v), width_in_bits: Width::_32 }, Operand { kind: OperandKind::Register(Register::Physical(d)), width_in_bits: Width::_64 }) | (Operand { kind: OperandKind::Immediate(v), width_in_bits: Width::_16 }, Operand { kind: OperandKind::Register(Register::Physical(d)), width_in_bits: Width::_64 }) => match to_i32(v) {
        Some(i) => Ok(one(AsmOp::MovR32I32 { dst: d, imm: i })),
        None => Err(EncodeError::ImmediateOutOfRange(v)),
    },
    (Operand { kind: OperandKind::Memory { base: Some(Register::Physical(b)), index: ix, scale: sc, displacement: di, .. }, width_in_bits: Width::_128 }, Operand { kind: OperandKind::Register(Register::Physical(d)), width_in_bits: Width::_128 }) => Ok(one(AsmOp::MovdquXMem { dst: d, mem: mem_from_base(b, ix, sc, di) })),
    (Operand { kind: OperandKind::Register(Register::Physical(s)), width_in_bits: Width::_128 }, Operand { kind: OperandKind::Memory { base: Some(Register::Physical(b)), index: ix, scale: sc, displacement: di, .. }, width_in_bits: Width::_128 }) => Ok(one(AsmOp::MovdquMemX { mem: mem_from_base(b, ix, sc, di), src: s })),
    (Operand { kind: OperandKind::Register(Register::Physical(s)), width_in_bits: Width::_128 }, Operand { kind: OperandKind::Register(Register::Physical(d)), width_in_bits: Width::_32 }) => Ok(one(AsmOp::MovdR32X { dst: d, src: s })),
    (Operand { kind: OperandKind::Register(Register::Physical(s)), width_in_bits: Width::_128 }, Operand { kind: OperandKind::Register(Register::Physical(d)), width_in_bits: Width::_64 }) => Ok(one(AsmOp::MovqXX { dst: d, src: s })),
    _ => Err(EncodeError::Unsupported(instr)),
}
}

/// The forms an instruction built on `movzx` is encoded as.
pub open spec fn lower_movzx_spec(instr: Instruction, src: Operand, dst: Operand) -> Result<Seq<AsmOp>, EncodeError> {
match (src, dst) {
    (Operand { kind: OperandKind::Immediate(0u64), width_in_bits: Width::_64 }, Operand { kind: OperandKind::Register(Register::Physical(d)), width_in_bits: Width::_128 }) => Ok(seq1(AsmOp::Pxor { dst: d, src: d })),
    (Operand { kind: OperandKind::Immediate(v), width_in_bits: ws }, Operand { kind: OperandKind::Register(Register::Physical(d)), width_in_bits: wd }) => match (ws, wd) {
        (Width::_8, Width::_32) | (Width::_8, Width::_64) => if v <= 255 {
            Ok(seq1(AsmOp::MovR32I32 { dst: d, imm: v as i32 }))
        } else {
            Err(EncodeError::ImmediateOutOfRange(v))
        },
        (Width::_16, Width::_64) | (Width::_16, Width::_32) | (Width::_32, Width::_64) => Ok(seq1(AsmOp::MovR32I32 { dst: d, imm: v as i32 })),
        _ => Err(EncodeError::Unsupported(instr)),
    },
    (Operand { kind: OperandKind::Register(Register::Physical(s)), width_in_bits: ws }, Operand { kind: OperandKind::Register(Register::Physical(d)), width_in_bits: wd }) => match (ws, wd) {
        (Width::_8, Width::_32) => Ok(seq1(AsmOp::MovzxR32R8 { dst: d, src: s })),
        (Width::_8, Width::_64) => Ok(seq1(AsmOp::MovzxR64R8 { dst: d, src: s })),
        (Width::_8, Width::_16) => Ok(seq1(AsmOp::MovzxR16R8 { dst: d, src: s })),
        (Width::_16, Width::_32) => Ok(seq1(AsmOp::MovzxR32R16 { dst: d, src: s })),
        (Width::_16, Width::_64) => Ok(seq1(AsmOp::MovzxR64R16 { dst: d, src: s })),
        (Width::_32, Width::_64) => Ok(seq1(AsmOp::MovR32R32 { dst: d, src: s })),
        (Width::_64, Width::_128) => Ok(seq1(AsmOp::MovqXR64 { dst: d, src: s })),
        (Width::_8, Width::_128) => Ok(seq2(AsmOp::MovzxR64R8 { dst: s, src: s }, AsmOp::MovqXR64 { dst: d, src: s })),
        (Width::_16, Width::_128) => Ok(seq2(AsmOp::MovzxR64R16 { dst: s, src: s }, AsmOp::MovqXR64 { dst: d, src: s })),
        (Width::_32, Width::_128) => Ok(seq2(AsmOp::MovR32R32 { dst: s, src: s }, AsmOp::MovqXR64 { dst: d, src: s })),
        _ => Err(EncodeError::Unsupported(instr)),
    },
    _ => Err(EncodeError::Unsupported(instr)),
}
}

fn lower_movzx(instr: Instruction, src: Operand, dst: Operand) -> (r: Result<Vec<AsmOp>, EncodeError>)
    ensures
        same_plan(r, lower_movzx_spec(instr, src, dst)),
{
match (src, dst) {
    (Operand { kind: OperandKind::Immediate(0u64), width_in_bits: Width::_64 }, Operand { kind: OperandKind::Register(Register::Physical(d)), width_in_bits: Width::_128 }) => Ok(one(AsmOp::Pxor { dst: d, src: d })),
    (Operand { kind: OperandKind::Immediate(v), width_in_bits: ws }, Operand { kind: OperandKind::Register(Register::Physical(d)), width_in_bits: wd }) => match (ws, wd) {
        (Width::_8, Width::_32) | (Width::_8, Width::_64) => if v <= 255 {
            Ok(one(AsmOp::MovR32I32 { dst: d, imm: v as i32 }))
        } else {
            Err(EncodeError::ImmediateOutOfRange(v))
        },
        (Width::_16, Width::_64) | (Width::_16, Width::_32) | (Width::_32, Width::_64) => Ok(one(AsmOp::MovR32I32 { dst: d, imm: v as i32 })),
        _ => Err(EncodeError::Unsupported(instr)),
    },
    (Operand { kind: OperandKind::Register(Register::Physical(s)), width_in_bits: ws }, Operand { kind: OperandKind::Register(Register::Physical(d)), width_in_bits: wd }) => match (ws, wd) {
        (Width::_8, Width::_32) => Ok(one(AsmOp::MovzxR32R8 { dst: d, src: s })),
        (Width::_8, Width::_64) => Ok(one(AsmOp::MovzxR64R8 { dst: d, src: s })),
        (Width::_8, Width::_16) => Ok(one(AsmOp::MovzxR16R8 { dst: d, src: s })),
        (Width::_16, Width::_32) => Ok(one(AsmOp::MovzxR32R16 { dst: d, src: s })),
        (Width::_16, Width::_64) => Ok(one(AsmOp::MovzxR64R16 { dst: d, src: s })),
        (Width::_32, Width::_64) => Ok(one(AsmOp::MovR32R32 { dst: d, src: s })),
        (Width::_64, Width::_128) => Ok(one(AsmOp::MovqXR64 { dst: d, src: s })),
        (Width::_8, Width::_128) => Ok(two(AsmOp::MovzxR64R8 { dst: s, src: s }, AsmOp::MovqXR64 { dst: d, src: s })),
        (Width::_16, Width::_128) => Ok(two(AsmOp::MovzxR64R16 { dst: s, src: s }, AsmOp::MovqXR64 { dst: d, src: s })),
        (Width::_32, Width::_128) => Ok(two(AsmOp::MovR32R32 { dst: s, src: s }, AsmOp::MovqXR64 { dst: d, src: s })),
        _ => Err(EncodeError::Unsupported(instr)),
    },
    _ => Err(EncodeError::Unsupported(instr)),
}
}

/// The forms an instruction built on `movd` is encoded as.
pub open spec fn lower_movd_spec(instr: Instruction, src: Operand, dst: Operand) -> Result<Seq<AsmOp>, EncodeError> {
match (src, dst) {
    (Operand { kind: OperandKind::Register(Register::Physical(s)), width_in_bits: Width::_16 }, Operand { kind: OperandKind::Register(Register::Physical(d)), width_in_bits: Width::_16 }) | (Operand { kind: OperandKind::Register(Register::Physical(s)), width_in_bits: Width::_32 }, Operand { kind: OperandKind::Register(Register::Physical(d)), width_in_bits: Width::_32 }) => if s.spec_is_xmm() {
        Ok(seq1(AsmOp::MovdR32X { dst: d, src: s }))
    } else {
        Ok(seq1(AsmOp::MovdXR32 { dst: d, src: s }))
    },
    _ => Err(EncodeError::Unsupported(instr)),
}
}

fn lower_movd(instr: Instruction, src: Operand, dst: Operand) -> (r: Result<Vec<AsmOp>, EncodeError>)
    ensures
        same_plan(r, lower_movd_spec(instr, src, dst)),
{
match (src, dst) {
    (Operand { kind: OperandKind::Register(Register::Physical(s)), width_in_bits: Width::_16 }, Operand { kind: OperandKind::Register(Register::Physical(d)), width_in_bits: Width::_16 }) | (Operand { kind: OperandKind::Register(Register::Physical(s)), width_in_bits: Width::_32 }, Operand { kind: OperandKind::Register(Register::Physical(d)), width_in_bits: Width::_32 }) => if s.is_xmm() {
        Ok(one(AsmOp::MovdR32X { dst: d, src: s }))
    } else {
        Ok(one(AsmOp::MovdXR32 { dst: d, src: s }))
    },
    _ => Err(EncodeError::Unsupported(instr)),
}
}

/// The forms an instruction built on `movq` is encoded as.
pub open spec fn lower_movq_spec(instr: Instruction, src: Operand, dst: Operand) -> Result<Seq<AsmOp>, EncodeError> {
match (src, dst) {
    (Operand { kind: OperandKind::Register(Register::Physical(s)), width_in_bits: Width::_64 }, Operand { kind: OperandKind::Register(Register::Physical(d)), width_in_bits: Width::_64 }) => if s.spec_is_xmm() {
        Ok(seq1(AsmOp::MovqR64X { dst: d, src: s }))
    } else {
        Ok(seq1(AsmOp::MovqXR64 { dst: d, src: s }))
    },
    (Operand { kind: OperandKind::Memory { base: Some(Register::Physical(b)), index: ix, scale: sc, displacement: di, .. }, width_in_bits: Width::_64 }, Operand { kind: OperandKind::Register(Register::Physical(d)), width_in_bits: Width::_64 }) => if d.spec_is_xmm() {
        Ok(seq1(AsmOp::MovqXMem { dst: d, mem: spec_mem_from_base(b, ix, sc, di) }))
    } else {
        Err(EncodeError::Unsupported(instr))
    },
    (Operand { kind: OperandKind::Register(Register::Physical(s)), width_in_bits: Width::_128 }, Operand { kind: OperandKind::Register(Register::Physical(d)), width_in_bits: Width::_64 }) => Ok(seq1(AsmOp::MovqR64X { dst: d, src: s })),
    (Operand { kind: OperandKind::Register(Register::Physical(s)), width_in_bits: Width::_64 }, Operand { kind: OperandKind::Register(Register::Physical(d)), width_in_bits: Width::_128 }) => Ok(seq1(AsmOp::MovqXR64 { dst: d, src: s })),
    (Operand { kind: OperandKind::Register(Register::Physical(s)), width_in_bits: Width::_32 }, Operand { kind: OperandKind::Register(Register::Physical(d)), width_in_bits: Width::_32 }) => if !s.spec_is_xmm() && d.spec_is_xmm() {
        Ok(seq1(AsmOp::MovqXR64 { dst: d, src: s }))
    } else if s.spec_is_xmm() && !d.spec_is_xmm() {
        Ok(seq1(AsmOp::MovqR64X { dst: d, src: s }))
    } else {
        Err(EncodeError::Unsupported(instr))
    },
    _ => Err(EncodeError::Unsupported(instr)),
}
}

fn lower_movq(instr: Instruction, src: Operand, dst: Operand) -> (r: Result<Vec<AsmOp>, EncodeError>)
    ensures
        same_plan(r, lower_movq_spec(instr, src, dst)),
{
match (src, dst) {
    (Operand { kind: OperandKind::Register(Register::Physical(s)), width_in_bits: Width::_64 }, Operand { kind: OperandKind::Register(Register::Physical(d)), width_in_bits: Width::_64 }) => if s.is_xmm() {
        Ok(one(AsmOp::MovqR64X { dst: d, src: s }))
    } else {
        Ok(one(AsmOp::MovqXR64 { dst: d, src: s }))
    },
    (Operand { kind: OperandKind::Memory { base: Some(Register::Physical(b)), index: ix, scale: sc, displacement: di, .. }, width_in_bits: Width::_64 }, Operand { kind: OperandKind::Register(Register::Physical(d)), width_in_bits: Width::_64 }) => if d.is_xmm() {
        Ok(one(AsmOp::MovqXMem { dst: d, mem: mem_from_base(b, ix, sc, di) }))
    } else {
        Err(EncodeError::Unsupported(instr))
    },
    (Operand { kind: OperandKind::Register(Register::Physical(s)), width_in_bits: Width::_128 }, Operand { kind: OperandKind::Register(Register::Physical(d)), width_in_bits: Width::_64 }) => Ok(one(AsmOp::MovqR64X { dst: d, src: s })),
    (Operand { kind: OperandKind::Register(Register::Physical(s)), width_in_bits: Width::_64 }, Operand { kind: OperandKind::Register(Register::Physical(d)), width_in_bits: Width::_128 }) => Ok(one(AsmOp::MovqXR64 { dst: d, src: s })),
    (Operand { kind: OperandKind::Register(Register::Physical(s)), width_in_bits: Width::_32 }, Operand { kind: OperandKind::Register(Register::Physical(d)), width_in_bits: Width::_32 }) => if !s.is_xmm() && d.is_xmm() {
        Ok(one(AsmOp::MovqXR64 { dst: d, src: s }))
    } else if s.is_xmm() && !d.is_xmm() {
        Ok(one(AsmOp::MovqR64X { dst: d, src: s }))
    } else {
        Err(EncodeError::Unsupported(instr))
    },
    _ => Err(EncodeError::Unsupported(instr)),
}
}

/// The forms an instruction built on `cmovne` is encoded as.
pub open spec fn lower_cmovne_spec(instr: Instruction, src: Operand, dst: Operand) -> Result<Seq<AsmOp>, EncodeError> {
match (src, dst) {
    (Operand { kind: OperandKind::Register(Register::Physical(s)), width_in_bits: Width::_64 }, Operand { kind: OperandKind::Register(Register::Physical(d)), width_in_bits: Width::_64 }) => Ok(seq1(AsmOp::CmovneR64R64 { dst: d, src: s })),
    (Operand { kind: OperandKind::Register(Register::Physical(s)), width_in_bits: Width::_32 }, Operand { kind: OperandKind::Register(Register::Physical(d)), width_in_bits: Width::_32 }) => Ok(seq1(AsmOp::CmovneR32R32 { dst: d, src: s })),
    (Operand { kind: OperandKind::Register(Register::Physical(s)), width_in_bits: Width::_8 }, Operand { kind: OperandKind::Register(Register::Physical(d)), width_in_bits: Width::_8 }) => Ok(seq1(AsmOp::CmovneR16R16 { dst: d, src: s })),
    _ => Err(EncodeError::Unsupported(instr)),
}
}

fn lower_cmovne(instr: Instruction, src: Operand, dst: Operand) -> (r: Result<Vec<AsmOp>, EncodeError>)
    ensures
        same_plan(r, lower_cmovne_spec(instr, src, dst)),
{
match (src, dst) {
    (Operand { kind: OperandKind::Register(Register::Physical(s)), width_in_bits: Width::_64 }, Operand { kind: OperandKind::Register(Register::Physical(d)), width_in_bits: Width::_64 }) => Ok(one(AsmOp::CmovneR64R64 { dst: d, src: s })),
    (Operand { kind: OperandKind::Register(Register::Physical(s)), width_in_bits: Width::_32 }, Operand { kind: OperandKind::Register(Register::Physical(d)), width_in_bits: Width::_32 }) => Ok(one(AsmOp::CmovneR32R32 { dst: d, src: s })),
    (Operand { kind: OperandKind::Register(Register::Physical(s)), width_in_bits: Width::_8 }, Operand { kind: OperandKind::Register(Register::Physical(d)), width_in_bits: Width::_8 }) => Ok(one(AsmOp::CmovneR16R16 { dst: d, src: s })),
    _ => Err(EncodeError::Unsupported(instr)),
}
}

/// The forms an instruction built on `or` is encoded as.
pub open spec fn lower_or_spec(instr: Instruction, src: Operand, dst: Operand) -> Result<Seq<AsmOp>, EncodeError> {
match (src, dst) {
    (Operand { kind: OperandKind::Immediate(l), width_in_bits: Width::_8 }, Operand { kind: OperandKind::Register(Register::Physical(r)), width_in_bits: Width::_8 }) => match spec_to_i32(l) {
        Some(i) => Ok(seq1(AsmOp::OrR8I32 { dst: r, imm: i })),
        None => Err(EncodeError::ImmediateOutOfRange(l)),
    },
    (Operand { kind: OperandKind::Immediate(l), width_in_bits: Width::_8 }, Operand { kind: OperandKind::Register(Register::Physical(r)), width_in_bits: Width::_32 }) => match spec_to_i32(l) {
        Some(i) => Ok(seq1(AsmOp::OrR32I32 { dst: r, imm: i })),
        None => Err(EncodeError::ImmediateOutOfRange(l)),
    },
    (Operand { kind: OperandKind::Immediate(l), width_in_bits: Width::_32 }, Operand { kind: OperandKind::Register(Register::Physical(r)), width_in_bits: Width::_32 }) => if l <= 0xffff_ffffu64 { Ok(seq1(AsmOp::OrR32U32 { dst: r, imm: l as u32 })) } else { Err(EncodeError::Unsupported(instr)) },
    (Operand { kind: OperandKind::Immediate(l), width_in_bits: Width::_64 }, Operand { kind: OperandKind::Register(Register::Physical(r)), width_in_bits: Width::_64 }) => if l < 0x7fff_ffffu64 { Ok(seq1(AsmOp::OrR64I32 { dst: r, imm: l as i32 })) } else { Err(EncodeError::Unsupported(instr)) },
    (Operand { kind: OperandKind::Register(Register::Physical(l)), width_in_bits: Width::_8 }, Operand { kind: OperandKind::Register(Register::Physical(r)), width_in_bits: Width::_8 }) => Ok(seq1(AsmOp::OrR8R8 { dst: r, src: l })),
    (Operand { kind: OperandKind::Register(Register::Physical(l)), width_in_bits: Width::_16 }, Operand { kind: OperandKind::Register(Register::Physical(r)), width_in_bits: Width::_16 }) => Ok(seq1(AsmOp::OrR16R16 { dst: r, src: l })),
    (Operand { kind: OperandKind::Register(Register::Physical(l)), width_in_bits: Width::_32 }, Operand { kind: OperandKind::Register(Register::Physical(r)), width_in_bits: Width::_32 }) => Ok(seq1(AsmOp::OrR32R32 { dst: r, src: l })),
    (Operand { kind: OperandKind::Register(Register::Physical(l)), width_in_bits: Width::_64 }, Operand { kind: OperandKind::Register(Register::Physical(r)), width_in_bits: Width::_64 }) => Ok(seq1(AsmOp::OrR64R64 { dst: r, src: l })),
    (Operand { kind: OperandKind::Register(Register::Physical(l)), width_in_bits: Width::_128 }, Operand { kind: OperandKind::Register(Register::Physical(r)), width_in_bits: Width::_128 }) => Ok(seq1(AsmOp::Por { dst: r, src: l })),
    _ => Err(EncodeError::Unsupported(instr)),
}
}

fn lower_or(instr: Instruction, src: Operand, dst: Operand) -> (r: Result<Vec<AsmOp>, EncodeError>)
    ensures
        same_plan(r, lower_or_spec(instr, src, dst)),
{
match (src, dst) {
    (Operand { kind: OperandKind::Immediate(l), width_in_bits: Width::_8 }, Operand { kind: OperandKind::Register(Register::Physical(r)), width_in_bits: Width::_8 }) => match to_i32(l) {
        Some(i) => Ok(one(AsmOp::OrR8I32 { dst: r, imm: i })),
        None => Err(EncodeError::ImmediateOutOfRange(l)),
    },
    (Operand { kind: OperandKind::Immediate(l), width_in_bits: Width::_8 }, Operand { kind: OperandKind::Register(Register::Physical(r)), width_in_bits: Width::_32 }) => match to_i32(l) {
        Some(i) => Ok(one(AsmOp::OrR32I32 { dst: r, imm: i })),
        None => Err(EncodeError::ImmediateOutOfRange(l)),
    },
    (Operand { kind: OperandKind::Immediate(l), width_in_bits: Width::_32 }, Operand { kind: OperandKind::Register(Register::Physical(r)), width_in_bits: Width::_32 }) => if l <= 0xffff_ffffu64 { Ok(one(AsmOp::OrR32U32 { dst: r, imm: l as u32 })) } else { Err(EncodeError::Unsupported(instr)) },
    (Operand { kind: OperandKind::Immediate(l), width_in_bits: Width::_64 }, Operand { kind: OperandKind::Register(Register::Physical(r)), width_in_bits: Width::_64 }) => if l < 0x7fff_ffffu64 { Ok(one(AsmOp::OrR64I32 { dst: r, imm: l as i32 })) } else { Err(EncodeError::Unsupported(instr)) },
    (Operand { kind: OperandKind::Register(Register::Physical(l)), width_in_bits: Width::_8 }, Operand { kind: OperandKind::Register(Register::Physical(r)), width_in_bits: Width::_8 }) => Ok(one(AsmOp::OrR8R8 { dst: r, src: l })),
    (Operand { kind: OperandKind::Register(Register::Physical(l)), width_in_bits: Width::_16 }, Operand { kind: OperandKind::Register(Register::Physical(r)), width_in_bits: Width::_16 }) => Ok(one(AsmOp::OrR16R16 { dst: r, src: l })),
    (Operand { kind: OperandKind::Register(Register::Physical(l)), width_in_bits: Width::_32 }, Operand { kind: OperandKind::Register(Register::Physical(r)), width_in_bits: Width::_32 }) => Ok(one(AsmOp::OrR32R32 { dst: r, src: l })),
    (Operand { kind: OperandKind::Register(Register::Physical(l)), width_in_bits: Width::_64 }, Operand { kind: OperandKind::Register(Register::Physical(r)), width_in_bits: Width::_64 }) => Ok(one(AsmOp::OrR64R64 { dst: r, src: l })),
    (Operand { kind: OperandKind::Register(Register::Physical(l)), width_in_bits: Width::_128 }, Operand { kind: OperandKind::Register(Register::Physical(r)), width_in_bits: Width::_128 }) => Ok(one(AsmOp::Por { dst: r, src: l })),
    _ => Err(EncodeError::Unsupported(instr)),
}
}

/// The forms an instruction built on `shl` is encoded as.
pub open spec fn lower_shl_spec(instr: Instruction, amount: Operand, value: Operand) -> Result<Seq<AsmOp>, EncodeError> {
match (amount, value) {
    (Operand { kind: OperandKind::Immediate(a), width_in_bits: _ }, Operand { kind: OperandKind::Register(Register::Physical(v)), width_in_bits: Width::_8 }) => if a >= 8 { Ok(seq1(AsmOp::XorR8R8 { dst: v, src: v })) } else { Ok(seq1(AsmOp::ShlR8U32 { value: v, amount: a as u32 })) },
    (Operand { kind: OperandKind::Immediate(a), width_in_bits: _ }, Operand { kind: OperandKind::Register(Register::Physical(v)), width_in_bits: Width::_16 }) => if a >= 16 { Ok(seq1(AsmOp::XorR16R16 { dst: v, src: v })) } else { Ok(seq1(AsmOp::ShlR16U32 { value: v, amount: a as u32 })) },
    (Operand { kind: OperandKind::Immediate(a), width_in_bits: _ }, Operand { kind: OperandKind::Register(Register::Physical(v)), width_in_bits: Width::_32 }) => if a >= 32 { Ok(seq1(AsmOp::XorR32R32 { dst: v, src: v })) } else { Ok(seq1(AsmOp::ShlR32U32 { value: v, amount: a as u32 })) },
    (Operand { kind: OperandKind::Immediate(a), width_in_bits: _ }, Operand { kind: OperandKind::Register(Register::Physical(v)), width_in_bits: Width::_64 }) => if a >= 64 { Ok(seq1(AsmOp::XorR64R64 { dst: v, src: v })) } else { Ok(seq1(AsmOp::ShlR64U32 { value: v, amount: a as u32 })) },
    (Operand { kind: OperandKind::Immediate(a), width_in_bits: _ }, Operand { kind: OperandKind::Register(Register::Physical(v)), width_in_bits: Width::_128 }) => if a % 8 != 0 {
        Err(EncodeError::Unsupported(instr))
    } else {
        match spec_to_u32(a / 8) {
            Some(b) => Ok(seq1(AsmOp::Pslldq { value: v, bytes: b })),
            None => Err(EncodeError::ImmediateOutOfRange(a)),
        }
    },
    (Operand { kind: OperandKind::Register(Register::Physical(PhysicalRegister::RCX)), width_in_bits: Width::_8 }, Operand { kind: OperandKind::Register(Register::Physical(v)), width_in_bits: Width::_64 }) => Ok(seq1(AsmOp::ShlR64Cl { value: v, amount: PhysicalRegister::RCX })),
    (Operand { kind: OperandKind::Register(Register::Physical(PhysicalRegister::RCX)), width_in_bits: Width::_8 }, Operand { kind: OperandKind::Register(Register::Physical(v)), width_in_bits: Width::_32 }) => Ok(seq1(AsmOp::ShlR32Cl { value: v, amount: PhysicalRegister::RCX })),
    _ => Err(EncodeError::Unsupported(instr)),
}
}

fn lower_shl(instr: Instruction, amount: Operand, value: Operand) -> (r: Result<Vec<AsmOp>, EncodeError>)
    ensures
        same_plan(r, lower_shl_spec(instr, amount, value)),
{
match (amount, value) {
    (Operand { kind: OperandKind::Immediate(a), width_in_bits: _ }, Operand { kind: OperandKind::Register(Register::Physical(v)), width_in_bits: Width::_8 }) => if a >= 8 { Ok(one(AsmOp::XorR8R8 { dst: v, src: v })) } else { Ok(one(AsmOp::ShlR8U32 { value: v, amount: a as u32 })) },
    (Operand { kind: OperandKind::Immediate(a), width_in_bits: _ }, Operand { kind: OperandKind::Register(Register::Physical(v)), width_in_bits: Width::_16 }) => if a >= 16 { Ok(one(AsmOp::XorR16R16 { dst: v, src: v })) } else { Ok(one(AsmOp::ShlR16U32 { value: v, amount: a as u32 })) },
    (Operand { kind: OperandKind::Immediate(a), width_in_bits: _ }, Operand { kind: OperandKind::Register(Register::Physical(v)), width_in_bits: Width::_32 }) => if a >= 32 { Ok(one(AsmOp::XorR32R32 { dst: v, src: v })) } else { Ok(one(AsmOp::ShlR32U32 { value: v, amount: a as u32 })) },
    (Operand { kind: OperandKind::Immediate(a), width_in_bits: _ }, Operand { kind: OperandKind::Register(Register::Physical(v)), width_in_bits: Width::_64 }) => if a >= 64 { Ok(one(AsmOp::XorR64R64 { dst: v, src: v })) } else { Ok(one(AsmOp::ShlR64U32 { value: v, amount: a as u32 })) },
    (Operand { kind: OperandKind::Immediate(a), width_in_bits: _ }, Operand { kind: OperandKind::Register(Register::Physical(v)), width_in_bits: Width::_128 }) => if a % 8 != 0 {
        Err(EncodeError::Unsupported(instr))
    } else {
        match to_u32(a / 8) {
            Some(b) => Ok(one(AsmOp::Pslldq { value: v, bytes: b })),
            None => Err(EncodeError::ImmediateOutOfRange(a)),
        }
    },
    (Operand { kind: OperandKind::Register(Register::Physical(PhysicalRegister::RCX)), width_in_bits: Width::_8 }, Operand { kind: OperandKind::Register(Register::Physical(v)), width_in_bits: Width::_64 }) => Ok(one(AsmOp::ShlR64Cl { value: v, amount: PhysicalRegister::RCX })),
    (Operand { kind: OperandKind::Register(Register::Physical(PhysicalRegister::RCX)), width_in_bits: Width::_8 }, Operand { kind: OperandKind::Register(Register::Physical(v)), width_in_bits: Width::_32 }) => Ok(one(AsmOp::ShlR32Cl { value: v, amount: PhysicalRegister::RCX })),
    _ => Err(EncodeError::Unsupported(instr)),
}
}

/// The forms an instruction built on `xor` is encoded as.
pub open spec fn lower_xor_spec(instr: Instruction, src: Operand, dst: Operand) -> Result<Seq<AsmOp>, EncodeError> {
match (src, dst) {
    (Operand { kind: OperandKind::Register(Register::Physical(s)), width_in_bits: Width::_64 }, Operand { kind: OperandKind::Register(Register::Physical(d)), width_in_bits: Width::_64 }) => Ok(seq1(AsmOp::XorR64R64 { dst: d, src: s })),
    (Operand { kind: OperandKind::Register(Register::Physical(s)), width_in_bits: Width::_32 }, Operand { kind: OperandKind::Register(Register::Physical(d)), width_in_bits: Width::_32 }) => Ok(seq1(AsmOp::XorR32R32 { dst: d, src: s })),
    (Operand { kind: OperandKind::Register(Register::Physical(s)), width_in_bits: Width::_8 }, Operand { kind: OperandKind::Register(Register::Physical(d)), width_in_bits: Width::_8 }) => Ok(seq1(AsmOp::XorR8R8 { dst: d, src: s })),
    (Operand { kind: OperandKind::Immediate(v), width_in_bits: Width::_64 }, Operand { kind: OperandKind::Register(Register::Physical(d)), width_in_bits: Width::_64 }) => match spec_to_i32(v) {
        Some(i) => Ok(seq1(AsmOp::XorR64I32 { dst: d, imm: i })),
        None => Err(EncodeError::ImmediateOutOfRange(v)),
    },
    (Operand { kind: OperandKind::Immediate(v), width_in_bits: Width::_32 }, Operand { kind: OperandKind::Register(Register::Physical(d)), width_in_bits: Width::_32 }) => match spec_to_u32(v) {
        Some(i) => Ok(seq1(AsmOp::XorR32U32 { dst: d, imm: i })),
        None => Err(EncodeError::ImmediateOutOfRange(v)),
    },
    _ => Err(EncodeError::Unsupported(instr)),
}
}

fn lower_xor(instr: Instruction, src: Operand, dst: Operand) -> (r: Result<Vec<AsmOp>, EncodeError>)
    ensures
        same_plan(r, lower_xor_spec(instr, src, dst)),
{
match (src, dst) {
    (Operand { kind: OperandKind::Register(Register::Physical(s)), width_in_bits: Width::_64 }, Operand { kind: OperandKind::Register(Register::Physical(d)), width_in_bits: Width::_64 }) => Ok(one(AsmOp::XorR64R64 { dst: d, src: s })),
    (Operand { kind: OperandKind::Register(Register::Physical(s)), width_in_bits: Width::_32 }, Operand { kind: OperandKind::Register(Register::Physical(d)), width_in_bits: Width::_32 }) => Ok(one(AsmOp::XorR32R32 { dst: d, src: s })),
    (Operand { kind: OperandKind::Register(Register::Physical(s)), width_in_bits: Width::_8 }, Operand { kind: OperandKind::Register(Register::Physical(d)), width_in_bits: Width::_8 }) => Ok(one(AsmOp::XorR8R8 { dst: d, src: s })),
    (Operand { kind: OperandKind::Immediate(v), width_in_bits: Width::_64 }, Operand { kind: OperandKind::Register(Register::Physical(d)), width_in_bits: Width::_64 }) => match to_i32(v) {
        Some(i) => Ok(one(AsmOp::XorR64I32 { dst: d, imm: i })),
        None => Err(EncodeError::ImmediateOutOfRange(v)),
    },
    (Operand { kind: OperandKind::Immediate(v), width_in_bits: Width::_32 }, Operand { kind: OperandKind::Register(Register::Physical(d)), width_in_bits: Width::_32 }) => match to_u32(v) {
        Some(i) => Ok(one(AsmOp::XorR32U32 { dst: d, imm: i })),
        None => Err(EncodeError::ImmediateOutOfRange(v)),
    },
    _ => Err(EncodeError::Unsupported(instr)),
}
}

/// The forms an instruction built on `add` is encoded as.
pub open spec fn lower_add_spec(instr: Instruction, src: Operand, dst: Operand) -> Result<Seq<AsmOp>, EncodeError> {
match (src, dst) {
    (Operand { kind: OperandKind::Register(Register::Physical(s)), width_in_bits: Width::_64 }, Operand { kind: OperandKind::Register(Register::Physical(d)), width_in_bits: Width::_64 }) => Ok(seq1(AsmOp::AddR64R64 { dst: d, src: s })),
    (Operand { kind: OperandKind::Register(Register::Physical(s)), width_in_bits: Width::_32 }, Operand { kind: OperandKind::Register(Register::Physical(d)), width_in_bits: Width::_32 }) => Ok(seq1(AsmOp::AddR32R32 { dst: d, src: s })),
    (Operand { kind: OperandKind::Register(Register::Physical(s)), width_in_bits: Width::_16 }, Operand { kind: OperandKind::Register(Register::Physical(d)), width_in_bits: Width::_16 }) => Ok(seq1(AsmOp::AddR16R16 { dst: d, src: s })),
    (Operand { kind: OperandKind::Register(Register::Physical(s)), width_in_bits: Width::_8 }, Operand { kind: OperandKind::Register(Register::Physical(d)), width_in_bits: Width::_8 }) => Ok(seq1(AsmOp::AddR8R8 { dst: d, src: s })),
    (Operand { kind: OperandKind::Immediate(v), width_in_bits: _ }, Operand { kind: OperandKind::Register(Register::Physical(d)), width_in_bits: Width::_64 }) => match spec_signed_to_i32(v) {
        Some(i) => Ok(seq1(AsmOp::AddR64I32 { dst: d, imm: i })),
        None => Err(EncodeError::ImmediateOutOfRange(v)),
    },
    (Operand { kind: OperandKind::Immediate(v), width_in_bits: _ }, Operand { kind: OperandKind::Register(Register::Physical(d)), width_in_bits: Width::_32 }) => match spec_signed_to_i32(v) {
        Some(i) => Ok(seq1(AsmOp::AddR32I32 { dst: d, imm: i })),
        None => Err(EncodeError::ImmediateOutOfRange(v)),
    },
    (Operand { kind: OperandKind::Immediate(v), width_in_bits: Width::_64 }, Operand { kind: OperandKind::Memory { base: Some(Register::Physical(b)), index: ix, scale: sc, displacement: di, .. }, width_in_bits: Width::_64 }) => if v >= 0x7fff_ffffu64 {
        Err(EncodeError::Unsupported(instr))
    } else {
        match spec_signed_to_i32(v) {
            Some(i) => Ok(seq1(AsmOp::AddQwordMemI32 { mem: spec_mem_from_base(b, ix, sc, di), imm: i })),
            None => Err(EncodeError::ImmediateOutOfRange(v)),
        }
    },
    _ => Err(EncodeError::Unsupported(instr)),
}
}

fn lower_add(instr: Instruction, src: Operand, dst: Operand) -> (r: Result<Vec<AsmOp>, EncodeError>)
    ensures
        same_plan(r, lower_add_spec(instr, src, dst)),
{
match (src, dst) {
    (Operand { kind: OperandKind::Register(Register::Physical(s)), width_in_bits: Width::_64 }, Operand { kind: OperandKind::Register(Register::Physical(d)), width_in_bits: Width::_64 }) => Ok(one(AsmOp::AddR64R64 { dst: d, src: s })),
    (Operand { kind: OperandKind::Register(Register::Physical(s)), width_in_bits: Width::_32 }, Operand { kind: OperandKind::Register(Register::Physical(d)), width_in_bits: Width::_32 }) => Ok(one(AsmOp::AddR32R32 { dst: d, src: s })),
    (Operand { kind: OperandKind::Register(Register::Physical(s)), width_in_bits: Width::_16 }, Operand { kind: OperandKind::Register(Register::Physical(d)), width_in_bits: Width::_16 }) => Ok(one(AsmOp::AddR16R16 { dst: d, src: s })),
    (Operand { kind: OperandKind::Register(Register::Physical(s)), width_in_bits: Width::_8 }, Operand { kind: OperandKind::Register(Register::Physical(d)), width_in_bits: Width::_8 }) => Ok(one(AsmOp::AddR8R8 { dst: d, src: s })),
    (Operand { kind: OperandKind::Immediate(v), width_in_bits: _ }, Operand { kind: OperandKind::Register(Register::Physical(d)), width_in_bits: Width::_64 }) => match signed_to_i32(v) {
        Some(i) => Ok(one(AsmOp::AddR64I32 { dst: d, imm: i })),
        None => Err(EncodeError::ImmediateOutOfRange(v)),
    },
    (Operand { kind: OperandKind::Immediate(v), width_in_bits: _ }, Operand { kind: OperandKind::Register(Register::Physical(d)), width_in_bits: Width::_32 }) => match signed_to_i32(v) {
        Some(i) => Ok(one(AsmOp::AddR32I32 { dst: d, imm: i })),
        None => Err(EncodeError::ImmediateOutOfRange(v)),
    },
    (Operand { kind: OperandKind::Immediate(v), width_in_bits: Width::_64 }, Operand { kind: OperandKind::Memory { base: Some(Register::Physical(b)), index: ix, scale: sc, displacement: di, .. }, width_in_bits: Width::_64 }) => if v >= 0x7fff_ffffu64 {
        Err(EncodeError::Unsupported(instr))
    } else {
        match signed_to_i32(v) {
            Some(i) => Ok(one(AsmOp::AddQwordMemI32 { mem: mem_from_base(b, ix, sc, di), imm: i })),
            None => Err(EncodeError::ImmediateOutOfRange(v)),
        }
    },
    _ => Err(EncodeError::Unsupported(instr)),
}
}

/// The forms an instruction built on `not` is encoded as.
pub open spec fn lower_not_spec(instr: Instruction, dst: Operand) -> Result<Seq<AsmOp>, EncodeError> {
match dst {
    Operand { kind: OperandKind::Register(Register::Physical(v)), width_in_bits: Width::_128 } => Ok(seq2(AsmOp::PcmpeqdScratch, AsmOp::PxorScratch { value: v })),
    Operand { kind: OperandKind::Register(Register::Physical(v)), width_in_bits: Width::_64 } => Ok(seq1(AsmOp::NotR64 { value: v })),
    Operand { kind: OperandKind::Register(Register::Physical(v)), width_in_bits: Width::_32 } => Ok(seq1(AsmOp::NotR32 { value: v })),
    Operand { kind: OperandKind::Register(Register::Physical(v)), width_in_bits: Width::_16 } => Ok(seq1(AsmOp::NotR16 { value: v })),
    Operand { kind: OperandKind::Register(Register::Physical(v)), width_in_bits: Width::_8 } => Ok(seq1(AsmOp::NotR8 { value: v })),
    _ => Err(EncodeError::Unsupported(instr)),
}
}

fn lower_not(instr: Instruction, dst: Operand) -> (r: Result<Vec<AsmOp>, EncodeError>)
    ensures
        same_plan(r, lower_not_spec(instr, dst)),
{
match dst {
    Operand { kind: OperandKind::Register(Register::Physical(v)), width_in_bits: Width::_128 } => Ok(two(AsmOp::PcmpeqdScratch, AsmOp::PxorScratch { value: v })),
    Operand { kind: OperandKind::Register(Register::Physical(v)), width_in_bits: Width::_64 } => Ok(one(AsmOp::NotR64 { value: v })),
    Operand { kind: OperandKind::Register(Register::Physical(v)), width_in_bits: Width::_32 } => Ok(one(AsmOp::NotR32 { value: v })),
    Operand { kind: OperandKind::Register(Register::Physical(v)), width_in_bits: Width::_16 } => Ok(one(AsmOp::NotR16 { value: v })),
    Operand { kind: OperandKind::Register(Register::Physical(v)), width_in_bits: Width::_8 } => Ok(one(AsmOp::NotR8 { value: v })),
    _ => Err(EncodeError::Unsupported(instr)),
}
}

/// The forms an instruction built on `setne` is encoded as.
pub open spec fn lower_setne_spec(instr: Instruction, dst: Operand) -> Result<Seq<AsmOp>, EncodeError> {
match dst {
    Operand { kind: OperandKind::Register(Register::Physical(t)), width_in_bits: Width::_64 } => Ok(seq2(AsmOp::XorR32R32 { dst: t, src: t }, AsmOp::SetneR8 { dst: t })),
    Operand { kind: OperandKind::Register(Register::Physical(t)), width_in_bits: Width::_8 } => Ok(seq1(AsmOp::SetneR8 { dst: t })),
    _ => Err(EncodeError::Unsupported(instr)),
}
}

fn lower_setne(instr: Instruction, dst: Operand) -> (r: Result<Vec<AsmOp>, EncodeError>)
    ensures
        same_plan(r, lower_setne_spec(instr, dst)),
{
match dst {
    Operand { kind: OperandKind::Register(Register::Physical(t)), width_in_bits: Width::_64 } => Ok(two(AsmOp::XorR32R32 { dst: t, src: t }, AsmOp::SetneR8 { dst: t })),
    Operand { kind: OperandKind::Register(Register::Physical(t)), width_in_bits: Width::_8 } => Ok(one(AsmOp::SetneR8 { dst: t })),
    _ => Err(EncodeError::Unsupported(instr)),
}
}

/// The forms of the instructions of one family.
pub open spec fn lower_group0_spec(instr: Instruction) -> Result<Seq<AsmOp>, EncodeError> {
match instr.0 {
    Opcode::JNE(Operand { kind: OperandKind::Target(t), .. }) => Ok(seq1(AsmOp::JneLabel { target: t })),
    Opcode::JE(Operand { kind: OperandKind::Target(t), .. }) => Ok(seq1(AsmOp::JeLabel { target: t })),
    Opcode::JMP(Operand { kind: OperandKind::Target(t), .. }) => Ok(seq1(AsmOp::JmpLabel { target: t })),
    Opcode::JMP(Operand { kind: OperandKind::Memory { base: Some(Register::Physical(b)), index: ix, scale: sc, displacement: di, .. }, .. }) => Ok(seq1(AsmOp::JmpQwordMem { mem: spec_mem_from_base(b, ix, sc, di) })),
    Opcode::RET => Ok(seq1(AsmOp::Ret)),
    Opcode::SHRD(Operand { kind: OperandKind::Immediate(a), width_in_bits: _ }, Operand { kind: OperandKind::Register(Register::Physical(hi)), width_in_bits: Width::_64 }, Operand { kind: OperandKind::Register(Register::Physical(lo)), width_in_bits: Width::_64 }) => match spec_to_i32(a) {
        Some(i) => Ok(seq1(AsmOp::ShrdR64R64I32 { lo: lo, hi: hi, amount: i })),
        None => Err(EncodeError::ImmediateOutOfRange(a)),
    },
    Opcode::SETA(Operand { kind: OperandKind::Register(Register::Physical(d)), width_in_bits: _ }) => Ok(seq1(AsmOp::SetaR8 { dst: d })),
    Opcode::SETG(Operand { kind: OperandKind::Register(Register::Physical(d)), width_in_bits: _ }) => Ok(seq1(AsmOp::SetgR8 { dst: d })),
    Opcode::SETAE(Operand { kind: OperandKind::Register(Register::Physical(d)), width_in_bits: _ }) => Ok(seq1(AsmOp::SetaeR8 { dst: d })),
    Opcode::SETE(Operand { kind: OperandKind::Register(Register::Physical(d)), width_in_bits: _ }) => Ok(seq1(AsmOp::SeteR8 { dst: d })),
    Opcode::SETE(Operand { kind: OperandKind::Memory { base: Some(Register::Physical(b)), index: ix, scale: sc, displacement: di, .. }, width_in_bits: Width::_8 }) => Ok(seq1(AsmOp::SeteMem { mem: spec_mem_from_base(b, ix, sc, di) })),
    Opcode::SETO(Operand { kind: OperandKind::Register(Register::Physical(d)), width_in_bits: _ }) => Ok(seq1(AsmOp::SetoR8 { dst: d })),
    Opcode::SETO(Operand { kind: OperandKind::Memory { base: Some(Register::Physical(b)), index: ix, scale: sc, displacement: di, .. }, width_in_bits: Width::_8 }) => Ok(seq1(AsmOp::SetoMem { mem: spec_mem_from_base(b, ix, sc, di) })),
    _ => Err(EncodeError::Unsupported(instr)),
}
}

fn lower_group0(instr: Instruction) -> (r: Result<Vec<AsmOp>, EncodeError>)
    ensures
        same_plan(r, lower_group0_spec(instr)),
{
match instr.0 {
    Opcode::JNE(Operand { kind: OperandKind::Target(t), .. }) => Ok(one(AsmOp::JneLabel { target: t })),
    Opcode::JE(Operand { kind: OperandKind::Target(t), .. }) => Ok(one(AsmOp::JeLabel { target: t })),
    Opcode::JMP(Operand { kind: OperandKind::Target(t), .. }) => Ok(one(AsmOp::JmpLabel { target: t })),
    Opcode::JMP(Operand { kind: OperandKind::Memory { base: Some(Register::Physical(b)), index: ix, scale: sc, displacement: di, .. }, .. }) => Ok(one(AsmOp::JmpQwordMem { mem: mem_from_base(b, ix, sc, di) })),
    Opcode::RET => Ok(one(AsmOp::Ret)),
    Opcode::SHRD(Operand { kind: OperandKind::Immediate(a), width_in_bits: _ }, Operand { kind: OperandKind::Register(Register::Physical(hi)), width_in_bits: Width::_64 }, Operand { kind: OperandKind::Register(Register::Physical(lo)), width_in_bits: Width::_64 }) => match to_i32(a) {
        Some(i) => Ok(one(AsmOp::ShrdR64R64I32 { lo: lo, hi: hi, amount: i })),
        None => Err(EncodeError::ImmediateOutOfRange(a)),
    },
    Opcode::SETA(Operand { kind: OperandKind::Register(Register::Physical(d)), width_in_bits: _ }) => Ok(one(AsmOp::SetaR8 { dst: d })),
    Opcode::SETG(Operand { kind: OperandKind::Register(Register::Physical(d)), width_in_bits: _ }) => Ok(one(AsmOp::SetgR8 { dst: d })),
    Opcode::SETAE(Operand { kind: OperandKind::Register(Register::Physical(d)), width_in_bits: _ }) => Ok(one(AsmOp::SetaeR8 { dst: d })),
    Opcode::SETE(Operand { kind: OperandKind::Register(Register::Physical(d)), width_in_bits: _ }) => Ok(one(AsmOp::SeteR8 { dst: d })),
    Opcode::SETE(Operand { kind: OperandKind::Memory { base: Some(Register::Physical(b)), index: ix, scale: sc, displacement: di, .. }, width_in_bits: Width::_8 }) => Ok(one(AsmOp::SeteMem { mem: mem_from_base(b, ix, sc, di) })),
    Opcode::SETO(Operand { kind: OperandKind::Register(Register::Physical(d)), width_in_bits: _ }) => Ok(one(AsmOp::SetoR8 { dst: d })),
    Opcode::SETO(Operand { kind: OperandKind::Memory { base: Some(Register::Physical(b)), index: ix, scale: sc, displacement: di, .. }, width_in_bits: Width::_8 }) => Ok(one(AsmOp::SetoMem { mem: mem_from_base(b, ix, sc, di) })),
    _ => Err(EncodeError::Unsupported(instr)),
}
}

/// The forms of the instructions of one family.
pub open spec fn lower_group1_spec(instr: Instruction) -> Result<Seq<AsmOp>, EncodeError> {
match instr.0 {
    Opcode::SETC(Operand { kind: OperandKind::Register(Register::Physical(d)), width_in_bits: _ }) => Ok(seq1(AsmOp::SetcR8 { dst: d })),
    Opcode::SETC(Operand { kind: OperandKind::Memory { base: Some(Register::Physical(b)), index: ix, scale: sc, displacement: di, .. }, width_in_bits: Width::_8 }) => Ok(seq1(AsmOp::SetcMem { mem: spec_mem_from_base(b, ix, sc, di) })),
    Opcode::SETS(Operand { kind: OperandKind::Register(Register::Physical(d)), width_in_bits: _ }) => Ok(seq1(AsmOp::SetsR8 { dst: d })),
    Opcode::SETS(Operand { kind: OperandKind::Memory { base: Some(Register::Physical(b)), index: ix, scale: sc, displacement: di, .. }, width_in_bits: Width::_8 }) => Ok(seq1(AsmOp::SetsMem { mem: spec_mem_from_base(b, ix, sc, di) })),
    Opcode::SETGE(Operand { kind: OperandKind::Register(Register::Physical(d)), width_in_bits: _ }) => Ok(seq1(AsmOp::SetgeR8 { dst: d })),
    Opcode::NEG(Operand { kind: OperandKind::Register(Register::Physical(v)), width_in_bits: _ }) => Ok(seq1(AsmOp::NegR64 { value: v })),
    Opcode::SAR(Operand { kind: OperandKind::Register(Register::Physical(a)), width_in_bits: Width::_8 }, Operand { kind: OperandKind::Register(Register::Physical(v)), width_in_bits: Width::_64 }) => Ok(seq1(AsmOp::SarR64Cl { value: v, amount: a })),
    Opcode::SAR(Operand { kind: OperandKind::Register(Register::Physical(a)), width_in_bits: Width::_8 }, Operand { kind: OperandKind::Register(Register::Physical(v)), width_in_bits: Width::_32 }) => Ok(seq1(AsmOp::SarR32Cl { value: v, amount: a })),
    Opcode::SAR(Operand { kind: OperandKind::Immediate(a), width_in_bits: Width::_64 }, Operand { kind: OperandKind::Register(Register::Physical(v)), width_in_bits: Width::_64 }) => match spec_to_i32(a) {
        Some(i) => Ok(seq1(AsmOp::SarR64I32 { value: v, amount: i })),
        None => Err(EncodeError::ImmediateOutOfRange(a)),
    },
    Opcode::SAR(Operand { kind: OperandKind::Immediate(a), width_in_bits: Width::_64 }, Operand { kind: OperandKind::Register(Register::Physical(v)), width_in_bits: Width::_32 }) => match spec_to_i32(a) {
        Some(i) => Ok(seq1(AsmOp::SarR32I32 { value: v, amount: i })),
        None => Err(EncodeError::ImmediateOutOfRange(a)),
    },
    Opcode::BEXTR(Operand { kind: OperandKind::Register(Register::Physical(c)), width_in_bits: Width::_64 }, Operand { kind: OperandKind::Register(Register::Physical(s)), width_in_bits: Width::_64 }, Operand { kind: OperandKind::Register(Register::Physical(d)), width_in_bits: Width::_64 }) => Ok(seq1(AsmOp::BextrR64 { dst: d, src: s, ctrl: c })),
    Opcode::INT(Operand { kind: OperandKind::Immediate(n), width_in_bits: _ }) => match spec_to_i32(n) {
        Some(i) => Ok(seq1(AsmOp::Int { n: i })),
        None => Err(EncodeError::ImmediateOutOfRange(n)),
    },
    _ => Err(EncodeError::Unsupported(instr)),
}
}

fn lower_group1(instr: Instruction) -> (r: Result<Vec<AsmOp>, EncodeError>)
    ensures
        same_plan(r, lower_group1_spec(instr)),
{
match instr.0 {
    Opcode::SETC(Operand { kind: OperandKind::Register(Register::Physical(d)), width_in_bits: _ }) => Ok(one(AsmOp::SetcR8 { dst: d })),
    Opcode::SETC(Operand { kind: OperandKind::Memory { base: Some(Register::Physical(b)), index: ix, scale: sc, displacement: di, .. }, width_in_bits: Width::_8 }) => Ok(one(AsmOp::SetcMem { mem: mem_from_base(b, ix, sc, di) })),
    Opcode::SETS(Operand { kind: OperandKind::Register(Register::Physical(d)), width_in_bits: _ }) => Ok(one(AsmOp::SetsR8 { dst: d })),
    Opcode::SETS(Operand { kind: OperandKind::Memory { base: Some(Register::Physical(b)), index: ix, scale: sc, displacement: di, .. }, width_in_bits: Width::_8 }) => Ok(one(AsmOp::SetsMem { mem: mem_from_base(b, ix, sc, di) })),
    Opcode::SETGE(Operand { kind: OperandKind::Register(Register::Physical(d)), width_in_bits: _ }) => Ok(one(AsmOp::SetgeR8 { dst: d })),
    Opcode::NEG(Operand { kind: OperandKind::Register(Register::Physical(v)), width_in_bits: _ }) => Ok(one(AsmOp::NegR64 { value: v })),
    Opcode::SAR(Operand { kind: OperandKind::Register(Register::Physical(a)), width_in_bits: Width::_8 }, Operand { kind: OperandKind::Register(Register::Physical(v)), width_in_bits: Width::_64 }) => Ok(one(AsmOp::SarR64Cl { value: v, amount: a })),
    Opcode::SAR(Operand { kind: OperandKind::Register(Register::Physical(a)), width_in_bits: Width::_8 }, Operand { kind: OperandKind::Register(Register::Physical(v)), width_in_bits: Width::_32 }) => Ok(one(AsmOp::SarR32Cl { value: v, amount: a })),
    Opcode::SAR(Operand { kind: OperandKind::Immediate(a), width_in_bits: Width::_64 }, Operand { kind: OperandKind::Register(Register::Physical(v)), width_in_bits: Width::_64 }) => match to_i32(a) {
        Some(i) => Ok(one(AsmOp::SarR64I32 { value: v, amount: i })),
        None => Err(EncodeError::ImmediateOutOfRange(a)),
    },
    Opcode::SAR(Operand { kind: OperandKind::Immediate(a), width_in_bits: Width::_64 }, Operand { kind: OperandKind::Register(Register::Physical(v)), width_in_bits: Width::_32 }) => match to_i32(a) {
        Some(i) => Ok(one(AsmOp::SarR32I32 { value: v, amount: i })),
        None => Err(EncodeError::ImmediateOutOfRange(a)),
    },
    Opcode::BEXTR(Operand { kind: OperandKind::Register(Register::Physical(c)), width_in_bits: Width::_64 }, Operand { kind: OperandKind::Register(Register::Physical(s)), width_in_bits: Width::_64 }, Operand { kind: OperandKind::Register(Register::Physical(d)), width_in_bits: Width::_64 }) => Ok(one(AsmOp::BextrR64 { dst: d, src: s, ctrl: c })),
    Opcode::INT(Operand { kind: OperandKind::Immediate(n), width_in_bits: _ }) => match to_i32(n) {
        Some(i) => Ok(one(AsmOp::Int { n: i })),
        None => Err(EncodeError::ImmediateOutOfRange(n)),
    },
    _ => Err(EncodeError::Unsupported(instr)),
}
}

/// The forms of the instructions of one family.
pub open spec fn lower_group2_spec(instr: Instruction) -> Result<Seq<AsmOp>, EncodeError> {
match instr.0 {
    Opcode::PUSH(Operand { kind: OperandKind::Register(Register::Physical(s)), width_in_bits: Width::_64 }) => Ok(seq1(AsmOp::PushR64 { src: s })),
    Opcode::POP(Operand { kind: OperandKind::Register(Register::Physical(d)), width_in_bits: Width::_64 }) => Ok(seq1(AsmOp::PopR64 { dst: d })),
    Opcode::SETB(Operand { kind: OperandKind::Register(Register::Physical(d)), width_in_bits: Width::_8 }) => Ok(seq1(AsmOp::SetneR8 { dst: d })),
    Opcode::SETNZ(Operand { kind: OperandKind::Register(Register::Physical(d)), width_in_bits: Width::_8 }) => Ok(seq1(AsmOp::SetnzR8 { dst: d })),
    Opcode::SETBE(Operand { kind: OperandKind::Register(Register::Physical(d)), width_in_bits: Width::_8 }) => Ok(seq1(AsmOp::SetbeR8 { dst: d })),
    Opcode::SETLE(Operand { kind: OperandKind::Register(Register::Physical(d)), width_in_bits: Width::_8 }) => Ok(seq1(AsmOp::SetleR8 { dst: d })),
    Opcode::SETL(Operand { kind: OperandKind::Register(Register::Physical(d)), width_in_bits: Width::_8 }) => Ok(seq1(AsmOp::SetlR8 { dst: d })),
    Opcode::CMOVE(Operand { kind: OperandKind::Register(Register::Physical(s)), width_in_bits: Width::_64 }, Operand { kind: OperandKind::Register(Register::Physical(d)), width_in_bits: Width::_64 }) => Ok(seq1(AsmOp::CmoveR64R64 { dst: d, src: s })),
    Opcode::MULPD(Operand { kind: OperandKind::Register(Register::Physical(s)), width_in_bits: Width::_64 }, Operand { kind: OperandKind::Register(Register::Physical(d)), width_in_bits: Width::_64 }) => Ok(seq1(AsmOp::Mulpd { dst: d, src: s })),
    Opcode::MULPS(Operand { kind: OperandKind::Register(Register::Physical(s)), width_in_bits: Width::_32 }, Operand { kind: OperandKind::Register(Register::Physical(d)), width_in_bits: Width::_32 }) => Ok(seq1(AsmOp::Mulps { dst: d, src: s })),
    Opcode::ADDPD(Operand { kind: OperandKind::Register(Register::Physical(s)), width_in_bits: Width::_64 }, Operand { kind: OperandKind::Register(Register::Physical(d)), width_in_bits: Width::_64 }) => Ok(seq1(AsmOp::Addpd { dst: d, src: s })),
    Opcode::SUBPD(Operand { kind: OperandKind::Register(Register::Physical(s)), width_in_bits: Width::_64 }, Operand { kind: OperandKind::Register(Register::Physical(d)), width_in_bits: Width::_64 }) => Ok(seq1(AsmOp::Subpd { dst: d, src: s })),
    _ => Err(EncodeError::Unsupported(instr)),
}
}

fn lower_group2(instr: Instruction) -> (r: Result<Vec<AsmOp>, EncodeError>)
    ensures
        same_plan(r, lower_group2_spec(instr)),
{
match instr.0 {
    Opcode::PUSH(Operand { kind: OperandKind::Register(Register::Physical(s)), width_in_bits: Width::_64 }) => Ok(one(AsmOp::PushR64 { src: s })),
    Opcode::POP(Operand { kind: OperandKind::Register(Register::Physical(d)), width_in_bits: Width::_64 }) => Ok(one(AsmOp::PopR64 { dst: d })),
    Opcode::SETB(Operand { kind: OperandKind::Register(Register::Physical(d)), width_in_bits: Width::_8 }) => Ok(one(AsmOp::SetneR8 { dst: d })),
    Opcode::SETNZ(Operand { kind: OperandKind::Register(Register::Physical(d)), width_in_bits: Width::_8 }) => Ok(one(AsmOp::SetnzR8 { dst: d })),
    Opcode::SETBE(Operand { kind: OperandKind::Register(Register::Physical(d)), width_in_bits: Width::_8 }) => Ok(one(AsmOp::SetbeR8 { dst: d })),
    Opcode::SETLE(Operand { kind: OperandKind::Register(Register::Physical(d)), width_in_bits: Width::_8 }) => Ok(one(AsmOp::SetleR8 { dst: d })),
    Opcode::SETL(Operand { kind: OperandKind::Register(Register::Physical(d)), width_in_bits: Width::_8 }) => Ok(one(AsmOp::SetlR8 { dst: d })),
    Opcode::CMOVE(Operand { kind: OperandKind::Register(Register::Physical(s)), width_in_bits: Width::_64 }, Operand { kind: OperandKind::Register(Register::Physical(d)), width_in_bits: Width::_64 }) => Ok(one(AsmOp::CmoveR64R64 { dst: d, src: s })),
    Opcode::MULPD(Operand { kind: OperandKind::Register(Register::Physical(s)), width_in_bits: Width::_64 }, Operand { kind: OperandKind::Register(Register::Physical(d)), width_in_bits: Width::_64 }) => Ok(one(AsmOp::Mulpd { dst: d, src: s })),
    Opcode::MULPS(Operand { kind: OperandKind::Register(Register::Physical(s)), width_in_bits: Width::_32 }, Operand { kind: OperandKind::Register(Register::Physical(d)), width_in_bits: Width::_32 }) => Ok(one(AsmOp::Mulps { dst: d, src: s })),
    Opcode::ADDPD(Operand { kind: OperandKind::Register(Register::Physical(s)), width_in_bits: Width::_64 }, Operand { kind: OperandKind::Register(Register::Physical(d)), width_in_bits: Width::_64 }) => Ok(one(AsmOp::Addpd { dst: d, src: s })),
    Opcode::SUBPD(Operand { kind: OperandKind::Register(Register::Physical(s)), width_in_bits: Width::_64 }, Operand { kind: OperandKind::Register(Register::Physical(d)), width_in_bits: Width::_64 }) => Ok(one(AsmOp::Subpd { dst: d, src: s })),
    _ => Err(EncodeError::Unsupported(instr)),
}
}

/// The forms of the instructions of one family.
pub open spec fn lower_group3_spec(instr: Instruction) -> Result<Seq<AsmOp>, EncodeError> {
match instr.0 {
    Opcode::DIVPD(Operand { kind: OperandKind::Register(Register::Physical(s)), width_in_bits: Width::_64 }, Operand { kind: OperandKind::Register(Register::Physical(d)), width_in_bits: Width::_64 }) => Ok(seq1(AsmOp::Divpd { dst: d, src: s })),
    Opcode::DIVPS(Operand { kind: OperandKind::Register(Register::Physical(s)), width_in_bits: Width::_32 }, Operand { kind: OperandKind::Register(Register::Physical(d)), width_in_bits: Width::_32 }) => Ok(seq1(AsmOp::Divps { dst: d, src: s })),
    Opcode::SUBPS(Operand { kind: OperandKind::Register(Register::Physical(s)), width_in_bits: _ }, Operand { kind: OperandKind::Register(Register::Physical(d)), width_in_bits: _ }) => Ok(seq1(AsmOp::Subps { dst: d, src: s })),
    Opcode::IMUL(Operand { kind: OperandKind::Immediate(l), width_in_bits: Width::_64 }, Operand { kind: OperandKind::Register(Register::Physical(d)), width_in_bits: Width::_64 }) => match spec_to_i32(l) {
        Some(i) => Ok(seq1(AsmOp::Imul3R64I32 { dst: d, src: d, imm: i })),
        None => Err(EncodeError::ImmediateOutOfRange(l)),
    },
    Opcode::IMUL(Operand { kind: OperandKind::Register(Register::Physical(s)), width_in_bits: Width::_64 }, Operand { kind: OperandKind::Register(Register::Physical(d)), width_in_bits: Width::_64 }) => Ok(seq1(AsmOp::Imul2R64R64 { dst: d, src: s })),
    Opcode::MUL(Operand { kind: OperandKind::Register(Register::Physical(s)), width_in_bits: Width::_64 }, Operand { kind: OperandKind::Register(Register::Physical(lo)), width_in_bits: Width::_64 }, Operand { kind: OperandKind::Register(Register::Physical(hi)), width_in_bits: Width::_64 }) => if hi == PhysicalRegister::RDX && lo == PhysicalRegister::RAX {
        Ok(seq1(AsmOp::MulR64 { src: s }))
    } else {
        Err(EncodeError::Unsupported(instr))
    },
    Opcode::IMUL1(Operand { kind: OperandKind::Register(Register::Physical(s)), width_in_bits: Width::_64 }, Operand { kind: OperandKind::Register(Register::Physical(lo)), width_in_bits: Width::_64 }, Operand { kind: OperandKind::Register(Register::Physical(hi)), width_in_bits: Width::_64 }) => if hi == PhysicalRegister::RDX && lo == PhysicalRegister::RAX {
        Ok(seq1(AsmOp::ImulR64 { src: s }))
    } else {
        Err(EncodeError::Unsupported(instr))
    },
    Opcode::CQO => Ok(seq1(AsmOp::Cqo)),
    Opcode::IDIV(Operand { kind: OperandKind::Register(Register::Physical(d)), width_in_bits: Width::_64 }) => Ok(seq1(AsmOp::IdivR64 { divisor: d })),
    Opcode::DIV(Operand { kind: OperandKind::Register(Register::Physical(d)), width_in_bits: Width::_64 }) => Ok(seq1(AsmOp::DivR64 { divisor: d })),
    Opcode::CALL { function: Operand { kind: OperandKind::Register(Register::Physical(t)), width_in_bits: Width::_64 }, .. } => Ok(seq1(AsmOp::CallR64 { target: t })),
    Opcode::OUT(Operand { kind: OperandKind::Immediate(p), width_in_bits: Width::_8 }, Operand { kind: OperandKind::Register(Register::Physical(v)), width_in_bits: Width::_8 }) => match spec_to_i32(p) {
        Some(i) => Ok(seq1(AsmOp::OutI32R8 { port: i, value: v })),
        None => Err(EncodeError::ImmediateOutOfRange(p)),
    },
    _ => Err(EncodeError::Unsupported(instr)),
}
}

fn lower_group3(instr: Instruction) -> (r: Result<Vec<AsmOp>, EncodeError>)
    ensures
        same_plan(r, lower_group3_spec(instr)),
{
match instr.0 {
    Opcode::DIVPD(Operand { kind: OperandKind::Register(Register::Physical(s)), width_in_bits: Width::_64 }, Operand { kind: OperandKind::Register(Register::Physical(d)), width_in_bits: Width::_64 }) => Ok(one(AsmOp::Divpd { dst: d, src: s })),
    Opcode::DIVPS(Operand { kind: OperandKind::Register(Register::Physical(s)), width_in_bits: Width::_32 }, Operand { kind: OperandKind::Register(Register::Physical(d)), width_in_bits: Width::_32 }) => Ok(one(AsmOp::Divps { dst: d, src: s })),
    Opcode::SUBPS(Operand { kind: OperandKind::Register(Register::Physical(s)), width_in_bits: _ }, Operand { kind: OperandKind::Register(Register::Physical(d)), width_in_bits: _ }) => Ok(one(AsmOp::Subps { dst: d, src: s })),
    Opcode::IMUL(Operand { kind: OperandKind::Immediate(l), width_in_bits: Width::_64 }, Operand { kind: OperandKind::Register(Register::Physical(d)), width_in_bits: Width::_64 }) => match to_i32(l) {
        Some(i) => Ok(one(AsmOp::Imul3R64I32 { dst: d, src: d, imm: i })),
        None => Err(EncodeError::ImmediateOutOfRange(l)),
    },
    Opcode::IMUL(Operand { kind: OperandKind::Register(Register::Physical(s)), width_in_bits: Width::_64 }, Operand { kind: OperandKind::Register(Register::Physical(d)), width_in_bits: Width::_64 }) => Ok(one(AsmOp::Imul2R64R64 { dst: d, src: s })),
    Opcode::MUL(Operand { kind: OperandKind::Register(Register::Physical(s)), width_in_bits: Width::_64 }, Operand { kind: OperandKind::Register(Register::Physical(lo)), width_in_bits: Width::_64 }, Operand { kind: OperandKind::Register(Register::Physical(hi)), width_in_bits: Width::_64 }) => if hi == PhysicalRegister::RDX && lo == PhysicalRegister::RAX {
        Ok(one(AsmOp::MulR64 { src: s }))
    } else {
        Err(EncodeError::Unsupported(instr))
    },
    Opcode::IMUL1(Operand { kind: OperandKind::Register(Register::Physical(s)), width_in_bits: Width::_64 }, Operand { kind: OperandKind::Register(Register::Physical(lo)), width_in_bits: Width::_64 }, Operand { kind: OperandKind::Register(Register::Physical(hi)), width_in_bits: Width::_64 }) => if hi == PhysicalRegister::RDX && lo == PhysicalRegister::RAX {
        Ok(one(AsmOp::ImulR64 { src: s }))
    } else {
        Err(EncodeError::Unsupported(instr))
    },
    Opcode::CQO => Ok(one(AsmOp::Cqo)),
    Opcode::IDIV(Operand { kind: OperandKind::Register(Register::Physical(d)), width_in_bits: Width::_64 }) => Ok(one(AsmOp::IdivR64 { divisor: d })),
    Opcode::DIV(Operand { kind: OperandKind::Register(Register::Physical(d)), width_in_bits: Width::_64 }) => Ok(one(AsmOp::DivR64 { divisor: d })),
    Opcode::CALL { function: Operand { kind: OperandKind::Register(Register::Physical(t)), width_in_bits: Width::_64 }, .. } => Ok(one(AsmOp::CallR64 { target: t })),
    Opcode::OUT(Operand { kind: OperandKind::Immediate(p), width_in_bits: Width::_8 }, Operand { kind: OperandKind::Register(Register::Physical(v)), width_in_bits: Width::_8 }) => match to_i32(p) {
        Some(i) => Ok(one(AsmOp::OutI32R8 { port: i, value: v })),
        None => Err(EncodeError::ImmediateOutOfRange(p)),
    },
    _ => Err(EncodeError::Unsupported(instr)),
}
}

/// The forms of the instructions of one family.
pub open spec fn lower_group4_spec(instr: Instruction) -> Result<Seq<AsmOp>, EncodeError> {
match instr.0 {
    Opcode::PINSR(Operand { kind: OperandKind::Immediate(ix), width_in_bits: Width::_8 }, Operand { kind: OperandKind::Register(Register::Physical(s)), width_in_bits: Width::_16 }, Operand { kind: OperandKind::Register(Register::Physical(d)), width_in_bits: Width::_128 }) => match spec_to_i32(ix) {
        Some(i) => Ok(seq1(AsmOp::Pinsrw { dst: d, src: s, index: i })),
        None => Err(EncodeError::ImmediateOutOfRange(ix)),
    },
    Opcode::PINSR(Operand { kind: OperandKind::Immediate(ix), width_in_bits: Width::_8 }, Operand { kind: OperandKind::Register(Register::Physical(s)), width_in_bits: Width::_32 }, Operand { kind: OperandKind::Register(Register::Physical(d)), width_in_bits: Width::_128 }) => match spec_to_i32(ix) {
        Some(i) => Ok(seq1(AsmOp::Pinsrd { dst: d, src: s, index: i })),
        None => Err(EncodeError::ImmediateOutOfRange(ix)),
    },
    Opcode::PINSR(Operand { kind: OperandKind::Immediate(ix), width_in_bits: Width::_8 }, Operand { kind: OperandKind::Register(Register::Physical(s)), width_in_bits: Width::_64 }, Operand { kind: OperandKind::Register(Register::Physical(d)), width_in_bits: Width::_128 }) => match spec_to_i32(ix) {
        Some(i) => Ok(seq1(AsmOp::Pinsrq { dst: d, src: s, index: i })),
        None => Err(EncodeError::ImmediateOutOfRange(ix)),
    },
    Opcode::PINSR(Operand { kind: OperandKind::Immediate(ix), width_in_bits: Width::_8 }, Operand { kind: OperandKind::Register(Register::Physical(s)), width_in_bits: Width::_8 }, Operand { kind: OperandKind::Register(Register::Physical(d)), width_in_bits: Width::_128 }) => match spec_to_i32(ix) {
        Some(i) => Ok(seq1(AsmOp::Pinsrb { dst: d, src: s, index: i })),
        None => Err(EncodeError::ImmediateOutOfRange(ix)),
    },
    Opcode::PEXTR(Operand { kind: OperandKind::Immediate(ix), width_in_bits: Width::_8 }, Operand { kind: OperandKind::Register(Register::Physical(s)), width_in_bits: Width::_128 }, Operand { kind: OperandKind::Register(Register::Physical(d)), width_in_bits: Width::_64 }) => match spec_to_i32(ix) {
        Some(i) => Ok(seq1(AsmOp::Pextrq { dst: d, src: s, index: i })),
        None => Err(EncodeError::ImmediateOutOfRange(ix)),
    },
    Opcode::PUNPCKL(Operand { kind: OperandKind::Register(Register::Physical(s)), width_in_bits: Width::_128 }, Operand { kind: OperandKind::Register(Register::Physical(d)), width_in_bits: Width::_128 }) => Ok(seq1(AsmOp::Punpcklqdq { dst: d, src: s })),
    Opcode::PUNPCKLWD(Operand { kind: OperandKind::Register(Register::Physical(s)), width_in_bits: Width::_128 }, Operand { kind: OperandKind::Register(Register::Physical(d)), width_in_bits: Width::_128 }) => Ok(seq1(AsmOp::Punpcklwd { dst: d, src: s })),
    Opcode::PSHUFLW(Operand { kind: OperandKind::Register(Register::Physical(s)), width_in_bits: Width::_128 }, Operand { kind: OperandKind::Register(Register::Physical(d)), width_in_bits: Width::_128 }, Operand { kind: OperandKind::Immediate(0u64), width_in_bits: Width::_8 }) => Ok(seq1(AsmOp::Pshuflw { dst: d, src: s, select: 0 })),
    Opcode::CMPXCHG(Operand { kind: OperandKind::Register(Register::Physical(s)), width_in_bits: Width::_64 }, Operand { kind: OperandKind::Memory { base: Some(Register::Physical(b)), index: ix, scale: sc, displacement: di, .. }, width_in_bits: Width::_64 }) => Ok(seq1(AsmOp::CmpxchgQwordR64 { mem: spec_mem_from_base(b, ix, sc, di), src: s })),
    Opcode::CMPXCHG(Operand { kind: OperandKind::Register(Register::Physical(s)), width_in_bits: Width::_32 }, Operand { kind: OperandKind::Memory { base: Some(Register::Physical(b)), index: ix, scale: sc, displacement: di, .. }, width_in_bits: Width::_32 }) => Ok(seq1(AsmOp::CmpxchgDwordR32 { mem: spec_mem_from_base(b, ix, sc, di), src: s })),
    Opcode::CMPXCHG(Operand { kind: OperandKind::Register(Register::Physical(s)), width_in_bits: Width::_8 }, Operand { kind: OperandKind::Memory { base: Some(Register::Physical(b)), index: ix, scale: sc, displacement: di, .. }, width_in_bits: Width::_8 }) => Ok(seq1(AsmOp::CmpxchgByteR8 { mem: spec_mem_from_base(b, ix, sc, di), src: s })),
    Opcode::INC(Operand { kind: OperandKind::Memory { base: None, index: ix, scale: sc, displacement: di, segment_override: Some(sg) }, width_in_bits: Width::_64 }) => Ok(seq1(AsmOp::IncQwordMem { mem: spec_mem_from_segment(sg, ix, sc, di) })),
    _ => Err(EncodeError::Unsupported(instr)),
}
}

fn lower_group4(instr: Instruction) -> (r: Result<Vec<AsmOp>, EncodeError>)
    ensures
        same_plan(r, lower_group4_spec(instr)),
{
match instr.0 {
    Opcode::PINSR(Operand { kind: OperandKind::Immediate(ix), width_in_bits: Width::_8 }, Operand { kind: OperandKind::Register(Register::Physical(s)), width_in_bits: Width::_16 }, Operand { kind: OperandKind::Register(Register::Physical(d)), width_in_bits: Width::_128 }) => match to_i32(ix) {
        Some(i) => Ok(one(AsmOp::Pinsrw { dst: d, src: s, index: i })),
        None => Err(EncodeError::ImmediateOutOfRange(ix)),
    },
    Opcode::PINSR(Operand { kind: OperandKind::Immediate(ix), width_in_bits: Width::_8 }, Operand { kind: OperandKind::Register(Register::Physical(s)), width_in_bits: Width::_32 }, Operand { kind: OperandKind::Register(Register::Physical(d)), width_in_bits: Width::_128 }) => match to_i32(ix) {
        Some(i) => Ok(one(AsmOp::Pinsrd { dst: d, src: s, index: i })),
        None => Err(EncodeError::ImmediateOutOfRange(ix)),
    },
    Opcode::PINSR(Operand { kind: OperandKind::Immediate(ix), width_in_bits: Width::_8 }, Operand { kind: OperandKind::Register(Register::Physical(s)), width_in_bits: Width::_64 }, Operand { kind: OperandKind::Register(Register::Physical(d)), width_in_bits: Width::_128 }) => match to_i32(ix) {
        Some(i) => Ok(one(AsmOp::Pinsrq { dst: d, src: s, index: i })),
        None => Err(EncodeError::ImmediateOutOfRange(ix)),
    },
    Opcode::PINSR(Operand { kind: OperandKind::Immediate(ix), width_in_bits: Width::_8 }, Operand { kind: OperandKind::Register(Register::Physical(s)), width_in_bits: Width::_8 }, Operand { kind: OperandKind::Register(Register::Physical(d)), width_in_bits: Width::_128 }) => match to_i32(ix) {
        Some(i) => Ok(one(AsmOp::Pinsrb { dst: d, src: s, index: i })),
        None => Err(EncodeError::ImmediateOutOfRange(ix)),
    },
    Opcode::PEXTR(Operand { kind: OperandKind::Immediate(ix), width_in_bits: Width::_8 }, Operand { kind: OperandKind::Register(Register::Physical(s)), width_in_bits: Width::_128 }, Operand { kind: OperandKind::Register(Register::Physical(d)), width_in_bits: Width::_64 }) => match to_i32(ix) {
        Some(i) => Ok(one(AsmOp::Pextrq { dst: d, src: s, index: i })),
        None => Err(EncodeError::ImmediateOutOfRange(ix)),
    },
    Opcode::PUNPCKL(Operand { kind: OperandKind::Register(Register::Physical(s)), width_in_bits: Width::_128 }, Operand { kind: OperandKind::Register(Register::Physical(d)), width_in_bits: Width::_128 }) => Ok(one(AsmOp::Punpcklqdq { dst: d, src: s })),
    Opcode::PUNPCKLWD(Operand { kind: OperandKind::Register(Register::Physical(s)), width_in_bits: Width::_128 }, Operand { kind: OperandKind::Register(Register::Physical(d)), width_in_bits: Width::_128 }) => Ok(one(AsmOp::Punpcklwd { dst: d, src: s })),
    Opcode::PSHUFLW(Operand { kind: OperandKind::Register(Register::Physical(s)), width_in_bits: Width::_128 }, Operand { kind: OperandKind::Register(Register::Physical(d)), width_in_bits: Width::_128 }, Operand { kind: OperandKind::Immediate(0u64), width_in_bits: Width::_8 }) => Ok(one(AsmOp::Pshuflw { dst: d, src: s, select: 0 })),
    Opcode::CMPXCHG(Operand { kind: OperandKind::Register(Register::Physical(s)), width_in_bits: Width::_64 }, Operand { kind: OperandKind::Memory { base: Some(Register::Physical(b)), index: ix, scale: sc, displacement: di, .. }, width_in_bits: Width::_64 }) => Ok(one(AsmOp::CmpxchgQwordR64 { mem: mem_from_base(b, ix, sc, di), src: s })),
    Opcode::CMPXCHG(Operand { kind: OperandKind::Register(Register::Physical(s)), width_in_bits: Width::_32 }, Operand { kind: OperandKind::Memory { base: Some(Register::Physical(b)), index: ix, scale: sc, displacement: di, .. }, width_in_bits: Width::_32 }) => Ok(one(AsmOp::CmpxchgDwordR32 { mem: mem_from_base(b, ix, sc, di), src: s })),
    Opcode::CMPXCHG(Operand { kind: OperandKind::Register(Register::Physical(s)), width_in_bits: Width::_8 }, Operand { kind: OperandKind::Memory { base: Some(Register::Physical(b)), index: ix, scale: sc, displacement: di, .. }, width_in_bits: Width::_8 }) => Ok(one(AsmOp::CmpxchgByteR8 { mem: mem_from_base(b, ix, sc, di), src: s })),
    Opcode::INC(Operand { kind: OperandKind::Memory { base: None, index: ix, scale: sc, displacement: di, segment_override: Some(sg) }, width_in_bits: Width::_64 }) => Ok(one(AsmOp::IncQwordMem { mem: mem_from_segment(sg, ix, sc, di) })),
    _ => Err(EncodeError::Unsupported(instr)),
}
}

/// The forms of the instructions of one family.
pub open spec fn lower_group5_spec(instr: Instruction) -> Result<Seq<AsmOp>, EncodeError> {
match instr.0 {
    Opcode::CVTSI2SD(Operand { kind: OperandKind::Register(Register::Physical(s)), width_in_bits: Width::_64 }, Operand { kind: OperandKind::Register(Register::Physical(d)), width_in_bits: Width::_64 }) => Ok(seq1(AsmOp::Cvtsi2sdR64 { dst: d, src: s })),
    Opcode::CVTSI2SD(Operand { kind: OperandKind::Register(Register::Physical(s)), width_in_bits: Width::_32 }, Operand { kind: OperandKind::Register(Register::Physical(d)), width_in_bits: Width::_64 }) => Ok(seq1(AsmOp::Cvtsi2sdR32 { dst: d, src: s })),
    Opcode::CVTSI2SS(Operand { kind: OperandKind::Register(Register::Physical(s)), width_in_bits: Width::_32 }, Operand { kind: OperandKind::Register(Register::Physical(d)), width_in_bits: Width::_32 }) => Ok(seq1(AsmOp::Cvtsi2ssR32 { dst: d, src: s })),
    Opcode::CVTSI2SS(Operand { kind: OperandKind::Register(Register::Physical(s)), width_in_bits: Width::_64 }, Operand { kind: OperandKind::Register(Register::Physical(d)), width_in_bits: Width::_32 }) => Ok(seq1(AsmOp::Cvtsi2ssR64 { dst: d, src: s })),
    Opcode::CVTSD2SI(Operand { kind: OperandKind::Register(Register::Physical(s)), width_in_bits: Width::_64 }, Operand { kind: OperandKind::Register(Register::Physical(d)), width_in_bits: Width::_32 }) => Ok(seq1(AsmOp::Cvtsd2siR32 { dst: d, src: s })),
    Opcode::CVTSS2SD(Operand { kind: OperandKind::Register(Register::Physical(s)), width_in_bits: Width::_32 }, Operand { kind: OperandKind::Register(Register::Physical(d)), width_in_bits: Width::_64 }) => Ok(seq1(AsmOp::Cvtss2sd { dst: d, src: s })),
    Opcode::CVTSD2SS(Operand { kind: OperandKind::Register(Register::Physical(s)), width_in_bits: Width::_64 }, Operand { kind: OperandKind::Register(Register::Physical(d)), width_in_bits: Width::_32 }) => Ok(seq1(AsmOp::Cvtsd2ss { dst: d, src: s })),
    Opcode::CMPPD(Operand { kind: OperandKind::Register(Register::Physical(s)), width_in_bits: Width::_64 }, Operand { kind: OperandKind::Register(Register::Physical(d)), width_in_bits: Width::_64 }, Operand { kind: OperandKind::Immediate(p), width_in_bits: Width::_8 }) => match spec_to_i32(p) {
        Some(i) => Ok(seq1(AsmOp::Cmppd { dst: d, src: s, predicate: i })),
        None => Err(EncodeError::ImmediateOutOfRange(p)),
    },
    _ => Err(EncodeError::Unsupported(instr)),
}
}

fn lower_group5(instr: Instruction) -> (r: Result<Vec<AsmOp>, EncodeError>)
    ensures
        same_plan(r, lower_group5_spec(instr)),
{
match instr.0 {
    Opcode::CVTSI2SD(Operand { kind: OperandKind::Register(Register::Physical(s)), width_in_bits: Width::_64 }, Operand { kind: OperandKind::Register(Register::Physical(d)), width_in_bits: Width::_64 }) => Ok(one(AsmOp::Cvtsi2sdR64 { dst: d, src: s })),
    Opcode::CVTSI2SD(Operand { kind: OperandKind::Register(Register::Physical(s)), width_in_bits: Width::_32 }, Operand { kind: OperandKind::Register(Register::Physical(d)), width_in_bits: Width::_64 }) => Ok(one(AsmOp::Cvtsi2sdR32 { dst: d, src: s })),
    Opcode::CVTSI2SS(Operand { kind: OperandKind::Register(Register::Physical(s)), width_in_bits: Width::_32 }, Operand { kind: OperandKind::Register(Register::Physical(d)), width_in_bits: Width::_32 }) => Ok(one(AsmOp::Cvtsi2ssR32 { dst: d, src: s })),
    Opcode::CVTSI2SS(Operand { kind: OperandKind::Register(Register::Physical(s)), width_in_bits: Width::_64 }, Operand { kind: OperandKind::Register(Register::Physical(d)), width_in_bits: Width::_32 }) => Ok(one(AsmOp::Cvtsi2ssR64 { dst: d, src: s })),
    Opcode::CVTSD2SI(Operand { kind: OperandKind::Register(Register::Physical(s)), width_in_bits: Width::_64 }, Operand { kind: OperandKind::Register(Register::Physical(d)), width_in_bits: Width::_32 }) => Ok(one(AsmOp::Cvtsd2siR32 { dst: d, src: s })),
    Opcode::CVTSS2SD(Operand { kind: OperandKind::Register(Register::Physical(s)), width_in_bits: Width::_32 }, Operand { kind: OperandKind::Register(Register::Physical(d)), width_in_bits: Width::_64 }) => Ok(one(AsmOp::Cvtss2sd { dst: d, src: s })),
    Opcode::CVTSD2SS(Operand { kind: OperandKind::Register(Register::Physical(s)), width_in_bits: Width::_64 }, Operand { kind: OperandKind::Register(Register::Physical(d)), width_in_bits: Width::_32 }) => Ok(one(AsmOp::Cvtsd2ss { dst: d, src: s })),
    Opcode::CMPPD(Operand { kind: OperandKind::Register(Register::Physical(s)), width_in_bits: Width::_64 }, Operand { kind: OperandKind::Register(Register::Physical(d)), width_in_bits: Width::_64 }, Operand { kind: OperandKind::Immediate(p), width_in_bits: Width::_8 }) => match to_i32(p) {
        Some(i) => Ok(one(AsmOp::Cmppd { dst: d, src: s, predicate: i })),
        None => Err(EncodeError::ImmediateOutOfRange(p)),
    },
    _ => Err(EncodeError::Unsupported(instr)),
}
}

/// The assembler forms an instruction is encoded as, in order, or why it
/// has none.
pub open spec fn lower_spec(instr: Instruction) -> Result<Seq<AsmOp>, EncodeError> {
match instr.0 {
    Opcode::DEAD | Opcode::LABEL => Ok(seq![]),
    Opcode::NOP => Ok(seq1(AsmOp::Nop)),
    Opcode::MOV(src, dst) => lower_mov_spec(instr, src, dst),
    Opcode::MOVZX(src, dst) => lower_movzx_spec(instr, src, dst),
    Opcode::MOVD(src, dst) => lower_movd_spec(instr, src, dst),
    Opcode::MOVQ(src, dst) => lower_movq_spec(instr, src, dst),
    Opcode::SHL(amount, value) => lower_shl_spec(instr, amount, value),
    Opcode::SETNE(dst) => lower_setne_spec(instr, dst),
    Opcode::ADD(src, dst) => lower_add_spec(instr, src, dst),
    Opcode::OR(src, dst) => lower_or_spec(instr, src, dst),
    Opcode::XOR(src, dst) => lower_xor_spec(instr, src, dst),
    Opcode::NOT(dst) => lower_not_spec(instr, dst),
    Opcode::CMOVNE(src, dst) => lower_cmovne_spec(instr, src, dst),
    Opcode::JNE(..) | Opcode::JE(..) | Opcode::JMP(..) | Opcode::RET | Opcode::SHRD(..) | Opcode::SETA(..) | Opcode::SETG(..) | Opcode::SETAE(..) | Opcode::SETE(..) | Opcode::SETO(..) => lower_group0_spec(instr),
    Opcode::SETC(..) | Opcode::SETS(..) | Opcode::SETGE(..) | Opcode::NEG(..) | Opcode::SAR(..) | Opcode::BEXTR(..) | Opcode::INT(..) => lower_group1_spec(instr),
    Opcode::PUSH(..) | Opcode::POP(..) | Opcode::SETB(..) | Opcode::SETNZ(..) | Opcode::SETBE(..) | Opcode::SETLE(..) | Opcode::SETL(..) | Opcode::CMOVE(..) | Opcode::MULPD(..) | Opcode::MULPS(..) | Opcode::ADDPD(..) | Opcode::SUBPD(..) => lower_group2_spec(instr),
    Opcode::DIVPD(..) | Opcode::DIVPS(..) | Opcode::SUBPS(..) | Opcode::IMUL(..) | Opcode::MUL(..) | Opcode::IMUL1(..) | Opcode::CQO | Opcode::IDIV(..) | Opcode::DIV(..) | Opcode::CALL { .. } | Opcode::OUT(..) => lower_group3_spec(instr),
    Opcode::PINSR(..) | Opcode::PEXTR(..) | Opcode::PUNPCKL(..) | Opcode::PUNPCKLWD(..) | Opcode::PSHUFLW(..) | Opcode::CMPXCHG(..) | Opcode::INC(..) => lower_group4_spec(instr),
    Opcode::CVTSI2SD(..) | Opcode::CVTSI2SS(..) | Opcode::CVTSD2SI(..) | Opcode::CVTSS2SD(..) | Opcode::CVTSD2SS(..) | Opcode::CMPPD(..) => lower_group5_spec(instr),
    _ => Err(EncodeError::Unsupported(instr)),
}
}

/// The assembler forms an instruction is encoded as, in order, or why it
/// has none.
#[verifier::rlimit(50)]
pub fn lower(instr: Instruction) -> (r: Result<Vec<AsmOp>, EncodeError>)
    ensures
        same_plan(r, lower_spec(instr)),
{
match instr.0 {
    Opcode::DEAD | Opcode::LABEL => Ok(Vec::new()),
    Opcode::NOP => Ok(one(AsmOp::Nop)),
    Opcode::MOV(src, dst) => lower_mov(instr, src, dst),
    Opcode::MOVZX(src, dst) => lower_movzx(instr, src, dst),
    Opcode::MOVD(src, dst) => lower_movd(instr, src, dst),
    Opcode::MOVQ(src, dst) => lower_movq(instr, src, dst),
    Opcode::SHL(amount, value) => lower_shl(instr, amount, value),
    Opcode::SETNE(dst) => lower_setne(instr, dst),
    Opcode::ADD(src, dst) => lower_add(instr, src, dst),
    Opcode::OR(src, dst) => lower_or(instr, src, dst),
    Opcode::XOR(src, dst) => lower_xor(instr, src, dst),
    Opcode::NOT(dst) => lower_not(instr, dst),
    Opcode::CMOVNE(src, dst) => lower_cmovne(instr, src, dst),
    Opcode::JNE(..) | Opcode::JE(..) | Opcode::JMP(..) | Opcode::RET | Opcode::SHRD(..) | Opcode::SETA(..) | Opcode::SETG(..) | Opcode::SETAE(..) | Opcode::SETE(..) | Opcode::SETO(..) => lower_group0(instr),
    Opcode::SETC(..) | Opcode::SETS(..) | Opcode::SETGE(..) | Opcode::NEG(..) | Opcode::SAR(..) | Opcode::BEXTR(..) | Opcode::INT(..) => lower_group1(instr),
    Opcode::PUSH(..) | Opcode::POP(..) | Opcode::SETB(..) | Opcode::SETNZ(..) | Opcode::SETBE(..) | Opcode::SETLE(..) | Opcode::SETL(..) | Opcode::CMOVE(..) | Opcode::MULPD(..) | Opcode::MULPS(..) | Opcode::ADDPD(..) | Opcode::SUBPD(..) => lower_group2(instr),
    Opcode::DIVPD(..) | Opcode::DIVPS(..) | Opcode::SUBPS(..) | Opcode::IMUL(..) | Opcode::MUL(..) | Opcode::IMUL1(..) | Opcode::CQO | Opcode::IDIV(..) | Opcode::DIV(..) | Opcode::CALL { .. } | Opcode::OUT(..) => lower_group3(instr),
    Opcode::PINSR(..) | Opcode::PEXTR(..) | Opcode::PUNPCKL(..) | Opcode::PUNPCKLWD(..) | Opcode::PSHUFLW(..) | Opcode::CMPXCHG(..) | Opcode::INC(..) => lower_group4(instr),
    Opcode::CVTSI2SD(..) | Opcode::CVTSI2SS(..) | Opcode::CVTSD2SI(..) | Opcode::CVTSS2SD(..) | Opcode::CVTSD2SS(..) | Opcode::CMPPD(..) => lower_group5(instr),
    _ => Err(EncodeError::Unsupported(instr)),
}
}

} // verus!
