//! The instructions of the x86 back end, their operands and the checks
//! made when an instruction is built.
use vstd::prelude::*;
use crate::registers::{PhysicalRegister, Register, RegisterClass, SegmentRegister};
use crate::width::Width;

verus! {

/// A reference to a block of the translation context.
#[derive(Debug, Clone, Copy, PartialEq, Eq, Structural, Hash)]
pub struct BlockRef(pub usize);

/// The scale factor applied to the index register of a memory operand.
#[derive(Debug, Clone, Copy, PartialEq, Eq, Structural, Hash)]
pub enum MemoryScale {
    S1,
    S2,
    S4,
    S8,
}

impl MemoryScale {
    /// The factor as a number.
    pub open spec fn factor(self) -> int {
        match self {
            MemoryScale::S1 => 1,
            MemoryScale::S2 => 2,
            MemoryScale::S4 => 4,
            MemoryScale::S8 => 8,
        }
    }

    /// The factor as a number.
    pub fn as_i32(self) -> (r: i32)
        ensures
            r == self.factor(),
    {
        match self {
            MemoryScale::S1 => 1,
            MemoryScale::S2 => 2,
            MemoryScale::S4 => 4,
            MemoryScale::S8 => 8,
        }
    }
}

/// What an operand is made of.
#[derive(Debug, Clone, Copy, PartialEq, Eq, Structural, Hash)]
pub enum OperandKind {
    Immediate(u64),
    Memory {
        base: Option<Register>,
        index: Option<Register>,
        scale: MemoryScale,
        displacement: i32,
        segment_override: Option<SegmentRegister>,
    },
    Register(Register),
    Target(BlockRef),
}

/// An operand together with the width at which it is accessed.
#[derive(Debug, Clone, Copy, PartialEq, Eq, Structural, Hash)]
pub struct Operand {
    pub kind: OperandKind,
    pub width_in_bits: Width,
}

impl Operand {
    /// The register of a register operand.
    pub open spec fn spec_as_register(self) -> Option<Register> {
        match self.kind {
            OperandKind::Register(r) => Some(r),
            _ => None,
        }
    }

    /// The class of the register of a register operand.
    pub open spec fn spec_register_class(self) -> Option<RegisterClass> {
        match self.kind {
            OperandKind::Register(r) => r.spec_class(),
            _ => None,
        }
    }

    /// Whether the operand is a general purpose physical register accessed
    /// at 128 bits, which no instruction can encode.
    pub open spec fn is_oversize_general(self) -> bool {
        self.width_in_bits == Width::_128 && (match self.kind {
            OperandKind::Register(Register::Physical(p)) => !p.spec_is_xmm(),
            _ => false,
        })
    }

    /// Whether the operand is an immediate.
    pub open spec fn is_immediate(self) -> bool {
        self.kind is Immediate
    }

    /// A physical register operand.
    pub open spec fn spec_preg(width_in_bits: Width, reg: PhysicalRegister) -> Operand {
        Operand { kind: OperandKind::Register(Register::Physical(reg)), width_in_bits }
    }

    /// A virtual register operand of a given class.
    pub open spec fn spec_vreg_class(class: RegisterClass, width_in_bits: Width, reg: usize) -> Operand {
        Operand { kind: OperandKind::Register(Register::Virtual { index: reg, class }), width_in_bits }
    }

    /// A virtual register operand whose class follows from its width.
    pub open spec fn spec_vreg(width_in_bits: Width, reg: usize) -> Operand {
        Operand::spec_vreg_class(
            if width_in_bits.bits() > 64 {
                RegisterClass::Xmm
            } else {
                RegisterClass::General
            },
            width_in_bits,
            reg,
        )
    }

    /// A memory operand with a base register and a displacement.
    pub open spec fn spec_mem_base_displ(width_in_bits: Width, base: Register, displacement: i32) -> Operand {
        Operand {
            kind: OperandKind::Memory {
                base: Some(base),
                index: None,
                scale: MemoryScale::S1,
                displacement,
                segment_override: None,
            },
            width_in_bits,
        }
    }

    /// The operand's kind.
    pub fn kind(&self) -> (r: &OperandKind)
        ensures
            *r == self.kind,
    {
        &self.kind
    }

    /// The operand's width.
    pub fn width(&self) -> (r: Width)
        ensures
            r == self.width_in_bits,
    {
        self.width_in_bits
    }

    /// Changes the width at which the operand is accessed.
    pub fn set_width(&mut self, width: Width)
        ensures
            final(self).width_in_bits == width,
            final(self).kind == old(self).kind,
    {
        self.width_in_bits = width;
    }

    /// The class of the register of a register operand, if it has one.
    pub fn register_class(&self) -> (r: Option<RegisterClass>)
        ensures
            r == self.spec_register_class(),
    {
        match self.as_register() {
            Some(r) => r.class(),
            None => None,
        }
    }

    /// An immediate operand.
    pub fn imm(width_in_bits: Width, value: u64) -> (r: Operand)
        ensures
            r == (Operand { kind: OperandKind::Immediate(value), width_in_bits }),
    {
        Operand { kind: OperandKind::Immediate(value), width_in_bits }
    }

    /// A physical register operand; a general purpose register cannot be
    /// accessed at 128 bits.
    pub fn preg(width_in_bits: Width, reg: PhysicalRegister) -> (r: Operand)
        requires
            !(!reg.spec_is_xmm() && width_in_bits == Width::_128),
        ensures
            r == Operand::spec_preg(width_in_bits, reg),
    {
        Operand { kind: OperandKind::Register(Register::Physical(reg)), width_in_bits }
    }

    /// A virtual register operand of the given class.
    pub fn vreg_with_class_todo_replace_vreg(
        class: RegisterClass,
        width_in_bits: Width,
        reg: usize,
    ) -> (r: Operand)
        ensures
            r == Operand::spec_vreg_class(class, width_in_bits, reg),
    {
        Operand { kind: OperandKind::Register(Register::Virtual { index: reg, class }), width_in_bits }
    }

    /// A general purpose virtual register operand.
    pub fn vreg_general(width_in_bits: Width, reg: usize) -> (r: Operand)
        ensures
            r == Operand::spec_vreg_class(RegisterClass::General, width_in_bits, reg),
    {
        Operand::vreg_with_class_todo_replace_vreg(RegisterClass::General, width_in_bits, reg)
    }

    /// An XMM virtual register operand.
    pub fn vreg_xmm(width_in_bits: Width, reg: usize) -> (r: Operand)
        ensures
            r == Operand::spec_vreg_class(RegisterClass::Xmm, width_in_bits, reg),
    {
        Operand::vreg_with_class_todo_replace_vreg(RegisterClass::Xmm, width_in_bits, reg)
    }

    /// A virtual register operand: XMM above 64 bits, general purpose
    /// otherwise.
    pub fn vreg(width_in_bits: Width, reg: usize) -> (r: Operand)
        ensures
            r == Operand::spec_vreg(width_in_bits, reg),
    {
        if Width::_64.narrower_than(&width_in_bits) {
            Operand {
                kind: OperandKind::Register(Register::Virtual { index: reg, class: RegisterClass::Xmm }),
                width_in_bits,
            }
        } else {
            Operand {
                kind: OperandKind::Register(
                    Register::Virtual { index: reg, class: RegisterClass::General },
                ),
                width_in_bits,
            }
        }
    }

    /// A global register-file slot operand.
    pub fn greg(width_in_bits: Width, reg: usize) -> (r: Operand)
        ensures
            r == (Operand { kind: OperandKind::Register(Register::Global(reg)), width_in_bits }),
    {
        Operand { kind: OperandKind::Register(Register::Global(reg)), width_in_bits }
    }

    /// A memory operand addressed by a base register.
    pub fn mem_base(width_in_bits: Width, base: Register) -> (r: Operand)
        ensures
            r == Operand::spec_mem_base_displ(width_in_bits, base, 0),
    {
        Self::mem_base_displ(width_in_bits, base, 0)
    }

    /// A memory operand addressed by a base register and a displacement.
    pub fn mem_base_displ(width_in_bits: Width, base: Register, displacement: i32) -> (r: Operand)
        ensures
            r == Operand::spec_mem_base_displ(width_in_bits, base, displacement),
    {
        Operand {
            kind: OperandKind::Memory {
                base: Some(base),
                index: None,
                scale: MemoryScale::S1,
                displacement,
                segment_override: None,
            },
            width_in_bits,
        }
    }

    /// A memory operand addressed by a base and a scaled index register.
    pub fn mem_base_idx_scale(
        width_in_bits: Width,
        base: Register,
        idx: Register,
        scale: MemoryScale,
    ) -> (r: Operand)
        ensures
            r == (Operand {
                kind: OperandKind::Memory {
                    base: Some(base),
                    index: Some(idx),
                    scale,
                    displacement: 0,
                    segment_override: None,
                },
                width_in_bits,
            }),
    {
        Self::mem_base_idx_scale_displ(width_in_bits, base, idx, scale, 0)
    }

    /// A memory operand addressed by a base, a scaled index register and a
    /// displacement.
    pub fn mem_base_idx_scale_displ(
        width_in_bits: Width,
        base: Register,
        idx: Register,
        scale: MemoryScale,
        displacement: i32,
    ) -> (r: Operand)
        ensures
            r == (Operand {
                kind: OperandKind::Memory {
                    base: Some(base),
                    index: Some(idx),
                    scale,
                    displacement,
                    segment_override: None,
                },
                width_in_bits,
            }),
    {
        Operand {
            kind: OperandKind::Memory {
                base: Some(base),
                index: Some(idx),
                scale,
                displacement,
                segment_override: None,
            },
            width_in_bits,
        }
    }

    /// A memory operand relative to a segment register; `width_in_bits` is
    /// rounded up to a width and must not be zero.
    pub fn mem_seg_displ(width_in_bits: u32, segment: SegmentRegister, displacement: i32) -> (r: Operand)
        requires
            width_in_bits != 0,
        ensures
            r == (Operand {
                kind: OperandKind::Memory {
                    base: None,
                    index: None,
                    scale: MemoryScale::S1,
                    displacement,
                    segment_override: Some(segment),
                },
                width_in_bits: Width::canonical(width_in_bits as u64),
            }),
    {
        let width = match Width::from_uncanonicalized(width_in_bits as u64) {
            Ok(w) => w,
            Err(_) => Width::_8,
        };
        Operand {
            kind: OperandKind::Memory {
                base: None,
                index: None,
                scale: MemoryScale::S1,
                displacement,
                segment_override: Some(segment),
            },
            width_in_bits: width,
        }
    }

    /// A jump target operand.
    pub fn target(target: BlockRef) -> (r: Operand)
        ensures
            r == (Operand { kind: OperandKind::Target(target), width_in_bits: Width::_64 }),
    {
        Operand { kind: OperandKind::Target(target), width_in_bits: Width::_64 }
    }

    /// The register of a register operand.
    pub fn as_register(&self) -> (r: Option<Register>)
        ensures
            r == self.spec_as_register(),
    {
        match self.kind {
            OperandKind::Register(r) => Some(r),
            _ => None,
        }
    }
}

/// The operation of an instruction, with its operands.
#[derive(Debug, Clone, Copy, PartialEq, Eq, Structural)]
pub enum Opcode {
    MOV(Operand, Operand),
    MOVZX(Operand, Operand),
    MOVSX(Operand, Operand),
    MOVQ(Operand, Operand),
    MOVD(Operand, Operand),
    CMOVE(Operand, Operand),
    CMOVNE(Operand, Operand),
    CMPXCHG(Operand, Operand),
    CVTSI2SD(Operand, Operand),
    CVTSI2SS(Operand, Operand),
    CVTSD2SI(Operand, Operand),
    CVTSS2SD(Operand, Operand),
    CVTSD2SS(Operand, Operand),
    LEA(Operand, Operand),
    SHL(Operand, Operand),
    SHR(Operand, Operand),
    SHLD(Operand, Operand, Operand),
    SHRD(Operand, Operand, Operand),
    SAR(Operand, Operand),
    ADD(Operand, Operand),
    ADC(Operand, Operand, Operand),
    SUB(Operand, Operand),
    INC(Operand),
    OR(Operand, Operand),
    XOR(Operand, Operand),
    AND(Operand, Operand),
    MUL(Operand, Operand, Operand),
    IMUL(Operand, Operand),
    IMUL1(Operand, Operand, Operand),
    IDIV(Operand),
    DIV(Operand),
    MULPD(Operand, Operand),
    MULPS(Operand, Operand),
    ADDPD(Operand, Operand),
    SUBPD(Operand, Operand),
    DIVPD(Operand, Operand),
    DIVPS(Operand, Operand),
    SUBPS(Operand, Operand),
    CMPPD(Operand, Operand, Operand),
    CQO,
    NOT(Operand),
    NEG(Operand),
    BEXTR(Operand, Operand, Operand),
    PEXTR(Operand, Operand, Operand),
    PINSR(Operand, Operand, Operand),
    PUNPCKL(Operand, Operand),
    PUNPCKLWD(Operand, Operand),
    PSHUFLW(Operand, Operand, Operand),
    JMP(Operand),
    PUSH(Operand),
    POP(Operand),
    RET,
    TEST(Operand, Operand),
    CMP(Operand, Operand),
    SETE(Operand),
    SETNE(Operand),
    SETNZ(Operand),
    SETB(Operand),
    SETBE(Operand),
    SETA(Operand),
    SETG(Operand),
    SETAE(Operand),
    SETS(Operand),
    SETO(Operand),
    SETC(Operand),
    SETGE(Operand),
    SETL(Operand),
    SETLE(Operand),
    JE(Operand),
    JNE(Operand),
    NOP,
    INT(Operand),
    OUT(Operand, Operand),
    DEAD,
    LABEL,
    CALL { function: Operand, nr_input_args: usize, nr_output_args: usize },
}

/// An x86 instruction.
#[derive(Debug, Clone, Copy, PartialEq, Eq, Structural)]
pub struct Instruction(pub Opcode);

/// Whether an instruction reads or writes an operand.
#[derive(Debug, Clone, Copy, PartialEq, Eq, Structural)]
pub enum OperandDirection {
    NoAccess,
    In,
    Out,
    InOut,
}

/// How an instruction uses a register.
#[derive(Debug, Clone, Copy, PartialEq, Eq, Structural)]
pub enum UseDef {
    Use(Register),
    Def(Register),
    UseDef(Register),
}

impl UseDef {
    /// The use a direction stands for; no direction stands for no use.
    pub open spec fn spec_from_direction(direction: OperandDirection, register: Register) -> Option<UseDef> {
        match direction {
            OperandDirection::NoAccess => None,
            OperandDirection::In => Some(UseDef::Use(register)),
            OperandDirection::Out => Some(UseDef::Def(register)),
            OperandDirection::InOut => Some(UseDef::UseDef(register)),
        }
    }

    /// The use a direction stands for; no direction stands for no use.
    pub fn from_operand_direction(direction: OperandDirection, register: Register) -> (r: Option<UseDef>)
        ensures
            r == Self::spec_from_direction(direction, register),
    {
        match direction {
            OperandDirection::NoAccess => None,
            OperandDirection::In => Some(UseDef::Use(register)),
            OperandDirection::Out => Some(UseDef::Def(register)),
            OperandDirection::InOut => Some(UseDef::UseDef(register)),
        }
    }

    /// Whether the register is read.
    pub fn has_use(&self) -> (r: bool)
        ensures
            r == (self is Use || self is UseDef),
    {
        match self {
            UseDef::Use(_) | UseDef::UseDef(_) => true,
            _ => false,
        }
    }

    /// Whether the register is written.
    pub fn has_def(&self) -> (r: bool)
        ensures
            r == (self is Def || self is UseDef),
    {
        match self {
            UseDef::Def(_) | UseDef::UseDef(_) => true,
            _ => false,
        }
    }

    /// Whether the register is both read and written.
    pub fn is_usedef(&self) -> (r: bool)
        ensures
            r == (self is UseDef),
    {
        match self {
            UseDef::UseDef(_) => true,
            _ => false,
        }
    }

    /// The register concerned.
    pub open spec fn register(self) -> Register {
        match self {
            UseDef::Use(r) => r,
            UseDef::Def(r) => r,
            UseDef::UseDef(r) => r,
        }
    }
}

/// Why an instruction could not be built.
#[derive(Debug, Clone, Copy, PartialEq, Eq, Structural)]
pub enum Error {
    /// The operands of a move have different widths.
    MovWidthMismatch { src: Operand, dst: Operand },
    /// An immediate cannot be moved into an XMM register.
    MovImmediateXmm { src: Operand, dst: Operand },
    /// A general purpose register was used at more than 64 bits.
    OversizeGeneralRegister(Operand),
    /// A zero extension must widen its operand.
    MovZeroExtendDestinationNotGreater { src: Operand, dst: Operand },
    /// Two immediates cannot be tested against each other.
    TestImmediates,
    /// XMM registers cannot be zero extended.
    MovZxXmm,
    /// `movq` moves between register classes.
    MovqSameClass(Option<RegisterClass>),
    /// `movq` needs operands of one width.
    MovqDifferentWidths(Width, Width),
    /// `movd` moves between register classes.
    MovdSameClass(Option<RegisterClass>),
    /// `movd` needs operands of one width.
    MovdDifferentWidths(Width, Width),
    /// A move cannot cross register classes.
    MovDifferentClass(RegisterClass, RegisterClass),
}

/// What building a move gives for a pair of operands.
pub open spec fn mov_spec(src: Operand, dst: Operand) -> Result<Instruction, Error> {
    if src.is_oversize_general() {
        Err(Error::OversizeGeneralRegister(src))
    } else if dst.is_oversize_general() {
        Err(Error::OversizeGeneralRegister(dst))
    } else if src.width_in_bits != Width::_128 && src.width_in_bits != dst.width_in_bits {
        Err(Error::MovWidthMismatch { src, dst })
    } else if src.is_immediate() && src.width_in_bits == Width::_128 {
        Err(Error::MovImmediateXmm { src, dst })
    } else if src.spec_register_class() is Some && dst.spec_register_class() is Some
        && src.spec_register_class() != dst.spec_register_class() {
        Err(Error::MovDifferentClass(src.spec_register_class().unwrap(), dst.spec_register_class().unwrap()))
    } else {
        Ok(Instruction(Opcode::MOV(src, dst)))
    }
}

/// What building a zero extension gives for a pair of operands.
pub open spec fn movzx_spec(src: Operand, dst: Operand) -> Result<Instruction, Error> {
    if src.width_in_bits.bits() >= dst.width_in_bits.bits() {
        Err(Error::MovZeroExtendDestinationNotGreater { src, dst })
    } else if src.is_immediate() && dst.width_in_bits == Width::_128 {
        Err(Error::MovImmediateXmm { src, dst })
    } else if src.spec_as_register() is Some && src.spec_as_register().unwrap().spec_class() == Some(RegisterClass::Xmm) {
        Err(Error::MovZxXmm)
    } else if dst.spec_as_register() is Some && dst.spec_as_register().unwrap().spec_class() == Some(RegisterClass::Xmm) {
        Err(Error::MovZxXmm)
    } else {
        Ok(Instruction(Opcode::MOVZX(src, dst)))
    }
}

impl Instruction {
    /// An instruction `adc`.
    pub fn adc(a: Operand, b: Operand, c: Operand) -> (instr: Instruction)
        ensures
            instr == Instruction(Opcode::ADC(a, b, c)),
    {
        Instruction(Opcode::ADC(a, b, c))
    }

    /// An instruction `inc`.
    pub fn inc(op: Operand) -> (instr: Instruction)
        ensures
            instr == Instruction(Opcode::INC(op)),
    {
        Instruction(Opcode::INC(op))
    }

    /// A move; fails where the operands cannot be moved between.
    pub fn mov(src: Operand, dst: Operand) -> (r: Result<Instruction, Error>)
        ensures
            r == mov_spec(src, dst),
    {
        if src.width_in_bits == Width::_128 {
            if let OperandKind::Register(Register::Physical(phys)) = src.kind {
                if phys.is_gpr() {
                    return Err(Error::OversizeGeneralRegister(src));
                }
            }
        }
        if dst.width_in_bits == Width::_128 {
            if let OperandKind::Register(Register::Physical(phys)) = dst.kind {
                if phys.is_gpr() {
                    return Err(Error::OversizeGeneralRegister(dst));
                }
            }
        }
        if src.width_in_bits != Width::_128 && src.width_in_bits != dst.width_in_bits {
            return Err(Error::MovWidthMismatch { src, dst });
        }
        if let OperandKind::Immediate(_) = src.kind {
            if src.width_in_bits == Width::_128 {
                return Err(Error::MovImmediateXmm { src, dst });
            }
        }
        if let (Some(src_class), Some(dst_class)) = (src.register_class(), dst.register_class()) {
            if src_class != dst_class {
                return Err(Error::MovDifferentClass(src_class, dst_class));
            }
        }
        Ok(Instruction(Opcode::MOV(src, dst)))
    }

    /// A zero-extending move; the destination must be wider than the source
    /// and neither may be an XMM register.
    pub fn movzx(src: Operand, dst: Operand) -> (r: Result<Instruction, Error>)
        ensures
            r == movzx_spec(src, dst),
    {
        if !src.width_in_bits.narrower_than(&dst.width_in_bits) {
            return Err(Error::MovZeroExtendDestinationNotGreater { src, dst });
        }
        if let OperandKind::Immediate(_) = src.kind {
            if dst.width_in_bits == Width::_128 {
                return Err(Error::MovImmediateXmm { src, dst });
            }
        }
        if let Some(src_reg) = src.as_register() {
            if let Some(RegisterClass::Xmm) = src_reg.class() {
                return Err(Error::MovZxXmm);
            }
        }
        if let Some(dst_reg) = dst.as_register() {
            if let Some(RegisterClass::Xmm) = dst_reg.class() {
                return Err(Error::MovZxXmm);
            }
        }
        Ok(Instruction(Opcode::MOVZX(src, dst)))
    }

    /// A `movd` between register classes, at one width.
    pub fn movd(src: Operand, dst: Operand) -> (r: Result<Instruction, Error>)
        ensures
            src.spec_register_class() == dst.spec_register_class() ==> r == Err::<Instruction, Error>(
                Error::MovdSameClass(src.spec_register_class()),
            ),
            src.spec_register_class() != dst.spec_register_class() && src.width_in_bits
                != dst.width_in_bits ==> r == Err::<Instruction, Error>(
                Error::MovdDifferentWidths(src.width_in_bits, dst.width_in_bits),
            ),
            src.spec_register_class() != dst.spec_register_class() && src.width_in_bits
                == dst.width_in_bits ==> r == Ok::<Instruction, Error>(Instruction(Opcode::MOVD(src, dst))),
    {
        let sc = src.register_class();
        let dc = dst.register_class();
        if same_class(sc, dc) {
            return Err(Error::MovdSameClass(sc));
        }
        if src.width_in_bits != dst.width_in_bits {
            return Err(Error::MovdDifferentWidths(src.width_in_bits, dst.width_in_bits));
        }
        Ok(Instruction(Opcode::MOVD(src, dst)))
    }

    /// A `movq` between register classes, at one width.
    pub fn movq(src: Operand, dst: Operand) -> (r: Result<Instruction, Error>)
        ensures
            src.spec_register_class() == dst.spec_register_class() ==> r == Err::<Instruction, Error>(
                Error::MovqSameClass(src.spec_register_class()),
            ),
            src.spec_register_class() != dst.spec_register_class() && src.width_in_bits
                != dst.width_in_bits ==> r == Err::<Instruction, Error>(
                Error::MovqDifferentWidths(src.width_in_bits, dst.width_in_bits),
            ),
            src.spec_register_class() != dst.spec_register_class() && src.width_in_bits
                == dst.width_in_bits ==> r == Ok::<Instruction, Error>(Instruction(Opcode::MOVQ(src, dst))),
    {
        let sc = src.register_class();
        let dc = dst.register_class();
        if same_class(sc, dc) {
            return Err(Error::MovqSameClass(sc));
        }
        if src.width_in_bits != dst.width_in_bits {
            return Err(Error::MovqDifferentWidths(src.width_in_bits, dst.width_in_bits));
        }
        Ok(Instruction(Opcode::MOVQ(src, dst)))
    }

    /// A sign-extending move; the destination must be wider than the source.
    pub fn movsx(src: Operand, dst: Operand) -> (r: Instruction)
        requires
            src.width_in_bits.bits() < dst.width_in_bits.bits(),
        ensures
            r == Instruction(Opcode::MOVSX(src, dst)),
    {
        Instruction(Opcode::MOVSX(src, dst))
    }

    /// An instruction `lea`.
    pub fn lea(src: Operand, dst: Operand) -> (instr: Instruction)
        ensures
            instr == Instruction(Opcode::LEA(src, dst)),
    {
        Instruction(Opcode::LEA(src, dst))
    }

    /// An instruction `and`.
    pub fn and(src: Operand, dst: Operand) -> (instr: Instruction)
        ensures
            instr == Instruction(Opcode::AND(src, dst)),
    {
        Instruction(Opcode::AND(src, dst))
    }

    /// An instruction `mul`.
    pub fn mul(src: Operand, dst_lo: Operand, dst_hi: Operand) -> (instr: Instruction)
        ensures
            instr == Instruction(Opcode::MUL(src, dst_lo, dst_hi)),
    {
        Instruction(Opcode::MUL(src, dst_lo, dst_hi))
    }

    /// An instruction `imul`.
    pub fn imul(src: Operand, dst: Operand) -> (instr: Instruction)
        ensures
            instr == Instruction(Opcode::IMUL(src, dst)),
    {
        Instruction(Opcode::IMUL(src, dst))
    }

    /// An instruction `mulpd`.
    pub fn mulpd(src: Operand, dst: Operand) -> (instr: Instruction)
        ensures
            instr == Instruction(Opcode::MULPD(src, dst)),
    {
        Instruction(Opcode::MULPD(src, dst))
    }

    /// An instruction `mulps`.
    pub fn mulps(src: Operand, dst: Operand) -> (instr: Instruction)
        ensures
            instr == Instruction(Opcode::MULPS(src, dst)),
    {
        Instruction(Opcode::MULPS(src, dst))
    }

    /// An instruction `addpd`.
    pub fn addpd(src: Operand, dst: Operand) -> (instr: Instruction)
        ensures
            instr == Instruction(Opcode::ADDPD(src, dst)),
    {
        Instruction(Opcode::ADDPD(src, dst))
    }

    /// An instruction `subpd`.
    pub fn subpd(src: Operand, dst: Operand) -> (instr: Instruction)
        ensures
            instr == Instruction(Opcode::SUBPD(src, dst)),
    {
        Instruction(Opcode::SUBPD(src, dst))
    }

    /// An instruction `divpd`.
    pub fn divpd(src: Operand, dst: Operand) -> (instr: Instruction)
        ensures
            instr == Instruction(Opcode::DIVPD(src, dst)),
    {
        Instruction(Opcode::DIVPD(src, dst))
    }

    /// An instruction `divps`.
    pub fn divps(src: Operand, dst: Operand) -> (instr: Instruction)
        ensures
            instr == Instruction(Opcode::DIVPS(src, dst)),
    {
        Instruction(Opcode::DIVPS(src, dst))
    }

    /// An instruction `subps`.
    pub fn subps(src: Operand, dst: Operand) -> (instr: Instruction)
        ensures
            instr == Instruction(Opcode::SUBPS(src, dst)),
    {
        Instruction(Opcode::SUBPS(src, dst))
    }

    /// An instruction `cmppd`.
    pub fn cmppd(src: Operand, dst: Operand, predicate: Operand) -> (instr: Instruction)
        ensures
            instr == Instruction(Opcode::CMPPD(src, dst, predicate)),
    {
        Instruction(Opcode::CMPPD(src, dst, predicate))
    }

    /// An instruction `imul1`.
    pub fn imul1(src: Operand, dst_lo: Operand, dst_hi: Operand) -> (instr: Instruction)
        ensures
            instr == Instruction(Opcode::IMUL1(src, dst_lo, dst_hi)),
    {
        Instruction(Opcode::IMUL1(src, dst_lo, dst_hi))
    }

    /// An instruction `idiv`.
    pub fn idiv(divisor: Operand) -> (instr: Instruction)
        ensures
            instr == Instruction(Opcode::IDIV(divisor)),
    {
        Instruction(Opcode::IDIV(divisor))
    }

    /// An instruction `div`.
    pub fn div(divisor: Operand) -> (instr: Instruction)
        ensures
            instr == Instruction(Opcode::DIV(divisor)),
    {
        Instruction(Opcode::DIV(divisor))
    }

    /// An instruction `cqo`.
    pub fn cqo() -> (r: Instruction)
        ensures
            r == Instruction(Opcode::CQO),
    {
        Instruction(Opcode::CQO)
    }

    /// An instruction `shl`.
    pub fn shl(amount: Operand, op0: Operand) -> (instr: Instruction)
        ensures
            instr == Instruction(Opcode::SHL(amount, op0)),
    {
        Instruction(Opcode::SHL(amount, op0))
    }

    /// An instruction `cmpxchg`.
    pub fn cmpxchg(src: Operand, dst: Operand) -> (instr: Instruction)
        ensures
            instr == Instruction(Opcode::CMPXCHG(src, dst)),
    {
        Instruction(Opcode::CMPXCHG(src, dst))
    }

    /// A logical right shift; above 64 bits an immediate amount must be a
    /// whole number of bytes.
    pub fn shr(amount: Operand, op0: Operand) -> (r: Instruction)
        requires
            op0.width_in_bits.bits() > 64 && amount.kind is Immediate ==> amount.kind->Immediate_0 % 8 == 0,
        ensures
            r == Instruction(Opcode::SHR(amount, op0)),
    {
        Instruction(Opcode::SHR(amount, op0))
    }

    /// An instruction `shld`.
    pub fn shld(amount: Operand, hi: Operand, lo: Operand) -> (instr: Instruction)
        ensures
            instr == Instruction(Opcode::SHLD(amount, hi, lo)),
    {
        Instruction(Opcode::SHLD(amount, hi, lo))
    }

    /// An instruction `shrd`.
    pub fn shrd(amount: Operand, hi: Operand, lo: Operand) -> (instr: Instruction)
        ensures
            instr == Instruction(Opcode::SHRD(amount, hi, lo)),
    {
        Instruction(Opcode::SHRD(amount, hi, lo))
    }

    /// An instruction `sar`.
    pub fn sar(amount: Operand, op0: Operand) -> (instr: Instruction)
        ensures
            instr == Instruction(Opcode::SAR(amount, op0)),
    {
        Instruction(Opcode::SAR(amount, op0))
    }

    /// An instruction `bextr`.
    pub fn bextr(ctrl: Operand, src: Operand, dst: Operand) -> (instr: Instruction)
        ensures
            instr == Instruction(Opcode::BEXTR(ctrl, src, dst)),
    {
        Instruction(Opcode::BEXTR(ctrl, src, dst))
    }

    /// An instruction `punpckl`.
    pub fn punpckl(src: Operand, dst: Operand) -> (instr: Instruction)
        ensures
            instr == Instruction(Opcode::PUNPCKL(src, dst)),
    {
        Instruction(Opcode::PUNPCKL(src, dst))
    }

    /// An instruction `pshuflw`.
    pub fn pshuflw(src: Operand, dst: Operand, select: Operand) -> (instr: Instruction)
        ensures
            instr == Instruction(Opcode::PSHUFLW(src, dst, select)),
    {
        Instruction(Opcode::PSHUFLW(src, dst, select))
    }

    /// An instruction `punpcklwd`.
    pub fn punpcklwd(src: Operand, dst: Operand) -> (instr: Instruction)
        ensures
            instr == Instruction(Opcode::PUNPCKLWD(src, dst)),
    {
        Instruction(Opcode::PUNPCKLWD(src, dst))
    }

    /// An instruction `pinsr`.
    pub fn pinsr(index: Operand, src: Operand, dst: Operand) -> (instr: Instruction)
        ensures
            instr == Instruction(Opcode::PINSR(index, src, dst)),
    {
        Instruction(Opcode::PINSR(index, src, dst))
    }

    /// An instruction `pextr`.
    pub fn pextr(index: Operand, src: Operand, dst: Operand) -> (instr: Instruction)
        ensures
            instr == Instruction(Opcode::PEXTR(index, src, dst)),
    {
        Instruction(Opcode::PEXTR(index, src, dst))
    }

    /// An instruction `jmp` to a block.
    pub fn jmp(block: BlockRef) -> (r: Instruction)
        ensures
            r == Instruction(Opcode::JMP(Operand { kind: OperandKind::Target(block), width_in_bits: Width::_64 })),
    {
        Instruction(Opcode::JMP(Operand::target(block)))
    }

    /// An instruction `je` to a block.
    pub fn je(block: BlockRef) -> (r: Instruction)
        ensures
            r == Instruction(Opcode::JE(Operand { kind: OperandKind::Target(block), width_in_bits: Width::_64 })),
    {
        Instruction(Opcode::JE(Operand::target(block)))
    }

    /// An instruction `jne` to a block.
    pub fn jne(block: BlockRef) -> (r: Instruction)
        ensures
            r == Instruction(Opcode::JNE(Operand { kind: OperandKind::Target(block), width_in_bits: Width::_64 })),
    {
        Instruction(Opcode::JNE(Operand::target(block)))
    }

    /// An instruction `push`.
    pub fn push(src: Operand) -> (instr: Instruction)
        ensures
            instr == Instruction(Opcode::PUSH(src)),
    {
        Instruction(Opcode::PUSH(src))
    }

    /// An instruction `pop`.
    pub fn pop(dest: Operand) -> (instr: Instruction)
        ensures
            instr == Instruction(Opcode::POP(dest)),
    {
        Instruction(Opcode::POP(dest))
    }

    /// An instruction `ret`.
    pub fn ret() -> (r: Instruction)
        ensures
            r == Instruction(Opcode::RET),
    {
        Instruction(Opcode::RET)
    }

    /// An instruction `nop`.
    pub fn nop() -> (r: Instruction)
        ensures
            r == Instruction(Opcode::NOP),
    {
        Instruction(Opcode::NOP)
    }

    /// A `test`; two immediates cannot be tested.
    pub fn test(op0: Operand, op1: Operand) -> (r: Result<Instruction, Error>)
        ensures
            op0.is_immediate() && op1.is_immediate() ==> r == Err::<Instruction, Error>(Error::TestImmediates),
            !(op0.is_immediate() && op1.is_immediate()) ==> r == Ok::<Instruction, Error>(
                Instruction(Opcode::TEST(op0, op1)),
            ),
    {
        if let (OperandKind::Immediate(_), OperandKind::Immediate(_)) = (op0.kind, op1.kind) {
            return Err(Error::TestImmediates);
        }
        Ok(Instruction(Opcode::TEST(op0, op1)))
    }

    /// An instruction `cmp`.
    pub fn cmp(op0: Operand, op1: Operand) -> (instr: Instruction)
        ensures
            instr == Instruction(Opcode::CMP(op0, op1)),
    {
        Instruction(Opcode::CMP(op0, op1))
    }

    /// An instruction `seto`.
    pub fn seto(r: Operand) -> (instr: Instruction)
        ensures
            instr == Instruction(Opcode::SETO(r)),
    {
        Instruction(Opcode::SETO(r))
    }

    /// An instruction `setc`.
    pub fn setc(r: Operand) -> (instr: Instruction)
        ensures
            instr == Instruction(Opcode::SETC(r)),
    {
        Instruction(Opcode::SETC(r))
    }

    /// An instruction `sete`.
    pub fn sete(r: Operand) -> (instr: Instruction)
        ensures
            instr == Instruction(Opcode::SETE(r)),
    {
        Instruction(Opcode::SETE(r))
    }

    /// An instruction `sets`.
    pub fn sets(r: Operand) -> (instr: Instruction)
        ensures
            instr == Instruction(Opcode::SETS(r)),
    {
        Instruction(Opcode::SETS(r))
    }

    /// An instruction `setne`.
    pub fn setne(r: Operand) -> (instr: Instruction)
        ensures
            instr == Instruction(Opcode::SETNE(r)),
    {
        Instruction(Opcode::SETNE(r))
    }

    /// An instruction `setnz`.
    pub fn setnz(r: Operand) -> (instr: Instruction)
        ensures
            instr == Instruction(Opcode::SETNZ(r)),
    {
        Instruction(Opcode::SETNZ(r))
    }

    /// An instruction `setb`.
    pub fn setb(r: Operand) -> (instr: Instruction)
        ensures
            instr == Instruction(Opcode::SETB(r)),
    {
        Instruction(Opcode::SETB(r))
    }

    /// An instruction `setl`.
    pub fn setl(r: Operand) -> (instr: Instruction)
        ensures
            instr == Instruction(Opcode::SETL(r)),
    {
        Instruction(Opcode::SETL(r))
    }

    /// An instruction `setle`.
    pub fn setle(r: Operand) -> (instr: Instruction)
        ensures
            instr == Instruction(Opcode::SETLE(r)),
    {
        Instruction(Opcode::SETLE(r))
    }

    /// An instruction `setge`.
    pub fn setge(r: Operand) -> (instr: Instruction)
        ensures
            instr == Instruction(Opcode::SETGE(r)),
    {
        Instruction(Opcode::SETGE(r))
    }

    /// An instruction `setg`.
    pub fn setg(r: Operand) -> (instr: Instruction)
        ensures
            instr == Instruction(Opcode::SETG(r)),
    {
        Instruction(Opcode::SETG(r))
    }

    /// An instruction `setbe`.
    pub fn setbe(r: Operand) -> (instr: Instruction)
        ensures
            instr == Instruction(Opcode::SETBE(r)),
    {
        Instruction(Opcode::SETBE(r))
    }

    /// An instruction `seta`.
    pub fn seta(r: Operand) -> (instr: Instruction)
        ensures
            instr == Instruction(Opcode::SETA(r)),
    {
        Instruction(Opcode::SETA(r))
    }

    /// An instruction `setae`.
    pub fn setae(r: Operand) -> (instr: Instruction)
        ensures
            instr == Instruction(Opcode::SETAE(r)),
    {
        Instruction(Opcode::SETAE(r))
    }

    /// An instruction `out`.
    pub fn out(port: Operand, value: Operand) -> (instr: Instruction)
        ensures
            instr == Instruction(Opcode::OUT(port, value)),
    {
        Instruction(Opcode::OUT(port, value))
    }

    /// An instruction `not`.
    pub fn not(r: Operand) -> (instr: Instruction)
        ensures
            instr == Instruction(Opcode::NOT(r)),
    {
        Instruction(Opcode::NOT(r))
    }

    /// An instruction `neg`.
    pub fn neg(r: Operand) -> (instr: Instruction)
        ensures
            instr == Instruction(Opcode::NEG(r)),
    {
        Instruction(Opcode::NEG(r))
    }

    /// An instruction `interrupt`.
    pub fn interrupt(n: Operand) -> (instr: Instruction)
        ensures
            instr == Instruction(Opcode::INT(n)),
    {
        Instruction(Opcode::INT(n))
    }

    /// An instruction `cmove`.
    pub fn cmove(src: Operand, dest: Operand) -> (instr: Instruction)
        ensures
            instr == Instruction(Opcode::CMOVE(src, dest)),
    {
        Instruction(Opcode::CMOVE(src, dest))
    }

    /// An instruction `cvtsi2sd`.
    pub fn cvtsi2sd(src: Operand, dest: Operand) -> (instr: Instruction)
        ensures
            instr == Instruction(Opcode::CVTSI2SD(src, dest)),
    {
        Instruction(Opcode::CVTSI2SD(src, dest))
    }

    /// An instruction `cvtsi2ss`.
    pub fn cvtsi2ss(src: Operand, dest: Operand) -> (instr: Instruction)
        ensures
            instr == Instruction(Opcode::CVTSI2SS(src, dest)),
    {
        Instruction(Opcode::CVTSI2SS(src, dest))
    }

    /// An instruction `cvtsds2i`.
    pub fn cvtsds2i(src: Operand, dest: Operand) -> (instr: Instruction)
        ensures
            instr == Instruction(Opcode::CVTSD2SI(src, dest)),
    {
        Instruction(Opcode::CVTSD2SI(src, dest))
    }

    /// An instruction `cvtss2sd`.
    pub fn cvtss2sd(src: Operand, dst: Operand) -> (instr: Instruction)
        ensures
            instr == Instruction(Opcode::CVTSS2SD(src, dst)),
    {
        Instruction(Opcode::CVTSS2SD(src, dst))
    }

    /// An instruction `cvtsd2ss`.
    pub fn cvtsd2ss(src: Operand, dst: Operand) -> (instr: Instruction)
        ensures
            instr == Instruction(Opcode::CVTSD2SS(src, dst)),
    {
        Instruction(Opcode::CVTSD2SS(src, dst))
    }

    /// An instruction `cmovne`.
    pub fn cmovne(src: Operand, dest: Operand) -> (instr: Instruction)
        ensures
            instr == Instruction(Opcode::CMOVNE(src, dest)),
    {
        Instruction(Opcode::CMOVNE(src, dest))
    }

    /// A call through an operand, with the number of argument and result
    /// registers it uses.
    pub fn call(function: Operand, nr_input_args: usize, nr_output_args: usize) -> (r: Instruction)
        ensures
            r == Instruction(Opcode::CALL { function, nr_input_args, nr_output_args }),
    {
        Instruction(Opcode::CALL { function, nr_input_args, nr_output_args })
    }

    /// An instruction `add`.
    pub fn add(src: Operand, dst: Operand) -> (instr: Instruction)
        ensures
            instr == Instruction(Opcode::ADD(src, dst)),
    {
        Instruction(Opcode::ADD(src, dst))
    }

    /// An instruction `sub`.
    pub fn sub(src: Operand, dst: Operand) -> (instr: Instruction)
        ensures
            instr == Instruction(Opcode::SUB(src, dst)),
    {
        Instruction(Opcode::SUB(src, dst))
    }

    /// An instruction `or`.
    pub fn or(src: Operand, dst: Operand) -> (instr: Instruction)
        ensures
            instr == Instruction(Opcode::OR(src, dst)),
    {
        Instruction(Opcode::OR(src, dst))
    }

    /// An instruction `xor`.
    pub fn xor(src: Operand, dst: Operand) -> (instr: Instruction)
        ensures
            instr == Instruction(Opcode::XOR(src, dst)),
    {
        Instruction(Opcode::XOR(src, dst))
    }

    /// The operands the instruction names, with how it uses each, in the
    /// order the register allocator visits them.
    pub open spec fn operand_slots(self) -> Seq<(OperandDirection, Operand)> {
        match self.0 {
            Opcode::MOV(src, dst) => seq![(OperandDirection::In, src), (OperandDirection::Out, dst)],
            Opcode::MOVZX(src, dst) => seq![(OperandDirection::In, src), (OperandDirection::Out, dst)],
            Opcode::MOVSX(src, dst) => seq![(OperandDirection::In, src), (OperandDirection::Out, dst)],
            Opcode::MOVQ(src, dst) => seq![(OperandDirection::In, src), (OperandDirection::Out, dst)],
            Opcode::MOVD(src, dst) => seq![(OperandDirection::In, src), (OperandDirection::Out, dst)],
            Opcode::CMOVE(src, dst) => seq![(OperandDirection::In, src), (OperandDirection::Out, dst)],
            Opcode::CMOVNE(src, dst) => seq![(OperandDirection::In, src), (OperandDirection::Out, dst)],
            Opcode::CMPXCHG(src, dst) => seq![(OperandDirection::In, src), (OperandDirection::InOut, dst)],
            Opcode::CVTSI2SD(src, dst) => seq![(OperandDirection::In, src), (OperandDirection::Out, dst)],
            Opcode::CVTSI2SS(src, dst) => seq![(OperandDirection::In, src), (OperandDirection::Out, dst)],
            Opcode::CVTSD2SI(src, dst) => seq![(OperandDirection::In, src), (OperandDirection::Out, dst)],
            Opcode::CVTSS2SD(src, dst) => seq![(OperandDirection::In, src), (OperandDirection::Out, dst)],
            Opcode::CVTSD2SS(src, dst) => seq![(OperandDirection::In, src), (OperandDirection::Out, dst)],
            Opcode::LEA(src, dst) => seq![(OperandDirection::In, src), (OperandDirection::Out, dst)],
            Opcode::SHL(src, dst) => seq![(OperandDirection::In, src), (OperandDirection::InOut, dst)],
            Opcode::SHR(src, dst) => seq![(OperandDirection::In, src), (OperandDirection::InOut, dst)],
            Opcode::SHLD(amount, hi, lo) => seq![(OperandDirection::In, amount), (OperandDirection::In, lo), (OperandDirection::InOut, hi)],
            Opcode::SHRD(amount, hi, lo) => seq![(OperandDirection::In, amount), (OperandDirection::In, lo), (OperandDirection::InOut, hi)],
            Opcode::SAR(src, dst) => seq![(OperandDirection::In, src), (OperandDirection::InOut, dst)],
            Opcode::ADD(src, dst) => seq![(OperandDirection::In, src), (OperandDirection::InOut, dst)],
            Opcode::ADC(a, b, c) => seq![(OperandDirection::In, a), (OperandDirection::In, b), (OperandDirection::InOut, c)],
            Opcode::SUB(src, dst) => seq![(OperandDirection::In, src), (OperandDirection::InOut, dst)],
            Opcode::INC(r) => seq![(OperandDirection::InOut, r)],
            Opcode::OR(src, dst) => seq![(OperandDirection::In, src), (OperandDirection::InOut, dst)],
            Opcode::XOR(src, dst) => seq![(OperandDirection::In, src), (OperandDirection::InOut, dst)],
            Opcode::AND(src, dst) => seq![(OperandDirection::In, src), (OperandDirection::InOut, dst)],
            Opcode::MUL(src, lo, hi) => seq![(OperandDirection::In, src), (OperandDirection::InOut, lo), (OperandDirection::Out, hi)],
            Opcode::IMUL(src, dst) => seq![(OperandDirection::In, src), (OperandDirection::InOut, dst)],
            Opcode::IMUL1(src, lo, hi) => seq![(OperandDirection::In, src), (OperandDirection::InOut, lo), (OperandDirection::Out, hi)],
            Opcode::IDIV(d) => seq![(OperandDirection::In, d)],
            Opcode::DIV(d) => seq![(OperandDirection::In, d)],
            Opcode::MULPD(src, dst) => seq![(OperandDirection::In, src), (OperandDirection::InOut, dst)],
            Opcode::MULPS(src, dst) => seq![(OperandDirection::In, src), (OperandDirection::InOut, dst)],
            Opcode::ADDPD(src, dst) => seq![(OperandDirection::In, src), (OperandDirection::InOut, dst)],
            Opcode::SUBPD(src, dst) => seq![(OperandDirection::In, src), (OperandDirection::InOut, dst)],
            Opcode::DIVPD(src, dst) => seq![(OperandDirection::In, src), (OperandDirection::InOut, dst)],
            Opcode::DIVPS(src, dst) => seq![(OperandDirection::In, src), (OperandDirection::InOut, dst)],
            Opcode::SUBPS(src, dst) => seq![(OperandDirection::In, src), (OperandDirection::InOut, dst)],
            Opcode::CMPPD(src, dst, c) => seq![(OperandDirection::In, src), (OperandDirection::InOut, dst), (OperandDirection::In, c)],
            Opcode::CQO => seq![],
            Opcode::NOT(r) => seq![(OperandDirection::InOut, r)],
            Opcode::NEG(r) => seq![(OperandDirection::InOut, r)],
            Opcode::BEXTR(a, b, c) => seq![(OperandDirection::In, a), (OperandDirection::In, b), (OperandDirection::Out, c)],
            Opcode::PEXTR(a, b, c) => seq![(OperandDirection::In, a), (OperandDirection::In, b), (OperandDirection::Out, c)],
            Opcode::PINSR(a, b, c) => seq![(OperandDirection::In, a), (OperandDirection::In, b), (OperandDirection::InOut, c)],
            Opcode::PUNPCKL(src, dst) => seq![(OperandDirection::In, src), (OperandDirection::InOut, dst)],
            Opcode::PUNPCKLWD(src, dst) => seq![(OperandDirection::In, src), (OperandDirection::InOut, dst)],
            Opcode::PSHUFLW(src, dst, c) => seq![(OperandDirection::In, src), (OperandDirection::InOut, dst), (OperandDirection::In, c)],
            Opcode::JMP(t) => seq![(OperandDirection::In, t)],
            Opcode::PUSH(r) => seq![(OperandDirection::In, r)],
            Opcode::POP(r) => seq![(OperandDirection::Out, r)],
            Opcode::RET => seq![],
            Opcode::TEST(a, b) => seq![(OperandDirection::In, a), (OperandDirection::In, b)],
            Opcode::CMP(a, b) => seq![(OperandDirection::In, a), (OperandDirection::In, b)],
            Opcode::SETE(r) => seq![(OperandDirection::Out, r)],
            Opcode::SETNE(r) => seq![(OperandDirection::Out, r)],
            Opcode::SETNZ(r) => seq![(OperandDirection::Out, r)],
            Opcode::SETB(r) => seq![(OperandDirection::Out, r)],
            Opcode::SETBE(r) => seq![(OperandDirection::Out, r)],
            Opcode::SETA(r) => seq![(OperandDirection::Out, r)],
            Opcode::SETG(r) => seq![(OperandDirection::Out, r)],
            Opcode::SETAE(r) => seq![(OperandDirection::Out, r)],
            Opcode::SETS(r) => seq![(OperandDirection::Out, r)],
            Opcode::SETO(r) => seq![(OperandDirection::Out, r)],
            Opcode::SETC(r) => seq![(OperandDirection::Out, r)],
            Opcode::SETGE(r) => seq![(OperandDirection::Out, r)],
            Opcode::SETL(r) => seq![(OperandDirection::Out, r)],
            Opcode::SETLE(r) => seq![(OperandDirection::Out, r)],
            Opcode::JE(t) => seq![(OperandDirection::In, t)],
            Opcode::JNE(t) => seq![(OperandDirection::In, t)],
            Opcode::NOP => seq![],
            Opcode::INT(r) => seq![(OperandDirection::In, r)],
            Opcode::OUT(a, b) => seq![(OperandDirection::In, a), (OperandDirection::In, b)],
            Opcode::DEAD => seq![],
            Opcode::LABEL => seq![],
            Opcode::CALL { function, .. } => seq![(OperandDirection::In, function)],
        }
    }

    /// The operands the instruction reads or writes, named or implied.
    pub open spec fn apparent_operands(self) -> Seq<(OperandDirection, Operand)> {
        match self.0 {
            Opcode::IDIV(d) | Opcode::DIV(d) => seq![
                (OperandDirection::InOut, Operand::spec_preg(d.width_in_bits, PhysicalRegister::RDX)),
                (OperandDirection::InOut, Operand::spec_preg(d.width_in_bits, PhysicalRegister::RAX)),
                (OperandDirection::In, d),
            ],
            Opcode::CQO => seq![
                (OperandDirection::InOut, Operand::spec_preg(Width::_64, PhysicalRegister::RAX)),
                (OperandDirection::Out, Operand::spec_preg(Width::_64, PhysicalRegister::RDX)),
            ],
            Opcode::CMPXCHG(src, dst) => seq![
                (OperandDirection::In, src),
                (OperandDirection::InOut, dst),
                (OperandDirection::In, Operand::spec_preg(Width::_64, PhysicalRegister::RAX)),
            ],
            Opcode::CALL { function, nr_input_args, nr_output_args } => seq![(OperandDirection::In, function)]
                + Seq::new(
                if nr_input_args < 6 { nr_input_args as nat } else { 6 },
                |i: int| (OperandDirection::In, Operand::spec_preg(Width::_64, arg_reg(i))),
            ) + Seq::new(
                if nr_output_args < 2 { nr_output_args as nat } else { 2 },
                |i: int| (OperandDirection::Out, Operand::spec_preg(Width::_64, result_reg(i))),
            ),
            _ => self.operand_slots(),
        }
    }

    /// Whether the implied operands of the instruction can be formed: a
    /// division by a 128-bit operand has no 128-bit `rdx:rax`.
    pub open spec fn has_apparent_operands(self) -> bool {
        match self.0 {
            Opcode::IDIV(d) | Opcode::DIV(d) => d.width_in_bits != Width::_128,
            _ => true,
        }
    }

    /// The operands the instruction reads or writes, named or implied, with
    /// how it uses each.
    pub fn get_apparent_operands(&self) -> (r: Vec<(OperandDirection, Operand)>)
        requires
            self.has_apparent_operands(),
        ensures
            r@ == self.apparent_operands(),
    {
        let mut v: Vec<(OperandDirection, Operand)> = Vec::new();
        match self.0 {
            Opcode::IDIV(d) | Opcode::DIV(d) => {
                v.push((OperandDirection::InOut, Operand::preg(d.width_in_bits, PhysicalRegister::RDX)));
                v.push((OperandDirection::InOut, Operand::preg(d.width_in_bits, PhysicalRegister::RAX)));
                v.push((OperandDirection::In, d));
            },
            Opcode::CQO => {
                v.push((OperandDirection::InOut, Operand::preg(Width::_64, PhysicalRegister::RAX)));
                v.push((OperandDirection::Out, Operand::preg(Width::_64, PhysicalRegister::RDX)));
            },
            Opcode::CMPXCHG(src, dst) => {
                v.push((OperandDirection::In, src));
                v.push((OperandDirection::InOut, dst));
                v.push((OperandDirection::In, Operand::preg(Width::_64, PhysicalRegister::RAX)));
            },
            Opcode::CALL { function, nr_input_args, nr_output_args } => {
                v.push((OperandDirection::In, function));
                let ghost first = v@;
                let n: usize = if nr_input_args < 6 { nr_input_args } else { 6 };
                let mut i: usize = 0;
                while i < n
                    invariant
                        n <= 6,
                        n == (if nr_input_args < 6 { nr_input_args as nat } else { 6 }),
                        i <= n,
                        first == seq![(OperandDirection::In, function)],
                        v@ == first + Seq::new(
                            i as nat,
                            |j: int| (OperandDirection::In, Operand::spec_preg(Width::_64, arg_reg(j))),
                        ),
                    decreases n - i,
                {
                    let reg = ARG_REGS[i];
                    v.push((OperandDirection::In, Operand::preg(Width::_64, reg)));
                    proof {
                        assert(v@ =~= first + Seq::new(
                            (i + 1) as nat,
                            |j: int| (OperandDirection::In, Operand::spec_preg(Width::_64, arg_reg(j))),
                        ));
                    }
                    i = i + 1;
                }
                let ghost second = v@;
                let m: usize = if nr_output_args < 2 { nr_output_args } else { 2 };
                let mut k: usize = 0;
                while k < m
                    invariant
                        m <= 2,
                        k <= m,
                        v@ == second + Seq::new(
                            k as nat,
                            |j: int| (OperandDirection::Out, Operand::spec_preg(Width::_64, result_reg(j))),
                        ),
                    decreases m - k,
                {
                    let reg = if k == 0 { PhysicalRegister::RAX } else { PhysicalRegister::RDX };
                    v.push((OperandDirection::Out, Operand::preg(Width::_64, reg)));
                    proof {
                        assert(v@ =~= second + Seq::new(
                            (k + 1) as nat,
                            |j: int| (OperandDirection::Out, Operand::spec_preg(Width::_64, result_reg(j))),
                        ));
                    }
                    k = k + 1;
                }
                proof {
                    assert(v@ =~= self.apparent_operands());
                }
            },
            _ => {
                v = self.get_operands();
                return v;
            },
        }
        v
    }

    /// The operands the instruction names, with how it uses each.
    pub fn get_operands(&self) -> (r: Vec<(OperandDirection, Operand)>)
        ensures
            r@ == self.operand_slots(),
    {
        let mut v: Vec<(OperandDirection, Operand)> = Vec::new();
        match self.0 {
            Opcode::MOV(src, dst) => { v.push((OperandDirection::In, src)); v.push((OperandDirection::Out, dst)); },
            Opcode::MOVZX(src, dst) => { v.push((OperandDirection::In, src)); v.push((OperandDirection::Out, dst)); },
            Opcode::MOVSX(src, dst) => { v.push((OperandDirection::In, src)); v.push((OperandDirection::Out, dst)); },
            Opcode::MOVQ(src, dst) => { v.push((OperandDirection::In, src)); v.push((OperandDirection::Out, dst)); },
            Opcode::MOVD(src, dst) => { v.push((OperandDirection::In, src)); v.push((OperandDirection::Out, dst)); },
            Opcode::CMOVE(src, dst) => { v.push((OperandDirection::In, src)); v.push((OperandDirection::Out, dst)); },
            Opcode::CMOVNE(src, dst) => { v.push((OperandDirection::In, src)); v.push((OperandDirection::Out, dst)); },
            Opcode::CMPXCHG(src, dst) => { v.push((OperandDirection::In, src)); v.push((OperandDirection::InOut, dst)); },
            Opcode::CVTSI2SD(src, dst) => { v.push((OperandDirection::In, src)); v.push((OperandDirection::Out, dst)); },
            Opcode::CVTSI2SS(src, dst) => { v.push((OperandDirection::In, src)); v.push((OperandDirection::Out, dst)); },
            Opcode::CVTSD2SI(src, dst) => { v.push((OperandDirection::In, src)); v.push((OperandDirection::Out, dst)); },
            Opcode::CVTSS2SD(src, dst) => { v.push((OperandDirection::In, src)); v.push((OperandDirection::Out, dst)); },
            Opcode::CVTSD2SS(src, dst) => { v.push((OperandDirection::In, src)); v.push((OperandDirection::Out, dst)); },
            Opcode::LEA(src, dst) => { v.push((OperandDirection::In, src)); v.push((OperandDirection::Out, dst)); },
            Opcode::SHL(src, dst) => { v.push((OperandDirection::In, src)); v.push((OperandDirection::InOut, dst)); },
            Opcode::SHR(src, dst) => { v.push((OperandDirection::In, src)); v.push((OperandDirection::InOut, dst)); },
            Opcode::SHLD(amount, hi, lo) => { v.push((OperandDirection::In, amount)); v.push((OperandDirection::In, lo)); v.push((OperandDirection::InOut, hi)); },
            Opcode::SHRD(amount, hi, lo) => { v.push((OperandDirection::In, amount)); v.push((OperandDirection::In, lo)); v.push((OperandDirection::InOut, hi)); },
            Opcode::SAR(src, dst) => { v.push((OperandDirection::In, src)); v.push((OperandDirection::InOut, dst)); },
            Opcode::ADD(src, dst) => { v.push((OperandDirection::In, src)); v.push((OperandDirection::InOut, dst)); },
            Opcode::ADC(a, b, c) => { v.push((OperandDirection::In, a)); v.push((OperandDirection::In, b)); v.push((OperandDirection::InOut, c)); },
            Opcode::SUB(src, dst) => { v.push((OperandDirection::In, src)); v.push((OperandDirection::InOut, dst)); },
            Opcode::INC(r) => { v.push((OperandDirection::InOut, r)); },
            Opcode::OR(src, dst) => { v.push((OperandDirection::In, src)); v.push((OperandDirection::InOut, dst)); },
            Opcode::XOR(src, dst) => { v.push((OperandDirection::In, src)); v.push((OperandDirection::InOut, dst)); },
            Opcode::AND(src, dst) => { v.push((OperandDirection::In, src)); v.push((OperandDirection::InOut, dst)); },
            Opcode::MUL(src, lo, hi) => { v.push((OperandDirection::In, src)); v.push((OperandDirection::InOut, lo)); v.push((OperandDirection::Out, hi)); },
            Opcode::IMUL(src, dst) => { v.push((OperandDirection::In, src)); v.push((OperandDirection::InOut, dst)); },
            Opcode::IMUL1(src, lo, hi) => { v.push((OperandDirection::In, src)); v.push((OperandDirection::InOut, lo)); v.push((OperandDirection::Out, hi)); },
            Opcode::IDIV(d) => { v.push((OperandDirection::In, d)); },
            Opcode::DIV(d) => { v.push((OperandDirection::In, d)); },
            Opcode::MULPD(src, dst) => { v.push((OperandDirection::In, src)); v.push((OperandDirection::InOut, dst)); },
            Opcode::MULPS(src, dst) => { v.push((OperandDirection::In, src)); v.push((OperandDirection::InOut, dst)); },
            Opcode::ADDPD(src, dst) => { v.push((OperandDirection::In, src)); v.push((OperandDirection::InOut, dst)); },
            Opcode::SUBPD(src, dst) => { v.push((OperandDirection::In, src)); v.push((OperandDirection::InOut, dst)); },
            Opcode::DIVPD(src, dst) => { v.push((OperandDirection::In, src)); v.push((OperandDirection::InOut, dst)); },
            Opcode::DIVPS(src, dst) => { v.push((OperandDirection::In, src)); v.push((OperandDirection::InOut, dst)); },
            Opcode::SUBPS(src, dst) => { v.push((OperandDirection::In, src)); v.push((OperandDirection::InOut, dst)); },
            Opcode::CMPPD(src, dst, c) => { v.push((OperandDirection::In, src)); v.push((OperandDirection::InOut, dst)); v.push((OperandDirection::In, c)); },
            Opcode::CQO => {  },
            Opcode::NOT(r) => { v.push((OperandDirection::InOut, r)); },
            Opcode::NEG(r) => { v.push((OperandDirection::InOut, r)); },
            Opcode::BEXTR(a, b, c) => { v.push((OperandDirection::In, a)); v.push((OperandDirection::In, b)); v.push((OperandDirection::Out, c)); },
            Opcode::PEXTR(a, b, c) => { v.push((OperandDirection::In, a)); v.push((OperandDirection::In, b)); v.push((OperandDirection::Out, c)); },
            Opcode::PINSR(a, b, c) => { v.push((OperandDirection::In, a)); v.push((OperandDirection::In, b)); v.push((OperandDirection::InOut, c)); },
            Opcode::PUNPCKL(src, dst) => { v.push((OperandDirection::In, src)); v.push((OperandDirection::InOut, dst)); },
            Opcode::PUNPCKLWD(src, dst) => { v.push((OperandDirection::In, src)); v.push((OperandDirection::InOut, dst)); },
            Opcode::PSHUFLW(src, dst, c) => { v.push((OperandDirection::In, src)); v.push((OperandDirection::InOut, dst)); v.push((OperandDirection::In, c)); },
            Opcode::JMP(t) => { v.push((OperandDirection::In, t)); },
            Opcode::PUSH(r) => { v.push((OperandDirection::In, r)); },
            Opcode::POP(r) => { v.push((OperandDirection::Out, r)); },
            Opcode::RET => {  },
            Opcode::TEST(a, b) => { v.push((OperandDirection::In, a)); v.push((OperandDirection::In, b)); },
            Opcode::CMP(a, b) => { v.push((OperandDirection::In, a)); v.push((OperandDirection::In, b)); },
            Opcode::SETE(r) => { v.push((OperandDirection::Out, r)); },
            Opcode::SETNE(r) => { v.push((OperandDirection::Out, r)); },
            Opcode::SETNZ(r) => { v.push((OperandDirection::Out, r)); },
            Opcode::SETB(r) => { v.push((OperandDirection::Out, r)); },
            Opcode::SETBE(r) => { v.push((OperandDirection::Out, r)); },
            Opcode::SETA(r) => { v.push((OperandDirection::Out, r)); },
            Opcode::SETG(r) => { v.push((OperandDirection::Out, r)); },
            Opcode::SETAE(r) => { v.push((OperandDirection::Out, r)); },
            Opcode::SETS(r) => { v.push((OperandDirection::Out, r)); },
            Opcode::SETO(r) => { v.push((OperandDirection::Out, r)); },
            Opcode::SETC(r) => { v.push((OperandDirection::Out, r)); },
            Opcode::SETGE(r) => { v.push((OperandDirection::Out, r)); },
            Opcode::SETL(r) => { v.push((OperandDirection::Out, r)); },
            Opcode::SETLE(r) => { v.push((OperandDirection::Out, r)); },
            Opcode::JE(t) => { v.push((OperandDirection::In, t)); },
            Opcode::JNE(t) => { v.push((OperandDirection::In, t)); },
            Opcode::NOP => {  },
            Opcode::INT(r) => { v.push((OperandDirection::In, r)); },
            Opcode::OUT(a, b) => { v.push((OperandDirection::In, a)); v.push((OperandDirection::In, b)); },
            Opcode::DEAD => {  },
            Opcode::LABEL => {  },
            Opcode::CALL { function, .. } => { v.push((OperandDirection::In, function)); },
        }
        proof {
            assert(v@ =~= self.operand_slots());
        }
        v
    }

    /// Replaces the operand in slot `slot` of the instruction's named
    /// operands, keeping the operation.
    /// The operand in slot `slot` (in the order of
    /// [`Instruction::get_operands`]), to be changed in place; the operation
    /// and the other operands stay as they are.
    pub fn get_operands_mut(&mut self, slot: usize) -> (r: &mut Operand)
        requires
            slot < old(self).operand_slots().len(),
        ensures
            *r == old(self).operand_slots()[slot as int].1,
            final(self).operand_slots() == old(self).operand_slots().update(
                slot as int,
                (old(self).operand_slots()[slot as int].0, *final(r)),
            ),
            final(self).same_operation(*old(self)),
    {
        match &mut self.0 {
            Opcode::MOV(src, dst) => {
                if slot == 0 {
                    src
                } else {
                    dst
                }
            },
            Opcode::MOVZX(src, dst) => {
                if slot == 0 {
                    src
                } else {
                    dst
                }
            },
            Opcode::MOVSX(src, dst) => {
                if slot == 0 {
                    src
                } else {
                    dst
                }
            },
            Opcode::MOVQ(src, dst) => {
                if slot == 0 {
                    src
                } else {
                    dst
                }
            },
            Opcode::MOVD(src, dst) => {
                if slot == 0 {
                    src
                } else {
                    dst
                }
            },
            Opcode::CMOVE(src, dst) => {
                if slot == 0 {
                    src
                } else {
                    dst
                }
            },
            Opcode::CMOVNE(src, dst) => {
                if slot == 0 {
                    src
                } else {
                    dst
                }
            },
            Opcode::CMPXCHG(src, dst) => {
                if slot == 0 {
                    src
                } else {
                    dst
                }
            },
            Opcode::CVTSI2SD(src, dst) => {
                if slot == 0 {
                    src
                } else {
                    dst
                }
            },
            Opcode::CVTSI2SS(src, dst) => {
                if slot == 0 {
                    src
                } else {
                    dst
                }
            },
            Opcode::CVTSD2SI(src, dst) => {
                if slot == 0 {
                    src
                } else {
                    dst
                }
            },
            Opcode::CVTSS2SD(src, dst) => {
                if slot == 0 {
                    src
                } else {
                    dst
                }
            },
            Opcode::CVTSD2SS(src, dst) => {
                if slot == 0 {
                    src
                } else {
                    dst
                }
            },
            Opcode::LEA(src, dst) => {
                if slot == 0 {
                    src
                } else {
                    dst
                }
            },
            Opcode::SHL(src, dst) => {
                if slot == 0 {
                    src
                } else {
                    dst
                }
            },
            Opcode::SHR(src, dst) => {
                if slot == 0 {
                    src
                } else {
                    dst
                }
            },
            Opcode::SHLD(amount, hi, lo) => {
                if slot == 0 {
                    amount
                } else if slot == 1 {
                    lo
                } else {
                    hi
                }
            },
            Opcode::SHRD(amount, hi, lo) => {
                if slot == 0 {
                    amount
                } else if slot == 1 {
                    lo
                } else {
                    hi
                }
            },
            Opcode::SAR(src, dst) => {
                if slot == 0 {
                    src
                } else {
                    dst
                }
            },
            Opcode::ADD(src, dst) => {
                if slot == 0 {
                    src
                } else {
                    dst
                }
            },
            Opcode::ADC(a, b, c) => {
                if slot == 0 {
                    a
                } else if slot == 1 {
                    b
                } else {
                    c
                }
            },
            Opcode::SUB(src, dst) => {
                if slot == 0 {
                    src
                } else {
                    dst
                }
            },
            Opcode::INC(r) => r,
            Opcode::OR(src, dst) => {
                if slot == 0 {
                    src
                } else {
                    dst
                }
            },
            Opcode::XOR(src, dst) => {
                if slot == 0 {
                    src
                } else {
                    dst
                }
            },
            Opcode::AND(src, dst) => {
                if slot == 0 {
                    src
                } else {
                    dst
                }
            },
            Opcode::MUL(src, lo, hi) => {
                if slot == 0 {
                    src
                } else if slot == 1 {
                    lo
                } else {
                    hi
                }
            },
            Opcode::IMUL(src, dst) => {
                if slot == 0 {
                    src
                } else {
                    dst
                }
            },
            Opcode::IMUL1(src, lo, hi) => {
                if slot == 0 {
                    src
                } else if slot == 1 {
                    lo
                } else {
                    hi
                }
            },
            Opcode::IDIV(d) => d,
            Opcode::DIV(d) => d,
            Opcode::MULPD(src, dst) => {
                if slot == 0 {
                    src
                } else {
                    dst
                }
            },
            Opcode::MULPS(src, dst) => {
                if slot == 0 {
                    src
                } else {
                    dst
                }
            },
            Opcode::ADDPD(src, dst) => {
                if slot == 0 {
                    src
                } else {
                    dst
                }
            },
            Opcode::SUBPD(src, dst) => {
                if slot == 0 {
                    src
                } else {
                    dst
                }
            },
            Opcode::DIVPD(src, dst) => {
                if slot == 0 {
                    src
                } else {
                    dst
                }
            },
            Opcode::DIVPS(src, dst) => {
                if slot == 0 {
                    src
                } else {
                    dst
                }
            },
            Opcode::SUBPS(src, dst) => {
                if slot == 0 {
                    src
                } else {
                    dst
                }
            },
            Opcode::CMPPD(src, dst, c) => {
                if slot == 0 {
                    src
                } else if slot == 1 {
                    dst
                } else {
                    c
                }
            },
            Opcode::CQO => vstd::pervasive::unreached(),
            Opcode::NOT(r) => r,
            Opcode::NEG(r) => r,
            Opcode::BEXTR(a, b, c) => {
                if slot == 0 {
                    a
                } else if slot == 1 {
                    b
                } else {
                    c
                }
            },
            Opcode::PEXTR(a, b, c) => {
                if slot == 0 {
                    a
                } else if slot == 1 {
                    b
                } else {
                    c
                }
            },
            Opcode::PINSR(a, b, c) => {
                if slot == 0 {
                    a
                } else if slot == 1 {
                    b
                } else {
                    c
                }
            },
            Opcode::PUNPCKL(src, dst) => {
                if slot == 0 {
                    src
                } else {
                    dst
                }
            },
            Opcode::PUNPCKLWD(src, dst) => {
                if slot == 0 {
                    src
                } else {
                    dst
                }
            },
            Opcode::PSHUFLW(src, dst, c) => {
                if slot == 0 {
                    src
                } else if slot == 1 {
                    dst
                } else {
                    c
                }
            },
            Opcode::JMP(t) => t,
            Opcode::PUSH(r) => r,
            Opcode::POP(r) => r,
            Opcode::RET => vstd::pervasive::unreached(),
            Opcode::TEST(a, b) => {
                if slot == 0 {
                    a
                } else {
                    b
                }
            },
            Opcode::CMP(a, b) => {
                if slot == 0 {
                    a
                } else {
                    b
                }
            },
            Opcode::SETE(r) => r,
            Opcode::SETNE(r) => r,
            Opcode::SETNZ(r) => r,
            Opcode::SETB(r) => r,
            Opcode::SETBE(r) => r,
            Opcode::SETA(r) => r,
            Opcode::SETG(r) => r,
            Opcode::SETAE(r) => r,
            Opcode::SETS(r) => r,
            Opcode::SETO(r) => r,
            Opcode::SETC(r) => r,
            Opcode::SETGE(r) => r,
            Opcode::SETL(r) => r,
            Opcode::SETLE(r) => r,
            Opcode::JE(t) => t,
            Opcode::JNE(t) => t,
            Opcode::NOP => vstd::pervasive::unreached(),
            Opcode::INT(r) => r,
            Opcode::OUT(a, b) => {
                if slot == 0 {
                    a
                } else {
                    b
                }
            },
            Opcode::DEAD => vstd::pervasive::unreached(),
            Opcode::LABEL => vstd::pervasive::unreached(),
            Opcode::CALL { function, .. } => function,
        }
    }

    /// The `k`-th register the named operands use (in the order of
    /// [`use_defs_of`] on [`Instruction::get_operands`]), with how it is used,
    /// to be changed in place; the rest of the instruction stays as it is.
    pub fn get_use_defs_mut(&mut self, k: usize) -> (r: UseDefMut)
        requires
            k < use_defs_of(old(self).operand_slots()).len(),
        ensures
            final(self).same_operation(*old(self)),
            ({
                let slots = old(self).operand_slots();
                let (s, p) = use_def_place(slots, k as int);
                let replaced = |reg: Register| slots.update(s, (slots[s].0, replace_register(slots[s].1, p, reg)));
                match r {
                    UseDefMut::Use(x) => use_defs_of(slots)[k as int].0 == UseDef::Use(*x) && final(self).operand_slots()
                        == replaced(*final(x)),
                    UseDefMut::Def(x) => use_defs_of(slots)[k as int].0 == UseDef::Def(*x) && final(self).operand_slots()
                        == replaced(*final(x)),
                    UseDefMut::UseDef(x) => use_defs_of(slots)[k as int].0 == UseDef::UseDef(*x)
                        && final(self).operand_slots() == replaced(*final(x)),
                }
            }),
    {
        let ghost slots0 = self.operand_slots();
        let slots = self.get_operands();
        let mut s: usize = 0;
        let mut before: usize = 0;
        let mut count: usize = 0;
        while s < slots.len()
            invariant_except_break
                slots@ == slots0,
                s <= slots@.len(),
                before == use_defs_of(slots0.take(s as int)).len(),
                before <= k,
                k < use_defs_of(slots0).len(),
                s == slots@.len() ==> before == use_defs_of(slots0).len(),
            ensures
                s < slots@.len(),
                slots@ == slots0,
                before == use_defs_of(slots0.take(s as int)).len(),
                before <= k,
                k - before < count,
                count == operand_register_count(slots0[s as int].1),
            decreases slots.len() - s,
        {
            proof {
                assert(slots0.take(s as int + 1).drop_last() =~= slots0.take(s as int));
                lemma_operand_register_count(slots0[s as int]);
            }
            count = match slots[s].1.kind {
                OperandKind::Memory { base: Some(_), index: None, .. } => 1,
                OperandKind::Memory { base: Some(_), index: Some(_), .. } => 2,
                OperandKind::Register(_) => 1,
                _ => 0,
            };
            if k - before < count {
                break;
            }
            before = before + count;
            s = s + 1;
            proof {
                if s == slots@.len() {
                    assert(slots0.take(s as int) =~= slots0);
                }
            }
        }
        let ghost pos = (k - before) as int;
        proof {
            let t = slots0.take(s as int + 1);
            assert(t.drop_last() =~= slots0.take(s as int));
            lemma_operand_register_count(slots0[s as int]);
            lemma_use_defs_prefix(slots0, s as int + 1, k as int);
            assert(use_def_place(t, k as int) == (s as int, pos));
        }
        let direction = slots[s].0;
        let op = self.get_operands_mut(s);
        match &mut op.kind {
            OperandKind::Memory { base: Some(base), index: None, .. } => UseDefMut::Use(base),
            OperandKind::Memory { base: Some(base), index: Some(index), .. } => {
                if k == before {
                    UseDefMut::Use(base)
                } else {
                    UseDefMut::Use(index)
                }
            },
            OperandKind::Register(register) => match direction {
                OperandDirection::In => UseDefMut::Use(register),
                OperandDirection::Out => UseDefMut::Def(register),
                _ => UseDefMut::UseDef(register),
            },
            _ => vstd::pervasive::unreached(),
        }
    }

    /// Whether two instructions perform the same operation, whatever their
    /// named operands.
    pub open spec fn same_operation(self, other: Instruction) -> bool {
        match (self.0, other.0) {
            (Opcode::MOV(_, _), Opcode::MOV(_, _)) => true,
            (Opcode::MOVZX(_, _), Opcode::MOVZX(_, _)) => true,
            (Opcode::MOVSX(_, _), Opcode::MOVSX(_, _)) => true,
            (Opcode::MOVQ(_, _), Opcode::MOVQ(_, _)) => true,
            (Opcode::MOVD(_, _), Opcode::MOVD(_, _)) => true,
            (Opcode::CMOVE(_, _), Opcode::CMOVE(_, _)) => true,
            (Opcode::CMOVNE(_, _), Opcode::CMOVNE(_, _)) => true,
            (Opcode::CMPXCHG(_, _), Opcode::CMPXCHG(_, _)) => true,
            (Opcode::CVTSI2SD(_, _), Opcode::CVTSI2SD(_, _)) => true,
            (Opcode::CVTSI2SS(_, _), Opcode::CVTSI2SS(_, _)) => true,
            (Opcode::CVTSD2SI(_, _), Opcode::CVTSD2SI(_, _)) => true,
            (Opcode::CVTSS2SD(_, _), Opcode::CVTSS2SD(_, _)) => true,
            (Opcode::CVTSD2SS(_, _), Opcode::CVTSD2SS(_, _)) => true,
            (Opcode::LEA(_, _), Opcode::LEA(_, _)) => true,
            (Opcode::SHL(_, _), Opcode::SHL(_, _)) => true,
            (Opcode::SHR(_, _), Opcode::SHR(_, _)) => true,
            (Opcode::SHLD(_, _, _), Opcode::SHLD(_, _, _)) => true,
            (Opcode::SHRD(_, _, _), Opcode::SHRD(_, _, _)) => true,
            (Opcode::SAR(_, _), Opcode::SAR(_, _)) => true,
            (Opcode::ADD(_, _), Opcode::ADD(_, _)) => true,
            (Opcode::ADC(_, _, _), Opcode::ADC(_, _, _)) => true,
            (Opcode::SUB(_, _), Opcode::SUB(_, _)) => true,
            (Opcode::INC(_), Opcode::INC(_)) => true,
            (Opcode::OR(_, _), Opcode::OR(_, _)) => true,
            (Opcode::XOR(_, _), Opcode::XOR(_, _)) => true,
            (Opcode::AND(_, _), Opcode::AND(_, _)) => true,
            (Opcode::MUL(_, _, _), Opcode::MUL(_, _, _)) => true,
            (Opcode::IMUL(_, _), Opcode::IMUL(_, _)) => true,
            (Opcode::IMUL1(_, _, _), Opcode::IMUL1(_, _, _)) => true,
            (Opcode::IDIV(_), Opcode::IDIV(_)) => true,
            (Opcode::DIV(_), Opcode::DIV(_)) => true,
            (Opcode::MULPD(_, _), Opcode::MULPD(_, _)) => true,
            (Opcode::MULPS(_, _), Opcode::MULPS(_, _)) => true,
            (Opcode::ADDPD(_, _), Opcode::ADDPD(_, _)) => true,
            (Opcode::SUBPD(_, _), Opcode::SUBPD(_, _)) => true,
            (Opcode::DIVPD(_, _), Opcode::DIVPD(_, _)) => true,
            (Opcode::DIVPS(_, _), Opcode::DIVPS(_, _)) => true,
            (Opcode::SUBPS(_, _), Opcode::SUBPS(_, _)) => true,
            (Opcode::CMPPD(_, _, _), Opcode::CMPPD(_, _, _)) => true,
            (Opcode::CQO, Opcode::CQO) => true,
            (Opcode::NOT(_), Opcode::NOT(_)) => true,
            (Opcode::NEG(_), Opcode::NEG(_)) => true,
            (Opcode::BEXTR(_, _, _), Opcode::BEXTR(_, _, _)) => true,
            (Opcode::PEXTR(_, _, _), Opcode::PEXTR(_, _, _)) => true,
            (Opcode::PINSR(_, _, _), Opcode::PINSR(_, _, _)) => true,
            (Opcode::PUNPCKL(_, _), Opcode::PUNPCKL(_, _)) => true,
            (Opcode::PUNPCKLWD(_, _), Opcode::PUNPCKLWD(_, _)) => true,
            (Opcode::PSHUFLW(_, _, _), Opcode::PSHUFLW(_, _, _)) => true,
            (Opcode::JMP(_), Opcode::JMP(_)) => true,
            (Opcode::PUSH(_), Opcode::PUSH(_)) => true,
            (Opcode::POP(_), Opcode::POP(_)) => true,
            (Opcode::RET, Opcode::RET) => true,
            (Opcode::TEST(_, _), Opcode::TEST(_, _)) => true,
            (Opcode::CMP(_, _), Opcode::CMP(_, _)) => true,
            (Opcode::SETE(_), Opcode::SETE(_)) => true,
            (Opcode::SETNE(_), Opcode::SETNE(_)) => true,
            (Opcode::SETNZ(_), Opcode::SETNZ(_)) => true,
            (Opcode::SETB(_), Opcode::SETB(_)) => true,
            (Opcode::SETBE(_), Opcode::SETBE(_)) => true,
            (Opcode::SETA(_), Opcode::SETA(_)) => true,
            (Opcode::SETG(_), Opcode::SETG(_)) => true,
            (Opcode::SETAE(_), Opcode::SETAE(_)) => true,
            (Opcode::SETS(_), Opcode::SETS(_)) => true,
            (Opcode::SETO(_), Opcode::SETO(_)) => true,
            (Opcode::SETC(_), Opcode::SETC(_)) => true,
            (Opcode::SETGE(_), Opcode::SETGE(_)) => true,
            (Opcode::SETL(_), Opcode::SETL(_)) => true,
            (Opcode::SETLE(_), Opcode::SETLE(_)) => true,
            (Opcode::JE(_), Opcode::JE(_)) => true,
            (Opcode::JNE(_), Opcode::JNE(_)) => true,
            (Opcode::NOP, Opcode::NOP) => true,
            (Opcode::INT(_), Opcode::INT(_)) => true,
            (Opcode::OUT(_, _), Opcode::OUT(_, _)) => true,
            (Opcode::DEAD, Opcode::DEAD) => true,
            (Opcode::LABEL, Opcode::LABEL) => true,
            (
                Opcode::CALL { nr_input_args: a, nr_output_args: b, .. },
                Opcode::CALL { nr_input_args: c, nr_output_args: d, .. },
            ) => a == c && b == d,
            _ => false,
        }
    }

    /// The registers the instruction uses, with the width of each use.
    pub open spec fn use_defs(self) -> Seq<(UseDef, Width)> {
        use_defs_of(self.apparent_operands())
    }

    /// The registers the instruction uses, with the width of each use;
    /// address registers of memory operands are read at 64 bits.
    pub fn get_use_defs(&self) -> (r: Vec<(UseDef, Width)>)
        requires
            self.has_apparent_operands(),
        ensures
            r@ == self.use_defs(),
    {
        let ops = self.get_apparent_operands();
        proof {
            lemma_apparent_directions(*self);
        }
        let mut out: Vec<(UseDef, Width)> = Vec::new();
        let mut i: usize = 0;
        while i < ops.len()
            invariant
                i <= ops.len(),
                ops@ == self.apparent_operands(),
                forall|j: int| 0 <= j < ops@.len() ==> ops@[j].0 != OperandDirection::NoAccess,
                out@ == use_defs_of(ops@.take(i as int)),
            decreases ops.len() - i,
        {
            let (direction, operand) = ops[i];
            assert(ops@.take(i as int + 1).drop_last() =~= ops@.take(i as int));
            match operand.kind {
                OperandKind::Memory { base: Some(base), index: None, .. } => {
                    out.push((UseDef::Use(base), Width::_64));
                },
                OperandKind::Memory { base: Some(base), index: Some(index), .. } => {
                    out.push((UseDef::Use(base), Width::_64));
                    out.push((UseDef::Use(index), Width::_64));
                },
                OperandKind::Register(register) => {
                    let ud = match direction {
                        OperandDirection::In => UseDef::Use(register),
                        OperandDirection::Out => UseDef::Def(register),
                        _ => UseDef::UseDef(register),
                    };
                    out.push((ud, operand.width_in_bits));
                },
                _ => {},
            }
            proof {
                assert(out@ =~= use_defs_of(ops@.take(i as int + 1)));
            }
            i = i + 1;
        }
        proof {
            assert(ops@.take(ops@.len() as int) =~= ops@);
        }
        out
    }
}

/// The registers named by an operand that is used in the given direction.
pub open spec fn operand_use_defs(entry: (OperandDirection, Operand)) -> Seq<(UseDef, Width)> {
    match entry.1.kind {
        OperandKind::Memory { base: Some(base), index: None, .. } => seq![(UseDef::Use(base), Width::_64)],
        OperandKind::Memory { base: Some(base), index: Some(index), .. } => seq![
            (UseDef::Use(base), Width::_64),
            (UseDef::Use(index), Width::_64),
        ],
        OperandKind::Register(register) => seq![
            (
                match entry.0 {
                    OperandDirection::In => UseDef::Use(register),
                    OperandDirection::Out => UseDef::Def(register),
                    _ => UseDef::UseDef(register),
                },
                entry.1.width_in_bits,
            ),
        ],
        _ => seq![],
    }
}

/// The register uses of a sequence of operands, in order.
pub open spec fn use_defs_of(ops: Seq<(OperandDirection, Operand)>) -> Seq<(UseDef, Width)>
    decreases ops.len(),
{
    if ops.len() == 0 {
        seq![]
    } else {
        use_defs_of(ops.drop_last()) + operand_use_defs(ops.last())
    }
}

/// How an instruction uses a register, with the register to be changed in
/// place.
#[derive(Debug)]
pub enum UseDefMut<'a> {
    Use(&'a mut Register),
    Def(&'a mut Register),
    UseDef(&'a mut Register),
}

/// The number of registers an operand names: the base and index of a memory
/// operand with a base, or the register of a register operand.
pub open spec fn operand_register_count(op: Operand) -> nat {
    match op.kind {
        OperandKind::Memory { base: Some(_), index: None, .. } => 1,
        OperandKind::Memory { base: Some(_), index: Some(_), .. } => 2,
        OperandKind::Register(_) => 1,
        _ => 0,
    }
}

/// The operand slot, and the position among the slot's registers, of the
/// `k`-th register use of `ops` (see [`use_defs_of`]).
pub open spec fn use_def_place(ops: Seq<(OperandDirection, Operand)>, k: int) -> (int, int)
    decreases ops.len(),
{
    if ops.len() == 0 {
        (0, 0)
    } else {
        let before = use_defs_of(ops.drop_last()).len() as int;
        if k < before {
            use_def_place(ops.drop_last(), k)
        } else {
            (ops.len() - 1, k - before)
        }
    }
}

/// `op` with its register at position `pos` (base before index) replaced by
/// `reg`.
pub open spec fn replace_register(op: Operand, pos: int, reg: Register) -> Operand {
    match op.kind {
        OperandKind::Memory { base: Some(b), index, scale, displacement, segment_override } => if pos == 0 {
            Operand {
                kind: OperandKind::Memory { base: Some(reg), index, scale, displacement, segment_override },
                width_in_bits: op.width_in_bits,
            }
        } else {
            Operand {
                kind: OperandKind::Memory { base: Some(b), index: Some(reg), scale, displacement, segment_override },
                width_in_bits: op.width_in_bits,
            }
        },
        OperandKind::Register(_) => Operand { kind: OperandKind::Register(reg), width_in_bits: op.width_in_bits },
        _ => op,
    }
}

proof fn lemma_operand_register_count(entry: (OperandDirection, Operand))
    ensures
        operand_use_defs(entry).len() == operand_register_count(entry.1),
{
}

/// The register uses of a prefix of the operands are a prefix of the
/// register uses of all of them, and are placed alike.
proof fn lemma_use_defs_prefix(ops: Seq<(OperandDirection, Operand)>, i: int, k: int)
    requires
        0 <= i <= ops.len(),
        0 <= k < use_defs_of(ops.take(i)).len(),
    ensures
        use_defs_of(ops.take(i)).len() <= use_defs_of(ops).len(),
        use_defs_of(ops)[k] == use_defs_of(ops.take(i))[k],
        use_def_place(ops, k) == use_def_place(ops.take(i), k),
    decreases ops.len(),
{
    if i == ops.len() {
        assert(ops.take(i) =~= ops);
    } else {
        let rest = ops.drop_last();
        assert(rest.take(i) =~= ops.take(i));
        lemma_use_defs_prefix(rest, i, k);
    }
}

/// No operand an instruction reads or writes is without a direction.
pub proof fn lemma_apparent_directions(instr: Instruction)
    ensures
        forall|j: int|
            0 <= j < instr.apparent_operands().len() ==> #[trigger] instr.apparent_operands()[j].0
                != OperandDirection::NoAccess,
{
}

/// The argument registers of the System V calling convention, in order.
pub const ARG_REGS: [PhysicalRegister; 6] = [
    PhysicalRegister::RDI,
    PhysicalRegister::RSI,
    PhysicalRegister::RDX,
    PhysicalRegister::RCX,
    PhysicalRegister::R8,
    PhysicalRegister::R9,
];

/// The registers a callee may clobber under the System V calling convention.
pub const CALLER_SAVED: [PhysicalRegister; 9] = [
    PhysicalRegister::RAX,
    PhysicalRegister::RDI,
    PhysicalRegister::RSI,
    PhysicalRegister::RDX,
    PhysicalRegister::RCX,
    PhysicalRegister::R8,
    PhysicalRegister::R9,
    PhysicalRegister::R10,
    PhysicalRegister::R11,
];

/// The `i`th argument register.
pub open spec fn arg_reg(i: int) -> PhysicalRegister {
    if i == 0 {
        PhysicalRegister::RDI
    } else if i == 1 {
        PhysicalRegister::RSI
    } else if i == 2 {
        PhysicalRegister::RDX
    } else if i == 3 {
        PhysicalRegister::RCX
    } else if i == 4 {
        PhysicalRegister::R8
    } else {
        PhysicalRegister::R9
    }
}

/// The `i`th result register.
pub open spec fn result_reg(i: int) -> PhysicalRegister {
    if i == 0 {
        PhysicalRegister::RAX
    } else {
        PhysicalRegister::RDX
    }
}

/// Whether two optional register classes are equal.
fn same_class(a: Option<RegisterClass>, b: Option<RegisterClass>) -> (r: bool)
    ensures
        r == (a == b),
{
    match (a, b) {
        (None, None) => true,
        (Some(RegisterClass::General), Some(RegisterClass::General)) => true,
        (Some(RegisterClass::Xmm), Some(RegisterClass::Xmm)) => true,
        _ => false,
    }
}

} // verus!
