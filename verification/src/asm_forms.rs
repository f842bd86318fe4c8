//! Instruction forms handed to the assembler, and the emission of each form.
use vstd::prelude::*;
use iced_x86::code_asm::{AsmMemoryOperand, AsmRegister16, AsmRegister32, AsmRegister64, AsmRegister8, AsmRegisterXmm, CodeAssembler, CodeLabel};
use iced_x86::IcedError;
use crate::assembler as iced;
use crate::encoder::{BlockRef, MemoryScale};
use crate::registers::{PhysicalRegister, RegisterConversionError, SegmentRegister};

verus! {

/// What a memory operand is addressed from.
#[derive(Debug, Clone, Copy, PartialEq, Eq, Structural)]
pub enum MemBase {
    /// A base register.
    Register(PhysicalRegister),
    /// A segment register, with no base register.
    Segment(SegmentRegister),
}

/// An index register with its scale factor.
#[derive(Debug, Clone, Copy, PartialEq, Eq, Structural)]
pub struct ScaledIndex {
    pub register: PhysicalRegister,
    pub scale: MemoryScale,
}

/// A memory operand as the assembler is given it.
#[derive(Debug, Clone, Copy, PartialEq, Eq, Structural)]
pub struct MemRef {
    pub base: MemBase,
    pub index: Option<ScaledIndex>,
    pub displacement: i32,
}

/// One instruction form of the assembler with its operands.
#[derive(Debug, Clone, Copy, PartialEq, Eq, Structural)]
#[allow(inconsistent_fields)]
pub enum AsmOp {
    /// `nop`
    Nop,
    /// `ret`
    Ret,
    /// `cqo`
    Cqo,
    /// `jmp to a block`
    JmpLabel { target: BlockRef },
    /// `je to a block`
    JeLabel { target: BlockRef },
    /// `jne to a block`
    JneLabel { target: BlockRef },
    /// `indirect jmp through a qword in memory`
    JmpQwordMem { mem: MemRef },
    /// `shrd r64, r64, imm`
    ShrdR64R64I32 { lo: PhysicalRegister, hi: PhysicalRegister, amount: i32 },
    /// `seta r8`
    SetaR8 { dst: PhysicalRegister },
    /// `setg r8`
    SetgR8 { dst: PhysicalRegister },
    /// `setae r8`
    SetaeR8 { dst: PhysicalRegister },
    /// `sete r8`
    SeteR8 { dst: PhysicalRegister },
    /// `sete m8`
    SeteMem { mem: MemRef },
    /// `seto r8`
    SetoR8 { dst: PhysicalRegister },
    /// `seto m8`
    SetoMem { mem: MemRef },
    /// `setc r8`
    SetcR8 { dst: PhysicalRegister },
    /// `setc m8`
    SetcMem { mem: MemRef },
    /// `sets r8`
    SetsR8 { dst: PhysicalRegister },
    /// `sets m8`
    SetsMem { mem: MemRef },
    /// `setge r8`
    SetgeR8 { dst: PhysicalRegister },
    /// `setne r8`
    SetneR8 { dst: PhysicalRegister },
    /// `setnz r8`
    SetnzR8 { dst: PhysicalRegister },
    /// `setbe r8`
    SetbeR8 { dst: PhysicalRegister },
    /// `setle r8`
    SetleR8 { dst: PhysicalRegister },
    /// `setl r8`
    SetlR8 { dst: PhysicalRegister },
    /// `neg r64`
    NegR64 { value: PhysicalRegister },
    /// `sar r64, r8`
    SarR64Cl { value: PhysicalRegister, amount: PhysicalRegister },
    /// `sar r32, r8`
    SarR32Cl { value: PhysicalRegister, amount: PhysicalRegister },
    /// `sar r64, imm`
    SarR64I32 { value: PhysicalRegister, amount: i32 },
    /// `sar r32, imm`
    SarR32I32 { value: PhysicalRegister, amount: i32 },
    /// `bextr r64, r64, r64`
    BextrR64 { dst: PhysicalRegister, src: PhysicalRegister, ctrl: PhysicalRegister },
    /// `int imm`
    Int { n: i32 },
    /// `push r64`
    PushR64 { src: PhysicalRegister },
    /// `pop r64`
    PopR64 { dst: PhysicalRegister },
    /// `cmove r64, r64`
    CmoveR64R64 { dst: PhysicalRegister, src: PhysicalRegister },
    /// `cmovne r64, r64`
    CmovneR64R64 { dst: PhysicalRegister, src: PhysicalRegister },
    /// `cmovne r32, r32`
    CmovneR32R32 { dst: PhysicalRegister, src: PhysicalRegister },
    /// `cmovne r16, r16`
    CmovneR16R16 { dst: PhysicalRegister, src: PhysicalRegister },
    /// `mulpd xmm, xmm`
    Mulpd { dst: PhysicalRegister, src: PhysicalRegister },
    /// `mulps xmm, xmm`
    Mulps { dst: PhysicalRegister, src: PhysicalRegister },
    /// `addpd xmm, xmm`
    Addpd { dst: PhysicalRegister, src: PhysicalRegister },
    /// `subpd xmm, xmm`
    Subpd { dst: PhysicalRegister, src: PhysicalRegister },
    /// `divpd xmm, xmm`
    Divpd { dst: PhysicalRegister, src: PhysicalRegister },
    /// `divps xmm, xmm`
    Divps { dst: PhysicalRegister, src: PhysicalRegister },
    /// `subps xmm, xmm`
    Subps { dst: PhysicalRegister, src: PhysicalRegister },
    /// `imul r64, r64, imm`
    Imul3R64I32 { dst: PhysicalRegister, src: PhysicalRegister, imm: i32 },
    /// `imul r64, r64`
    Imul2R64R64 { dst: PhysicalRegister, src: PhysicalRegister },
    /// `mul r64 (into rdx:rax)`
    MulR64 { src: PhysicalRegister },
    /// `imul r64 (into rdx:rax)`
    ImulR64 { src: PhysicalRegister },
    /// `idiv r64`
    IdivR64 { divisor: PhysicalRegister },
    /// `div r64`
    DivR64 { divisor: PhysicalRegister },
    /// `call r64`
    CallR64 { target: PhysicalRegister },
    /// `out imm, r8`
    OutI32R8 { port: i32, value: PhysicalRegister },
    /// `pinsrw xmm, r32, imm`
    Pinsrw { dst: PhysicalRegister, src: PhysicalRegister, index: i32 },
    /// `pinsrd xmm, r32, imm`
    Pinsrd { dst: PhysicalRegister, src: PhysicalRegister, index: i32 },
    /// `pinsrq xmm, r64, imm`
    Pinsrq { dst: PhysicalRegister, src: PhysicalRegister, index: i32 },
    /// `pinsrb xmm, r32, imm`
    Pinsrb { dst: PhysicalRegister, src: PhysicalRegister, index: i32 },
    /// `pextrq r64, xmm, imm`
    Pextrq { dst: PhysicalRegister, src: PhysicalRegister, index: i32 },
    /// `punpcklqdq xmm, xmm`
    Punpcklqdq { dst: PhysicalRegister, src: PhysicalRegister },
    /// `punpcklwd xmm, xmm`
    Punpcklwd { dst: PhysicalRegister, src: PhysicalRegister },
    /// `pshuflw xmm, xmm, imm`
    Pshuflw { dst: PhysicalRegister, src: PhysicalRegister, select: i32 },
    /// `cmpxchg m64, r64`
    CmpxchgQwordR64 { mem: MemRef, src: PhysicalRegister },
    /// `cmpxchg m32, r32`
    CmpxchgDwordR32 { mem: MemRef, src: PhysicalRegister },
    /// `cmpxchg m8, r8`
    CmpxchgByteR8 { mem: MemRef, src: PhysicalRegister },
    /// `inc m64`
    IncQwordMem { mem: MemRef },
    /// `cvtsi2sd xmm, r64`
    Cvtsi2sdR64 { dst: PhysicalRegister, src: PhysicalRegister },
    /// `cvtsi2sd xmm, r32`
    Cvtsi2sdR32 { dst: PhysicalRegister, src: PhysicalRegister },
    /// `cvtsi2ss xmm, r32`
    Cvtsi2ssR32 { dst: PhysicalRegister, src: PhysicalRegister },
    /// `cvtsi2ss xmm, r64`
    Cvtsi2ssR64 { dst: PhysicalRegister, src: PhysicalRegister },
    /// `cvtsd2si r32, xmm`
    Cvtsd2siR32 { dst: PhysicalRegister, src: PhysicalRegister },
    /// `cvtss2sd xmm, xmm`
    Cvtss2sd { dst: PhysicalRegister, src: PhysicalRegister },
    /// `cvtsd2ss xmm, xmm`
    Cvtsd2ss { dst: PhysicalRegister, src: PhysicalRegister },
    /// `cmppd xmm, xmm, imm`
    Cmppd { dst: PhysicalRegister, src: PhysicalRegister, predicate: i32 },
    /// `mov r64, r64`
    MovR64R64 { dst: PhysicalRegister, src: PhysicalRegister },
    /// `mov r32, r32`
    MovR32R32 { dst: PhysicalRegister, src: PhysicalRegister },
    /// `mov r16, r16`
    MovR16R16 { dst: PhysicalRegister, src: PhysicalRegister },
    /// `mov r8, r8`
    MovR8R8 { dst: PhysicalRegister, src: PhysicalRegister },
    /// `movdqa xmm, xmm`
    Movdqa { dst: PhysicalRegister, src: PhysicalRegister },
    /// `movq xmm, xmm`
    MovqXX { dst: PhysicalRegister, src: PhysicalRegister },
    /// `mov r64, m64`
    MovR64Mem { dst: PhysicalRegister, mem: MemRef },
    /// `mov r32, m32`
    MovR32Mem { dst: PhysicalRegister, mem: MemRef },
    /// `mov r16, m16`
    MovR16Mem { dst: PhysicalRegister, mem: MemRef },
    /// `mov r8, m8`
    MovR8Mem { dst: PhysicalRegister, mem: MemRef },
    /// `mov m64, r64`
    MovMemR64 { mem: MemRef, src: PhysicalRegister },
    /// `mov m32, r32`
    MovMemR32 { mem: MemRef, src: PhysicalRegister },
    /// `mov m16, r16`
    MovMemR16 { mem: MemRef, src: PhysicalRegister },
    /// `mov m8, r8`
    MovMemR8 { mem: MemRef, src: PhysicalRegister },
    /// `mov dword [m], imm`
    MovDwordMemI32 { mem: MemRef, imm: i32 },
    /// `mov dword [m], imm`
    MovDwordMemU32 { mem: MemRef, imm: u32 },
    /// `mov word [m], imm`
    MovWordMemU32 { mem: MemRef, imm: u32 },
    /// `mov byte [m], imm`
    MovByteMemU32 { mem: MemRef, imm: u32 },
    /// `mov r8, imm`
    MovR8I32 { dst: PhysicalRegister, imm: i32 },
    /// `mov r16, imm`
    MovR16I32 { dst: PhysicalRegister, imm: i32 },
    /// `mov r32, imm`
    MovR32I32 { dst: PhysicalRegister, imm: i32 },
    /// `mov r32, imm`
    MovR32U32 { dst: PhysicalRegister, imm: u32 },
    /// `mov r64, imm64`
    MovR64U64 { dst: PhysicalRegister, imm: u64 },
    /// `movdqu xmm, m128`
    MovdquXMem { dst: PhysicalRegister, mem: MemRef },
    /// `movdqu m128, xmm`
    MovdquMemX { mem: MemRef, src: PhysicalRegister },
    /// `movd r32, xmm`
    MovdR32X { dst: PhysicalRegister, src: PhysicalRegister },
    /// `movd xmm, r32`
    MovdXR32 { dst: PhysicalRegister, src: PhysicalRegister },
    /// `movq xmm, r64`
    MovqXR64 { dst: PhysicalRegister, src: PhysicalRegister },
    /// `movq r64, xmm`
    MovqR64X { dst: PhysicalRegister, src: PhysicalRegister },
    /// `movq xmm, m64`
    MovqXMem { dst: PhysicalRegister, mem: MemRef },
    /// `movzx r32, r8`
    MovzxR32R8 { dst: PhysicalRegister, src: PhysicalRegister },
    /// `movzx r64, r8`
    MovzxR64R8 { dst: PhysicalRegister, src: PhysicalRegister },
    /// `movzx r16, r8`
    MovzxR16R8 { dst: PhysicalRegister, src: PhysicalRegister },
    /// `movzx r32, r16`
    MovzxR32R16 { dst: PhysicalRegister, src: PhysicalRegister },
    /// `movzx r64, r16`
    MovzxR64R16 { dst: PhysicalRegister, src: PhysicalRegister },
    /// `xor r64, r64`
    XorR64R64 { dst: PhysicalRegister, src: PhysicalRegister },
    /// `xor r32, r32`
    XorR32R32 { dst: PhysicalRegister, src: PhysicalRegister },
    /// `xor r16, r16`
    XorR16R16 { dst: PhysicalRegister, src: PhysicalRegister },
    /// `xor r8, r8`
    XorR8R8 { dst: PhysicalRegister, src: PhysicalRegister },
    /// `xor r64, imm`
    XorR64I32 { dst: PhysicalRegister, imm: i32 },
    /// `xor r32, imm`
    XorR32U32 { dst: PhysicalRegister, imm: u32 },
    /// `pxor xmm, xmm`
    Pxor { dst: PhysicalRegister, src: PhysicalRegister },
    /// `or r8, imm`
    OrR8I32 { dst: PhysicalRegister, imm: i32 },
    /// `or r32, imm`
    OrR32I32 { dst: PhysicalRegister, imm: i32 },
    /// `or r32, imm`
    OrR32U32 { dst: PhysicalRegister, imm: u32 },
    /// `or r64, imm`
    OrR64I32 { dst: PhysicalRegister, imm: i32 },
    /// `or r8, r8`
    OrR8R8 { dst: PhysicalRegister, src: PhysicalRegister },
    /// `or r16, r16`
    OrR16R16 { dst: PhysicalRegister, src: PhysicalRegister },
    /// `or r32, r32`
    OrR32R32 { dst: PhysicalRegister, src: PhysicalRegister },
    /// `or r64, r64`
    OrR64R64 { dst: PhysicalRegister, src: PhysicalRegister },
    /// `por xmm, xmm`
    Por { dst: PhysicalRegister, src: PhysicalRegister },
    /// `shl r8, imm`
    ShlR8U32 { value: PhysicalRegister, amount: u32 },
    /// `shl r16, imm`
    ShlR16U32 { value: PhysicalRegister, amount: u32 },
    /// `shl r32, imm`
    ShlR32U32 { value: PhysicalRegister, amount: u32 },
    /// `shl r64, imm`
    ShlR64U32 { value: PhysicalRegister, amount: u32 },
    /// `shl r64, r8`
    ShlR64Cl { value: PhysicalRegister, amount: PhysicalRegister },
    /// `shl r32, r8`
    ShlR32Cl { value: PhysicalRegister, amount: PhysicalRegister },
    /// `pslldq xmm, imm`
    Pslldq { value: PhysicalRegister, bytes: u32 },
    /// `add r64, r64`
    AddR64R64 { dst: PhysicalRegister, src: PhysicalRegister },
    /// `add r32, r32`
    AddR32R32 { dst: PhysicalRegister, src: PhysicalRegister },
    /// `add r16, r16`
    AddR16R16 { dst: PhysicalRegister, src: PhysicalRegister },
    /// `add r8, r8`
    AddR8R8 { dst: PhysicalRegister, src: PhysicalRegister },
    /// `add r64, imm`
    AddR64I32 { dst: PhysicalRegister, imm: i32 },
    /// `add r32, imm`
    AddR32I32 { dst: PhysicalRegister, imm: i32 },
    /// `add qword [m], imm`
    AddQwordMemI32 { mem: MemRef, imm: i32 },
    /// `not r64`
    NotR64 { value: PhysicalRegister },
    /// `not r32`
    NotR32 { value: PhysicalRegister },
    /// `not r16`
    NotR16 { value: PhysicalRegister },
    /// `not r8`
    NotR8 { value: PhysicalRegister },
    /// `pcmpeqd xmm8, xmm8 (all ones in the scratch register)`
    PcmpeqdScratch,
    /// `pxor xmm, xmm8`
    PxorScratch { value: PhysicalRegister },
}

/// Why an instruction could not be handed to the assembler.
#[derive(Debug, Clone, Copy, PartialEq, Eq, Structural)]
pub enum EncodeError {
    /// No encoding is known for the instruction.
    Unsupported(crate::encoder::Instruction),
    /// A register of the wrong class stands where another class is needed.
    Register(RegisterConversionError),
    /// An immediate does not fit the instruction form.
    ImmediateOutOfRange(u64),
    /// A displacement leaves the range of a signed 32-bit number.
    DisplacementOutOfRange(i32),
    /// A jump names a block that has no label.
    MissingLabel(BlockRef),
    /// The assembler refused the instruction.
    Assembler,
}


/// The asm64 form of a general purpose register.
pub fn to_asm64(reg: PhysicalRegister) -> (r: Result<AsmRegister64, RegisterConversionError>)
    ensures
        reg.spec_is_xmm() <==> r == Err::<AsmRegister64, RegisterConversionError>(RegisterConversionError::InvalidXmmAs64(reg)),
        !reg.spec_is_xmm() <==> r is Ok,
{
    match reg {
        PhysicalRegister::RAX => Ok(iced::reg_rax()),
        PhysicalRegister::RCX => Ok(iced::reg_rcx()),
        PhysicalRegister::RDX => Ok(iced::reg_rdx()),
        PhysicalRegister::RBX => Ok(iced::reg_rbx()),
        PhysicalRegister::RSI => Ok(iced::reg_rsi()),
        PhysicalRegister::RDI => Ok(iced::reg_rdi()),
        PhysicalRegister::RSP => Ok(iced::reg_rsp()),
        PhysicalRegister::RBP => Ok(iced::reg_rbp()),
        PhysicalRegister::R8 => Ok(iced::reg_r8()),
        PhysicalRegister::R9 => Ok(iced::reg_r9()),
        PhysicalRegister::R10 => Ok(iced::reg_r10()),
        PhysicalRegister::R11 => Ok(iced::reg_r11()),
        PhysicalRegister::R12 => Ok(iced::reg_r12()),
        PhysicalRegister::R13 => Ok(iced::reg_r13()),
        PhysicalRegister::R14 => Ok(iced::reg_r14()),
        PhysicalRegister::R15 => Ok(iced::reg_r15()),
        _ => Err(RegisterConversionError::InvalidXmmAs64(reg)),
    }
}

/// The asm32 form of a general purpose register.
pub fn to_asm32(reg: PhysicalRegister) -> (r: Result<AsmRegister32, RegisterConversionError>)
    ensures
        reg.spec_is_xmm() <==> r == Err::<AsmRegister32, RegisterConversionError>(RegisterConversionError::InvalidXmmAs32(reg)),
        !reg.spec_is_xmm() <==> r is Ok,
{
    match reg {
        PhysicalRegister::RAX => Ok(iced::reg_eax()),
        PhysicalRegister::RCX => Ok(iced::reg_ecx()),
        PhysicalRegister::RDX => Ok(iced::reg_edx()),
        PhysicalRegister::RBX => Ok(iced::reg_ebx()),
        PhysicalRegister::RSI => Ok(iced::reg_esi()),
        PhysicalRegister::RDI => Ok(iced::reg_edi()),
        PhysicalRegister::RSP => Ok(iced::reg_esp()),
        PhysicalRegister::RBP => Ok(iced::reg_ebp()),
        PhysicalRegister::R8 => Ok(iced::reg_r8d()),
        PhysicalRegister::R9 => Ok(iced::reg_r9d()),
        PhysicalRegister::R10 => Ok(iced::reg_r10d()),
        PhysicalRegister::R11 => Ok(iced::reg_r11d()),
        PhysicalRegister::R12 => Ok(iced::reg_r12d()),
        PhysicalRegister::R13 => Ok(iced::reg_r13d()),
        PhysicalRegister::R14 => Ok(iced::reg_r14d()),
        PhysicalRegister::R15 => Ok(iced::reg_r15d()),
        _ => Err(RegisterConversionError::InvalidXmmAs32(reg)),
    }
}

/// The asm16 form of a general purpose register.
pub fn to_asm16(reg: PhysicalRegister) -> (r: Result<AsmRegister16, RegisterConversionError>)
    ensures
        reg.spec_is_xmm() <==> r == Err::<AsmRegister16, RegisterConversionError>(RegisterConversionError::InvalidXmmAs16(reg)),
        !reg.spec_is_xmm() <==> r is Ok,
{
    match reg {
        PhysicalRegister::RAX => Ok(iced::reg_ax()),
        PhysicalRegister::RCX => Ok(iced::reg_cx()),
        PhysicalRegister::RDX => Ok(iced::reg_dx()),
        PhysicalRegister::RBX => Ok(iced::reg_bx()),
        PhysicalRegister::RSI => Ok(iced::reg_si()),
        PhysicalRegister::RDI => Ok(iced::reg_di()),
        PhysicalRegister::RSP => Ok(iced::reg_sp()),
        PhysicalRegister::RBP => Ok(iced::reg_bp()),
        PhysicalRegister::R8 => Ok(iced::reg_r8w()),
        PhysicalRegister::R9 => Ok(iced::reg_r9w()),
        PhysicalRegister::R10 => Ok(iced::reg_r10w()),
        PhysicalRegister::R11 => Ok(iced::reg_r11w()),
        PhysicalRegister::R12 => Ok(iced::reg_r12w()),
        PhysicalRegister::R13 => Ok(iced::reg_r13w()),
        PhysicalRegister::R14 => Ok(iced::reg_r14w()),
        PhysicalRegister::R15 => Ok(iced::reg_r15w()),
        _ => Err(RegisterConversionError::InvalidXmmAs16(reg)),
    }
}

/// The asm8 form of a general purpose register.
pub fn to_asm8(reg: PhysicalRegister) -> (r: Result<AsmRegister8, RegisterConversionError>)
    ensures
        reg.spec_is_xmm() <==> r == Err::<AsmRegister8, RegisterConversionError>(RegisterConversionError::InvalidXmmAs8(reg)),
        !reg.spec_is_xmm() <==> r is Ok,
{
    match reg {
        PhysicalRegister::RAX => Ok(iced::reg_al()),
        PhysicalRegister::RCX => Ok(iced::reg_cl()),
        PhysicalRegister::RDX => Ok(iced::reg_dl()),
        PhysicalRegister::RBX => Ok(iced::reg_bl()),
        PhysicalRegister::RSI => Ok(iced::reg_sil()),
        PhysicalRegister::RDI => Ok(iced::reg_dil()),
        PhysicalRegister::RSP => Ok(iced::reg_spl()),
        PhysicalRegister::RBP => Ok(iced::reg_bpl()),
        PhysicalRegister::R8 => Ok(iced::reg_r8b()),
        PhysicalRegister::R9 => Ok(iced::reg_r9b()),
        PhysicalRegister::R10 => Ok(iced::reg_r10b()),
        PhysicalRegister::R11 => Ok(iced::reg_r11b()),
        PhysicalRegister::R12 => Ok(iced::reg_r12b()),
        PhysicalRegister::R13 => Ok(iced::reg_r13b()),
        PhysicalRegister::R14 => Ok(iced::reg_r14b()),
        PhysicalRegister::R15 => Ok(iced::reg_r15b()),
        _ => Err(RegisterConversionError::InvalidXmmAs8(reg)),
    }
}

/// The XMM form of a register; general purpose registers have none.
pub fn to_asm_xmm(reg: PhysicalRegister) -> (r: Result<AsmRegisterXmm, RegisterConversionError>)
    ensures
        !reg.spec_is_xmm() <==> r == Err::<AsmRegisterXmm, RegisterConversionError>(RegisterConversionError::InvalidGeneralAsXmm(reg)),
        reg.spec_is_xmm() <==> r is Ok,
{
    match reg {
        PhysicalRegister::XMM0 => Ok(iced::reg_xmm0()),
        PhysicalRegister::XMM1 => Ok(iced::reg_xmm1()),
        PhysicalRegister::XMM2 => Ok(iced::reg_xmm2()),
        PhysicalRegister::XMM3 => Ok(iced::reg_xmm3()),
        PhysicalRegister::XMM4 => Ok(iced::reg_xmm4()),
        PhysicalRegister::XMM5 => Ok(iced::reg_xmm5()),
        PhysicalRegister::XMM6 => Ok(iced::reg_xmm6()),
        PhysicalRegister::XMM7 => Ok(iced::reg_xmm7()),
        _ => Err(RegisterConversionError::InvalidGeneralAsXmm(reg)),
    }
}

fn r64(reg: PhysicalRegister) -> (r: Result<AsmRegister64, EncodeError>)
    ensures
        r is Ok <==> !reg.spec_is_xmm(),
        r is Err ==> r->Err_0 is Register,
{
    match to_asm64(reg) {
        Ok(v) => Ok(v),
        Err(e) => Err(EncodeError::Register(e)),
    }
}

fn r32(reg: PhysicalRegister) -> (r: Result<AsmRegister32, EncodeError>)
    ensures
        r is Ok <==> !reg.spec_is_xmm(),
        r is Err ==> r->Err_0 is Register,
{
    match to_asm32(reg) {
        Ok(v) => Ok(v),
        Err(e) => Err(EncodeError::Register(e)),
    }
}

fn r16(reg: PhysicalRegister) -> (r: Result<AsmRegister16, EncodeError>)
    ensures
        r is Ok <==> !reg.spec_is_xmm(),
        r is Err ==> r->Err_0 is Register,
{
    match to_asm16(reg) {
        Ok(v) => Ok(v),
        Err(e) => Err(EncodeError::Register(e)),
    }
}

fn r8(reg: PhysicalRegister) -> (r: Result<AsmRegister8, EncodeError>)
    ensures
        r is Ok <==> !reg.spec_is_xmm(),
        r is Err ==> r->Err_0 is Register,
{
    match to_asm8(reg) {
        Ok(v) => Ok(v),
        Err(e) => Err(EncodeError::Register(e)),
    }
}

fn xmm(reg: PhysicalRegister) -> (r: Result<AsmRegisterXmm, EncodeError>)
    ensures
        r is Ok <==> reg.spec_is_xmm(),
        r is Err ==> r->Err_0 is Register,
{
    match to_asm_xmm(reg) {
        Ok(v) => Ok(v),
        Err(e) => Err(EncodeError::Register(e)),
    }
}

/// Whether every register of a memory operand is a general purpose register.
pub open spec fn mem_fits(m: MemRef) -> bool {
    &&& (match m.base {
        MemBase::Register(b) => !b.spec_is_xmm(),
        MemBase::Segment(_) => true,
    })
    &&& (match m.index {
        Some(ix) => !ix.register.spec_is_xmm(),
        None => true,
    })
}

/// The memory operand in the assembler's form.
pub fn mem_operand(m: MemRef) -> (r: Result<AsmMemoryOperand, EncodeError>)
    ensures
        r is Ok <==> mem_fits(m),
        r is Err ==> r->Err_0 is Register,
{
    let with_index = match (m.base, m.index) {
        (MemBase::Register(b), Some(ix)) => {
            let b64 = match r64(b) {
                Ok(v) => v,
                Err(e) => return Err(e),
            };
            let i64 = match r64(ix.register) {
                Ok(v) => v,
                Err(e) => return Err(e),
            };
            iced::mem_base_index_displ(b64, i64, ix.scale.as_i32(), m.displacement)
        },
        (MemBase::Register(b), None) => {
            let b64 = match r64(b) {
                Ok(v) => v,
                Err(e) => return Err(e),
            };
            iced::mem_base_displ(b64, m.displacement)
        },
        (MemBase::Segment(_), Some(ix)) => {
            let i64 = match r64(ix.register) {
                Ok(v) => v,
                Err(e) => return Err(e),
            };
            iced::mem_index_displ(i64, ix.scale.as_i32(), m.displacement)
        },
        (MemBase::Segment(_), None) => iced::mem_displ(m.displacement),
    };
    match m.base {
        MemBase::Segment(SegmentRegister::FS) => Ok(iced::mem_fs(with_index)),
        MemBase::Segment(SegmentRegister::GS) => Ok(iced::mem_gs(with_index)),
        MemBase::Register(_) => Ok(with_index),
    }
}

/// The labels of the blocks of a translation.
pub struct LabelMap {
    pub entries: Vec<(BlockRef, CodeLabel)>,
}

impl LabelMap {
    /// Whether a block has a label.
    pub open spec fn has(&self, block: BlockRef) -> bool {
        exists|i: int| 0 <= i < self.entries@.len() && #[trigger] self.entries@[i].0 == block
    }

    /// An empty map.
    pub fn new() -> (r: LabelMap)
        ensures
            r.entries@.len() == 0,
    {
        LabelMap { entries: Vec::new() }
    }

    /// Gives a block a label.
    pub fn insert(&mut self, block: BlockRef, label: CodeLabel)
        ensures
            final(self).entries@ == old(self).entries@.push((block, label)),
    {
        self.entries.push((block, label));
    }

    /// The first label given to a block.
    pub fn get(&self, block: BlockRef) -> (r: Option<CodeLabel>)
        ensures
            r is Some <==> self.has(block),
    {
        let mut i: usize = 0;
        while i < self.entries.len()
            invariant
                i <= self.entries@.len(),
                forall|j: int| 0 <= j < i ==> self.entries@[j].0 != block,
            decreases self.entries.len() - i,
        {
            if self.entries[i].0 == block {
                return Some(self.entries[i].1);
            }
            i = i + 1;
        }
        None
    }
}

fn label(labels: &LabelMap, block: BlockRef) -> (r: Result<CodeLabel, EncodeError>)
    ensures
        r is Ok <==> labels.has(block),
        r is Err ==> r->Err_0 == EncodeError::MissingLabel(block),
{
    match labels.get(block) {
        Some(l) => Ok(l),
        None => Err(EncodeError::MissingLabel(block)),
    }
}

fn lift(r: Result<(), IcedError>) -> (out: Result<(), EncodeError>)
    ensures
        out is Ok <==> r is Ok,
        out is Err ==> out->Err_0 == EncodeError::Assembler,
{
    match r {
        Ok(()) => Ok(()),
        Err(_) => Err(EncodeError::Assembler),
    }
}

/// Whether every operand of the form has the class the form needs and
/// every jump target has a label.
pub open spec fn emit_ready(op: AsmOp, labels: &LabelMap) -> bool {
    match op {
        AsmOp::Nop => true,
        AsmOp::Ret => true,
        AsmOp::Cqo => true,
        AsmOp::JmpLabel { target } => labels.has(target),
        AsmOp::JeLabel { target } => labels.has(target),
        AsmOp::JneLabel { target } => labels.has(target),
        AsmOp::JmpQwordMem { mem } => mem_fits(mem),
        AsmOp::ShrdR64R64I32 { lo, hi, amount } => !lo.spec_is_xmm() && !hi.spec_is_xmm(),
        AsmOp::SetaR8 { dst } => !dst.spec_is_xmm(),
        AsmOp::SetgR8 { dst } => !dst.spec_is_xmm(),
        AsmOp::SetaeR8 { dst } => !dst.spec_is_xmm(),
        AsmOp::SeteR8 { dst } => !dst.spec_is_xmm(),
        AsmOp::SeteMem { mem } => mem_fits(mem),
        AsmOp::SetoR8 { dst } => !dst.spec_is_xmm(),
        AsmOp::SetoMem { mem } => mem_fits(mem),
        AsmOp::SetcR8 { dst } => !dst.spec_is_xmm(),
        AsmOp::SetcMem { mem } => mem_fits(mem),
        AsmOp::SetsR8 { dst } => !dst.spec_is_xmm(),
        AsmOp::SetsMem { mem } => mem_fits(mem),
        AsmOp::SetgeR8 { dst } => !dst.spec_is_xmm(),
        AsmOp::SetneR8 { dst } => !dst.spec_is_xmm(),
        AsmOp::SetnzR8 { dst } => !dst.spec_is_xmm(),
        AsmOp::SetbeR8 { dst } => !dst.spec_is_xmm(),
        AsmOp::SetleR8 { dst } => !dst.spec_is_xmm(),
        AsmOp::SetlR8 { dst } => !dst.spec_is_xmm(),
        AsmOp::NegR64 { value } => !value.spec_is_xmm(),
        AsmOp::SarR64Cl { value, amount } => !value.spec_is_xmm() && !amount.spec_is_xmm(),
        AsmOp::SarR32Cl { value, amount } => !value.spec_is_xmm() && !amount.spec_is_xmm(),
        AsmOp::SarR64I32 { value, amount } => !value.spec_is_xmm(),
        AsmOp::SarR32I32 { value, amount } => !value.spec_is_xmm(),
        AsmOp::BextrR64 { dst, src, ctrl } => !dst.spec_is_xmm() && !src.spec_is_xmm() && !ctrl.spec_is_xmm(),
        AsmOp::Int { n } => true,
        AsmOp::PushR64 { src } => !src.spec_is_xmm(),
        AsmOp::PopR64 { dst } => !dst.spec_is_xmm(),
        AsmOp::CmoveR64R64 { dst, src } => !dst.spec_is_xmm() && !src.spec_is_xmm(),
        AsmOp::CmovneR64R64 { dst, src } => !dst.spec_is_xmm() && !src.spec_is_xmm(),
        AsmOp::CmovneR32R32 { dst, src } => !dst.spec_is_xmm() && !src.spec_is_xmm(),
        AsmOp::CmovneR16R16 { dst, src } => !dst.spec_is_xmm() && !src.spec_is_xmm(),
        AsmOp::Mulpd { dst, src } => dst.spec_is_xmm() && src.spec_is_xmm(),
        AsmOp::Mulps { dst, src } => dst.spec_is_xmm() && src.spec_is_xmm(),
        AsmOp::Addpd { dst, src } => dst.spec_is_xmm() && src.spec_is_xmm(),
        AsmOp::Subpd { dst, src } => dst.spec_is_xmm() && src.spec_is_xmm(),
        AsmOp::Divpd { dst, src } => dst.spec_is_xmm() && src.spec_is_xmm(),
        AsmOp::Divps { dst, src } => dst.spec_is_xmm() && src.spec_is_xmm(),
        AsmOp::Subps { dst, src } => dst.spec_is_xmm() && src.spec_is_xmm(),
        AsmOp::Imul3R64I32 { dst, src, imm } => !dst.spec_is_xmm() && !src.spec_is_xmm(),
        AsmOp::Imul2R64R64 { dst, src } => !dst.spec_is_xmm() && !src.spec_is_xmm(),
        AsmOp::MulR64 { src } => !src.spec_is_xmm(),
        AsmOp::ImulR64 { src } => !src.spec_is_xmm(),
        AsmOp::IdivR64 { divisor } => !divisor.spec_is_xmm(),
        AsmOp::DivR64 { divisor } => !divisor.spec_is_xmm(),
        AsmOp::CallR64 { target } => !target.spec_is_xmm(),
        AsmOp::OutI32R8 { port, value } => !value.spec_is_xmm(),
        AsmOp::Pinsrw { dst, src, index } => dst.spec_is_xmm() && !src.spec_is_xmm(),
        AsmOp::Pinsrd { dst, src, index } => dst.spec_is_xmm() && !src.spec_is_xmm(),
        AsmOp::Pinsrq { dst, src, index } => dst.spec_is_xmm() && !src.spec_is_xmm(),
        AsmOp::Pinsrb { dst, src, index } => dst.spec_is_xmm() && !src.spec_is_xmm(),
        AsmOp::Pextrq { dst, src, index } => !dst.spec_is_xmm() && src.spec_is_xmm(),
        AsmOp::Punpcklqdq { dst, src } => dst.spec_is_xmm() && src.spec_is_xmm(),
        AsmOp::Punpcklwd { dst, src } => dst.spec_is_xmm() && src.spec_is_xmm(),
        AsmOp::Pshuflw { dst, src, select } => dst.spec_is_xmm() && src.spec_is_xmm(),
        AsmOp::CmpxchgQwordR64 { mem, src } => mem_fits(mem) && !src.spec_is_xmm(),
        AsmOp::CmpxchgDwordR32 { mem, src } => mem_fits(mem) && !src.spec_is_xmm(),
        AsmOp::CmpxchgByteR8 { mem, src } => mem_fits(mem) && !src.spec_is_xmm(),
        AsmOp::IncQwordMem { mem } => mem_fits(mem),
        AsmOp::Cvtsi2sdR64 { dst, src } => dst.spec_is_xmm() && !src.spec_is_xmm(),
        AsmOp::Cvtsi2sdR32 { dst, src } => dst.spec_is_xmm() && !src.spec_is_xmm(),
        AsmOp::Cvtsi2ssR32 { dst, src } => dst.spec_is_xmm() && !src.spec_is_xmm(),
        AsmOp::Cvtsi2ssR64 { dst, src } => dst.spec_is_xmm() && !src.spec_is_xmm(),
        AsmOp::Cvtsd2siR32 { dst, src } => !dst.spec_is_xmm() && src.spec_is_xmm(),
        AsmOp::Cvtss2sd { dst, src } => dst.spec_is_xmm() && src.spec_is_xmm(),
        AsmOp::Cvtsd2ss { dst, src } => dst.spec_is_xmm() && src.spec_is_xmm(),
        AsmOp::Cmppd { dst, src, predicate } => dst.spec_is_xmm() && src.spec_is_xmm(),
        AsmOp::MovR64R64 { dst, src } => !dst.spec_is_xmm() && !src.spec_is_xmm(),
        AsmOp::MovR32R32 { dst, src } => !dst.spec_is_xmm() && !src.spec_is_xmm(),
        AsmOp::MovR16R16 { dst, src } => !dst.spec_is_xmm() && !src.spec_is_xmm(),
        AsmOp::MovR8R8 { dst, src } => !dst.spec_is_xmm() && !src.spec_is_xmm(),
        AsmOp::Movdqa { dst, src } => dst.spec_is_xmm() && src.spec_is_xmm(),
        AsmOp::MovqXX { dst, src } => dst.spec_is_xmm() && src.spec_is_xmm(),
        AsmOp::MovR64Mem { dst, mem } => !dst.spec_is_xmm() && mem_fits(mem),
        AsmOp::MovR32Mem { dst, mem } => !dst.spec_is_xmm() && mem_fits(mem),
        AsmOp::MovR16Mem { dst, mem } => !dst.spec_is_xmm() && mem_fits(mem),
        AsmOp::MovR8Mem { dst, mem } => !dst.spec_is_xmm() && mem_fits(mem),
        AsmOp::MovMemR64 { mem, src } => mem_fits(mem) && !src.spec_is_xmm(),
        AsmOp::MovMemR32 { mem, src } => mem_fits(mem) && !src.spec_is_xmm(),
        AsmOp::MovMemR16 { mem, src } => mem_fits(mem) && !src.spec_is_xmm(),
        AsmOp::MovMemR8 { mem, src } => mem_fits(mem) && !src.spec_is_xmm(),
        AsmOp::MovDwordMemI32 { mem, imm } => mem_fits(mem),
        AsmOp::MovDwordMemU32 { mem, imm } => mem_fits(mem),
        AsmOp::MovWordMemU32 { mem, imm } => mem_fits(mem),
        AsmOp::MovByteMemU32 { mem, imm } => mem_fits(mem),
        AsmOp::MovR8I32 { dst, imm } => !dst.spec_is_xmm(),
        AsmOp::MovR16I32 { dst, imm } => !dst.spec_is_xmm(),
        AsmOp::MovR32I32 { dst, imm } => !dst.spec_is_xmm(),
        AsmOp::MovR32U32 { dst, imm } => !dst.spec_is_xmm(),
        AsmOp::MovR64U64 { dst, imm } => !dst.spec_is_xmm(),
        AsmOp::MovdquXMem { dst, mem } => dst.spec_is_xmm() && mem_fits(mem),
        AsmOp::MovdquMemX { mem, src } => mem_fits(mem) && src.spec_is_xmm(),
        AsmOp::MovdR32X { dst, src } => !dst.spec_is_xmm() && src.spec_is_xmm(),
        AsmOp::MovdXR32 { dst, src } => dst.spec_is_xmm() && !src.spec_is_xmm(),
        AsmOp::MovqXR64 { dst, src } => dst.spec_is_xmm() && !src.spec_is_xmm(),
        AsmOp::MovqR64X { dst, src } => !dst.spec_is_xmm() && src.spec_is_xmm(),
        AsmOp::MovqXMem { dst, mem } => dst.spec_is_xmm() && mem_fits(mem),
        AsmOp::MovzxR32R8 { dst, src } => !dst.spec_is_xmm() && !src.spec_is_xmm(),
        AsmOp::MovzxR64R8 { dst, src } => !dst.spec_is_xmm() && !src.spec_is_xmm(),
        AsmOp::MovzxR16R8 { dst, src } => !dst.spec_is_xmm() && !src.spec_is_xmm(),
        AsmOp::MovzxR32R16 { dst, src } => !dst.spec_is_xmm() && !src.spec_is_xmm(),
        AsmOp::MovzxR64R16 { dst, src } => !dst.spec_is_xmm() && !src.spec_is_xmm(),
        AsmOp::XorR64R64 { dst, src } => !dst.spec_is_xmm() && !src.spec_is_xmm(),
        AsmOp::XorR32R32 { dst, src } => !dst.spec_is_xmm() && !src.spec_is_xmm(),
        AsmOp::XorR16R16 { dst, src } => !dst.spec_is_xmm() && !src.spec_is_xmm(),
        AsmOp::XorR8R8 { dst, src } => !dst.spec_is_xmm() && !src.spec_is_xmm(),
        AsmOp::XorR64I32 { dst, imm } => !dst.spec_is_xmm(),
        AsmOp::XorR32U32 { dst, imm } => !dst.spec_is_xmm(),
        AsmOp::Pxor { dst, src } => dst.spec_is_xmm() && src.spec_is_xmm(),
        AsmOp::OrR8I32 { dst, imm } => !dst.spec_is_xmm(),
        AsmOp::OrR32I32 { dst, imm } => !dst.spec_is_xmm(),
        AsmOp::OrR32U32 { dst, imm } => !dst.spec_is_xmm(),
        AsmOp::OrR64I32 { dst, imm } => !dst.spec_is_xmm(),
        AsmOp::OrR8R8 { dst, src } => !dst.spec_is_xmm() && !src.spec_is_xmm(),
        AsmOp::OrR16R16 { dst, src } => !dst.spec_is_xmm() && !src.spec_is_xmm(),
        AsmOp::OrR32R32 { dst, src } => !dst.spec_is_xmm() && !src.spec_is_xmm(),
        AsmOp::OrR64R64 { dst, src } => !dst.spec_is_xmm() && !src.spec_is_xmm(),
        AsmOp::Por { dst, src } => dst.spec_is_xmm() && src.spec_is_xmm(),
        AsmOp::ShlR8U32 { value, amount } => !value.spec_is_xmm(),
        AsmOp::ShlR16U32 { value, amount } => !value.spec_is_xmm(),
        AsmOp::ShlR32U32 { value, amount } => !value.spec_is_xmm(),
        AsmOp::ShlR64U32 { value, amount } => !value.spec_is_xmm(),
        AsmOp::ShlR64Cl { value, amount } => !value.spec_is_xmm() && !amount.spec_is_xmm(),
        AsmOp::ShlR32Cl { value, amount } => !value.spec_is_xmm() && !amount.spec_is_xmm(),
        AsmOp::Pslldq { value, bytes } => value.spec_is_xmm(),
        AsmOp::AddR64R64 { dst, src } => !dst.spec_is_xmm() && !src.spec_is_xmm(),
        AsmOp::AddR32R32 { dst, src } => !dst.spec_is_xmm() && !src.spec_is_xmm(),
        AsmOp::AddR16R16 { dst, src } => !dst.spec_is_xmm() && !src.spec_is_xmm(),
        AsmOp::AddR8R8 { dst, src } => !dst.spec_is_xmm() && !src.spec_is_xmm(),
        AsmOp::AddR64I32 { dst, imm } => !dst.spec_is_xmm(),
        AsmOp::AddR32I32 { dst, imm } => !dst.spec_is_xmm(),
        AsmOp::AddQwordMemI32 { mem, imm } => mem_fits(mem),
        AsmOp::NotR64 { value } => !value.spec_is_xmm(),
        AsmOp::NotR32 { value } => !value.spec_is_xmm(),
        AsmOp::NotR16 { value } => !value.spec_is_xmm(),
        AsmOp::NotR8 { value } => !value.spec_is_xmm(),
        AsmOp::PcmpeqdScratch => true,
        AsmOp::PxorScratch { value } => value.spec_is_xmm(),
    }
}

/// Hands one instruction form to the assembler. Fails with a register or
/// label error exactly when the form is not ready; otherwise only the
/// assembler can refuse it.
pub fn emit(assembler: &mut CodeAssembler, op: AsmOp, labels: &LabelMap) -> (r: Result<(), EncodeError>)
    ensures
        r is Ok ==> emit_ready(op, labels),
        emit_ready(op, labels) ==> (r is Ok || r == Err::<(), EncodeError>(EncodeError::Assembler)),
        !emit_ready(op, labels) ==> r is Err && r->Err_0 != EncodeError::Assembler,
{
    match op {
        AsmOp::Nop | AsmOp::Ret | AsmOp::Cqo | AsmOp::JmpLabel { .. } | AsmOp::JeLabel { .. } | AsmOp::JneLabel { .. } | AsmOp::JmpQwordMem { .. } | AsmOp::ShrdR64R64I32 { .. } | AsmOp::SetaR8 { .. } | AsmOp::SetgR8 { .. } | AsmOp::SetaeR8 { .. } | AsmOp::SeteR8 { .. } | AsmOp::SeteMem { .. } | AsmOp::SetoR8 { .. } => emit_group_0(assembler, op, labels),
        AsmOp::SetoMem { .. } | AsmOp::SetcR8 { .. } | AsmOp::SetcMem { .. } | AsmOp::SetsR8 { .. } | AsmOp::SetsMem { .. } | AsmOp::SetgeR8 { .. } | AsmOp::SetneR8 { .. } | AsmOp::SetnzR8 { .. } | AsmOp::SetbeR8 { .. } | AsmOp::SetleR8 { .. } | AsmOp::SetlR8 { .. } | AsmOp::NegR64 { .. } | AsmOp::SarR64Cl { .. } | AsmOp::SarR32Cl { .. } => emit_group_1(assembler, op, labels),
        AsmOp::SarR64I32 { .. } | AsmOp::SarR32I32 { .. } | AsmOp::BextrR64 { .. } | AsmOp::Int { .. } | AsmOp::PushR64 { .. } | AsmOp::PopR64 { .. } | AsmOp::CmoveR64R64 { .. } | AsmOp::CmovneR64R64 { .. } | AsmOp::CmovneR32R32 { .. } | AsmOp::CmovneR16R16 { .. } | AsmOp::Mulpd { .. } | AsmOp::Mulps { .. } | AsmOp::Addpd { .. } | AsmOp::Subpd { .. } => emit_group_2(assembler, op, labels),
        AsmOp::Divpd { .. } | AsmOp::Divps { .. } | AsmOp::Subps { .. } | AsmOp::Imul3R64I32 { .. } | AsmOp::Imul2R64R64 { .. } | AsmOp::MulR64 { .. } | AsmOp::ImulR64 { .. } | AsmOp::IdivR64 { .. } | AsmOp::DivR64 { .. } | AsmOp::CallR64 { .. } | AsmOp::OutI32R8 { .. } | AsmOp::Pinsrw { .. } | AsmOp::Pinsrd { .. } | AsmOp::Pinsrq { .. } => emit_group_3(assembler, op, labels),
        AsmOp::Pinsrb { .. } | AsmOp::Pextrq { .. } | AsmOp::Punpcklqdq { .. } | AsmOp::Punpcklwd { .. } | AsmOp::Pshuflw { .. } | AsmOp::CmpxchgQwordR64 { .. } | AsmOp::CmpxchgDwordR32 { .. } | AsmOp::CmpxchgByteR8 { .. } | AsmOp::IncQwordMem { .. } | AsmOp::Cvtsi2sdR64 { .. } | AsmOp::Cvtsi2sdR32 { .. } | AsmOp::Cvtsi2ssR32 { .. } | AsmOp::Cvtsi2ssR64 { .. } | AsmOp::Cvtsd2siR32 { .. } => emit_group_4(assembler, op, labels),
        AsmOp::Cvtss2sd { .. } | AsmOp::Cvtsd2ss { .. } | AsmOp::Cmppd { .. } | AsmOp::MovR64R64 { .. } | AsmOp::MovR32R32 { .. } | AsmOp::MovR16R16 { .. } | AsmOp::MovR8R8 { .. } | AsmOp::Movdqa { .. } | AsmOp::MovqXX { .. } | AsmOp::MovR64Mem { .. } | AsmOp::MovR32Mem { .. } | AsmOp::MovR16Mem { .. } | AsmOp::MovR8Mem { .. } | AsmOp::MovMemR64 { .. } => emit_group_5(assembler, op, labels),
        AsmOp::MovMemR32 { .. } | AsmOp::MovMemR16 { .. } | AsmOp::MovMemR8 { .. } | AsmOp::MovDwordMemI32 { .. } | AsmOp::MovDwordMemU32 { .. } | AsmOp::MovWordMemU32 { .. } | AsmOp::MovByteMemU32 { .. } | AsmOp::MovR8I32 { .. } | AsmOp::MovR16I32 { .. } | AsmOp::MovR32I32 { .. } | AsmOp::MovR32U32 { .. } | AsmOp::MovR64U64 { .. } | AsmOp::MovdquXMem { .. } | AsmOp::MovdquMemX { .. } => emit_group_6(assembler, op, labels),
        AsmOp::MovdR32X { .. } | AsmOp::MovdXR32 { .. } | AsmOp::MovqXR64 { .. } | AsmOp::MovqR64X { .. } | AsmOp::MovqXMem { .. } | AsmOp::MovzxR32R8 { .. } | AsmOp::MovzxR64R8 { .. } | AsmOp::MovzxR16R8 { .. } | AsmOp::MovzxR32R16 { .. } | AsmOp::MovzxR64R16 { .. } | AsmOp::XorR64R64 { .. } | AsmOp::XorR32R32 { .. } | AsmOp::XorR16R16 { .. } | AsmOp::XorR8R8 { .. } => emit_group_7(assembler, op, labels),
        AsmOp::XorR64I32 { .. } | AsmOp::XorR32U32 { .. } | AsmOp::Pxor { .. } | AsmOp::OrR8I32 { .. } | AsmOp::OrR32I32 { .. } | AsmOp::OrR32U32 { .. } | AsmOp::OrR64I32 { .. } | AsmOp::OrR8R8 { .. } | AsmOp::OrR16R16 { .. } | AsmOp::OrR32R32 { .. } | AsmOp::OrR64R64 { .. } | AsmOp::Por { .. } | AsmOp::ShlR8U32 { .. } | AsmOp::ShlR16U32 { .. } => emit_group_8(assembler, op, labels),
        AsmOp::ShlR32U32 { .. } | AsmOp::ShlR64U32 { .. } | AsmOp::ShlR64Cl { .. } | AsmOp::ShlR32Cl { .. } | AsmOp::Pslldq { .. } | AsmOp::AddR64R64 { .. } | AsmOp::AddR32R32 { .. } | AsmOp::AddR16R16 { .. } | AsmOp::AddR8R8 { .. } | AsmOp::AddR64I32 { .. } | AsmOp::AddR32I32 { .. } | AsmOp::AddQwordMemI32 { .. } | AsmOp::NotR64 { .. } | AsmOp::NotR32 { .. } => emit_group_9(assembler, op, labels),
        AsmOp::NotR16 { .. } | AsmOp::NotR8 { .. } | AsmOp::PcmpeqdScratch | AsmOp::PxorScratch { .. } => emit_group_10(assembler, op, labels),
    }
}

fn emit_group_0(assembler: &mut CodeAssembler, op: AsmOp, labels: &LabelMap) -> (r: Result<(), EncodeError>)
    requires
        op is Nop || op is Ret || op is Cqo || op is JmpLabel || op is JeLabel || op is JneLabel || op is JmpQwordMem || op is ShrdR64R64I32 || op is SetaR8 || op is SetgR8 || op is SetaeR8 || op is SeteR8 || op is SeteMem || op is SetoR8,
    ensures
        r is Ok ==> emit_ready(op, labels),
        emit_ready(op, labels) ==> (r is Ok || r == Err::<(), EncodeError>(EncodeError::Assembler)),
        !emit_ready(op, labels) ==> r is Err && r->Err_0 != EncodeError::Assembler,
{
    match op {
        AsmOp::Nop => emit_nop(assembler, labels),
        AsmOp::Ret => emit_ret(assembler, labels),
        AsmOp::Cqo => emit_cqo(assembler, labels),
        AsmOp::JmpLabel { target } => emit_jmp_label(assembler, target, labels),
        AsmOp::JeLabel { target } => emit_je_label(assembler, target, labels),
        AsmOp::JneLabel { target } => emit_jne_label(assembler, target, labels),
        AsmOp::JmpQwordMem { mem } => emit_jmp_qword_mem(assembler, mem, labels),
        AsmOp::ShrdR64R64I32 { lo, hi, amount } => emit_shrd_r64_r64_i32(assembler, lo, hi, amount, labels),
        AsmOp::SetaR8 { dst } => emit_seta_r8(assembler, dst, labels),
        AsmOp::SetgR8 { dst } => emit_setg_r8(assembler, dst, labels),
        AsmOp::SetaeR8 { dst } => emit_setae_r8(assembler, dst, labels),
        AsmOp::SeteR8 { dst } => emit_sete_r8(assembler, dst, labels),
        AsmOp::SeteMem { mem } => emit_sete_mem(assembler, mem, labels),
        AsmOp::SetoR8 { dst } => emit_seto_r8(assembler, dst, labels),
        _ => Err(EncodeError::Assembler),
    }
}

fn emit_group_1(assembler: &mut CodeAssembler, op: AsmOp, labels: &LabelMap) -> (r: Result<(), EncodeError>)
    requires
        op is SetoMem || op is SetcR8 || op is SetcMem || op is SetsR8 || op is SetsMem || op is SetgeR8 || op is SetneR8 || op is SetnzR8 || op is SetbeR8 || op is SetleR8 || op is SetlR8 || op is NegR64 || op is SarR64Cl || op is SarR32Cl,
    ensures
        r is Ok ==> emit_ready(op, labels),
        emit_ready(op, labels) ==> (r is Ok || r == Err::<(), EncodeError>(EncodeError::Assembler)),
        !emit_ready(op, labels) ==> r is Err && r->Err_0 != EncodeError::Assembler,
{
    match op {
        AsmOp::SetoMem { mem } => emit_seto_mem(assembler, mem, labels),
        AsmOp::SetcR8 { dst } => emit_setc_r8(assembler, dst, labels),
        AsmOp::SetcMem { mem } => emit_setc_mem(assembler, mem, labels),
        AsmOp::SetsR8 { dst } => emit_sets_r8(assembler, dst, labels),
        AsmOp::SetsMem { mem } => emit_sets_mem(assembler, mem, labels),
        AsmOp::SetgeR8 { dst } => emit_setge_r8(assembler, dst, labels),
        AsmOp::SetneR8 { dst } => emit_setne_r8(assembler, dst, labels),
        AsmOp::SetnzR8 { dst } => emit_setnz_r8(assembler, dst, labels),
        AsmOp::SetbeR8 { dst } => emit_setbe_r8(assembler, dst, labels),
        AsmOp::SetleR8 { dst } => emit_setle_r8(assembler, dst, labels),
        AsmOp::SetlR8 { dst } => emit_setl_r8(assembler, dst, labels),
        AsmOp::NegR64 { value } => emit_neg_r64(assembler, value, labels),
        AsmOp::SarR64Cl { value, amount } => emit_sar_r64_cl(assembler, value, amount, labels),
        AsmOp::SarR32Cl { value, amount } => emit_sar_r32_cl(assembler, value, amount, labels),
        _ => Err(EncodeError::Assembler),
    }
}

fn emit_group_2(assembler: &mut CodeAssembler, op: AsmOp, labels: &LabelMap) -> (r: Result<(), EncodeError>)
    requires
        op is SarR64I32 || op is SarR32I32 || op is BextrR64 || op is Int || op is PushR64 || op is PopR64 || op is CmoveR64R64 || op is CmovneR64R64 || op is CmovneR32R32 || op is CmovneR16R16 || op is Mulpd || op is Mulps || op is Addpd || op is Subpd,
    ensures
        r is Ok ==> emit_ready(op, labels),
        emit_ready(op, labels) ==> (r is Ok || r == Err::<(), EncodeError>(EncodeError::Assembler)),
        !emit_ready(op, labels) ==> r is Err && r->Err_0 != EncodeError::Assembler,
{
    match op {
        AsmOp::SarR64I32 { value, amount } => emit_sar_r64_i32(assembler, value, amount, labels),
        AsmOp::SarR32I32 { value, amount } => emit_sar_r32_i32(assembler, value, amount, labels),
        AsmOp::BextrR64 { dst, src, ctrl } => emit_bextr_r64(assembler, dst, src, ctrl, labels),
        AsmOp::Int { n } => emit_int(assembler, n, labels),
        AsmOp::PushR64 { src } => emit_push_r64(assembler, src, labels),
        AsmOp::PopR64 { dst } => emit_pop_r64(assembler, dst, labels),
        AsmOp::CmoveR64R64 { dst, src } => emit_cmove_r64_r64(assembler, dst, src, labels),
        AsmOp::CmovneR64R64 { dst, src } => emit_cmovne_r64_r64(assembler, dst, src, labels),
        AsmOp::CmovneR32R32 { dst, src } => emit_cmovne_r32_r32(assembler, dst, src, labels),
        AsmOp::CmovneR16R16 { dst, src } => emit_cmovne_r16_r16(assembler, dst, src, labels),
        AsmOp::Mulpd { dst, src } => emit_mulpd(assembler, dst, src, labels),
        AsmOp::Mulps { dst, src } => emit_mulps(assembler, dst, src, labels),
        AsmOp::Addpd { dst, src } => emit_addpd(assembler, dst, src, labels),
        AsmOp::Subpd { dst, src } => emit_subpd(assembler, dst, src, labels),
        _ => Err(EncodeError::Assembler),
    }
}

fn emit_group_3(assembler: &mut CodeAssembler, op: AsmOp, labels: &LabelMap) -> (r: Result<(), EncodeError>)
    requires
        op is Divpd || op is Divps || op is Subps || op is Imul3R64I32 || op is Imul2R64R64 || op is MulR64 || op is ImulR64 || op is IdivR64 || op is DivR64 || op is CallR64 || op is OutI32R8 || op is Pinsrw || op is Pinsrd || op is Pinsrq,
    ensures
        r is Ok ==> emit_ready(op, labels),
        emit_ready(op, labels) ==> (r is Ok || r == Err::<(), EncodeError>(EncodeError::Assembler)),
        !emit_ready(op, labels) ==> r is Err && r->Err_0 != EncodeError::Assembler,
{
    match op {
        AsmOp::Divpd { dst, src } => emit_divpd(assembler, dst, src, labels),
        AsmOp::Divps { dst, src } => emit_divps(assembler, dst, src, labels),
        AsmOp::Subps { dst, src } => emit_subps(assembler, dst, src, labels),
        AsmOp::Imul3R64I32 { dst, src, imm } => emit_imul3_r64_i32(assembler, dst, src, imm, labels),
        AsmOp::Imul2R64R64 { dst, src } => emit_imul2_r64_r64(assembler, dst, src, labels),
        AsmOp::MulR64 { src } => emit_mul_r64(assembler, src, labels),
        AsmOp::ImulR64 { src } => emit_imul_r64(assembler, src, labels),
        AsmOp::IdivR64 { divisor } => emit_idiv_r64(assembler, divisor, labels),
        AsmOp::DivR64 { divisor } => emit_div_r64(assembler, divisor, labels),
        AsmOp::CallR64 { target } => emit_call_r64(assembler, target, labels),
        AsmOp::OutI32R8 { port, value } => emit_out_i32_r8(assembler, port, value, labels),
        AsmOp::Pinsrw { dst, src, index } => emit_pinsrw(assembler, dst, src, index, labels),
        AsmOp::Pinsrd { dst, src, index } => emit_pinsrd(assembler, dst, src, index, labels),
        AsmOp::Pinsrq { dst, src, index } => emit_pinsrq(assembler, dst, src, index, labels),
        _ => Err(EncodeError::Assembler),
    }
}

fn emit_group_4(assembler: &mut CodeAssembler, op: AsmOp, labels: &LabelMap) -> (r: Result<(), EncodeError>)
    requires
        op is Pinsrb || op is Pextrq || op is Punpcklqdq || op is Punpcklwd || op is Pshuflw || op is CmpxchgQwordR64 || op is CmpxchgDwordR32 || op is CmpxchgByteR8 || op is IncQwordMem || op is Cvtsi2sdR64 || op is Cvtsi2sdR32 || op is Cvtsi2ssR32 || op is Cvtsi2ssR64 || op is Cvtsd2siR32,
    ensures
        r is Ok ==> emit_ready(op, labels),
        emit_ready(op, labels) ==> (r is Ok || r == Err::<(), EncodeError>(EncodeError::Assembler)),
        !emit_ready(op, labels) ==> r is Err && r->Err_0 != EncodeError::Assembler,
{
    match op {
        AsmOp::Pinsrb { dst, src, index } => emit_pinsrb(assembler, dst, src, index, labels),
        AsmOp::Pextrq { dst, src, index } => emit_pextrq(assembler, dst, src, index, labels),
        AsmOp::Punpcklqdq { dst, src } => emit_punpcklqdq(assembler, dst, src, labels),
        AsmOp::Punpcklwd { dst, src } => emit_punpcklwd(assembler, dst, src, labels),
        AsmOp::Pshuflw { dst, src, select } => emit_pshuflw(assembler, dst, src, select, labels),
        AsmOp::CmpxchgQwordR64 { mem, src } => emit_cmpxchg_qword_r64(assembler, mem, src, labels),
        AsmOp::CmpxchgDwordR32 { mem, src } => emit_cmpxchg_dword_r32(assembler, mem, src, labels),
        AsmOp::CmpxchgByteR8 { mem, src } => emit_cmpxchg_byte_r8(assembler, mem, src, labels),
        AsmOp::IncQwordMem { mem } => emit_inc_qword_mem(assembler, mem, labels),
        AsmOp::Cvtsi2sdR64 { dst, src } => emit_cvtsi2sd_r64(assembler, dst, src, labels),
        AsmOp::Cvtsi2sdR32 { dst, src } => emit_cvtsi2sd_r32(assembler, dst, src, labels),
        AsmOp::Cvtsi2ssR32 { dst, src } => emit_cvtsi2ss_r32(assembler, dst, src, labels),
        AsmOp::Cvtsi2ssR64 { dst, src } => emit_cvtsi2ss_r64(assembler, dst, src, labels),
        AsmOp::Cvtsd2siR32 { dst, src } => emit_cvtsd2si_r32(assembler, dst, src, labels),
        _ => Err(EncodeError::Assembler),
    }
}

fn emit_group_5(assembler: &mut CodeAssembler, op: AsmOp, labels: &LabelMap) -> (r: Result<(), EncodeError>)
    requires
        op is Cvtss2sd || op is Cvtsd2ss || op is Cmppd || op is MovR64R64 || op is MovR32R32 || op is MovR16R16 || op is MovR8R8 || op is Movdqa || op is MovqXX || op is MovR64Mem || op is MovR32Mem || op is MovR16Mem || op is MovR8Mem || op is MovMemR64,
    ensures
        r is Ok ==> emit_ready(op, labels),
        emit_ready(op, labels) ==> (r is Ok || r == Err::<(), EncodeError>(EncodeError::Assembler)),
        !emit_ready(op, labels) ==> r is Err && r->Err_0 != EncodeError::Assembler,
{
    match op {
        AsmOp::Cvtss2sd { dst, src } => emit_cvtss2sd(assembler, dst, src, labels),
        AsmOp::Cvtsd2ss { dst, src } => emit_cvtsd2ss(assembler, dst, src, labels),
        AsmOp::Cmppd { dst, src, predicate } => emit_cmppd(assembler, dst, src, predicate, labels),
        AsmOp::MovR64R64 { dst, src } => emit_mov_r64_r64(assembler, dst, src, labels),
        AsmOp::MovR32R32 { dst, src } => emit_mov_r32_r32(assembler, dst, src, labels),
        AsmOp::MovR16R16 { dst, src } => emit_mov_r16_r16(assembler, dst, src, labels),
        AsmOp::MovR8R8 { dst, src } => emit_mov_r8_r8(assembler, dst, src, labels),
        AsmOp::Movdqa { dst, src } => emit_movdqa(assembler, dst, src, labels),
        AsmOp::MovqXX { dst, src } => emit_movq_x_x(assembler, dst, src, labels),
        AsmOp::MovR64Mem { dst, mem } => emit_mov_r64_mem(assembler, dst, mem, labels),
        AsmOp::MovR32Mem { dst, mem } => emit_mov_r32_mem(assembler, dst, mem, labels),
        AsmOp::MovR16Mem { dst, mem } => emit_mov_r16_mem(assembler, dst, mem, labels),
        AsmOp::MovR8Mem { dst, mem } => emit_mov_r8_mem(assembler, dst, mem, labels),
        AsmOp::MovMemR64 { mem, src } => emit_mov_mem_r64(assembler, mem, src, labels),
        _ => Err(EncodeError::Assembler),
    }
}

fn emit_group_6(assembler: &mut CodeAssembler, op: AsmOp, labels: &LabelMap) -> (r: Result<(), EncodeError>)
    requires
        op is MovMemR32 || op is MovMemR16 || op is MovMemR8 || op is MovDwordMemI32 || op is MovDwordMemU32 || op is MovWordMemU32 || op is MovByteMemU32 || op is MovR8I32 || op is MovR16I32 || op is MovR32I32 || op is MovR32U32 || op is MovR64U64 || op is MovdquXMem || op is MovdquMemX,
    ensures
        r is Ok ==> emit_ready(op, labels),
        emit_ready(op, labels) ==> (r is Ok || r == Err::<(), EncodeError>(EncodeError::Assembler)),
        !emit_ready(op, labels) ==> r is Err && r->Err_0 != EncodeError::Assembler,
{
    match op {
        AsmOp::MovMemR32 { mem, src } => emit_mov_mem_r32(assembler, mem, src, labels),
        AsmOp::MovMemR16 { mem, src } => emit_mov_mem_r16(assembler, mem, src, labels),
        AsmOp::MovMemR8 { mem, src } => emit_mov_mem_r8(assembler, mem, src, labels),
        AsmOp::MovDwordMemI32 { mem, imm } => emit_mov_dword_mem_i32(assembler, mem, imm, labels),
        AsmOp::MovDwordMemU32 { mem, imm } => emit_mov_dword_mem_u32(assembler, mem, imm, labels),
        AsmOp::MovWordMemU32 { mem, imm } => emit_mov_word_mem_u32(assembler, mem, imm, labels),
        AsmOp::MovByteMemU32 { mem, imm } => emit_mov_byte_mem_u32(assembler, mem, imm, labels),
        AsmOp::MovR8I32 { dst, imm } => emit_mov_r8_i32(assembler, dst, imm, labels),
        AsmOp::MovR16I32 { dst, imm } => emit_mov_r16_i32(assembler, dst, imm, labels),
        AsmOp::MovR32I32 { dst, imm } => emit_mov_r32_i32(assembler, dst, imm, labels),
        AsmOp::MovR32U32 { dst, imm } => emit_mov_r32_u32(assembler, dst, imm, labels),
        AsmOp::MovR64U64 { dst, imm } => emit_mov_r64_u64(assembler, dst, imm, labels),
        AsmOp::MovdquXMem { dst, mem } => emit_movdqu_x_mem(assembler, dst, mem, labels),
        AsmOp::MovdquMemX { mem, src } => emit_movdqu_mem_x(assembler, mem, src, labels),
        _ => Err(EncodeError::Assembler),
    }
}

fn emit_group_7(assembler: &mut CodeAssembler, op: AsmOp, labels: &LabelMap) -> (r: Result<(), EncodeError>)
    requires
        op is MovdR32X || op is MovdXR32 || op is MovqXR64 || op is MovqR64X || op is MovqXMem || op is MovzxR32R8 || op is MovzxR64R8 || op is MovzxR16R8 || op is MovzxR32R16 || op is MovzxR64R16 || op is XorR64R64 || op is XorR32R32 || op is XorR16R16 || op is XorR8R8,
    ensures
        r is Ok ==> emit_ready(op, labels),
        emit_ready(op, labels) ==> (r is Ok || r == Err::<(), EncodeError>(EncodeError::Assembler)),
        !emit_ready(op, labels) ==> r is Err && r->Err_0 != EncodeError::Assembler,
{
    match op {
        AsmOp::MovdR32X { dst, src } => emit_movd_r32_x(assembler, dst, src, labels),
        AsmOp::MovdXR32 { dst, src } => emit_movd_x_r32(assembler, dst, src, labels),
        AsmOp::MovqXR64 { dst, src } => emit_movq_x_r64(assembler, dst, src, labels),
        AsmOp::MovqR64X { dst, src } => emit_movq_r64_x(assembler, dst, src, labels),
        AsmOp::MovqXMem { dst, mem } => emit_movq_x_mem(assembler, dst, mem, labels),
        AsmOp::MovzxR32R8 { dst, src } => emit_movzx_r32_r8(assembler, dst, src, labels),
        AsmOp::MovzxR64R8 { dst, src } => emit_movzx_r64_r8(assembler, dst, src, labels),
        AsmOp::MovzxR16R8 { dst, src } => emit_movzx_r16_r8(assembler, dst, src, labels),
        AsmOp::MovzxR32R16 { dst, src } => emit_movzx_r32_r16(assembler, dst, src, labels),
        AsmOp::MovzxR64R16 { dst, src } => emit_movzx_r64_r16(assembler, dst, src, labels),
        AsmOp::XorR64R64 { dst, src } => emit_xor_r64_r64(assembler, dst, src, labels),
        AsmOp::XorR32R32 { dst, src } => emit_xor_r32_r32(assembler, dst, src, labels),
        AsmOp::XorR16R16 { dst, src } => emit_xor_r16_r16(assembler, dst, src, labels),
        AsmOp::XorR8R8 { dst, src } => emit_xor_r8_r8(assembler, dst, src, labels),
        _ => Err(EncodeError::Assembler),
    }
}

fn emit_group_8(assembler: &mut CodeAssembler, op: AsmOp, labels: &LabelMap) -> (r: Result<(), EncodeError>)
    requires
        op is XorR64I32 || op is XorR32U32 || op is Pxor || op is OrR8I32 || op is OrR32I32 || op is OrR32U32 || op is OrR64I32 || op is OrR8R8 || op is OrR16R16 || op is OrR32R32 || op is OrR64R64 || op is Por || op is ShlR8U32 || op is ShlR16U32,
    ensures
        r is Ok ==> emit_ready(op, labels),
        emit_ready(op, labels) ==> (r is Ok || r == Err::<(), EncodeError>(EncodeError::Assembler)),
        !emit_ready(op, labels) ==> r is Err && r->Err_0 != EncodeError::Assembler,
{
    match op {
        AsmOp::XorR64I32 { dst, imm } => emit_xor_r64_i32(assembler, dst, imm, labels),
        AsmOp::XorR32U32 { dst, imm } => emit_xor_r32_u32(assembler, dst, imm, labels),
        AsmOp::Pxor { dst, src } => emit_pxor(assembler, dst, src, labels),
        AsmOp::OrR8I32 { dst, imm } => emit_or_r8_i32(assembler, dst, imm, labels),
        AsmOp::OrR32I32 { dst, imm } => emit_or_r32_i32(assembler, dst, imm, labels),
        AsmOp::OrR32U32 { dst, imm } => emit_or_r32_u32(assembler, dst, imm, labels),
        AsmOp::OrR64I32 { dst, imm } => emit_or_r64_i32(assembler, dst, imm, labels),
        AsmOp::OrR8R8 { dst, src } => emit_or_r8_r8(assembler, dst, src, labels),
        AsmOp::OrR16R16 { dst, src } => emit_or_r16_r16(assembler, dst, src, labels),
        AsmOp::OrR32R32 { dst, src } => emit_or_r32_r32(assembler, dst, src, labels),
        AsmOp::OrR64R64 { dst, src } => emit_or_r64_r64(assembler, dst, src, labels),
        AsmOp::Por { dst, src } => emit_por(assembler, dst, src, labels),
        AsmOp::ShlR8U32 { value, amount } => emit_shl_r8_u32(assembler, value, amount, labels),
        AsmOp::ShlR16U32 { value, amount } => emit_shl_r16_u32(assembler, value, amount, labels),
        _ => Err(EncodeError::Assembler),
    }
}

fn emit_group_9(assembler: &mut CodeAssembler, op: AsmOp, labels: &LabelMap) -> (r: Result<(), EncodeError>)
    requires
        op is ShlR32U32 || op is ShlR64U32 || op is ShlR64Cl || op is ShlR32Cl || op is Pslldq || op is AddR64R64 || op is AddR32R32 || op is AddR16R16 || op is AddR8R8 || op is AddR64I32 || op is AddR32I32 || op is AddQwordMemI32 || op is NotR64 || op is NotR32,
    ensures
        r is Ok ==> emit_ready(op, labels),
        emit_ready(op, labels) ==> (r is Ok || r == Err::<(), EncodeError>(EncodeError::Assembler)),
        !emit_ready(op, labels) ==> r is Err && r->Err_0 != EncodeError::Assembler,
{
    match op {
        AsmOp::ShlR32U32 { value, amount } => emit_shl_r32_u32(assembler, value, amount, labels),
        AsmOp::ShlR64U32 { value, amount } => emit_shl_r64_u32(assembler, value, amount, labels),
        AsmOp::ShlR64Cl { value, amount } => emit_shl_r64_cl(assembler, value, amount, labels),
        AsmOp::ShlR32Cl { value, amount } => emit_shl_r32_cl(assembler, value, amount, labels),
        AsmOp::Pslldq { value, bytes } => emit_pslldq(assembler, value, bytes, labels),
        AsmOp::AddR64R64 { dst, src } => emit_add_r64_r64(assembler, dst, src, labels),
        AsmOp::AddR32R32 { dst, src } => emit_add_r32_r32(assembler, dst, src, labels),
        AsmOp::AddR16R16 { dst, src } => emit_add_r16_r16(assembler, dst, src, labels),
        AsmOp::AddR8R8 { dst, src } => emit_add_r8_r8(assembler, dst, src, labels),
        AsmOp::AddR64I32 { dst, imm } => emit_add_r64_i32(assembler, dst, imm, labels),
        AsmOp::AddR32I32 { dst, imm } => emit_add_r32_i32(assembler, dst, imm, labels),
        AsmOp::AddQwordMemI32 { mem, imm } => emit_add_qword_mem_i32(assembler, mem, imm, labels),
        AsmOp::NotR64 { value } => emit_not_r64(assembler, value, labels),
        AsmOp::NotR32 { value } => emit_not_r32(assembler, value, labels),
        _ => Err(EncodeError::Assembler),
    }
}

fn emit_group_10(assembler: &mut CodeAssembler, op: AsmOp, labels: &LabelMap) -> (r: Result<(), EncodeError>)
    requires
        op is NotR16 || op is NotR8 || op is PcmpeqdScratch || op is PxorScratch,
    ensures
        r is Ok ==> emit_ready(op, labels),
        emit_ready(op, labels) ==> (r is Ok || r == Err::<(), EncodeError>(EncodeError::Assembler)),
        !emit_ready(op, labels) ==> r is Err && r->Err_0 != EncodeError::Assembler,
{
    match op {
        AsmOp::NotR16 { value } => emit_not_r16(assembler, value, labels),
        AsmOp::NotR8 { value } => emit_not_r8(assembler, value, labels),
        AsmOp::PcmpeqdScratch => emit_pcmpeqd_scratch(assembler, labels),
        AsmOp::PxorScratch { value } => emit_pxor_scratch(assembler, value, labels),
        _ => Err(EncodeError::Assembler),
    }
}

fn emit_nop(assembler: &mut CodeAssembler, labels: &LabelMap) -> (r: Result<(), EncodeError>)
    ensures
        r is Ok ==> (true),
        (true) ==> (r is Ok || r == Err::<(), EncodeError>(EncodeError::Assembler)),
        !(true) ==> r is Err && r->Err_0 != EncodeError::Assembler,
{
    lift(iced::asm_nop(assembler))
}

fn emit_ret(assembler: &mut CodeAssembler, labels: &LabelMap) -> (r: Result<(), EncodeError>)
    ensures
        r is Ok ==> (true),
        (true) ==> (r is Ok || r == Err::<(), EncodeError>(EncodeError::Assembler)),
        !(true) ==> r is Err && r->Err_0 != EncodeError::Assembler,
{
    lift(iced::asm_ret(assembler))
}

fn emit_cqo(assembler: &mut CodeAssembler, labels: &LabelMap) -> (r: Result<(), EncodeError>)
    ensures
        r is Ok ==> (true),
        (true) ==> (r is Ok || r == Err::<(), EncodeError>(EncodeError::Assembler)),
        !(true) ==> r is Err && r->Err_0 != EncodeError::Assembler,
{
    lift(iced::asm_cqo(assembler))
}

fn emit_jmp_label(assembler: &mut CodeAssembler, target: BlockRef, labels: &LabelMap) -> (r: Result<(), EncodeError>)
    ensures
        r is Ok ==> (labels.has(target)),
        (labels.has(target)) ==> (r is Ok || r == Err::<(), EncodeError>(EncodeError::Assembler)),
        !(labels.has(target)) ==> r is Err && r->Err_0 != EncodeError::Assembler,
{
    let target = match label(labels, target) { Ok(x) => x, Err(e) => return Err(e) };
    lift(iced::asm_jmp_label(assembler, target))
}

fn emit_je_label(assembler: &mut CodeAssembler, target: BlockRef, labels: &LabelMap) -> (r: Result<(), EncodeError>)
    ensures
        r is Ok ==> (labels.has(target)),
        (labels.has(target)) ==> (r is Ok || r == Err::<(), EncodeError>(EncodeError::Assembler)),
        !(labels.has(target)) ==> r is Err && r->Err_0 != EncodeError::Assembler,
{
    let target = match label(labels, target) { Ok(x) => x, Err(e) => return Err(e) };
    lift(iced::asm_je_label(assembler, target))
}

fn emit_jne_label(assembler: &mut CodeAssembler, target: BlockRef, labels: &LabelMap) -> (r: Result<(), EncodeError>)
    ensures
        r is Ok ==> (labels.has(target)),
        (labels.has(target)) ==> (r is Ok || r == Err::<(), EncodeError>(EncodeError::Assembler)),
        !(labels.has(target)) ==> r is Err && r->Err_0 != EncodeError::Assembler,
{
    let target = match label(labels, target) { Ok(x) => x, Err(e) => return Err(e) };
    lift(iced::asm_jne_label(assembler, target))
}

fn emit_jmp_qword_mem(assembler: &mut CodeAssembler, mem: MemRef, labels: &LabelMap) -> (r: Result<(), EncodeError>)
    ensures
        r is Ok ==> (mem_fits(mem)),
        (mem_fits(mem)) ==> (r is Ok || r == Err::<(), EncodeError>(EncodeError::Assembler)),
        !(mem_fits(mem)) ==> r is Err && r->Err_0 != EncodeError::Assembler,
{
    let mem = match mem_operand(mem) { Ok(x) => x, Err(e) => return Err(e) };
    let mem = iced::qword_ptr(mem);
    lift(iced::asm_jmp_qword_mem(assembler, mem))
}

fn emit_shrd_r64_r64_i32(assembler: &mut CodeAssembler, lo: PhysicalRegister, hi: PhysicalRegister, amount: i32, labels: &LabelMap) -> (r: Result<(), EncodeError>)
    ensures
        r is Ok ==> (!lo.spec_is_xmm() && !hi.spec_is_xmm()),
        (!lo.spec_is_xmm() && !hi.spec_is_xmm()) ==> (r is Ok || r == Err::<(), EncodeError>(EncodeError::Assembler)),
        !(!lo.spec_is_xmm() && !hi.spec_is_xmm()) ==> r is Err && r->Err_0 != EncodeError::Assembler,
{
    let lo = match r64(lo) { Ok(x) => x, Err(e) => return Err(e) };
    let hi = match r64(hi) { Ok(x) => x, Err(e) => return Err(e) };
    lift(iced::asm_shrd_r64_r64_i32(assembler, lo, hi, amount))
}

fn emit_seta_r8(assembler: &mut CodeAssembler, dst: PhysicalRegister, labels: &LabelMap) -> (r: Result<(), EncodeError>)
    ensures
        r is Ok ==> (!dst.spec_is_xmm()),
        (!dst.spec_is_xmm()) ==> (r is Ok || r == Err::<(), EncodeError>(EncodeError::Assembler)),
        !(!dst.spec_is_xmm()) ==> r is Err && r->Err_0 != EncodeError::Assembler,
{
    let dst = match r8(dst) { Ok(x) => x, Err(e) => return Err(e) };
    lift(iced::asm_seta_r8(assembler, dst))
}

fn emit_setg_r8(assembler: &mut CodeAssembler, dst: PhysicalRegister, labels: &LabelMap) -> (r: Result<(), EncodeError>)
    ensures
        r is Ok ==> (!dst.spec_is_xmm()),
        (!dst.spec_is_xmm()) ==> (r is Ok || r == Err::<(), EncodeError>(EncodeError::Assembler)),
        !(!dst.spec_is_xmm()) ==> r is Err && r->Err_0 != EncodeError::Assembler,
{
    let dst = match r8(dst) { Ok(x) => x, Err(e) => return Err(e) };
    lift(iced::asm_setg_r8(assembler, dst))
}

fn emit_setae_r8(assembler: &mut CodeAssembler, dst: PhysicalRegister, labels: &LabelMap) -> (r: Result<(), EncodeError>)
    ensures
        r is Ok ==> (!dst.spec_is_xmm()),
        (!dst.spec_is_xmm()) ==> (r is Ok || r == Err::<(), EncodeError>(EncodeError::Assembler)),
        !(!dst.spec_is_xmm()) ==> r is Err && r->Err_0 != EncodeError::Assembler,
{
    let dst = match r8(dst) { Ok(x) => x, Err(e) => return Err(e) };
    lift(iced::asm_setae_r8(assembler, dst))
}

fn emit_sete_r8(assembler: &mut CodeAssembler, dst: PhysicalRegister, labels: &LabelMap) -> (r: Result<(), EncodeError>)
    ensures
        r is Ok ==> (!dst.spec_is_xmm()),
        (!dst.spec_is_xmm()) ==> (r is Ok || r == Err::<(), EncodeError>(EncodeError::Assembler)),
        !(!dst.spec_is_xmm()) ==> r is Err && r->Err_0 != EncodeError::Assembler,
{
    let dst = match r8(dst) { Ok(x) => x, Err(e) => return Err(e) };
    lift(iced::asm_sete_r8(assembler, dst))
}

fn emit_sete_mem(assembler: &mut CodeAssembler, mem: MemRef, labels: &LabelMap) -> (r: Result<(), EncodeError>)
    ensures
        r is Ok ==> (mem_fits(mem)),
        (mem_fits(mem)) ==> (r is Ok || r == Err::<(), EncodeError>(EncodeError::Assembler)),
        !(mem_fits(mem)) ==> r is Err && r->Err_0 != EncodeError::Assembler,
{
    let mem = match mem_operand(mem) { Ok(x) => x, Err(e) => return Err(e) };
    lift(iced::asm_sete_mem(assembler, mem))
}

fn emit_seto_r8(assembler: &mut CodeAssembler, dst: PhysicalRegister, labels: &LabelMap) -> (r: Result<(), EncodeError>)
    ensures
        r is Ok ==> (!dst.spec_is_xmm()),
        (!dst.spec_is_xmm()) ==> (r is Ok || r == Err::<(), EncodeError>(EncodeError::Assembler)),
        !(!dst.spec_is_xmm()) ==> r is Err && r->Err_0 != EncodeError::Assembler,
{
    let dst = match r8(dst) { Ok(x) => x, Err(e) => return Err(e) };
    lift(iced::asm_seto_r8(assembler, dst))
}

fn emit_seto_mem(assembler: &mut CodeAssembler, mem: MemRef, labels: &LabelMap) -> (r: Result<(), EncodeError>)
    ensures
        r is Ok ==> (mem_fits(mem)),
        (mem_fits(mem)) ==> (r is Ok || r == Err::<(), EncodeError>(EncodeError::Assembler)),
        !(mem_fits(mem)) ==> r is Err && r->Err_0 != EncodeError::Assembler,
{
    let mem = match mem_operand(mem) { Ok(x) => x, Err(e) => return Err(e) };
    lift(iced::asm_seto_mem(assembler, mem))
}

fn emit_setc_r8(assembler: &mut CodeAssembler, dst: PhysicalRegister, labels: &LabelMap) -> (r: Result<(), EncodeError>)
    ensures
        r is Ok ==> (!dst.spec_is_xmm()),
        (!dst.spec_is_xmm()) ==> (r is Ok || r == Err::<(), EncodeError>(EncodeError::Assembler)),
        !(!dst.spec_is_xmm()) ==> r is Err && r->Err_0 != EncodeError::Assembler,
{
    let dst = match r8(dst) { Ok(x) => x, Err(e) => return Err(e) };
    lift(iced::asm_setc_r8(assembler, dst))
}

fn emit_setc_mem(assembler: &mut CodeAssembler, mem: MemRef, labels: &LabelMap) -> (r: Result<(), EncodeError>)
    ensures
        r is Ok ==> (mem_fits(mem)),
        (mem_fits(mem)) ==> (r is Ok || r == Err::<(), EncodeError>(EncodeError::Assembler)),
        !(mem_fits(mem)) ==> r is Err && r->Err_0 != EncodeError::Assembler,
{
    let mem = match mem_operand(mem) { Ok(x) => x, Err(e) => return Err(e) };
    lift(iced::asm_setc_mem(assembler, mem))
}

fn emit_sets_r8(assembler: &mut CodeAssembler, dst: PhysicalRegister, labels: &LabelMap) -> (r: Result<(), EncodeError>)
    ensures
        r is Ok ==> (!dst.spec_is_xmm()),
        (!dst.spec_is_xmm()) ==> (r is Ok || r == Err::<(), EncodeError>(EncodeError::Assembler)),
        !(!dst.spec_is_xmm()) ==> r is Err && r->Err_0 != EncodeError::Assembler,
{
    let dst = match r8(dst) { Ok(x) => x, Err(e) => return Err(e) };
    lift(iced::asm_sets_r8(assembler, dst))
}

fn emit_sets_mem(assembler: &mut CodeAssembler, mem: MemRef, labels: &LabelMap) -> (r: Result<(), EncodeError>)
    ensures
        r is Ok ==> (mem_fits(mem)),
        (mem_fits(mem)) ==> (r is Ok || r == Err::<(), EncodeError>(EncodeError::Assembler)),
        !(mem_fits(mem)) ==> r is Err && r->Err_0 != EncodeError::Assembler,
{
    let mem = match mem_operand(mem) { Ok(x) => x, Err(e) => return Err(e) };
    lift(iced::asm_sets_mem(assembler, mem))
}

fn emit_setge_r8(assembler: &mut CodeAssembler, dst: PhysicalRegister, labels: &LabelMap) -> (r: Result<(), EncodeError>)
    ensures
        r is Ok ==> (!dst.spec_is_xmm()),
        (!dst.spec_is_xmm()) ==> (r is Ok || r == Err::<(), EncodeError>(EncodeError::Assembler)),
        !(!dst.spec_is_xmm()) ==> r is Err && r->Err_0 != EncodeError::Assembler,
{
    let dst = match r8(dst) { Ok(x) => x, Err(e) => return Err(e) };
    lift(iced::asm_setge_r8(assembler, dst))
}

fn emit_setne_r8(assembler: &mut CodeAssembler, dst: PhysicalRegister, labels: &LabelMap) -> (r: Result<(), EncodeError>)
    ensures
        r is Ok ==> (!dst.spec_is_xmm()),
        (!dst.spec_is_xmm()) ==> (r is Ok || r == Err::<(), EncodeError>(EncodeError::Assembler)),
        !(!dst.spec_is_xmm()) ==> r is Err && r->Err_0 != EncodeError::Assembler,
{
    let dst = match r8(dst) { Ok(x) => x, Err(e) => return Err(e) };
    lift(iced::asm_setne_r8(assembler, dst))
}

fn emit_setnz_r8(assembler: &mut CodeAssembler, dst: PhysicalRegister, labels: &LabelMap) -> (r: Result<(), EncodeError>)
    ensures
        r is Ok ==> (!dst.spec_is_xmm()),
        (!dst.spec_is_xmm()) ==> (r is Ok || r == Err::<(), EncodeError>(EncodeError::Assembler)),
        !(!dst.spec_is_xmm()) ==> r is Err && r->Err_0 != EncodeError::Assembler,
{
    let dst = match r8(dst) { Ok(x) => x, Err(e) => return Err(e) };
    lift(iced::asm_setnz_r8(assembler, dst))
}

fn emit_setbe_r8(assembler: &mut CodeAssembler, dst: PhysicalRegister, labels: &LabelMap) -> (r: Result<(), EncodeError>)
    ensures
        r is Ok ==> (!dst.spec_is_xmm()),
        (!dst.spec_is_xmm()) ==> (r is Ok || r == Err::<(), EncodeError>(EncodeError::Assembler)),
        !(!dst.spec_is_xmm()) ==> r is Err && r->Err_0 != EncodeError::Assembler,
{
    let dst = match r8(dst) { Ok(x) => x, Err(e) => return Err(e) };
    lift(iced::asm_setbe_r8(assembler, dst))
}

fn emit_setle_r8(assembler: &mut CodeAssembler, dst: PhysicalRegister, labels: &LabelMap) -> (r: Result<(), EncodeError>)
    ensures
        r is Ok ==> (!dst.spec_is_xmm()),
        (!dst.spec_is_xmm()) ==> (r is Ok || r == Err::<(), EncodeError>(EncodeError::Assembler)),
        !(!dst.spec_is_xmm()) ==> r is Err && r->Err_0 != EncodeError::Assembler,
{
    let dst = match r8(dst) { Ok(x) => x, Err(e) => return Err(e) };
    lift(iced::asm_setle_r8(assembler, dst))
}

fn emit_setl_r8(assembler: &mut CodeAssembler, dst: PhysicalRegister, labels: &LabelMap) -> (r: Result<(), EncodeError>)
    ensures
        r is Ok ==> (!dst.spec_is_xmm()),
        (!dst.spec_is_xmm()) ==> (r is Ok || r == Err::<(), EncodeError>(EncodeError::Assembler)),
        !(!dst.spec_is_xmm()) ==> r is Err && r->Err_0 != EncodeError::Assembler,
{
    let dst = match r8(dst) { Ok(x) => x, Err(e) => return Err(e) };
    lift(iced::asm_setl_r8(assembler, dst))
}

fn emit_neg_r64(assembler: &mut CodeAssembler, value: PhysicalRegister, labels: &LabelMap) -> (r: Result<(), EncodeError>)
    ensures
        r is Ok ==> (!value.spec_is_xmm()),
        (!value.spec_is_xmm()) ==> (r is Ok || r == Err::<(), EncodeError>(EncodeError::Assembler)),
        !(!value.spec_is_xmm()) ==> r is Err && r->Err_0 != EncodeError::Assembler,
{
    let value = match r64(value) { Ok(x) => x, Err(e) => return Err(e) };
    lift(iced::asm_neg_r64(assembler, value))
}

fn emit_sar_r64_cl(assembler: &mut CodeAssembler, value: PhysicalRegister, amount: PhysicalRegister, labels: &LabelMap) -> (r: Result<(), EncodeError>)
    ensures
        r is Ok ==> (!value.spec_is_xmm() && !amount.spec_is_xmm()),
        (!value.spec_is_xmm() && !amount.spec_is_xmm()) ==> (r is Ok || r == Err::<(), EncodeError>(EncodeError::Assembler)),
        !(!value.spec_is_xmm() && !amount.spec_is_xmm()) ==> r is Err && r->Err_0 != EncodeError::Assembler,
{
    let value = match r64(value) { Ok(x) => x, Err(e) => return Err(e) };
    let amount = match r8(amount) { Ok(x) => x, Err(e) => return Err(e) };
    lift(iced::asm_sar_r64_cl(assembler, value, amount))
}

fn emit_sar_r32_cl(assembler: &mut CodeAssembler, value: PhysicalRegister, amount: PhysicalRegister, labels: &LabelMap) -> (r: Result<(), EncodeError>)
    ensures
        r is Ok ==> (!value.spec_is_xmm() && !amount.spec_is_xmm()),
        (!value.spec_is_xmm() && !amount.spec_is_xmm()) ==> (r is Ok || r == Err::<(), EncodeError>(EncodeError::Assembler)),
        !(!value.spec_is_xmm() && !amount.spec_is_xmm()) ==> r is Err && r->Err_0 != EncodeError::Assembler,
{
    let value = match r32(value) { Ok(x) => x, Err(e) => return Err(e) };
    let amount = match r8(amount) { Ok(x) => x, Err(e) => return Err(e) };
    lift(iced::asm_sar_r32_cl(assembler, value, amount))
}

fn emit_sar_r64_i32(assembler: &mut CodeAssembler, value: PhysicalRegister, amount: i32, labels: &LabelMap) -> (r: Result<(), EncodeError>)
    ensures
        r is Ok ==> (!value.spec_is_xmm()),
        (!value.spec_is_xmm()) ==> (r is Ok || r == Err::<(), EncodeError>(EncodeError::Assembler)),
        !(!value.spec_is_xmm()) ==> r is Err && r->Err_0 != EncodeError::Assembler,
{
    let value = match r64(value) { Ok(x) => x, Err(e) => return Err(e) };
    lift(iced::asm_sar_r64_i32(assembler, value, amount))
}

fn emit_sar_r32_i32(assembler: &mut CodeAssembler, value: PhysicalRegister, amount: i32, labels: &LabelMap) -> (r: Result<(), EncodeError>)
    ensures
        r is Ok ==> (!value.spec_is_xmm()),
        (!value.spec_is_xmm()) ==> (r is Ok || r == Err::<(), EncodeError>(EncodeError::Assembler)),
        !(!value.spec_is_xmm()) ==> r is Err && r->Err_0 != EncodeError::Assembler,
{
    let value = match r32(value) { Ok(x) => x, Err(e) => return Err(e) };
    lift(iced::asm_sar_r32_i32(assembler, value, amount))
}

fn emit_bextr_r64(assembler: &mut CodeAssembler, dst: PhysicalRegister, src: PhysicalRegister, ctrl: PhysicalRegister, labels: &LabelMap) -> (r: Result<(), EncodeError>)
    ensures
        r is Ok ==> (!dst.spec_is_xmm() && !src.spec_is_xmm() && !ctrl.spec_is_xmm()),
        (!dst.spec_is_xmm() && !src.spec_is_xmm() && !ctrl.spec_is_xmm()) ==> (r is Ok || r == Err::<(), EncodeError>(EncodeError::Assembler)),
        !(!dst.spec_is_xmm() && !src.spec_is_xmm() && !ctrl.spec_is_xmm()) ==> r is Err && r->Err_0 != EncodeError::Assembler,
{
    let dst = match r64(dst) { Ok(x) => x, Err(e) => return Err(e) };
    let src = match r64(src) { Ok(x) => x, Err(e) => return Err(e) };
    let ctrl = match r64(ctrl) { Ok(x) => x, Err(e) => return Err(e) };
    lift(iced::asm_bextr_r64(assembler, dst, src, ctrl))
}

fn emit_int(assembler: &mut CodeAssembler, n: i32, labels: &LabelMap) -> (r: Result<(), EncodeError>)
    ensures
        r is Ok ==> (true),
        (true) ==> (r is Ok || r == Err::<(), EncodeError>(EncodeError::Assembler)),
        !(true) ==> r is Err && r->Err_0 != EncodeError::Assembler,
{
    lift(iced::asm_int(assembler, n))
}

fn emit_push_r64(assembler: &mut CodeAssembler, src: PhysicalRegister, labels: &LabelMap) -> (r: Result<(), EncodeError>)
    ensures
        r is Ok ==> (!src.spec_is_xmm()),
        (!src.spec_is_xmm()) ==> (r is Ok || r == Err::<(), EncodeError>(EncodeError::Assembler)),
        !(!src.spec_is_xmm()) ==> r is Err && r->Err_0 != EncodeError::Assembler,
{
    let src = match r64(src) { Ok(x) => x, Err(e) => return Err(e) };
    lift(iced::asm_push_r64(assembler, src))
}

fn emit_pop_r64(assembler: &mut CodeAssembler, dst: PhysicalRegister, labels: &LabelMap) -> (r: Result<(), EncodeError>)
    ensures
        r is Ok ==> (!dst.spec_is_xmm()),
        (!dst.spec_is_xmm()) ==> (r is Ok || r == Err::<(), EncodeError>(EncodeError::Assembler)),
        !(!dst.spec_is_xmm()) ==> r is Err && r->Err_0 != EncodeError::Assembler,
{
    let dst = match r64(dst) { Ok(x) => x, Err(e) => return Err(e) };
    lift(iced::asm_pop_r64(assembler, dst))
}

fn emit_cmove_r64_r64(assembler: &mut CodeAssembler, dst: PhysicalRegister, src: PhysicalRegister, labels: &LabelMap) -> (r: Result<(), EncodeError>)
    ensures
        r is Ok ==> (!dst.spec_is_xmm() && !src.spec_is_xmm()),
        (!dst.spec_is_xmm() && !src.spec_is_xmm()) ==> (r is Ok || r == Err::<(), EncodeError>(EncodeError::Assembler)),
        !(!dst.spec_is_xmm() && !src.spec_is_xmm()) ==> r is Err && r->Err_0 != EncodeError::Assembler,
{
    let dst = match r64(dst) { Ok(x) => x, Err(e) => return Err(e) };
    let src = match r64(src) { Ok(x) => x, Err(e) => return Err(e) };
    lift(iced::asm_cmove_r64_r64(assembler, dst, src))
}

fn emit_cmovne_r64_r64(assembler: &mut CodeAssembler, dst: PhysicalRegister, src: PhysicalRegister, labels: &LabelMap) -> (r: Result<(), EncodeError>)
    ensures
        r is Ok ==> (!dst.spec_is_xmm() && !src.spec_is_xmm()),
        (!dst.spec_is_xmm() && !src.spec_is_xmm()) ==> (r is Ok || r == Err::<(), EncodeError>(EncodeError::Assembler)),
        !(!dst.spec_is_xmm() && !src.spec_is_xmm()) ==> r is Err && r->Err_0 != EncodeError::Assembler,
{
    let dst = match r64(dst) { Ok(x) => x, Err(e) => return Err(e) };
    let src = match r64(src) { Ok(x) => x, Err(e) => return Err(e) };
    lift(iced::asm_cmovne_r64_r64(assembler, dst, src))
}

fn emit_cmovne_r32_r32(assembler: &mut CodeAssembler, dst: PhysicalRegister, src: PhysicalRegister, labels: &LabelMap) -> (r: Result<(), EncodeError>)
    ensures
        r is Ok ==> (!dst.spec_is_xmm() && !src.spec_is_xmm()),
        (!dst.spec_is_xmm() && !src.spec_is_xmm()) ==> (r is Ok || r == Err::<(), EncodeError>(EncodeError::Assembler)),
        !(!dst.spec_is_xmm() && !src.spec_is_xmm()) ==> r is Err && r->Err_0 != EncodeError::Assembler,
{
    let dst = match r32(dst) { Ok(x) => x, Err(e) => return Err(e) };
    let src = match r32(src) { Ok(x) => x, Err(e) => return Err(e) };
    lift(iced::asm_cmovne_r32_r32(assembler, dst, src))
}

fn emit_cmovne_r16_r16(assembler: &mut CodeAssembler, dst: PhysicalRegister, src: PhysicalRegister, labels: &LabelMap) -> (r: Result<(), EncodeError>)
    ensures
        r is Ok ==> (!dst.spec_is_xmm() && !src.spec_is_xmm()),
        (!dst.spec_is_xmm() && !src.spec_is_xmm()) ==> (r is Ok || r == Err::<(), EncodeError>(EncodeError::Assembler)),
        !(!dst.spec_is_xmm() && !src.spec_is_xmm()) ==> r is Err && r->Err_0 != EncodeError::Assembler,
{
    let dst = match r16(dst) { Ok(x) => x, Err(e) => return Err(e) };
    let src = match r16(src) { Ok(x) => x, Err(e) => return Err(e) };
    lift(iced::asm_cmovne_r16_r16(assembler, dst, src))
}

fn emit_mulpd(assembler: &mut CodeAssembler, dst: PhysicalRegister, src: PhysicalRegister, labels: &LabelMap) -> (r: Result<(), EncodeError>)
    ensures
        r is Ok ==> (dst.spec_is_xmm() && src.spec_is_xmm()),
        (dst.spec_is_xmm() && src.spec_is_xmm()) ==> (r is Ok || r == Err::<(), EncodeError>(EncodeError::Assembler)),
        !(dst.spec_is_xmm() && src.spec_is_xmm()) ==> r is Err && r->Err_0 != EncodeError::Assembler,
{
    let dst = match xmm(dst) { Ok(x) => x, Err(e) => return Err(e) };
    let src = match xmm(src) { Ok(x) => x, Err(e) => return Err(e) };
    lift(iced::asm_mulpd(assembler, dst, src))
}

fn emit_mulps(assembler: &mut CodeAssembler, dst: PhysicalRegister, src: PhysicalRegister, labels: &LabelMap) -> (r: Result<(), EncodeError>)
    ensures
        r is Ok ==> (dst.spec_is_xmm() && src.spec_is_xmm()),
        (dst.spec_is_xmm() && src.spec_is_xmm()) ==> (r is Ok || r == Err::<(), EncodeError>(EncodeError::Assembler)),
        !(dst.spec_is_xmm() && src.spec_is_xmm()) ==> r is Err && r->Err_0 != EncodeError::Assembler,
{
    let dst = match xmm(dst) { Ok(x) => x, Err(e) => return Err(e) };
    let src = match xmm(src) { Ok(x) => x, Err(e) => return Err(e) };
    lift(iced::asm_mulps(assembler, dst, src))
}

fn emit_addpd(assembler: &mut CodeAssembler, dst: PhysicalRegister, src: PhysicalRegister, labels: &LabelMap) -> (r: Result<(), EncodeError>)
    ensures
        r is Ok ==> (dst.spec_is_xmm() && src.spec_is_xmm()),
        (dst.spec_is_xmm() && src.spec_is_xmm()) ==> (r is Ok || r == Err::<(), EncodeError>(EncodeError::Assembler)),
        !(dst.spec_is_xmm() && src.spec_is_xmm()) ==> r is Err && r->Err_0 != EncodeError::Assembler,
{
    let dst = match xmm(dst) { Ok(x) => x, Err(e) => return Err(e) };
    let src = match xmm(src) { Ok(x) => x, Err(e) => return Err(e) };
    lift(iced::asm_addpd(assembler, dst, src))
}

fn emit_subpd(assembler: &mut CodeAssembler, dst: PhysicalRegister, src: PhysicalRegister, labels: &LabelMap) -> (r: Result<(), EncodeError>)
    ensures
        r is Ok ==> (dst.spec_is_xmm() && src.spec_is_xmm()),
        (dst.spec_is_xmm() && src.spec_is_xmm()) ==> (r is Ok || r == Err::<(), EncodeError>(EncodeError::Assembler)),
        !(dst.spec_is_xmm() && src.spec_is_xmm()) ==> r is Err && r->Err_0 != EncodeError::Assembler,
{
    let dst = match xmm(dst) { Ok(x) => x, Err(e) => return Err(e) };
    let src = match xmm(src) { Ok(x) => x, Err(e) => return Err(e) };
    lift(iced::asm_subpd(assembler, dst, src))
}

fn emit_divpd(assembler: &mut CodeAssembler, dst: PhysicalRegister, src: PhysicalRegister, labels: &LabelMap) -> (r: Result<(), EncodeError>)
    ensures
        r is Ok ==> (dst.spec_is_xmm() && src.spec_is_xmm()),
        (dst.spec_is_xmm() && src.spec_is_xmm()) ==> (r is Ok || r == Err::<(), EncodeError>(EncodeError::Assembler)),
        !(dst.spec_is_xmm() && src.spec_is_xmm()) ==> r is Err && r->Err_0 != EncodeError::Assembler,
{
    let dst = match xmm(dst) { Ok(x) => x, Err(e) => return Err(e) };
    let src = match xmm(src) { Ok(x) => x, Err(e) => return Err(e) };
    lift(iced::asm_divpd(assembler, dst, src))
}

fn emit_divps(assembler: &mut CodeAssembler, dst: PhysicalRegister, src: PhysicalRegister, labels: &LabelMap) -> (r: Result<(), EncodeError>)
    ensures
        r is Ok ==> (dst.spec_is_xmm() && src.spec_is_xmm()),
        (dst.spec_is_xmm() && src.spec_is_xmm()) ==> (r is Ok || r == Err::<(), EncodeError>(EncodeError::Assembler)),
        !(dst.spec_is_xmm() && src.spec_is_xmm()) ==> r is Err && r->Err_0 != EncodeError::Assembler,
{
    let dst = match xmm(dst) { Ok(x) => x, Err(e) => return Err(e) };
    let src = match xmm(src) { Ok(x) => x, Err(e) => return Err(e) };
    lift(iced::asm_divps(assembler, dst, src))
}

fn emit_subps(assembler: &mut CodeAssembler, dst: PhysicalRegister, src: PhysicalRegister, labels: &LabelMap) -> (r: Result<(), EncodeError>)
    ensures
        r is Ok ==> (dst.spec_is_xmm() && src.spec_is_xmm()),
        (dst.spec_is_xmm() && src.spec_is_xmm()) ==> (r is Ok || r == Err::<(), EncodeError>(EncodeError::Assembler)),
        !(dst.spec_is_xmm() && src.spec_is_xmm()) ==> r is Err && r->Err_0 != EncodeError::Assembler,
{
    let dst = match xmm(dst) { Ok(x) => x, Err(e) => return Err(e) };
    let src = match xmm(src) { Ok(x) => x, Err(e) => return Err(e) };
    lift(iced::asm_subps(assembler, dst, src))
}

fn emit_imul3_r64_i32(assembler: &mut CodeAssembler, dst: PhysicalRegister, src: PhysicalRegister, imm: i32, labels: &LabelMap) -> (r: Result<(), EncodeError>)
    ensures
        r is Ok ==> (!dst.spec_is_xmm() && !src.spec_is_xmm()),
        (!dst.spec_is_xmm() && !src.spec_is_xmm()) ==> (r is Ok || r == Err::<(), EncodeError>(EncodeError::Assembler)),
        !(!dst.spec_is_xmm() && !src.spec_is_xmm()) ==> r is Err && r->Err_0 != EncodeError::Assembler,
{
    let dst = match r64(dst) { Ok(x) => x, Err(e) => return Err(e) };
    let src = match r64(src) { Ok(x) => x, Err(e) => return Err(e) };
    lift(iced::asm_imul3_r64_i32(assembler, dst, src, imm))
}

fn emit_imul2_r64_r64(assembler: &mut CodeAssembler, dst: PhysicalRegister, src: PhysicalRegister, labels: &LabelMap) -> (r: Result<(), EncodeError>)
    ensures
        r is Ok ==> (!dst.spec_is_xmm() && !src.spec_is_xmm()),
        (!dst.spec_is_xmm() && !src.spec_is_xmm()) ==> (r is Ok || r == Err::<(), EncodeError>(EncodeError::Assembler)),
        !(!dst.spec_is_xmm() && !src.spec_is_xmm()) ==> r is Err && r->Err_0 != EncodeError::Assembler,
{
    let dst = match r64(dst) { Ok(x) => x, Err(e) => return Err(e) };
    let src = match r64(src) { Ok(x) => x, Err(e) => return Err(e) };
    lift(iced::asm_imul2_r64_r64(assembler, dst, src))
}

fn emit_mul_r64(assembler: &mut CodeAssembler, src: PhysicalRegister, labels: &LabelMap) -> (r: Result<(), EncodeError>)
    ensures
        r is Ok ==> (!src.spec_is_xmm()),
        (!src.spec_is_xmm()) ==> (r is Ok || r == Err::<(), EncodeError>(EncodeError::Assembler)),
        !(!src.spec_is_xmm()) ==> r is Err && r->Err_0 != EncodeError::Assembler,
{
    let src = match r64(src) { Ok(x) => x, Err(e) => return Err(e) };
    lift(iced::asm_mul_r64(assembler, src))
}

fn emit_imul_r64(assembler: &mut CodeAssembler, src: PhysicalRegister, labels: &LabelMap) -> (r: Result<(), EncodeError>)
    ensures
        r is Ok ==> (!src.spec_is_xmm()),
        (!src.spec_is_xmm()) ==> (r is Ok || r == Err::<(), EncodeError>(EncodeError::Assembler)),
        !(!src.spec_is_xmm()) ==> r is Err && r->Err_0 != EncodeError::Assembler,
{
    let src = match r64(src) { Ok(x) => x, Err(e) => return Err(e) };
    lift(iced::asm_imul_r64(assembler, src))
}

fn emit_idiv_r64(assembler: &mut CodeAssembler, divisor: PhysicalRegister, labels: &LabelMap) -> (r: Result<(), EncodeError>)
    ensures
        r is Ok ==> (!divisor.spec_is_xmm()),
        (!divisor.spec_is_xmm()) ==> (r is Ok || r == Err::<(), EncodeError>(EncodeError::Assembler)),
        !(!divisor.spec_is_xmm()) ==> r is Err && r->Err_0 != EncodeError::Assembler,
{
    let divisor = match r64(divisor) { Ok(x) => x, Err(e) => return Err(e) };
    lift(iced::asm_idiv_r64(assembler, divisor))
}

fn emit_div_r64(assembler: &mut CodeAssembler, divisor: PhysicalRegister, labels: &LabelMap) -> (r: Result<(), EncodeError>)
    ensures
        r is Ok ==> (!divisor.spec_is_xmm()),
        (!divisor.spec_is_xmm()) ==> (r is Ok || r == Err::<(), EncodeError>(EncodeError::Assembler)),
        !(!divisor.spec_is_xmm()) ==> r is Err && r->Err_0 != EncodeError::Assembler,
{
    let divisor = match r64(divisor) { Ok(x) => x, Err(e) => return Err(e) };
    lift(iced::asm_div_r64(assembler, divisor))
}

fn emit_call_r64(assembler: &mut CodeAssembler, target: PhysicalRegister, labels: &LabelMap) -> (r: Result<(), EncodeError>)
    ensures
        r is Ok ==> (!target.spec_is_xmm()),
        (!target.spec_is_xmm()) ==> (r is Ok || r == Err::<(), EncodeError>(EncodeError::Assembler)),
        !(!target.spec_is_xmm()) ==> r is Err && r->Err_0 != EncodeError::Assembler,
{
    let target = match r64(target) { Ok(x) => x, Err(e) => return Err(e) };
    lift(iced::asm_call_r64(assembler, target))
}

fn emit_out_i32_r8(assembler: &mut CodeAssembler, port: i32, value: PhysicalRegister, labels: &LabelMap) -> (r: Result<(), EncodeError>)
    ensures
        r is Ok ==> (!value.spec_is_xmm()),
        (!value.spec_is_xmm()) ==> (r is Ok || r == Err::<(), EncodeError>(EncodeError::Assembler)),
        !(!value.spec_is_xmm()) ==> r is Err && r->Err_0 != EncodeError::Assembler,
{
    let value = match r8(value) { Ok(x) => x, Err(e) => return Err(e) };
    lift(iced::asm_out_i32_r8(assembler, port, value))
}

fn emit_pinsrw(assembler: &mut CodeAssembler, dst: PhysicalRegister, src: PhysicalRegister, index: i32, labels: &LabelMap) -> (r: Result<(), EncodeError>)
    ensures
        r is Ok ==> (dst.spec_is_xmm() && !src.spec_is_xmm()),
        (dst.spec_is_xmm() && !src.spec_is_xmm()) ==> (r is Ok || r == Err::<(), EncodeError>(EncodeError::Assembler)),
        !(dst.spec_is_xmm() && !src.spec_is_xmm()) ==> r is Err && r->Err_0 != EncodeError::Assembler,
{
    let dst = match xmm(dst) { Ok(x) => x, Err(e) => return Err(e) };
    let src = match r32(src) { Ok(x) => x, Err(e) => return Err(e) };
    lift(iced::asm_pinsrw(assembler, dst, src, index))
}

fn emit_pinsrd(assembler: &mut CodeAssembler, dst: PhysicalRegister, src: PhysicalRegister, index: i32, labels: &LabelMap) -> (r: Result<(), EncodeError>)
    ensures
        r is Ok ==> (dst.spec_is_xmm() && !src.spec_is_xmm()),
        (dst.spec_is_xmm() && !src.spec_is_xmm()) ==> (r is Ok || r == Err::<(), EncodeError>(EncodeError::Assembler)),
        !(dst.spec_is_xmm() && !src.spec_is_xmm()) ==> r is Err && r->Err_0 != EncodeError::Assembler,
{
    let dst = match xmm(dst) { Ok(x) => x, Err(e) => return Err(e) };
    let src = match r32(src) { Ok(x) => x, Err(e) => return Err(e) };
    lift(iced::asm_pinsrd(assembler, dst, src, index))
}

fn emit_pinsrq(assembler: &mut CodeAssembler, dst: PhysicalRegister, src: PhysicalRegister, index: i32, labels: &LabelMap) -> (r: Result<(), EncodeError>)
    ensures
        r is Ok ==> (dst.spec_is_xmm() && !src.spec_is_xmm()),
        (dst.spec_is_xmm() && !src.spec_is_xmm()) ==> (r is Ok || r == Err::<(), EncodeError>(EncodeError::Assembler)),
        !(dst.spec_is_xmm() && !src.spec_is_xmm()) ==> r is Err && r->Err_0 != EncodeError::Assembler,
{
    let dst = match xmm(dst) { Ok(x) => x, Err(e) => return Err(e) };
    let src = match r64(src) { Ok(x) => x, Err(e) => return Err(e) };
    lift(iced::asm_pinsrq(assembler, dst, src, index))
}

fn emit_pinsrb(assembler: &mut CodeAssembler, dst: PhysicalRegister, src: PhysicalRegister, index: i32, labels: &LabelMap) -> (r: Result<(), EncodeError>)
    ensures
        r is Ok ==> (dst.spec_is_xmm() && !src.spec_is_xmm()),
        (dst.spec_is_xmm() && !src.spec_is_xmm()) ==> (r is Ok || r == Err::<(), EncodeError>(EncodeError::Assembler)),
        !(dst.spec_is_xmm() && !src.spec_is_xmm()) ==> r is Err && r->Err_0 != EncodeError::Assembler,
{
    let dst = match xmm(dst) { Ok(x) => x, Err(e) => return Err(e) };
    let src = match r32(src) { Ok(x) => x, Err(e) => return Err(e) };
    lift(iced::asm_pinsrb(assembler, dst, src, index))
}

fn emit_pextrq(assembler: &mut CodeAssembler, dst: PhysicalRegister, src: PhysicalRegister, index: i32, labels: &LabelMap) -> (r: Result<(), EncodeError>)
    ensures
        r is Ok ==> (!dst.spec_is_xmm() && src.spec_is_xmm()),
        (!dst.spec_is_xmm() && src.spec_is_xmm()) ==> (r is Ok || r == Err::<(), EncodeError>(EncodeError::Assembler)),
        !(!dst.spec_is_xmm() && src.spec_is_xmm()) ==> r is Err && r->Err_0 != EncodeError::Assembler,
{
    let dst = match r64(dst) { Ok(x) => x, Err(e) => return Err(e) };
    let src = match xmm(src) { Ok(x) => x, Err(e) => return Err(e) };
    lift(iced::asm_pextrq(assembler, dst, src, index))
}

fn emit_punpcklqdq(assembler: &mut CodeAssembler, dst: PhysicalRegister, src: PhysicalRegister, labels: &LabelMap) -> (r: Result<(), EncodeError>)
    ensures
        r is Ok ==> (dst.spec_is_xmm() && src.spec_is_xmm()),
        (dst.spec_is_xmm() && src.spec_is_xmm()) ==> (r is Ok || r == Err::<(), EncodeError>(EncodeError::Assembler)),
        !(dst.spec_is_xmm() && src.spec_is_xmm()) ==> r is Err && r->Err_0 != EncodeError::Assembler,
{
    let dst = match xmm(dst) { Ok(x) => x, Err(e) => return Err(e) };
    let src = match xmm(src) { Ok(x) => x, Err(e) => return Err(e) };
    lift(iced::asm_punpcklqdq(assembler, dst, src))
}

fn emit_punpcklwd(assembler: &mut CodeAssembler, dst: PhysicalRegister, src: PhysicalRegister, labels: &LabelMap) -> (r: Result<(), EncodeError>)
    ensures
        r is Ok ==> (dst.spec_is_xmm() && src.spec_is_xmm()),
        (dst.spec_is_xmm() && src.spec_is_xmm()) ==> (r is Ok || r == Err::<(), EncodeError>(EncodeError::Assembler)),
        !(dst.spec_is_xmm() && src.spec_is_xmm()) ==> r is Err && r->Err_0 != EncodeError::Assembler,
{
    let dst = match xmm(dst) { Ok(x) => x, Err(e) => return Err(e) };
    let src = match xmm(src) { Ok(x) => x, Err(e) => return Err(e) };
    lift(iced::asm_punpcklwd(assembler, dst, src))
}

fn emit_pshuflw(assembler: &mut CodeAssembler, dst: PhysicalRegister, src: PhysicalRegister, select: i32, labels: &LabelMap) -> (r: Result<(), EncodeError>)
    ensures
        r is Ok ==> (dst.spec_is_xmm() && src.spec_is_xmm()),
        (dst.spec_is_xmm() && src.spec_is_xmm()) ==> (r is Ok || r == Err::<(), EncodeError>(EncodeError::Assembler)),
        !(dst.spec_is_xmm() && src.spec_is_xmm()) ==> r is Err && r->Err_0 != EncodeError::Assembler,
{
    let dst = match xmm(dst) { Ok(x) => x, Err(e) => return Err(e) };
    let src = match xmm(src) { Ok(x) => x, Err(e) => return Err(e) };
    lift(iced::asm_pshuflw(assembler, dst, src, select))
}

fn emit_cmpxchg_qword_r64(assembler: &mut CodeAssembler, mem: MemRef, src: PhysicalRegister, labels: &LabelMap) -> (r: Result<(), EncodeError>)
    ensures
        r is Ok ==> (mem_fits(mem) && !src.spec_is_xmm()),
        (mem_fits(mem) && !src.spec_is_xmm()) ==> (r is Ok || r == Err::<(), EncodeError>(EncodeError::Assembler)),
        !(mem_fits(mem) && !src.spec_is_xmm()) ==> r is Err && r->Err_0 != EncodeError::Assembler,
{
    let mem = match mem_operand(mem) { Ok(x) => x, Err(e) => return Err(e) };
    let mem = iced::qword_ptr(mem);
    let src = match r64(src) { Ok(x) => x, Err(e) => return Err(e) };
    lift(iced::asm_cmpxchg_qword_r64(assembler, mem, src))
}

fn emit_cmpxchg_dword_r32(assembler: &mut CodeAssembler, mem: MemRef, src: PhysicalRegister, labels: &LabelMap) -> (r: Result<(), EncodeError>)
    ensures
        r is Ok ==> (mem_fits(mem) && !src.spec_is_xmm()),
        (mem_fits(mem) && !src.spec_is_xmm()) ==> (r is Ok || r == Err::<(), EncodeError>(EncodeError::Assembler)),
        !(mem_fits(mem) && !src.spec_is_xmm()) ==> r is Err && r->Err_0 != EncodeError::Assembler,
{
    let mem = match mem_operand(mem) { Ok(x) => x, Err(e) => return Err(e) };
    let mem = iced::dword_ptr(mem);
    let src = match r32(src) { Ok(x) => x, Err(e) => return Err(e) };
    lift(iced::asm_cmpxchg_dword_r32(assembler, mem, src))
}

fn emit_cmpxchg_byte_r8(assembler: &mut CodeAssembler, mem: MemRef, src: PhysicalRegister, labels: &LabelMap) -> (r: Result<(), EncodeError>)
    ensures
        r is Ok ==> (mem_fits(mem) && !src.spec_is_xmm()),
        (mem_fits(mem) && !src.spec_is_xmm()) ==> (r is Ok || r == Err::<(), EncodeError>(EncodeError::Assembler)),
        !(mem_fits(mem) && !src.spec_is_xmm()) ==> r is Err && r->Err_0 != EncodeError::Assembler,
{
    let mem = match mem_operand(mem) { Ok(x) => x, Err(e) => return Err(e) };
    let mem = iced::byte_ptr(mem);
    let src = match r8(src) { Ok(x) => x, Err(e) => return Err(e) };
    lift(iced::asm_cmpxchg_byte_r8(assembler, mem, src))
}

fn emit_inc_qword_mem(assembler: &mut CodeAssembler, mem: MemRef, labels: &LabelMap) -> (r: Result<(), EncodeError>)
    ensures
        r is Ok ==> (mem_fits(mem)),
        (mem_fits(mem)) ==> (r is Ok || r == Err::<(), EncodeError>(EncodeError::Assembler)),
        !(mem_fits(mem)) ==> r is Err && r->Err_0 != EncodeError::Assembler,
{
    let mem = match mem_operand(mem) { Ok(x) => x, Err(e) => return Err(e) };
    let mem = iced::qword_ptr(mem);
    lift(iced::asm_inc_qword_mem(assembler, mem))
}

fn emit_cvtsi2sd_r64(assembler: &mut CodeAssembler, dst: PhysicalRegister, src: PhysicalRegister, labels: &LabelMap) -> (r: Result<(), EncodeError>)
    ensures
        r is Ok ==> (dst.spec_is_xmm() && !src.spec_is_xmm()),
        (dst.spec_is_xmm() && !src.spec_is_xmm()) ==> (r is Ok || r == Err::<(), EncodeError>(EncodeError::Assembler)),
        !(dst.spec_is_xmm() && !src.spec_is_xmm()) ==> r is Err && r->Err_0 != EncodeError::Assembler,
{
    let dst = match xmm(dst) { Ok(x) => x, Err(e) => return Err(e) };
    let src = match r64(src) { Ok(x) => x, Err(e) => return Err(e) };
    lift(iced::asm_cvtsi2sd_r64(assembler, dst, src))
}

fn emit_cvtsi2sd_r32(assembler: &mut CodeAssembler, dst: PhysicalRegister, src: PhysicalRegister, labels: &LabelMap) -> (r: Result<(), EncodeError>)
    ensures
        r is Ok ==> (dst.spec_is_xmm() && !src.spec_is_xmm()),
        (dst.spec_is_xmm() && !src.spec_is_xmm()) ==> (r is Ok || r == Err::<(), EncodeError>(EncodeError::Assembler)),
        !(dst.spec_is_xmm() && !src.spec_is_xmm()) ==> r is Err && r->Err_0 != EncodeError::Assembler,
{
    let dst = match xmm(dst) { Ok(x) => x, Err(e) => return Err(e) };
    let src = match r32(src) { Ok(x) => x, Err(e) => return Err(e) };
    lift(iced::asm_cvtsi2sd_r32(assembler, dst, src))
}

fn emit_cvtsi2ss_r32(assembler: &mut CodeAssembler, dst: PhysicalRegister, src: PhysicalRegister, labels: &LabelMap) -> (r: Result<(), EncodeError>)
    ensures
        r is Ok ==> (dst.spec_is_xmm() && !src.spec_is_xmm()),
        (dst.spec_is_xmm() && !src.spec_is_xmm()) ==> (r is Ok || r == Err::<(), EncodeError>(EncodeError::Assembler)),
        !(dst.spec_is_xmm() && !src.spec_is_xmm()) ==> r is Err && r->Err_0 != EncodeError::Assembler,
{
    let dst = match xmm(dst) { Ok(x) => x, Err(e) => return Err(e) };
    let src = match r32(src) { Ok(x) => x, Err(e) => return Err(e) };
    lift(iced::asm_cvtsi2ss_r32(assembler, dst, src))
}

fn emit_cvtsi2ss_r64(assembler: &mut CodeAssembler, dst: PhysicalRegister, src: PhysicalRegister, labels: &LabelMap) -> (r: Result<(), EncodeError>)
    ensures
        r is Ok ==> (dst.spec_is_xmm() && !src.spec_is_xmm()),
        (dst.spec_is_xmm() && !src.spec_is_xmm()) ==> (r is Ok || r == Err::<(), EncodeError>(EncodeError::Assembler)),
        !(dst.spec_is_xmm() && !src.spec_is_xmm()) ==> r is Err && r->Err_0 != EncodeError::Assembler,
{
    let dst = match xmm(dst) { Ok(x) => x, Err(e) => return Err(e) };
    let src = match r64(src) { Ok(x) => x, Err(e) => return Err(e) };
    lift(iced::asm_cvtsi2ss_r64(assembler, dst, src))
}

fn emit_cvtsd2si_r32(assembler: &mut CodeAssembler, dst: PhysicalRegister, src: PhysicalRegister, labels: &LabelMap) -> (r: Result<(), EncodeError>)
    ensures
        r is Ok ==> (!dst.spec_is_xmm() && src.spec_is_xmm()),
        (!dst.spec_is_xmm() && src.spec_is_xmm()) ==> (r is Ok || r == Err::<(), EncodeError>(EncodeError::Assembler)),
        !(!dst.spec_is_xmm() && src.spec_is_xmm()) ==> r is Err && r->Err_0 != EncodeError::Assembler,
{
    let dst = match r32(dst) { Ok(x) => x, Err(e) => return Err(e) };
    let src = match xmm(src) { Ok(x) => x, Err(e) => return Err(e) };
    lift(iced::asm_cvtsd2si_r32(assembler, dst, src))
}

fn emit_cvtss2sd(assembler: &mut CodeAssembler, dst: PhysicalRegister, src: PhysicalRegister, labels: &LabelMap) -> (r: Result<(), EncodeError>)
    ensures
        r is Ok ==> (dst.spec_is_xmm() && src.spec_is_xmm()),
        (dst.spec_is_xmm() && src.spec_is_xmm()) ==> (r is Ok || r == Err::<(), EncodeError>(EncodeError::Assembler)),
        !(dst.spec_is_xmm() && src.spec_is_xmm()) ==> r is Err && r->Err_0 != EncodeError::Assembler,
{
    let dst = match xmm(dst) { Ok(x) => x, Err(e) => return Err(e) };
    let src = match xmm(src) { Ok(x) => x, Err(e) => return Err(e) };
    lift(iced::asm_cvtss2sd(assembler, dst, src))
}

fn emit_cvtsd2ss(assembler: &mut CodeAssembler, dst: PhysicalRegister, src: PhysicalRegister, labels: &LabelMap) -> (r: Result<(), EncodeError>)
    ensures
        r is Ok ==> (dst.spec_is_xmm() && src.spec_is_xmm()),
        (dst.spec_is_xmm() && src.spec_is_xmm()) ==> (r is Ok || r == Err::<(), EncodeError>(EncodeError::Assembler)),
        !(dst.spec_is_xmm() && src.spec_is_xmm()) ==> r is Err && r->Err_0 != EncodeError::Assembler,
{
    let dst = match xmm(dst) { Ok(x) => x, Err(e) => return Err(e) };
    let src = match xmm(src) { Ok(x) => x, Err(e) => return Err(e) };
    lift(iced::asm_cvtsd2ss(assembler, dst, src))
}

fn emit_cmppd(assembler: &mut CodeAssembler, dst: PhysicalRegister, src: PhysicalRegister, predicate: i32, labels: &LabelMap) -> (r: Result<(), EncodeError>)
    ensures
        r is Ok ==> (dst.spec_is_xmm() && src.spec_is_xmm()),
        (dst.spec_is_xmm() && src.spec_is_xmm()) ==> (r is Ok || r == Err::<(), EncodeError>(EncodeError::Assembler)),
        !(dst.spec_is_xmm() && src.spec_is_xmm()) ==> r is Err && r->Err_0 != EncodeError::Assembler,
{
    let dst = match xmm(dst) { Ok(x) => x, Err(e) => return Err(e) };
    let src = match xmm(src) { Ok(x) => x, Err(e) => return Err(e) };
    lift(iced::asm_cmppd(assembler, dst, src, predicate))
}

fn emit_mov_r64_r64(assembler: &mut CodeAssembler, dst: PhysicalRegister, src: PhysicalRegister, labels: &LabelMap) -> (r: Result<(), EncodeError>)
    ensures
        r is Ok ==> (!dst.spec_is_xmm() && !src.spec_is_xmm()),
        (!dst.spec_is_xmm() && !src.spec_is_xmm()) ==> (r is Ok || r == Err::<(), EncodeError>(EncodeError::Assembler)),
        !(!dst.spec_is_xmm() && !src.spec_is_xmm()) ==> r is Err && r->Err_0 != EncodeError::Assembler,
{
    let dst = match r64(dst) { Ok(x) => x, Err(e) => return Err(e) };
    let src = match r64(src) { Ok(x) => x, Err(e) => return Err(e) };
    lift(iced::asm_mov_r64_r64(assembler, dst, src))
}

fn emit_mov_r32_r32(assembler: &mut CodeAssembler, dst: PhysicalRegister, src: PhysicalRegister, labels: &LabelMap) -> (r: Result<(), EncodeError>)
    ensures
        r is Ok ==> (!dst.spec_is_xmm() && !src.spec_is_xmm()),
        (!dst.spec_is_xmm() && !src.spec_is_xmm()) ==> (r is Ok || r == Err::<(), EncodeError>(EncodeError::Assembler)),
        !(!dst.spec_is_xmm() && !src.spec_is_xmm()) ==> r is Err && r->Err_0 != EncodeError::Assembler,
{
    let dst = match r32(dst) { Ok(x) => x, Err(e) => return Err(e) };
    let src = match r32(src) { Ok(x) => x, Err(e) => return Err(e) };
    lift(iced::asm_mov_r32_r32(assembler, dst, src))
}

fn emit_mov_r16_r16(assembler: &mut CodeAssembler, dst: PhysicalRegister, src: PhysicalRegister, labels: &LabelMap) -> (r: Result<(), EncodeError>)
    ensures
        r is Ok ==> (!dst.spec_is_xmm() && !src.spec_is_xmm()),
        (!dst.spec_is_xmm() && !src.spec_is_xmm()) ==> (r is Ok || r == Err::<(), EncodeError>(EncodeError::Assembler)),
        !(!dst.spec_is_xmm() && !src.spec_is_xmm()) ==> r is Err && r->Err_0 != EncodeError::Assembler,
{
    let dst = match r16(dst) { Ok(x) => x, Err(e) => return Err(e) };
    let src = match r16(src) { Ok(x) => x, Err(e) => return Err(e) };
    lift(iced::asm_mov_r16_r16(assembler, dst, src))
}

fn emit_mov_r8_r8(assembler: &mut CodeAssembler, dst: PhysicalRegister, src: PhysicalRegister, labels: &LabelMap) -> (r: Result<(), EncodeError>)
    ensures
        r is Ok ==> (!dst.spec_is_xmm() && !src.spec_is_xmm()),
        (!dst.spec_is_xmm() && !src.spec_is_xmm()) ==> (r is Ok || r == Err::<(), EncodeError>(EncodeError::Assembler)),
        !(!dst.spec_is_xmm() && !src.spec_is_xmm()) ==> r is Err && r->Err_0 != EncodeError::Assembler,
{
    let dst = match r8(dst) { Ok(x) => x, Err(e) => return Err(e) };
    let src = match r8(src) { Ok(x) => x, Err(e) => return Err(e) };
    lift(iced::asm_mov_r8_r8(assembler, dst, src))
}

fn emit_movdqa(assembler: &mut CodeAssembler, dst: PhysicalRegister, src: PhysicalRegister, labels: &LabelMap) -> (r: Result<(), EncodeError>)
    ensures
        r is Ok ==> (dst.spec_is_xmm() && src.spec_is_xmm()),
        (dst.spec_is_xmm() && src.spec_is_xmm()) ==> (r is Ok || r == Err::<(), EncodeError>(EncodeError::Assembler)),
        !(dst.spec_is_xmm() && src.spec_is_xmm()) ==> r is Err && r->Err_0 != EncodeError::Assembler,
{
    let dst = match xmm(dst) { Ok(x) => x, Err(e) => return Err(e) };
    let src = match xmm(src) { Ok(x) => x, Err(e) => return Err(e) };
    lift(iced::asm_movdqa(assembler, dst, src))
}

fn emit_movq_x_x(assembler: &mut CodeAssembler, dst: PhysicalRegister, src: PhysicalRegister, labels: &LabelMap) -> (r: Result<(), EncodeError>)
    ensures
        r is Ok ==> (dst.spec_is_xmm() && src.spec_is_xmm()),
        (dst.spec_is_xmm() && src.spec_is_xmm()) ==> (r is Ok || r == Err::<(), EncodeError>(EncodeError::Assembler)),
        !(dst.spec_is_xmm() && src.spec_is_xmm()) ==> r is Err && r->Err_0 != EncodeError::Assembler,
{
    let dst = match xmm(dst) { Ok(x) => x, Err(e) => return Err(e) };
    let src = match xmm(src) { Ok(x) => x, Err(e) => return Err(e) };
    lift(iced::asm_movq_x_x(assembler, dst, src))
}

fn emit_mov_r64_mem(assembler: &mut CodeAssembler, dst: PhysicalRegister, mem: MemRef, labels: &LabelMap) -> (r: Result<(), EncodeError>)
    ensures
        r is Ok ==> (!dst.spec_is_xmm() && mem_fits(mem)),
        (!dst.spec_is_xmm() && mem_fits(mem)) ==> (r is Ok || r == Err::<(), EncodeError>(EncodeError::Assembler)),
        !(!dst.spec_is_xmm() && mem_fits(mem)) ==> r is Err && r->Err_0 != EncodeError::Assembler,
{
    let dst = match r64(dst) { Ok(x) => x, Err(e) => return Err(e) };
    let mem = match mem_operand(mem) { Ok(x) => x, Err(e) => return Err(e) };
    lift(iced::asm_mov_r64_mem(assembler, dst, mem))
}

fn emit_mov_r32_mem(assembler: &mut CodeAssembler, dst: PhysicalRegister, mem: MemRef, labels: &LabelMap) -> (r: Result<(), EncodeError>)
    ensures
        r is Ok ==> (!dst.spec_is_xmm() && mem_fits(mem)),
        (!dst.spec_is_xmm() && mem_fits(mem)) ==> (r is Ok || r == Err::<(), EncodeError>(EncodeError::Assembler)),
        !(!dst.spec_is_xmm() && mem_fits(mem)) ==> r is Err && r->Err_0 != EncodeError::Assembler,
{
    let dst = match r32(dst) { Ok(x) => x, Err(e) => return Err(e) };
    let mem = match mem_operand(mem) { Ok(x) => x, Err(e) => return Err(e) };
    lift(iced::asm_mov_r32_mem(assembler, dst, mem))
}

fn emit_mov_r16_mem(assembler: &mut CodeAssembler, dst: PhysicalRegister, mem: MemRef, labels: &LabelMap) -> (r: Result<(), EncodeError>)
    ensures
        r is Ok ==> (!dst.spec_is_xmm() && mem_fits(mem)),
        (!dst.spec_is_xmm() && mem_fits(mem)) ==> (r is Ok || r == Err::<(), EncodeError>(EncodeError::Assembler)),
        !(!dst.spec_is_xmm() && mem_fits(mem)) ==> r is Err && r->Err_0 != EncodeError::Assembler,
{
    let dst = match r16(dst) { Ok(x) => x, Err(e) => return Err(e) };
    let mem = match mem_operand(mem) { Ok(x) => x, Err(e) => return Err(e) };
    lift(iced::asm_mov_r16_mem(assembler, dst, mem))
}

fn emit_mov_r8_mem(assembler: &mut CodeAssembler, dst: PhysicalRegister, mem: MemRef, labels: &LabelMap) -> (r: Result<(), EncodeError>)
    ensures
        r is Ok ==> (!dst.spec_is_xmm() && mem_fits(mem)),
        (!dst.spec_is_xmm() && mem_fits(mem)) ==> (r is Ok || r == Err::<(), EncodeError>(EncodeError::Assembler)),
        !(!dst.spec_is_xmm() && mem_fits(mem)) ==> r is Err && r->Err_0 != EncodeError::Assembler,
{
    let dst = match r8(dst) { Ok(x) => x, Err(e) => return Err(e) };
    let mem = match mem_operand(mem) { Ok(x) => x, Err(e) => return Err(e) };
    lift(iced::asm_mov_r8_mem(assembler, dst, mem))
}

fn emit_mov_mem_r64(assembler: &mut CodeAssembler, mem: MemRef, src: PhysicalRegister, labels: &LabelMap) -> (r: Result<(), EncodeError>)
    ensures
        r is Ok ==> (mem_fits(mem) && !src.spec_is_xmm()),
        (mem_fits(mem) && !src.spec_is_xmm()) ==> (r is Ok || r == Err::<(), EncodeError>(EncodeError::Assembler)),
        !(mem_fits(mem) && !src.spec_is_xmm()) ==> r is Err && r->Err_0 != EncodeError::Assembler,
{
    let mem = match mem_operand(mem) { Ok(x) => x, Err(e) => return Err(e) };
    let src = match r64(src) { Ok(x) => x, Err(e) => return Err(e) };
    lift(iced::asm_mov_mem_r64(assembler, mem, src))
}

fn emit_mov_mem_r32(assembler: &mut CodeAssembler, mem: MemRef, src: PhysicalRegister, labels: &LabelMap) -> (r: Result<(), EncodeError>)
    ensures
        r is Ok ==> (mem_fits(mem) && !src.spec_is_xmm()),
        (mem_fits(mem) && !src.spec_is_xmm()) ==> (r is Ok || r == Err::<(), EncodeError>(EncodeError::Assembler)),
        !(mem_fits(mem) && !src.spec_is_xmm()) ==> r is Err && r->Err_0 != EncodeError::Assembler,
{
    let mem = match mem_operand(mem) { Ok(x) => x, Err(e) => return Err(e) };
    let src = match r32(src) { Ok(x) => x, Err(e) => return Err(e) };
    lift(iced::asm_mov_mem_r32(assembler, mem, src))
}

fn emit_mov_mem_r16(assembler: &mut CodeAssembler, mem: MemRef, src: PhysicalRegister, labels: &LabelMap) -> (r: Result<(), EncodeError>)
    ensures
        r is Ok ==> (mem_fits(mem) && !src.spec_is_xmm()),
        (mem_fits(mem) && !src.spec_is_xmm()) ==> (r is Ok || r == Err::<(), EncodeError>(EncodeError::Assembler)),
        !(mem_fits(mem) && !src.spec_is_xmm()) ==> r is Err && r->Err_0 != EncodeError::Assembler,
{
    let mem = match mem_operand(mem) { Ok(x) => x, Err(e) => return Err(e) };
    let src = match r16(src) { Ok(x) => x, Err(e) => return Err(e) };
    lift(iced::asm_mov_mem_r16(assembler, mem, src))
}

fn emit_mov_mem_r8(assembler: &mut CodeAssembler, mem: MemRef, src: PhysicalRegister, labels: &LabelMap) -> (r: Result<(), EncodeError>)
    ensures
        r is Ok ==> (mem_fits(mem) && !src.spec_is_xmm()),
        (mem_fits(mem) && !src.spec_is_xmm()) ==> (r is Ok || r == Err::<(), EncodeError>(EncodeError::Assembler)),
        !(mem_fits(mem) && !src.spec_is_xmm()) ==> r is Err && r->Err_0 != EncodeError::Assembler,
{
    let mem = match mem_operand(mem) { Ok(x) => x, Err(e) => return Err(e) };
    let src = match r8(src) { Ok(x) => x, Err(e) => return Err(e) };
    lift(iced::asm_mov_mem_r8(assembler, mem, src))
}

fn emit_mov_dword_mem_i32(assembler: &mut CodeAssembler, mem: MemRef, imm: i32, labels: &LabelMap) -> (r: Result<(), EncodeError>)
    ensures
        r is Ok ==> (mem_fits(mem)),
        (mem_fits(mem)) ==> (r is Ok || r == Err::<(), EncodeError>(EncodeError::Assembler)),
        !(mem_fits(mem)) ==> r is Err && r->Err_0 != EncodeError::Assembler,
{
    let mem = match mem_operand(mem) { Ok(x) => x, Err(e) => return Err(e) };
    let mem = iced::dword_ptr(mem);
    lift(iced::asm_mov_dword_mem_i32(assembler, mem, imm))
}

fn emit_mov_dword_mem_u32(assembler: &mut CodeAssembler, mem: MemRef, imm: u32, labels: &LabelMap) -> (r: Result<(), EncodeError>)
    ensures
        r is Ok ==> (mem_fits(mem)),
        (mem_fits(mem)) ==> (r is Ok || r == Err::<(), EncodeError>(EncodeError::Assembler)),
        !(mem_fits(mem)) ==> r is Err && r->Err_0 != EncodeError::Assembler,
{
    let mem = match mem_operand(mem) { Ok(x) => x, Err(e) => return Err(e) };
    let mem = iced::dword_ptr(mem);
    lift(iced::asm_mov_dword_mem_u32(assembler, mem, imm))
}

fn emit_mov_word_mem_u32(assembler: &mut CodeAssembler, mem: MemRef, imm: u32, labels: &LabelMap) -> (r: Result<(), EncodeError>)
    ensures
        r is Ok ==> (mem_fits(mem)),
        (mem_fits(mem)) ==> (r is Ok || r == Err::<(), EncodeError>(EncodeError::Assembler)),
        !(mem_fits(mem)) ==> r is Err && r->Err_0 != EncodeError::Assembler,
{
    let mem = match mem_operand(mem) { Ok(x) => x, Err(e) => return Err(e) };
    let mem = iced::word_ptr(mem);
    lift(iced::asm_mov_word_mem_u32(assembler, mem, imm))
}

fn emit_mov_byte_mem_u32(assembler: &mut CodeAssembler, mem: MemRef, imm: u32, labels: &LabelMap) -> (r: Result<(), EncodeError>)
    ensures
        r is Ok ==> (mem_fits(mem)),
        (mem_fits(mem)) ==> (r is Ok || r == Err::<(), EncodeError>(EncodeError::Assembler)),
        !(mem_fits(mem)) ==> r is Err && r->Err_0 != EncodeError::Assembler,
{
    let mem = match mem_operand(mem) { Ok(x) => x, Err(e) => return Err(e) };
    let mem = iced::byte_ptr(mem);
    lift(iced::asm_mov_byte_mem_u32(assembler, mem, imm))
}

fn emit_mov_r8_i32(assembler: &mut CodeAssembler, dst: PhysicalRegister, imm: i32, labels: &LabelMap) -> (r: Result<(), EncodeError>)
    ensures
        r is Ok ==> (!dst.spec_is_xmm()),
        (!dst.spec_is_xmm()) ==> (r is Ok || r == Err::<(), EncodeError>(EncodeError::Assembler)),
        !(!dst.spec_is_xmm()) ==> r is Err && r->Err_0 != EncodeError::Assembler,
{
    let dst = match r8(dst) { Ok(x) => x, Err(e) => return Err(e) };
    lift(iced::asm_mov_r8_i32(assembler, dst, imm))
}

fn emit_mov_r16_i32(assembler: &mut CodeAssembler, dst: PhysicalRegister, imm: i32, labels: &LabelMap) -> (r: Result<(), EncodeError>)
    ensures
        r is Ok ==> (!dst.spec_is_xmm()),
        (!dst.spec_is_xmm()) ==> (r is Ok || r == Err::<(), EncodeError>(EncodeError::Assembler)),
        !(!dst.spec_is_xmm()) ==> r is Err && r->Err_0 != EncodeError::Assembler,
{
    let dst = match r16(dst) { Ok(x) => x, Err(e) => return Err(e) };
    lift(iced::asm_mov_r16_i32(assembler, dst, imm))
}

fn emit_mov_r32_i32(assembler: &mut CodeAssembler, dst: PhysicalRegister, imm: i32, labels: &LabelMap) -> (r: Result<(), EncodeError>)
    ensures
        r is Ok ==> (!dst.spec_is_xmm()),
        (!dst.spec_is_xmm()) ==> (r is Ok || r == Err::<(), EncodeError>(EncodeError::Assembler)),
        !(!dst.spec_is_xmm()) ==> r is Err && r->Err_0 != EncodeError::Assembler,
{
    let dst = match r32(dst) { Ok(x) => x, Err(e) => return Err(e) };
    lift(iced::asm_mov_r32_i32(assembler, dst, imm))
}

fn emit_mov_r32_u32(assembler: &mut CodeAssembler, dst: PhysicalRegister, imm: u32, labels: &LabelMap) -> (r: Result<(), EncodeError>)
    ensures
        r is Ok ==> (!dst.spec_is_xmm()),
        (!dst.spec_is_xmm()) ==> (r is Ok || r == Err::<(), EncodeError>(EncodeError::Assembler)),
        !(!dst.spec_is_xmm()) ==> r is Err && r->Err_0 != EncodeError::Assembler,
{
    let dst = match r32(dst) { Ok(x) => x, Err(e) => return Err(e) };
    lift(iced::asm_mov_r32_u32(assembler, dst, imm))
}

fn emit_mov_r64_u64(assembler: &mut CodeAssembler, dst: PhysicalRegister, imm: u64, labels: &LabelMap) -> (r: Result<(), EncodeError>)
    ensures
        r is Ok ==> (!dst.spec_is_xmm()),
        (!dst.spec_is_xmm()) ==> (r is Ok || r == Err::<(), EncodeError>(EncodeError::Assembler)),
        !(!dst.spec_is_xmm()) ==> r is Err && r->Err_0 != EncodeError::Assembler,
{
    let dst = match r64(dst) { Ok(x) => x, Err(e) => return Err(e) };
    lift(iced::asm_mov_r64_u64(assembler, dst, imm))
}

fn emit_movdqu_x_mem(assembler: &mut CodeAssembler, dst: PhysicalRegister, mem: MemRef, labels: &LabelMap) -> (r: Result<(), EncodeError>)
    ensures
        r is Ok ==> (dst.spec_is_xmm() && mem_fits(mem)),
        (dst.spec_is_xmm() && mem_fits(mem)) ==> (r is Ok || r == Err::<(), EncodeError>(EncodeError::Assembler)),
        !(dst.spec_is_xmm() && mem_fits(mem)) ==> r is Err && r->Err_0 != EncodeError::Assembler,
{
    let dst = match xmm(dst) { Ok(x) => x, Err(e) => return Err(e) };
    let mem = match mem_operand(mem) { Ok(x) => x, Err(e) => return Err(e) };
    let mem = iced::xmmword_ptr(mem);
    lift(iced::asm_movdqu_x_mem(assembler, dst, mem))
}

fn emit_movdqu_mem_x(assembler: &mut CodeAssembler, mem: MemRef, src: PhysicalRegister, labels: &LabelMap) -> (r: Result<(), EncodeError>)
    ensures
        r is Ok ==> (mem_fits(mem) && src.spec_is_xmm()),
        (mem_fits(mem) && src.spec_is_xmm()) ==> (r is Ok || r == Err::<(), EncodeError>(EncodeError::Assembler)),
        !(mem_fits(mem) && src.spec_is_xmm()) ==> r is Err && r->Err_0 != EncodeError::Assembler,
{
    let mem = match mem_operand(mem) { Ok(x) => x, Err(e) => return Err(e) };
    let mem = iced::xmmword_ptr(mem);
    let src = match xmm(src) { Ok(x) => x, Err(e) => return Err(e) };
    lift(iced::asm_movdqu_mem_x(assembler, mem, src))
}

fn emit_movd_r32_x(assembler: &mut CodeAssembler, dst: PhysicalRegister, src: PhysicalRegister, labels: &LabelMap) -> (r: Result<(), EncodeError>)
    ensures
        r is Ok ==> (!dst.spec_is_xmm() && src.spec_is_xmm()),
        (!dst.spec_is_xmm() && src.spec_is_xmm()) ==> (r is Ok || r == Err::<(), EncodeError>(EncodeError::Assembler)),
        !(!dst.spec_is_xmm() && src.spec_is_xmm()) ==> r is Err && r->Err_0 != EncodeError::Assembler,
{
    let dst = match r32(dst) { Ok(x) => x, Err(e) => return Err(e) };
    let src = match xmm(src) { Ok(x) => x, Err(e) => return Err(e) };
    lift(iced::asm_movd_r32_x(assembler, dst, src))
}

fn emit_movd_x_r32(assembler: &mut CodeAssembler, dst: PhysicalRegister, src: PhysicalRegister, labels: &LabelMap) -> (r: Result<(), EncodeError>)
    ensures
        r is Ok ==> (dst.spec_is_xmm() && !src.spec_is_xmm()),
        (dst.spec_is_xmm() && !src.spec_is_xmm()) ==> (r is Ok || r == Err::<(), EncodeError>(EncodeError::Assembler)),
        !(dst.spec_is_xmm() && !src.spec_is_xmm()) ==> r is Err && r->Err_0 != EncodeError::Assembler,
{
    let dst = match xmm(dst) { Ok(x) => x, Err(e) => return Err(e) };
    let src = match r32(src) { Ok(x) => x, Err(e) => return Err(e) };
    lift(iced::asm_movd_x_r32(assembler, dst, src))
}

fn emit_movq_x_r64(assembler: &mut CodeAssembler, dst: PhysicalRegister, src: PhysicalRegister, labels: &LabelMap) -> (r: Result<(), EncodeError>)
    ensures
        r is Ok ==> (dst.spec_is_xmm() && !src.spec_is_xmm()),
        (dst.spec_is_xmm() && !src.spec_is_xmm()) ==> (r is Ok || r == Err::<(), EncodeError>(EncodeError::Assembler)),
        !(dst.spec_is_xmm() && !src.spec_is_xmm()) ==> r is Err && r->Err_0 != EncodeError::Assembler,
{
    let dst = match xmm(dst) { Ok(x) => x, Err(e) => return Err(e) };
    let src = match r64(src) { Ok(x) => x, Err(e) => return Err(e) };
    lift(iced::asm_movq_x_r64(assembler, dst, src))
}

fn emit_movq_r64_x(assembler: &mut CodeAssembler, dst: PhysicalRegister, src: PhysicalRegister, labels: &LabelMap) -> (r: Result<(), EncodeError>)
    ensures
        r is Ok ==> (!dst.spec_is_xmm() && src.spec_is_xmm()),
        (!dst.spec_is_xmm() && src.spec_is_xmm()) ==> (r is Ok || r == Err::<(), EncodeError>(EncodeError::Assembler)),
        !(!dst.spec_is_xmm() && src.spec_is_xmm()) ==> r is Err && r->Err_0 != EncodeError::Assembler,
{
    let dst = match r64(dst) { Ok(x) => x, Err(e) => return Err(e) };
    let src = match xmm(src) { Ok(x) => x, Err(e) => return Err(e) };
    lift(iced::asm_movq_r64_x(assembler, dst, src))
}

fn emit_movq_x_mem(assembler: &mut CodeAssembler, dst: PhysicalRegister, mem: MemRef, labels: &LabelMap) -> (r: Result<(), EncodeError>)
    ensures
        r is Ok ==> (dst.spec_is_xmm() && mem_fits(mem)),
        (dst.spec_is_xmm() && mem_fits(mem)) ==> (r is Ok || r == Err::<(), EncodeError>(EncodeError::Assembler)),
        !(dst.spec_is_xmm() && mem_fits(mem)) ==> r is Err && r->Err_0 != EncodeError::Assembler,
{
    let dst = match xmm(dst) { Ok(x) => x, Err(e) => return Err(e) };
    let mem = match mem_operand(mem) { Ok(x) => x, Err(e) => return Err(e) };
    let mem = iced::qword_ptr(mem);
    lift(iced::asm_movq_x_mem(assembler, dst, mem))
}

fn emit_movzx_r32_r8(assembler: &mut CodeAssembler, dst: PhysicalRegister, src: PhysicalRegister, labels: &LabelMap) -> (r: Result<(), EncodeError>)
    ensures
        r is Ok ==> (!dst.spec_is_xmm() && !src.spec_is_xmm()),
        (!dst.spec_is_xmm() && !src.spec_is_xmm()) ==> (r is Ok || r == Err::<(), EncodeError>(EncodeError::Assembler)),
        !(!dst.spec_is_xmm() && !src.spec_is_xmm()) ==> r is Err && r->Err_0 != EncodeError::Assembler,
{
    let dst = match r32(dst) { Ok(x) => x, Err(e) => return Err(e) };
    let src = match r8(src) { Ok(x) => x, Err(e) => return Err(e) };
    lift(iced::asm_movzx_r32_r8(assembler, dst, src))
}

fn emit_movzx_r64_r8(assembler: &mut CodeAssembler, dst: PhysicalRegister, src: PhysicalRegister, labels: &LabelMap) -> (r: Result<(), EncodeError>)
    ensures
        r is Ok ==> (!dst.spec_is_xmm() && !src.spec_is_xmm()),
        (!dst.spec_is_xmm() && !src.spec_is_xmm()) ==> (r is Ok || r == Err::<(), EncodeError>(EncodeError::Assembler)),
        !(!dst.spec_is_xmm() && !src.spec_is_xmm()) ==> r is Err && r->Err_0 != EncodeError::Assembler,
{
    let dst = match r64(dst) { Ok(x) => x, Err(e) => return Err(e) };
    let src = match r8(src) { Ok(x) => x, Err(e) => return Err(e) };
    lift(iced::asm_movzx_r64_r8(assembler, dst, src))
}

fn emit_movzx_r16_r8(assembler: &mut CodeAssembler, dst: PhysicalRegister, src: PhysicalRegister, labels: &LabelMap) -> (r: Result<(), EncodeError>)
    ensures
        r is Ok ==> (!dst.spec_is_xmm() && !src.spec_is_xmm()),
        (!dst.spec_is_xmm() && !src.spec_is_xmm()) ==> (r is Ok || r == Err::<(), EncodeError>(EncodeError::Assembler)),
        !(!dst.spec_is_xmm() && !src.spec_is_xmm()) ==> r is Err && r->Err_0 != EncodeError::Assembler,
{
    let dst = match r16(dst) { Ok(x) => x, Err(e) => return Err(e) };
    let src = match r8(src) { Ok(x) => x, Err(e) => return Err(e) };
    lift(iced::asm_movzx_r16_r8(assembler, dst, src))
}

fn emit_movzx_r32_r16(assembler: &mut CodeAssembler, dst: PhysicalRegister, src: PhysicalRegister, labels: &LabelMap) -> (r: Result<(), EncodeError>)
    ensures
        r is Ok ==> (!dst.spec_is_xmm() && !src.spec_is_xmm()),
        (!dst.spec_is_xmm() && !src.spec_is_xmm()) ==> (r is Ok || r == Err::<(), EncodeError>(EncodeError::Assembler)),
        !(!dst.spec_is_xmm() && !src.spec_is_xmm()) ==> r is Err && r->Err_0 != EncodeError::Assembler,
{
    let dst = match r32(dst) { Ok(x) => x, Err(e) => return Err(e) };
    let src = match r16(src) { Ok(x) => x, Err(e) => return Err(e) };
    lift(iced::asm_movzx_r32_r16(assembler, dst, src))
}

fn emit_movzx_r64_r16(assembler: &mut CodeAssembler, dst: PhysicalRegister, src: PhysicalRegister, labels: &LabelMap) -> (r: Result<(), EncodeError>)
    ensures
        r is Ok ==> (!dst.spec_is_xmm() && !src.spec_is_xmm()),
        (!dst.spec_is_xmm() && !src.spec_is_xmm()) ==> (r is Ok || r == Err::<(), EncodeError>(EncodeError::Assembler)),
        !(!dst.spec_is_xmm() && !src.spec_is_xmm()) ==> r is Err && r->Err_0 != EncodeError::Assembler,
{
    let dst = match r64(dst) { Ok(x) => x, Err(e) => return Err(e) };
    let src = match r16(src) { Ok(x) => x, Err(e) => return Err(e) };
    lift(iced::asm_movzx_r64_r16(assembler, dst, src))
}

fn emit_xor_r64_r64(assembler: &mut CodeAssembler, dst: PhysicalRegister, src: PhysicalRegister, labels: &LabelMap) -> (r: Result<(), EncodeError>)
    ensures
        r is Ok ==> (!dst.spec_is_xmm() && !src.spec_is_xmm()),
        (!dst.spec_is_xmm() && !src.spec_is_xmm()) ==> (r is Ok || r == Err::<(), EncodeError>(EncodeError::Assembler)),
        !(!dst.spec_is_xmm() && !src.spec_is_xmm()) ==> r is Err && r->Err_0 != EncodeError::Assembler,
{
    let dst = match r64(dst) { Ok(x) => x, Err(e) => return Err(e) };
    let src = match r64(src) { Ok(x) => x, Err(e) => return Err(e) };
    lift(iced::asm_xor_r64_r64(assembler, dst, src))
}

fn emit_xor_r32_r32(assembler: &mut CodeAssembler, dst: PhysicalRegister, src: PhysicalRegister, labels: &LabelMap) -> (r: Result<(), EncodeError>)
    ensures
        r is Ok ==> (!dst.spec_is_xmm() && !src.spec_is_xmm()),
        (!dst.spec_is_xmm() && !src.spec_is_xmm()) ==> (r is Ok || r == Err::<(), EncodeError>(EncodeError::Assembler)),
        !(!dst.spec_is_xmm() && !src.spec_is_xmm()) ==> r is Err && r->Err_0 != EncodeError::Assembler,
{
    let dst = match r32(dst) { Ok(x) => x, Err(e) => return Err(e) };
    let src = match r32(src) { Ok(x) => x, Err(e) => return Err(e) };
    lift(iced::asm_xor_r32_r32(assembler, dst, src))
}

fn emit_xor_r16_r16(assembler: &mut CodeAssembler, dst: PhysicalRegister, src: PhysicalRegister, labels: &LabelMap) -> (r: Result<(), EncodeError>)
    ensures
        r is Ok ==> (!dst.spec_is_xmm() && !src.spec_is_xmm()),
        (!dst.spec_is_xmm() && !src.spec_is_xmm()) ==> (r is Ok || r == Err::<(), EncodeError>(EncodeError::Assembler)),
        !(!dst.spec_is_xmm() && !src.spec_is_xmm()) ==> r is Err && r->Err_0 != EncodeError::Assembler,
{
    let dst = match r16(dst) { Ok(x) => x, Err(e) => return Err(e) };
    let src = match r16(src) { Ok(x) => x, Err(e) => return Err(e) };
    lift(iced::asm_xor_r16_r16(assembler, dst, src))
}

fn emit_xor_r8_r8(assembler: &mut CodeAssembler, dst: PhysicalRegister, src: PhysicalRegister, labels: &LabelMap) -> (r: Result<(), EncodeError>)
    ensures
        r is Ok ==> (!dst.spec_is_xmm() && !src.spec_is_xmm()),
        (!dst.spec_is_xmm() && !src.spec_is_xmm()) ==> (r is Ok || r == Err::<(), EncodeError>(EncodeError::Assembler)),
        !(!dst.spec_is_xmm() && !src.spec_is_xmm()) ==> r is Err && r->Err_0 != EncodeError::Assembler,
{
    let dst = match r8(dst) { Ok(x) => x, Err(e) => return Err(e) };
    let src = match r8(src) { Ok(x) => x, Err(e) => return Err(e) };
    lift(iced::asm_xor_r8_r8(assembler, dst, src))
}

fn emit_xor_r64_i32(assembler: &mut CodeAssembler, dst: PhysicalRegister, imm: i32, labels: &LabelMap) -> (r: Result<(), EncodeError>)
    ensures
        r is Ok ==> (!dst.spec_is_xmm()),
        (!dst.spec_is_xmm()) ==> (r is Ok || r == Err::<(), EncodeError>(EncodeError::Assembler)),
        !(!dst.spec_is_xmm()) ==> r is Err && r->Err_0 != EncodeError::Assembler,
{
    let dst = match r64(dst) { Ok(x) => x, Err(e) => return Err(e) };
    lift(iced::asm_xor_r64_i32(assembler, dst, imm))
}

fn emit_xor_r32_u32(assembler: &mut CodeAssembler, dst: PhysicalRegister, imm: u32, labels: &LabelMap) -> (r: Result<(), EncodeError>)
    ensures
        r is Ok ==> (!dst.spec_is_xmm()),
        (!dst.spec_is_xmm()) ==> (r is Ok || r == Err::<(), EncodeError>(EncodeError::Assembler)),
        !(!dst.spec_is_xmm()) ==> r is Err && r->Err_0 != EncodeError::Assembler,
{
    let dst = match r32(dst) { Ok(x) => x, Err(e) => return Err(e) };
    lift(iced::asm_xor_r32_u32(assembler, dst, imm))
}

fn emit_pxor(assembler: &mut CodeAssembler, dst: PhysicalRegister, src: PhysicalRegister, labels: &LabelMap) -> (r: Result<(), EncodeError>)
    ensures
        r is Ok ==> (dst.spec_is_xmm() && src.spec_is_xmm()),
        (dst.spec_is_xmm() && src.spec_is_xmm()) ==> (r is Ok || r == Err::<(), EncodeError>(EncodeError::Assembler)),
        !(dst.spec_is_xmm() && src.spec_is_xmm()) ==> r is Err && r->Err_0 != EncodeError::Assembler,
{
    let dst = match xmm(dst) { Ok(x) => x, Err(e) => return Err(e) };
    let src = match xmm(src) { Ok(x) => x, Err(e) => return Err(e) };
    lift(iced::asm_pxor(assembler, dst, src))
}

fn emit_or_r8_i32(assembler: &mut CodeAssembler, dst: PhysicalRegister, imm: i32, labels: &LabelMap) -> (r: Result<(), EncodeError>)
    ensures
        r is Ok ==> (!dst.spec_is_xmm()),
        (!dst.spec_is_xmm()) ==> (r is Ok || r == Err::<(), EncodeError>(EncodeError::Assembler)),
        !(!dst.spec_is_xmm()) ==> r is Err && r->Err_0 != EncodeError::Assembler,
{
    let dst = match r8(dst) { Ok(x) => x, Err(e) => return Err(e) };
    lift(iced::asm_or_r8_i32(assembler, dst, imm))
}

fn emit_or_r32_i32(assembler: &mut CodeAssembler, dst: PhysicalRegister, imm: i32, labels: &LabelMap) -> (r: Result<(), EncodeError>)
    ensures
        r is Ok ==> (!dst.spec_is_xmm()),
        (!dst.spec_is_xmm()) ==> (r is Ok || r == Err::<(), EncodeError>(EncodeError::Assembler)),
        !(!dst.spec_is_xmm()) ==> r is Err && r->Err_0 != EncodeError::Assembler,
{
    let dst = match r32(dst) { Ok(x) => x, Err(e) => return Err(e) };
    lift(iced::asm_or_r32_i32(assembler, dst, imm))
}

fn emit_or_r32_u32(assembler: &mut CodeAssembler, dst: PhysicalRegister, imm: u32, labels: &LabelMap) -> (r: Result<(), EncodeError>)
    ensures
        r is Ok ==> (!dst.spec_is_xmm()),
        (!dst.spec_is_xmm()) ==> (r is Ok || r == Err::<(), EncodeError>(EncodeError::Assembler)),
        !(!dst.spec_is_xmm()) ==> r is Err && r->Err_0 != EncodeError::Assembler,
{
    let dst = match r32(dst) { Ok(x) => x, Err(e) => return Err(e) };
    lift(iced::asm_or_r32_u32(assembler, dst, imm))
}

fn emit_or_r64_i32(assembler: &mut CodeAssembler, dst: PhysicalRegister, imm: i32, labels: &LabelMap) -> (r: Result<(), EncodeError>)
    ensures
        r is Ok ==> (!dst.spec_is_xmm()),
        (!dst.spec_is_xmm()) ==> (r is Ok || r == Err::<(), EncodeError>(EncodeError::Assembler)),
        !(!dst.spec_is_xmm()) ==> r is Err && r->Err_0 != EncodeError::Assembler,
{
    let dst = match r64(dst) { Ok(x) => x, Err(e) => return Err(e) };
    lift(iced::asm_or_r64_i32(assembler, dst, imm))
}

fn emit_or_r8_r8(assembler: &mut CodeAssembler, dst: PhysicalRegister, src: PhysicalRegister, labels: &LabelMap) -> (r: Result<(), EncodeError>)
    ensures
        r is Ok ==> (!dst.spec_is_xmm() && !src.spec_is_xmm()),
        (!dst.spec_is_xmm() && !src.spec_is_xmm()) ==> (r is Ok || r == Err::<(), EncodeError>(EncodeError::Assembler)),
        !(!dst.spec_is_xmm() && !src.spec_is_xmm()) ==> r is Err && r->Err_0 != EncodeError::Assembler,
{
    let dst = match r8(dst) { Ok(x) => x, Err(e) => return Err(e) };
    let src = match r8(src) { Ok(x) => x, Err(e) => return Err(e) };
    lift(iced::asm_or_r8_r8(assembler, dst, src))
}

fn emit_or_r16_r16(assembler: &mut CodeAssembler, dst: PhysicalRegister, src: PhysicalRegister, labels: &LabelMap) -> (r: Result<(), EncodeError>)
    ensures
        r is Ok ==> (!dst.spec_is_xmm() && !src.spec_is_xmm()),
        (!dst.spec_is_xmm() && !src.spec_is_xmm()) ==> (r is Ok || r == Err::<(), EncodeError>(EncodeError::Assembler)),
        !(!dst.spec_is_xmm() && !src.spec_is_xmm()) ==> r is Err && r->Err_0 != EncodeError::Assembler,
{
    let dst = match r16(dst) { Ok(x) => x, Err(e) => return Err(e) };
    let src = match r16(src) { Ok(x) => x, Err(e) => return Err(e) };
    lift(iced::asm_or_r16_r16(assembler, dst, src))
}

fn emit_or_r32_r32(assembler: &mut CodeAssembler, dst: PhysicalRegister, src: PhysicalRegister, labels: &LabelMap) -> (r: Result<(), EncodeError>)
    ensures
        r is Ok ==> (!dst.spec_is_xmm() && !src.spec_is_xmm()),
        (!dst.spec_is_xmm() && !src.spec_is_xmm()) ==> (r is Ok || r == Err::<(), EncodeError>(EncodeError::Assembler)),
        !(!dst.spec_is_xmm() && !src.spec_is_xmm()) ==> r is Err && r->Err_0 != EncodeError::Assembler,
{
    let dst = match r32(dst) { Ok(x) => x, Err(e) => return Err(e) };
    let src = match r32(src) { Ok(x) => x, Err(e) => return Err(e) };
    lift(iced::asm_or_r32_r32(assembler, dst, src))
}

fn emit_or_r64_r64(assembler: &mut CodeAssembler, dst: PhysicalRegister, src: PhysicalRegister, labels: &LabelMap) -> (r: Result<(), EncodeError>)
    ensures
        r is Ok ==> (!dst.spec_is_xmm() && !src.spec_is_xmm()),
        (!dst.spec_is_xmm() && !src.spec_is_xmm()) ==> (r is Ok || r == Err::<(), EncodeError>(EncodeError::Assembler)),
        !(!dst.spec_is_xmm() && !src.spec_is_xmm()) ==> r is Err && r->Err_0 != EncodeError::Assembler,
{
    let dst = match r64(dst) { Ok(x) => x, Err(e) => return Err(e) };
    let src = match r64(src) { Ok(x) => x, Err(e) => return Err(e) };
    lift(iced::asm_or_r64_r64(assembler, dst, src))
}

fn emit_por(assembler: &mut CodeAssembler, dst: PhysicalRegister, src: PhysicalRegister, labels: &LabelMap) -> (r: Result<(), EncodeError>)
    ensures
        r is Ok ==> (dst.spec_is_xmm() && src.spec_is_xmm()),
        (dst.spec_is_xmm() && src.spec_is_xmm()) ==> (r is Ok || r == Err::<(), EncodeError>(EncodeError::Assembler)),
        !(dst.spec_is_xmm() && src.spec_is_xmm()) ==> r is Err && r->Err_0 != EncodeError::Assembler,
{
    let dst = match xmm(dst) { Ok(x) => x, Err(e) => return Err(e) };
    let src = match xmm(src) { Ok(x) => x, Err(e) => return Err(e) };
    lift(iced::asm_por(assembler, dst, src))
}

fn emit_shl_r8_u32(assembler: &mut CodeAssembler, value: PhysicalRegister, amount: u32, labels: &LabelMap) -> (r: Result<(), EncodeError>)
    ensures
        r is Ok ==> (!value.spec_is_xmm()),
        (!value.spec_is_xmm()) ==> (r is Ok || r == Err::<(), EncodeError>(EncodeError::Assembler)),
        !(!value.spec_is_xmm()) ==> r is Err && r->Err_0 != EncodeError::Assembler,
{
    let value = match r8(value) { Ok(x) => x, Err(e) => return Err(e) };
    lift(iced::asm_shl_r8_u32(assembler, value, amount))
}

fn emit_shl_r16_u32(assembler: &mut CodeAssembler, value: PhysicalRegister, amount: u32, labels: &LabelMap) -> (r: Result<(), EncodeError>)
    ensures
        r is Ok ==> (!value.spec_is_xmm()),
        (!value.spec_is_xmm()) ==> (r is Ok || r == Err::<(), EncodeError>(EncodeError::Assembler)),
        !(!value.spec_is_xmm()) ==> r is Err && r->Err_0 != EncodeError::Assembler,
{
    let value = match r16(value) { Ok(x) => x, Err(e) => return Err(e) };
    lift(iced::asm_shl_r16_u32(assembler, value, amount))
}

fn emit_shl_r32_u32(assembler: &mut CodeAssembler, value: PhysicalRegister, amount: u32, labels: &LabelMap) -> (r: Result<(), EncodeError>)
    ensures
        r is Ok ==> (!value.spec_is_xmm()),
        (!value.spec_is_xmm()) ==> (r is Ok || r == Err::<(), EncodeError>(EncodeError::Assembler)),
        !(!value.spec_is_xmm()) ==> r is Err && r->Err_0 != EncodeError::Assembler,
{
    let value = match r32(value) { Ok(x) => x, Err(e) => return Err(e) };
    lift(iced::asm_shl_r32_u32(assembler, value, amount))
}

fn emit_shl_r64_u32(assembler: &mut CodeAssembler, value: PhysicalRegister, amount: u32, labels: &LabelMap) -> (r: Result<(), EncodeError>)
    ensures
        r is Ok ==> (!value.spec_is_xmm()),
        (!value.spec_is_xmm()) ==> (r is Ok || r == Err::<(), EncodeError>(EncodeError::Assembler)),
        !(!value.spec_is_xmm()) ==> r is Err && r->Err_0 != EncodeError::Assembler,
{
    let value = match r64(value) { Ok(x) => x, Err(e) => return Err(e) };
    lift(iced::asm_shl_r64_u32(assembler, value, amount))
}

fn emit_shl_r64_cl(assembler: &mut CodeAssembler, value: PhysicalRegister, amount: PhysicalRegister, labels: &LabelMap) -> (r: Result<(), EncodeError>)
    ensures
        r is Ok ==> (!value.spec_is_xmm() && !amount.spec_is_xmm()),
        (!value.spec_is_xmm() && !amount.spec_is_xmm()) ==> (r is Ok || r == Err::<(), EncodeError>(EncodeError::Assembler)),
        !(!value.spec_is_xmm() && !amount.spec_is_xmm()) ==> r is Err && r->Err_0 != EncodeError::Assembler,
{
    let value = match r64(value) { Ok(x) => x, Err(e) => return Err(e) };
    let amount = match r8(amount) { Ok(x) => x, Err(e) => return Err(e) };
    lift(iced::asm_shl_r64_cl(assembler, value, amount))
}

fn emit_shl_r32_cl(assembler: &mut CodeAssembler, value: PhysicalRegister, amount: PhysicalRegister, labels: &LabelMap) -> (r: Result<(), EncodeError>)
    ensures
        r is Ok ==> (!value.spec_is_xmm() && !amount.spec_is_xmm()),
        (!value.spec_is_xmm() && !amount.spec_is_xmm()) ==> (r is Ok || r == Err::<(), EncodeError>(EncodeError::Assembler)),
        !(!value.spec_is_xmm() && !amount.spec_is_xmm()) ==> r is Err && r->Err_0 != EncodeError::Assembler,
{
    let value = match r32(value) { Ok(x) => x, Err(e) => return Err(e) };
    let amount = match r8(amount) { Ok(x) => x, Err(e) => return Err(e) };
    lift(iced::asm_shl_r32_cl(assembler, value, amount))
}

fn emit_pslldq(assembler: &mut CodeAssembler, value: PhysicalRegister, bytes: u32, labels: &LabelMap) -> (r: Result<(), EncodeError>)
    ensures
        r is Ok ==> (value.spec_is_xmm()),
        (value.spec_is_xmm()) ==> (r is Ok || r == Err::<(), EncodeError>(EncodeError::Assembler)),
        !(value.spec_is_xmm()) ==> r is Err && r->Err_0 != EncodeError::Assembler,
{
    let value = match xmm(value) { Ok(x) => x, Err(e) => return Err(e) };
    lift(iced::asm_pslldq(assembler, value, bytes))
}

fn emit_add_r64_r64(assembler: &mut CodeAssembler, dst: PhysicalRegister, src: PhysicalRegister, labels: &LabelMap) -> (r: Result<(), EncodeError>)
    ensures
        r is Ok ==> (!dst.spec_is_xmm() && !src.spec_is_xmm()),
        (!dst.spec_is_xmm() && !src.spec_is_xmm()) ==> (r is Ok || r == Err::<(), EncodeError>(EncodeError::Assembler)),
        !(!dst.spec_is_xmm() && !src.spec_is_xmm()) ==> r is Err && r->Err_0 != EncodeError::Assembler,
{
    let dst = match r64(dst) { Ok(x) => x, Err(e) => return Err(e) };
    let src = match r64(src) { Ok(x) => x, Err(e) => return Err(e) };
    lift(iced::asm_add_r64_r64(assembler, dst, src))
}

fn emit_add_r32_r32(assembler: &mut CodeAssembler, dst: PhysicalRegister, src: PhysicalRegister, labels: &LabelMap) -> (r: Result<(), EncodeError>)
    ensures
        r is Ok ==> (!dst.spec_is_xmm() && !src.spec_is_xmm()),
        (!dst.spec_is_xmm() && !src.spec_is_xmm()) ==> (r is Ok || r == Err::<(), EncodeError>(EncodeError::Assembler)),
        !(!dst.spec_is_xmm() && !src.spec_is_xmm()) ==> r is Err && r->Err_0 != EncodeError::Assembler,
{
    let dst = match r32(dst) { Ok(x) => x, Err(e) => return Err(e) };
    let src = match r32(src) { Ok(x) => x, Err(e) => return Err(e) };
    lift(iced::asm_add_r32_r32(assembler, dst, src))
}

fn emit_add_r16_r16(assembler: &mut CodeAssembler, dst: PhysicalRegister, src: PhysicalRegister, labels: &LabelMap) -> (r: Result<(), EncodeError>)
    ensures
        r is Ok ==> (!dst.spec_is_xmm() && !src.spec_is_xmm()),
        (!dst.spec_is_xmm() && !src.spec_is_xmm()) ==> (r is Ok || r == Err::<(), EncodeError>(EncodeError::Assembler)),
        !(!dst.spec_is_xmm() && !src.spec_is_xmm()) ==> r is Err && r->Err_0 != EncodeError::Assembler,
{
    let dst = match r16(dst) { Ok(x) => x, Err(e) => return Err(e) };
    let src = match r16(src) { Ok(x) => x, Err(e) => return Err(e) };
    lift(iced::asm_add_r16_r16(assembler, dst, src))
}

fn emit_add_r8_r8(assembler: &mut CodeAssembler, dst: PhysicalRegister, src: PhysicalRegister, labels: &LabelMap) -> (r: Result<(), EncodeError>)
    ensures
        r is Ok ==> (!dst.spec_is_xmm() && !src.spec_is_xmm()),
        (!dst.spec_is_xmm() && !src.spec_is_xmm()) ==> (r is Ok || r == Err::<(), EncodeError>(EncodeError::Assembler)),
        !(!dst.spec_is_xmm() && !src.spec_is_xmm()) ==> r is Err && r->Err_0 != EncodeError::Assembler,
{
    let dst = match r8(dst) { Ok(x) => x, Err(e) => return Err(e) };
    let src = match r8(src) { Ok(x) => x, Err(e) => return Err(e) };
    lift(iced::asm_add_r8_r8(assembler, dst, src))
}

fn emit_add_r64_i32(assembler: &mut CodeAssembler, dst: PhysicalRegister, imm: i32, labels: &LabelMap) -> (r: Result<(), EncodeError>)
    ensures
        r is Ok ==> (!dst.spec_is_xmm()),
        (!dst.spec_is_xmm()) ==> (r is Ok || r == Err::<(), EncodeError>(EncodeError::Assembler)),
        !(!dst.spec_is_xmm()) ==> r is Err && r->Err_0 != EncodeError::Assembler,
{
    let dst = match r64(dst) { Ok(x) => x, Err(e) => return Err(e) };
    lift(iced::asm_add_r64_i32(assembler, dst, imm))
}

fn emit_add_r32_i32(assembler: &mut CodeAssembler, dst: PhysicalRegister, imm: i32, labels: &LabelMap) -> (r: Result<(), EncodeError>)
    ensures
        r is Ok ==> (!dst.spec_is_xmm()),
        (!dst.spec_is_xmm()) ==> (r is Ok || r == Err::<(), EncodeError>(EncodeError::Assembler)),
        !(!dst.spec_is_xmm()) ==> r is Err && r->Err_0 != EncodeError::Assembler,
{
    let dst = match r32(dst) { Ok(x) => x, Err(e) => return Err(e) };
    lift(iced::asm_add_r32_i32(assembler, dst, imm))
}

fn emit_add_qword_mem_i32(assembler: &mut CodeAssembler, mem: MemRef, imm: i32, labels: &LabelMap) -> (r: Result<(), EncodeError>)
    ensures
        r is Ok ==> (mem_fits(mem)),
        (mem_fits(mem)) ==> (r is Ok || r == Err::<(), EncodeError>(EncodeError::Assembler)),
        !(mem_fits(mem)) ==> r is Err && r->Err_0 != EncodeError::Assembler,
{
    let mem = match mem_operand(mem) { Ok(x) => x, Err(e) => return Err(e) };
    let mem = iced::qword_ptr(mem);
    lift(iced::asm_add_qword_mem_i32(assembler, mem, imm))
}

fn emit_not_r64(assembler: &mut CodeAssembler, value: PhysicalRegister, labels: &LabelMap) -> (r: Result<(), EncodeError>)
    ensures
        r is Ok ==> (!value.spec_is_xmm()),
        (!value.spec_is_xmm()) ==> (r is Ok || r == Err::<(), EncodeError>(EncodeError::Assembler)),
        !(!value.spec_is_xmm()) ==> r is Err && r->Err_0 != EncodeError::Assembler,
{
    let value = match r64(value) { Ok(x) => x, Err(e) => return Err(e) };
    lift(iced::asm_not_r64(assembler, value))
}

fn emit_not_r32(assembler: &mut CodeAssembler, value: PhysicalRegister, labels: &LabelMap) -> (r: Result<(), EncodeError>)
    ensures
        r is Ok ==> (!value.spec_is_xmm()),
        (!value.spec_is_xmm()) ==> (r is Ok || r == Err::<(), EncodeError>(EncodeError::Assembler)),
        !(!value.spec_is_xmm()) ==> r is Err && r->Err_0 != EncodeError::Assembler,
{
    let value = match r32(value) { Ok(x) => x, Err(e) => return Err(e) };
    lift(iced::asm_not_r32(assembler, value))
}

fn emit_not_r16(assembler: &mut CodeAssembler, value: PhysicalRegister, labels: &LabelMap) -> (r: Result<(), EncodeError>)
    ensures
        r is Ok ==> (!value.spec_is_xmm()),
        (!value.spec_is_xmm()) ==> (r is Ok || r == Err::<(), EncodeError>(EncodeError::Assembler)),
        !(!value.spec_is_xmm()) ==> r is Err && r->Err_0 != EncodeError::Assembler,
{
    let value = match r16(value) { Ok(x) => x, Err(e) => return Err(e) };
    lift(iced::asm_not_r16(assembler, value))
}

fn emit_not_r8(assembler: &mut CodeAssembler, value: PhysicalRegister, labels: &LabelMap) -> (r: Result<(), EncodeError>)
    ensures
        r is Ok ==> (!value.spec_is_xmm()),
        (!value.spec_is_xmm()) ==> (r is Ok || r == Err::<(), EncodeError>(EncodeError::Assembler)),
        !(!value.spec_is_xmm()) ==> r is Err && r->Err_0 != EncodeError::Assembler,
{
    let value = match r8(value) { Ok(x) => x, Err(e) => return Err(e) };
    lift(iced::asm_not_r8(assembler, value))
}

fn emit_pcmpeqd_scratch(assembler: &mut CodeAssembler, labels: &LabelMap) -> (r: Result<(), EncodeError>)
    ensures
        r is Ok ==> (true),
        (true) ==> (r is Ok || r == Err::<(), EncodeError>(EncodeError::Assembler)),
        !(true) ==> r is Err && r->Err_0 != EncodeError::Assembler,
{
    let scratch = iced::reg_xmm8();
    lift(iced::asm_pcmpeqd(assembler, scratch, scratch))
}

fn emit_pxor_scratch(assembler: &mut CodeAssembler, value: PhysicalRegister, labels: &LabelMap) -> (r: Result<(), EncodeError>)
    ensures
        r is Ok ==> (value.spec_is_xmm()),
        (value.spec_is_xmm()) ==> (r is Ok || r == Err::<(), EncodeError>(EncodeError::Assembler)),
        !(value.spec_is_xmm()) ==> r is Err && r->Err_0 != EncodeError::Assembler,
{
    let value = match xmm(value) { Ok(x) => x, Err(e) => return Err(e) };
    let scratch = iced::reg_xmm8();
    lift(iced::asm_pxor(assembler, value, scratch))
}


} // verus!
