//! Instructions as assembly text: each operation's mnemonic followed by
//! its operands, each operand followed by a colon and the width it is
//! accessed at; registers are `%rax`, `vg3` (a general virtual register),
//! `vx3` (an XMM virtual register) or `g3` (a global slot).
use vstd::prelude::*;
use crate::encoder::{BlockRef, Instruction, MemoryScale, Opcode, Operand, OperandKind};
use crate::registers::{PhysicalRegister, Register, RegisterClass, SegmentRegister};
use crate::width::Width;
use crate::context::X86Block;
use crate::naive::Range;

verus! {

/// The text of a decimal digit.
pub open spec fn digit_text(d: nat) -> Seq<char> {
    if d == 0 {
        "0"@
    } else
    if d == 1 {
        "1"@
    } else
    if d == 2 {
        "2"@
    } else
    if d == 3 {
        "3"@
    } else
    if d == 4 {
        "4"@
    } else
    if d == 5 {
        "5"@
    } else
    if d == 6 {
        "6"@
    } else
    if d == 7 {
        "7"@
    } else
    if d == 8 {
        "8"@
    } else {
        "9"@
    }
}

/// The decimal text of `n`, most significant digit first.
pub open spec fn decimal_text(n: nat) -> Seq<char>
    decreases n,
{
    if n < 10 {
        digit_text(n)
    } else {
        decimal_text(n / 10) + digit_text(n % 10)
    }
}

/// The decimal text of `i`, with a minus sign where it is negative.
pub open spec fn signed_text(i: int) -> Seq<char> {
    if i < 0 {
        "-"@ + decimal_text((-i) as nat)
    } else {
        decimal_text(i as nat)
    }
}

fn digit(d: u64) -> (r: &'static str)
    requires
        d < 10,
    ensures
        r@ == digit_text(d as nat),
{
    if d == 0 {
        "0"
    } else
    if d == 1 {
        "1"
    } else
    if d == 2 {
        "2"
    } else
    if d == 3 {
        "3"
    } else
    if d == 4 {
        "4"
    } else
    if d == 5 {
        "5"
    } else
    if d == 6 {
        "6"
    } else
    if d == 7 {
        "7"
    } else
    if d == 8 {
        "8"
    } else {
        "9"
    }
}

/// Appends the decimal text of `n`.
fn push_decimal(s: &mut String, n: u64)
    ensures
        final(s)@ == old(s)@ + decimal_text(n as nat),
    decreases n,
{
    if n < 10 {
        s.append(digit(n));
    } else {
        push_decimal(s, n / 10);
        s.append(digit(n % 10));
        proof {
            assert(final(s)@ =~= old(s)@ + decimal_text(n as nat));
        }
    }
}

/// Appends the decimal text of `i`, with a minus sign where it is negative.
fn push_signed(s: &mut String, i: i64)
    ensures
        final(s)@ == old(s)@ + signed_text(i as int),
{
    if i < 0 {
        s.append("-");
        let magnitude: u64 = (0i128 - i as i128) as u64;
        push_decimal(s, magnitude);
        proof {
            assert(final(s)@ =~= old(s)@ + signed_text(i as int));
        }
    } else {
        push_decimal(s, i as u64);
    }
}

/// The decimal text of `n`.
pub fn decimal_string(n: u64) -> (r: String)
    ensures
        r@ == decimal_text(n as nat),
{
    let mut s = String::new();
    push_decimal(&mut s, n);
    proof {
        assert(s@ =~= decimal_text(n as nat));
    }
    s
}

/// The name of a host register.
pub open spec fn physical_text(p: PhysicalRegister) -> Seq<char> {
    match p {
        PhysicalRegister::RAX => "rax"@,
        PhysicalRegister::RCX => "rcx"@,
        PhysicalRegister::RDX => "rdx"@,
        PhysicalRegister::RBX => "rbx"@,
        PhysicalRegister::RSI => "rsi"@,
        PhysicalRegister::RDI => "rdi"@,
        PhysicalRegister::RSP => "rsp"@,
        PhysicalRegister::RBP => "rbp"@,
        PhysicalRegister::R8 => "r8"@,
        PhysicalRegister::R9 => "r9"@,
        PhysicalRegister::R10 => "r10"@,
        PhysicalRegister::R11 => "r11"@,
        PhysicalRegister::R12 => "r12"@,
        PhysicalRegister::R13 => "r13"@,
        PhysicalRegister::R14 => "r14"@,
        PhysicalRegister::R15 => "r15"@,
        PhysicalRegister::XMM0 => "xmm0"@,
        PhysicalRegister::XMM1 => "xmm1"@,
        PhysicalRegister::XMM2 => "xmm2"@,
        PhysicalRegister::XMM3 => "xmm3"@,
        PhysicalRegister::XMM4 => "xmm4"@,
        PhysicalRegister::XMM5 => "xmm5"@,
        PhysicalRegister::XMM6 => "xmm6"@,
        PhysicalRegister::XMM7 => "xmm7"@,
    }
}

/// The text of a register: `%` and the host register's name, `vg` or `vx`
/// and the number of a virtual register, `g` and the number of a global
/// slot.
pub open spec fn register_text(r: Register) -> Seq<char> {
    match r {
        Register::Physical(p) => "%"@ + physical_text(p),
        Register::Virtual { index, class: RegisterClass::General } => "vg"@ + decimal_text(index as nat),
        Register::Virtual { index, class: RegisterClass::Xmm } => "vx"@ + decimal_text(index as nat),
        Register::Global(g) => "g"@ + decimal_text(g as nat),
    }
}

/// The text of an index register's scale.
pub open spec fn scale_text(scale: MemoryScale) -> Seq<char> {
    match scale {
        MemoryScale::S1 => "* 1"@,
        MemoryScale::S2 => "* 2"@,
        MemoryScale::S4 => "* 4"@,
        MemoryScale::S8 => "* 8"@,
    }
}

/// The name of a segment register.
pub open spec fn segment_text(segment: SegmentRegister) -> Seq<char> {
    match segment {
        SegmentRegister::FS => "fs"@,
        SegmentRegister::GS => "gs"@,
    }
}

/// The text of an operand's kind: `$` and an immediate's value; a memory
/// operand as its segment, displacement and, in brackets, its base (`%riz`
/// where it has none) and its index and scale; a register; the block a
/// jump goes to.
pub open spec fn operand_kind_text(kind: OperandKind) -> Seq<char> {
    match kind {
        OperandKind::Immediate(v) => "$"@ + decimal_text(v as nat),
        OperandKind::Memory { base, index, scale, displacement, segment_override } => {
            let segment = match segment_override {
                Some(sr) => segment_text(sr),
                None => Seq::empty(),
            };
            let base_text = match base {
                Some(b) => register_text(b),
                None => "%riz"@,
            };
            let index_text = match index {
                Some(x) => ", "@ + register_text(x) + ", "@ + scale_text(scale),
                None => Seq::empty(),
            };
            segment + signed_text(displacement as int) + "("@ + base_text + index_text + ")"@
        },
        OperandKind::Register(r) => register_text(r),
        OperandKind::Target(t) => "BlockRef("@ + decimal_text(t.0 as nat) + ")"@,
    }
}

/// The text of an operand: its kind, a colon and its width in bits.
pub open spec fn operand_text(op: Operand) -> Seq<char> {
    operand_kind_text(op.kind) + ":"@ + decimal_text(op.width_in_bits.bits() as nat)
}

/// The text of an operation: its mnemonic and its operands.
pub open spec fn opcode_text(op: Opcode) -> Seq<char> {
    match op {
        Opcode::MOV(a, b) => "mov "@ + operand_text(a) + ", "@ + operand_text(b),
        Opcode::MOVZX(a, b) => "movzx "@ + operand_text(a) + ", "@ + operand_text(b),
        Opcode::MOVSX(a, b) => "movsx "@ + operand_text(a) + ", "@ + operand_text(b),
        Opcode::MOVQ(a, b) => "movq "@ + operand_text(a) + ", "@ + operand_text(b),
        Opcode::MOVD(a, b) => "movd "@ + operand_text(a) + ", "@ + operand_text(b),
        Opcode::CMOVE(a, b) => "cmove "@ + operand_text(a) + ", "@ + operand_text(b),
        Opcode::CMOVNE(a, b) => "cmovne "@ + operand_text(a) + ", "@ + operand_text(b),
        Opcode::CMPXCHG(a, b) => "cmpxchg "@ + operand_text(a) + ", "@ + operand_text(b),
        Opcode::CVTSI2SD(a, b) => "cvtsi2sd "@ + operand_text(a) + ", "@ + operand_text(b),
        Opcode::CVTSI2SS(a, b) => "cvtsi2ss "@ + operand_text(a) + ", "@ + operand_text(b),
        Opcode::CVTSD2SI(a, b) => "cvtsd2si "@ + operand_text(a) + ", "@ + operand_text(b),
        Opcode::CVTSS2SD(a, b) => "cvtss2sd "@ + operand_text(a) + ", "@ + operand_text(b),
        Opcode::CVTSD2SS(a, b) => "cvtsd2ss "@ + operand_text(a) + ", "@ + operand_text(b),
        Opcode::LEA(a, b) => "lea "@ + operand_text(a) + ", "@ + operand_text(b),
        Opcode::SHL(a, b) => "shl "@ + operand_text(a) + ", "@ + operand_text(b),
        Opcode::SHR(a, b) => "shr "@ + operand_text(a) + ", "@ + operand_text(b),
        Opcode::SHLD(a, b, c) => "shld "@ + operand_text(a) + ", "@ + operand_text(b) + ", "@ + operand_text(c),
        Opcode::SHRD(a, b, c) => "shrd "@ + operand_text(a) + ", "@ + operand_text(b) + ", "@ + operand_text(c),
        Opcode::SAR(a, b) => "sar "@ + operand_text(a) + ", "@ + operand_text(b),
        Opcode::ADD(a, b) => "add "@ + operand_text(a) + ", "@ + operand_text(b),
        Opcode::ADC(a, b, c) => "adc "@ + operand_text(a) + ", "@ + operand_text(b) + ", "@ + operand_text(c),
        Opcode::SUB(a, b) => "sub "@ + operand_text(a) + ", "@ + operand_text(b),
        Opcode::INC(a) => "inc "@ + operand_text(a),
        Opcode::OR(a, b) => "or "@ + operand_text(a) + ", "@ + operand_text(b) + ","@,
        Opcode::XOR(a, b) => "xor "@ + operand_text(a) + ", "@ + operand_text(b) + ","@,
        Opcode::AND(a, b) => "and "@ + operand_text(a) + ", "@ + operand_text(b) + ","@,
        Opcode::MUL(a, b, c) => "mul "@ + operand_text(a) + ", "@ + operand_text(b) + ", "@ + operand_text(c) + ","@,
        Opcode::IMUL(a, b) => "imul "@ + operand_text(a) + ", "@ + operand_text(b) + ","@,
        Opcode::IMUL1(a, b, c) => "imul1 "@ + operand_text(a) + ", "@ + operand_text(b) + ", "@ + operand_text(c) + " (one-operand form has 128 bit output)"@,
        Opcode::IDIV(a) => "idiv RDX:RAX "@ + operand_text(a),
        Opcode::DIV(a) => "div RDX:RAX "@ + operand_text(a),
        Opcode::MULPD(a, b) => "mulpd "@ + operand_text(a) + ", "@ + operand_text(b) + ","@,
        Opcode::MULPS(a, b) => "mulps "@ + operand_text(a) + ", "@ + operand_text(b) + ","@,
        Opcode::ADDPD(a, b) => "addpd "@ + operand_text(a) + ", "@ + operand_text(b) + ","@,
        Opcode::SUBPD(a, b) => "subpd "@ + operand_text(a) + ", "@ + operand_text(b) + ","@,
        Opcode::DIVPD(a, b) => "divpd "@ + operand_text(a) + ", "@ + operand_text(b) + ","@,
        Opcode::DIVPS(a, b) => "divps "@ + operand_text(a) + ", "@ + operand_text(b) + ","@,
        Opcode::SUBPS(a, b) => "subps "@ + operand_text(a) + ", "@ + operand_text(b) + ","@,
        Opcode::CMPPD(a, b, c) => "cmppd "@ + operand_text(a) + ", "@ + operand_text(b) + ", "@ + operand_text(c),
        Opcode::CQO => "cqo"@,
        Opcode::NOT(a) => "not "@ + operand_text(a),
        Opcode::NEG(a) => "neg "@ + operand_text(a),
        Opcode::BEXTR(a, b, c) => "bextr "@ + operand_text(a) + ", "@ + operand_text(b) + ", "@ + operand_text(c),
        Opcode::PEXTR(a, b, c) => "pextr "@ + operand_text(a) + ", "@ + operand_text(b) + ", "@ + operand_text(c),
        Opcode::PINSR(a, b, c) => "pinsr "@ + operand_text(a) + ", "@ + operand_text(b) + ", "@ + operand_text(c),
        Opcode::PUNPCKL(a, b) => "punpckl "@ + operand_text(a) + ", "@ + operand_text(b),
        Opcode::PUNPCKLWD(a, b) => "punpcklwd "@ + operand_text(a) + ", "@ + operand_text(b),
        Opcode::PSHUFLW(a, b, c) => "pshuflw "@ + operand_text(a) + ", "@ + operand_text(b) + ", "@ + operand_text(c),
        Opcode::JMP(a) => "jmp "@ + operand_text(a),
        Opcode::PUSH(a) => "push "@ + operand_text(a),
        Opcode::POP(a) => "pop "@ + operand_text(a),
        Opcode::RET => "ret"@,
        Opcode::TEST(a, b) => "test "@ + operand_text(a) + ", "@ + operand_text(b),
        Opcode::CMP(a, b) => "cmp "@ + operand_text(a) + ", "@ + operand_text(b),
        Opcode::SETS(a) => "sets "@ + operand_text(a),
        Opcode::SETE(a) => "sete "@ + operand_text(a),
        Opcode::SETC(a) => "setc "@ + operand_text(a),
        Opcode::SETO(a) => "seto "@ + operand_text(a),
        Opcode::SETNE(a) => "setne "@ + operand_text(a),
        Opcode::SETNZ(a) => "setnz "@ + operand_text(a),
        Opcode::SETB(a) => "setb "@ + operand_text(a),
        Opcode::SETBE(a) => "setbe "@ + operand_text(a),
        Opcode::SETA(a) => "seta "@ + operand_text(a),
        Opcode::SETG(a) => "setg "@ + operand_text(a),
        Opcode::SETGE(a) => "setge "@ + operand_text(a),
        Opcode::SETL(a) => "setl "@ + operand_text(a),
        Opcode::SETLE(a) => "setle "@ + operand_text(a),
        Opcode::SETAE(a) => "setae "@ + operand_text(a),
        Opcode::JE(a) => "je "@ + operand_text(a),
        Opcode::JNE(a) => "jne "@ + operand_text(a),
        Opcode::NOP => "nop"@,
        Opcode::INT(a) => "int "@ + operand_text(a),
        Opcode::OUT(a, b) => "out "@ + operand_text(a) + " "@ + operand_text(b),
        Opcode::DEAD => "dead instruction"@,
        Opcode::CALL { function, .. } => "call "@ + operand_text(function),
        Opcode::LABEL => "label"@,
    }
}

impl Width {
    /// The number of bits, as text.
    pub fn to_string(&self) -> (r: String)
        ensures
            r@ == decimal_text(self.bits() as nat),
    {
        decimal_string(self.as_u16() as u64)
    }
}

impl RegisterClass {
    /// `gpr` or `xmm`.
    pub fn to_string(&self) -> (r: String)
        ensures
            r@ == (match *self {
                RegisterClass::General => "gpr"@,
                RegisterClass::Xmm => "xmm"@,
            }),
    {
        match self {
            RegisterClass::General => String::from_str("gpr"),
            RegisterClass::Xmm => String::from_str("xmm"),
        }
    }
}

impl PhysicalRegister {
    /// The register's name.
    pub fn to_string(&self) -> (r: String)
        ensures
            r@ == physical_text(*self),
    {
        match self {
            PhysicalRegister::RAX => String::from_str("rax"),
            PhysicalRegister::RCX => String::from_str("rcx"),
            PhysicalRegister::RDX => String::from_str("rdx"),
            PhysicalRegister::RBX => String::from_str("rbx"),
            PhysicalRegister::RSI => String::from_str("rsi"),
            PhysicalRegister::RDI => String::from_str("rdi"),
            PhysicalRegister::RSP => String::from_str("rsp"),
            PhysicalRegister::RBP => String::from_str("rbp"),
            PhysicalRegister::R8 => String::from_str("r8"),
            PhysicalRegister::R9 => String::from_str("r9"),
            PhysicalRegister::R10 => String::from_str("r10"),
            PhysicalRegister::R11 => String::from_str("r11"),
            PhysicalRegister::R12 => String::from_str("r12"),
            PhysicalRegister::R13 => String::from_str("r13"),
            PhysicalRegister::R14 => String::from_str("r14"),
            PhysicalRegister::R15 => String::from_str("r15"),
            PhysicalRegister::XMM0 => String::from_str("xmm0"),
            PhysicalRegister::XMM1 => String::from_str("xmm1"),
            PhysicalRegister::XMM2 => String::from_str("xmm2"),
            PhysicalRegister::XMM3 => String::from_str("xmm3"),
            PhysicalRegister::XMM4 => String::from_str("xmm4"),
            PhysicalRegister::XMM5 => String::from_str("xmm5"),
            PhysicalRegister::XMM6 => String::from_str("xmm6"),
            PhysicalRegister::XMM7 => String::from_str("xmm7"),
        }
    }
}

impl Register {
    /// The register as text (see [`register_text`]).
    pub fn to_string(&self) -> (r: String)
        ensures
            r@ == register_text(*self),
    {
        match self {
            Register::Physical(p) => {
                let mut s = String::from_str("%");
                let t = p.to_string();
                s.append(t.as_str());
                s
            },
            Register::Virtual { index, class: RegisterClass::General } => {
                let mut s = String::from_str("vg");
                push_decimal(&mut s, *index as u64);
                s
            },
            Register::Virtual { index, class: RegisterClass::Xmm } => {
                let mut s = String::from_str("vx");
                push_decimal(&mut s, *index as u64);
                s
            },
            Register::Global(g) => {
                let mut s = String::from_str("g");
                push_decimal(&mut s, *g as u64);
                s
            },
        }
    }
}

impl MemoryScale {
    /// `* 1`, `* 2`, `* 4` or `* 8`.
    pub fn to_string(&self) -> (r: String)
        ensures
            r@ == scale_text(*self),
    {
        match self {
            MemoryScale::S1 => String::from_str("* 1"),
            MemoryScale::S2 => String::from_str("* 2"),
            MemoryScale::S4 => String::from_str("* 4"),
            MemoryScale::S8 => String::from_str("* 8"),
        }
    }
}

impl SegmentRegister {
    /// `fs` or `gs`.
    pub fn to_string(&self) -> (r: String)
        ensures
            r@ == segment_text(*self),
    {
        match self {
            SegmentRegister::FS => String::from_str("fs"),
            SegmentRegister::GS => String::from_str("gs"),
        }
    }
}

impl OperandKind {
    /// The operand's kind as text (see [`operand_kind_text`]).
    pub fn to_string(&self) -> (r: String)
        ensures
            r@ == operand_kind_text(*self),
    {
        match self {
            OperandKind::Immediate(v) => {
                let mut s = String::from_str("$");
                push_decimal(&mut s, *v);
                s
            },
            OperandKind::Memory { base, index, scale, displacement, segment_override } => {
                let mut s = String::new();
                if let Some(sr) = segment_override {
                    let t = sr.to_string();
                    s.append(t.as_str());
                }
                push_signed(&mut s, *displacement as i64);
                s.append("(");
                match base {
                    Some(b) => {
                        let t = b.to_string();
                        s.append(t.as_str());
                    },
                    None => s.append("%riz"),
                }
                if let Some(x) = index {
                    s.append(", ");
                    let t = x.to_string();
                    s.append(t.as_str());
                    s.append(", ");
                    let t = scale.to_string();
                    s.append(t.as_str());
                }
                s.append(")");
                proof {
                    assert(s@ =~= operand_kind_text(*self));
                }
                s
            },
            OperandKind::Register(r) => r.to_string(),
            OperandKind::Target(t) => {
                let mut s = String::from_str("BlockRef(");
                push_decimal(&mut s, t.0 as u64);
                s.append(")");
                s
            },
        }
    }
}

impl Operand {
    /// The operand as text (see [`operand_text`]).
    pub fn to_string(&self) -> (r: String)
        ensures
            r@ == operand_text(*self),
    {
        let mut s = self.kind.to_string();
        s.append(":");
        let t = self.width_in_bits.to_string();
        s.append(t.as_str());
        s
    }
}

impl Opcode {
    /// The operation as text (see [`opcode_text`]).
    #[verifier::rlimit(40)]
    pub fn to_string(&self) -> (r: String)
        ensures
            r@ == opcode_text(*self),
    {
        match *self {
            Opcode::MOV(a, b) => {
                let mut s = String::from_str("mov ");
                let t = a.to_string();
                s.append(t.as_str());
                s.append(", ");
                let t = b.to_string();
                s.append(t.as_str());
                s
            },
            Opcode::MOVZX(a, b) => {
                let mut s = String::from_str("movzx ");
                let t = a.to_string();
                s.append(t.as_str());
                s.append(", ");
                let t = b.to_string();
                s.append(t.as_str());
                s
            },
            Opcode::MOVSX(a, b) => {
                let mut s = String::from_str("movsx ");
                let t = a.to_string();
                s.append(t.as_str());
                s.append(", ");
                let t = b.to_string();
                s.append(t.as_str());
                s
            },
            Opcode::MOVQ(a, b) => {
                let mut s = String::from_str("movq ");
                let t = a.to_string();
                s.append(t.as_str());
                s.append(", ");
                let t = b.to_string();
                s.append(t.as_str());
                s
            },
            Opcode::MOVD(a, b) => {
                let mut s = String::from_str("movd ");
                let t = a.to_string();
                s.append(t.as_str());
                s.append(", ");
                let t = b.to_string();
                s.append(t.as_str());
                s
            },
            Opcode::CMOVE(a, b) => {
                let mut s = String::from_str("cmove ");
                let t = a.to_string();
                s.append(t.as_str());
                s.append(", ");
                let t = b.to_string();
                s.append(t.as_str());
                s
            },
            Opcode::CMOVNE(a, b) => {
                let mut s = String::from_str("cmovne ");
                let t = a.to_string();
                s.append(t.as_str());
                s.append(", ");
                let t = b.to_string();
                s.append(t.as_str());
                s
            },
            Opcode::CMPXCHG(a, b) => {
                let mut s = String::from_str("cmpxchg ");
                let t = a.to_string();
                s.append(t.as_str());
                s.append(", ");
                let t = b.to_string();
                s.append(t.as_str());
                s
            },
            Opcode::CVTSI2SD(a, b) => {
                let mut s = String::from_str("cvtsi2sd ");
                let t = a.to_string();
                s.append(t.as_str());
                s.append(", ");
                let t = b.to_string();
                s.append(t.as_str());
                s
            },
            Opcode::CVTSI2SS(a, b) => {
                let mut s = String::from_str("cvtsi2ss ");
                let t = a.to_string();
                s.append(t.as_str());
                s.append(", ");
                let t = b.to_string();
                s.append(t.as_str());
                s
            },
            Opcode::CVTSD2SI(a, b) => {
                let mut s = String::from_str("cvtsd2si ");
                let t = a.to_string();
                s.append(t.as_str());
                s.append(", ");
                let t = b.to_string();
                s.append(t.as_str());
                s
            },
            Opcode::CVTSS2SD(a, b) => {
                let mut s = String::from_str("cvtss2sd ");
                let t = a.to_string();
                s.append(t.as_str());
                s.append(", ");
                let t = b.to_string();
                s.append(t.as_str());
                s
            },
            Opcode::CVTSD2SS(a, b) => {
                let mut s = String::from_str("cvtsd2ss ");
                let t = a.to_string();
                s.append(t.as_str());
                s.append(", ");
                let t = b.to_string();
                s.append(t.as_str());
                s
            },
            Opcode::LEA(a, b) => {
                let mut s = String::from_str("lea ");
                let t = a.to_string();
                s.append(t.as_str());
                s.append(", ");
                let t = b.to_string();
                s.append(t.as_str());
                s
            },
            Opcode::SHL(a, b) => {
                let mut s = String::from_str("shl ");
                let t = a.to_string();
                s.append(t.as_str());
                s.append(", ");
                let t = b.to_string();
                s.append(t.as_str());
                s
            },
            Opcode::SHR(a, b) => {
                let mut s = String::from_str("shr ");
                let t = a.to_string();
                s.append(t.as_str());
                s.append(", ");
                let t = b.to_string();
                s.append(t.as_str());
                s
            },
            Opcode::SHLD(a, b, c) => {
                let mut s = String::from_str("shld ");
                let t = a.to_string();
                s.append(t.as_str());
                s.append(", ");
                let t = b.to_string();
                s.append(t.as_str());
                s.append(", ");
                let t = c.to_string();
                s.append(t.as_str());
                s
            },
            Opcode::SHRD(a, b, c) => {
                let mut s = String::from_str("shrd ");
                let t = a.to_string();
                s.append(t.as_str());
                s.append(", ");
                let t = b.to_string();
                s.append(t.as_str());
                s.append(", ");
                let t = c.to_string();
                s.append(t.as_str());
                s
            },
            Opcode::SAR(a, b) => {
                let mut s = String::from_str("sar ");
                let t = a.to_string();
                s.append(t.as_str());
                s.append(", ");
                let t = b.to_string();
                s.append(t.as_str());
                s
            },
            Opcode::ADD(a, b) => {
                let mut s = String::from_str("add ");
                let t = a.to_string();
                s.append(t.as_str());
                s.append(", ");
                let t = b.to_string();
                s.append(t.as_str());
                s
            },
            Opcode::ADC(a, b, c) => {
                let mut s = String::from_str("adc ");
                let t = a.to_string();
                s.append(t.as_str());
                s.append(", ");
                let t = b.to_string();
                s.append(t.as_str());
                s.append(", ");
                let t = c.to_string();
                s.append(t.as_str());
                s
            },
            Opcode::SUB(a, b) => {
                let mut s = String::from_str("sub ");
                let t = a.to_string();
                s.append(t.as_str());
                s.append(", ");
                let t = b.to_string();
                s.append(t.as_str());
                s
            },
            Opcode::INC(a) => {
                let mut s = String::from_str("inc ");
                let t = a.to_string();
                s.append(t.as_str());
                s
            },
            Opcode::OR(a, b) => {
                let mut s = String::from_str("or ");
                let t = a.to_string();
                s.append(t.as_str());
                s.append(", ");
                let t = b.to_string();
                s.append(t.as_str());
                s.append(",");
                s
            },
            Opcode::XOR(a, b) => {
                let mut s = String::from_str("xor ");
                let t = a.to_string();
                s.append(t.as_str());
                s.append(", ");
                let t = b.to_string();
                s.append(t.as_str());
                s.append(",");
                s
            },
            Opcode::AND(a, b) => {
                let mut s = String::from_str("and ");
                let t = a.to_string();
                s.append(t.as_str());
                s.append(", ");
                let t = b.to_string();
                s.append(t.as_str());
                s.append(",");
                s
            },
            Opcode::MUL(a, b, c) => {
                let mut s = String::from_str("mul ");
                let t = a.to_string();
                s.append(t.as_str());
                s.append(", ");
                let t = b.to_string();
                s.append(t.as_str());
                s.append(", ");
                let t = c.to_string();
                s.append(t.as_str());
                s.append(",");
                s
            },
            Opcode::IMUL(a, b) => {
                let mut s = String::from_str("imul ");
                let t = a.to_string();
                s.append(t.as_str());
                s.append(", ");
                let t = b.to_string();
                s.append(t.as_str());
                s.append(",");
                s
            },
            Opcode::IMUL1(a, b, c) => {
                let mut s = String::from_str("imul1 ");
                let t = a.to_string();
                s.append(t.as_str());
                s.append(", ");
                let t = b.to_string();
                s.append(t.as_str());
                s.append(", ");
                let t = c.to_string();
                s.append(t.as_str());
                s.append(" (one-operand form has 128 bit output)");
                s
            },
            Opcode::IDIV(a) => {
                let mut s = String::from_str("idiv RDX:RAX ");
                let t = a.to_string();
                s.append(t.as_str());
                s
            },
            Opcode::DIV(a) => {
                let mut s = String::from_str("div RDX:RAX ");
                let t = a.to_string();
                s.append(t.as_str());
                s
            },
            Opcode::MULPD(a, b) => {
                let mut s = String::from_str("mulpd ");
                let t = a.to_string();
                s.append(t.as_str());
                s.append(", ");
                let t = b.to_string();
                s.append(t.as_str());
                s.append(",");
                s
            },
            Opcode::MULPS(a, b) => {
                let mut s = String::from_str("mulps ");
                let t = a.to_string();
                s.append(t.as_str());
                s.append(", ");
                let t = b.to_string();
                s.append(t.as_str());
                s.append(",");
                s
            },
            Opcode::ADDPD(a, b) => {
                let mut s = String::from_str("addpd ");
                let t = a.to_string();
                s.append(t.as_str());
                s.append(", ");
                let t = b.to_string();
                s.append(t.as_str());
                s.append(",");
                s
            },
            Opcode::SUBPD(a, b) => {
                let mut s = String::from_str("subpd ");
                let t = a.to_string();
                s.append(t.as_str());
                s.append(", ");
                let t = b.to_string();
                s.append(t.as_str());
                s.append(",");
                s
            },
            Opcode::DIVPD(a, b) => {
                let mut s = String::from_str("divpd ");
                let t = a.to_string();
                s.append(t.as_str());
                s.append(", ");
                let t = b.to_string();
                s.append(t.as_str());
                s.append(",");
                s
            },
            Opcode::DIVPS(a, b) => {
                let mut s = String::from_str("divps ");
                let t = a.to_string();
                s.append(t.as_str());
                s.append(", ");
                let t = b.to_string();
                s.append(t.as_str());
                s.append(",");
                s
            },
            Opcode::SUBPS(a, b) => {
                let mut s = String::from_str("subps ");
                let t = a.to_string();
                s.append(t.as_str());
                s.append(", ");
                let t = b.to_string();
                s.append(t.as_str());
                s.append(",");
                s
            },
            Opcode::CMPPD(a, b, c) => {
                let mut s = String::from_str("cmppd ");
                let t = a.to_string();
                s.append(t.as_str());
                s.append(", ");
                let t = b.to_string();
                s.append(t.as_str());
                s.append(", ");
                let t = c.to_string();
                s.append(t.as_str());
                s
            },
            Opcode::CQO => {
                let mut s = String::from_str("cqo");
                s
            },
            Opcode::NOT(a) => {
                let mut s = String::from_str("not ");
                let t = a.to_string();
                s.append(t.as_str());
                s
            },
            Opcode::NEG(a) => {
                let mut s = String::from_str("neg ");
                let t = a.to_string();
                s.append(t.as_str());
                s
            },
            Opcode::BEXTR(a, b, c) => {
                let mut s = String::from_str("bextr ");
                let t = a.to_string();
                s.append(t.as_str());
                s.append(", ");
                let t = b.to_string();
                s.append(t.as_str());
                s.append(", ");
                let t = c.to_string();
                s.append(t.as_str());
                s
            },
            Opcode::PEXTR(a, b, c) => {
                let mut s = String::from_str("pextr ");
                let t = a.to_string();
                s.append(t.as_str());
                s.append(", ");
                let t = b.to_string();
                s.append(t.as_str());
                s.append(", ");
                let t = c.to_string();
                s.append(t.as_str());
                s
            },
            Opcode::PINSR(a, b, c) => {
                let mut s = String::from_str("pinsr ");
                let t = a.to_string();
                s.append(t.as_str());
                s.append(", ");
                let t = b.to_string();
                s.append(t.as_str());
                s.append(", ");
                let t = c.to_string();
                s.append(t.as_str());
                s
            },
            Opcode::PUNPCKL(a, b) => {
                let mut s = String::from_str("punpckl ");
                let t = a.to_string();
                s.append(t.as_str());
                s.append(", ");
                let t = b.to_string();
                s.append(t.as_str());
                s
            },
            Opcode::PUNPCKLWD(a, b) => {
                let mut s = String::from_str("punpcklwd ");
                let t = a.to_string();
                s.append(t.as_str());
                s.append(", ");
                let t = b.to_string();
                s.append(t.as_str());
                s
            },
            Opcode::PSHUFLW(a, b, c) => {
                let mut s = String::from_str("pshuflw ");
                let t = a.to_string();
                s.append(t.as_str());
                s.append(", ");
                let t = b.to_string();
                s.append(t.as_str());
                s.append(", ");
                let t = c.to_string();
                s.append(t.as_str());
                s
            },
            Opcode::JMP(a) => {
                let mut s = String::from_str("jmp ");
                let t = a.to_string();
                s.append(t.as_str());
                s
            },
            Opcode::PUSH(a) => {
                let mut s = String::from_str("push ");
                let t = a.to_string();
                s.append(t.as_str());
                s
            },
            Opcode::POP(a) => {
                let mut s = String::from_str("pop ");
                let t = a.to_string();
                s.append(t.as_str());
                s
            },
            Opcode::RET => {
                let mut s = String::from_str("ret");
                s
            },
            Opcode::TEST(a, b) => {
                let mut s = String::from_str("test ");
                let t = a.to_string();
                s.append(t.as_str());
                s.append(", ");
                let t = b.to_string();
                s.append(t.as_str());
                s
            },
            Opcode::CMP(a, b) => {
                let mut s = String::from_str("cmp ");
                let t = a.to_string();
                s.append(t.as_str());
                s.append(", ");
                let t = b.to_string();
                s.append(t.as_str());
                s
            },
            Opcode::SETS(a) => {
                let mut s = String::from_str("sets ");
                let t = a.to_string();
                s.append(t.as_str());
                s
            },
            Opcode::SETE(a) => {
                let mut s = String::from_str("sete ");
                let t = a.to_string();
                s.append(t.as_str());
                s
            },
            Opcode::SETC(a) => {
                let mut s = String::from_str("setc ");
                let t = a.to_string();
                s.append(t.as_str());
                s
            },
            Opcode::SETO(a) => {
                let mut s = String::from_str("seto ");
                let t = a.to_string();
                s.append(t.as_str());
                s
            },
            Opcode::SETNE(a) => {
                let mut s = String::from_str("setne ");
                let t = a.to_string();
                s.append(t.as_str());
                s
            },
            Opcode::SETNZ(a) => {
                let mut s = String::from_str("setnz ");
                let t = a.to_string();
                s.append(t.as_str());
                s
            },
            Opcode::SETB(a) => {
                let mut s = String::from_str("setb ");
                let t = a.to_string();
                s.append(t.as_str());
                s
            },
            Opcode::SETBE(a) => {
                let mut s = String::from_str("setbe ");
                let t = a.to_string();
                s.append(t.as_str());
                s
            },
            Opcode::SETA(a) => {
                let mut s = String::from_str("seta ");
                let t = a.to_string();
                s.append(t.as_str());
                s
            },
            Opcode::SETG(a) => {
                let mut s = String::from_str("setg ");
                let t = a.to_string();
                s.append(t.as_str());
                s
            },
            Opcode::SETGE(a) => {
                let mut s = String::from_str("setge ");
                let t = a.to_string();
                s.append(t.as_str());
                s
            },
            Opcode::SETL(a) => {
                let mut s = String::from_str("setl ");
                let t = a.to_string();
                s.append(t.as_str());
                s
            },
            Opcode::SETLE(a) => {
                let mut s = String::from_str("setle ");
                let t = a.to_string();
                s.append(t.as_str());
                s
            },
            Opcode::SETAE(a) => {
                let mut s = String::from_str("setae ");
                let t = a.to_string();
                s.append(t.as_str());
                s
            },
            Opcode::JE(a) => {
                let mut s = String::from_str("je ");
                let t = a.to_string();
                s.append(t.as_str());
                s
            },
            Opcode::JNE(a) => {
                let mut s = String::from_str("jne ");
                let t = a.to_string();
                s.append(t.as_str());
                s
            },
            Opcode::NOP => {
                let mut s = String::from_str("nop");
                s
            },
            Opcode::INT(a) => {
                let mut s = String::from_str("int ");
                let t = a.to_string();
                s.append(t.as_str());
                s
            },
            Opcode::OUT(a, b) => {
                let mut s = String::from_str("out ");
                let t = a.to_string();
                s.append(t.as_str());
                s.append(" ");
                let t = b.to_string();
                s.append(t.as_str());
                s
            },
            Opcode::DEAD => {
                let mut s = String::from_str("dead instruction");
                s
            },
            Opcode::CALL { function, .. } => {
                let mut s = String::from_str("call ");
                let t = function.to_string();
                s.append(t.as_str());
                s
            },
            Opcode::LABEL => {
                let mut s = String::from_str("label");
                s
            },
        }
    }
}

impl Instruction {
    /// The instruction as text: its operation's (see [`opcode_text`]).
    pub fn to_string(&self) -> (r: String)
        ensures
            r@ == opcode_text(self.0),
    {
        self.0.to_string()
    }
}

/// A listing of instructions: each on a line of its own, after a tab.
pub open spec fn listing_text(instrs: Seq<Instruction>) -> Seq<char>
    decreases instrs.len(),
{
    if instrs.len() == 0 {
        Seq::empty()
    } else {
        listing_text(instrs.drop_last()) + "\t"@ + opcode_text(instrs.last().0) + "\n"@
    }
}

impl X86Block {
    /// The block's instructions as a listing (see [`listing_text`]).
    pub fn listing(&self) -> (r: String)
        ensures
            r@ == listing_text(self.instrs()),
    {
        let instrs = self.instructions();
        let mut s = String::new();
        let mut i: usize = 0;
        while i < instrs.len()
            invariant
                i <= instrs@.len(),
                instrs@ == self.instrs(),
                s@ == listing_text(instrs@.take(i as int)),
            decreases instrs.len() - i,
        {
            proof {
                assert(instrs@.take(i as int + 1).drop_last() =~= instrs@.take(i as int));
            }
            s.append("\t");
            let t = instrs[i].to_string();
            s.append(t.as_str());
            s.append("\n");
            i = i + 1;
        }
        proof {
            assert(instrs@.take(i as int) =~= instrs@);
        }
        s
    }
}

impl Range {
    /// The range as text: its start, `..` and its end where it is known.
    pub fn to_string(&self) -> (r: String)
        ensures
            r@ == decimal_text(self.spec_start() as nat) + ".."@ + match self.spec_end() {
                Some(e) => decimal_text(e as nat),
                None => Seq::empty(),
            },
    {
        let mut s = decimal_string(self.start() as u64);
        s.append("..");
        if let Some(e) = self.end() {
            push_decimal(&mut s, e as u64);
        }
        proof {
            assert(s@ =~= decimal_text(self.spec_start() as nat) + ".."@ + match self.spec_end() {
                Some(e) => decimal_text(e as nat),
                None => Seq::<char>::empty(),
            });
        }
        s
    }
}

/// The text of a hexadecimal digit, in lower case.
pub open spec fn hex_digit_text(d: nat) -> Seq<char> {
    if d == 0 {
        "0"@
    } else
    if d == 1 {
        "1"@
    } else
    if d == 2 {
        "2"@
    } else
    if d == 3 {
        "3"@
    } else
    if d == 4 {
        "4"@
    } else
    if d == 5 {
        "5"@
    } else
    if d == 6 {
        "6"@
    } else
    if d == 7 {
        "7"@
    } else
    if d == 8 {
        "8"@
    } else
    if d == 9 {
        "9"@
    } else
    if d == 10 {
        "a"@
    } else
    if d == 11 {
        "b"@
    } else
    if d == 12 {
        "c"@
    } else
    if d == 13 {
        "d"@
    } else
    if d == 14 {
        "e"@
    } else {
        "f"@
    }
}

/// The last `digits` hexadecimal digits of `n`, most significant first,
/// with leading zeros.
pub open spec fn hex_text(n: nat, digits: nat) -> Seq<char>
    decreases digits,
{
    if digits == 0 {
        Seq::empty()
    } else {
        hex_text(n / 16, (digits - 1) as nat) + hex_digit_text(n % 16)
    }
}

fn hex_digit(d: u64) -> (r: &'static str)
    requires
        d < 16,
    ensures
        r@ == hex_digit_text(d as nat),
{
    if d == 0 {
        "0"
    } else
    if d == 1 {
        "1"
    } else
    if d == 2 {
        "2"
    } else
    if d == 3 {
        "3"
    } else
    if d == 4 {
        "4"
    } else
    if d == 5 {
        "5"
    } else
    if d == 6 {
        "6"
    } else
    if d == 7 {
        "7"
    } else
    if d == 8 {
        "8"
    } else
    if d == 9 {
        "9"
    } else
    if d == 10 {
        "a"
    } else
    if d == 11 {
        "b"
    } else
    if d == 12 {
        "c"
    } else
    if d == 13 {
        "d"
    } else
    if d == 14 {
        "e"
    } else {
        "f"
    }
}

/// Appends the last `digits` hexadecimal digits of `n`.
pub(crate) fn push_hex(s: &mut String, n: u64, digits: u32)
    ensures
        final(s)@ == old(s)@ + hex_text(n as nat, digits as nat),
    decreases digits,
{
    if digits == 0 {
        proof {
            assert(final(s)@ =~= old(s)@ + hex_text(n as nat, digits as nat));
        }
    } else {
        push_hex(s, n / 16, digits - 1);
        s.append(hex_digit(n % 16));
        proof {
            assert(final(s)@ =~= old(s)@ + hex_text(n as nat, digits as nat));
        }
    }
}

} // verus!
