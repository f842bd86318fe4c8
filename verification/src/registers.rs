//! Registers of the x86 encoder: physical registers, virtual registers
//! awaiting allocation and global slots in the register file.
use vstd::prelude::*;
use crate::text::physical_text;

verus! {

/// Segment registers usable as a memory-operand override.
#[derive(Debug, Clone, Copy, PartialEq, Eq, Structural, Hash)]
pub enum SegmentRegister {
    FS,
    GS,
}

/// The number of physical registers the encoder knows.
pub const PHYSICAL_REGISTER_COUNT: usize = 24;

/// The host registers: sixteen general purpose registers, then eight XMM
/// registers.
#[derive(Debug, Clone, Copy, PartialEq, Eq, Structural, Hash)]
pub enum PhysicalRegister {
    RAX,
    RCX,
    RDX,
    RBX,
    RSI,
    RDI,
    RSP,
    RBP,
    R8,
    R9,
    R10,
    R11,
    R12,
    R13,
    R14,
    R15,
    XMM0,
    XMM1,
    XMM2,
    XMM3,
    XMM4,
    XMM5,
    XMM6,
    XMM7,
}

impl PhysicalRegister {
    /// The position of the register in the order of the declaration.
    pub open spec fn spec_index(self) -> nat {
        match self {
            PhysicalRegister::RAX => 0,
            PhysicalRegister::RCX => 1,
            PhysicalRegister::RDX => 2,
            PhysicalRegister::RBX => 3,
            PhysicalRegister::RSI => 4,
            PhysicalRegister::RDI => 5,
            PhysicalRegister::RSP => 6,
            PhysicalRegister::RBP => 7,
            PhysicalRegister::R8 => 8,
            PhysicalRegister::R9 => 9,
            PhysicalRegister::R10 => 10,
            PhysicalRegister::R11 => 11,
            PhysicalRegister::R12 => 12,
            PhysicalRegister::R13 => 13,
            PhysicalRegister::R14 => 14,
            PhysicalRegister::R15 => 15,
            PhysicalRegister::XMM0 => 16,
            PhysicalRegister::XMM1 => 17,
            PhysicalRegister::XMM2 => 18,
            PhysicalRegister::XMM3 => 19,
            PhysicalRegister::XMM4 => 20,
            PhysicalRegister::XMM5 => 21,
            PhysicalRegister::XMM6 => 22,
            PhysicalRegister::XMM7 => 23,
        }
    }

    /// The register at a position of the declaration order.
    pub open spec fn spec_from_index(index: nat) -> PhysicalRegister
        recommends
            index < PHYSICAL_REGISTER_COUNT,
    {
        if index == 0 {
            PhysicalRegister::RAX
        } else if index == 1 {
            PhysicalRegister::RCX
        } else if index == 2 {
            PhysicalRegister::RDX
        } else if index == 3 {
            PhysicalRegister::RBX
        } else if index == 4 {
            PhysicalRegister::RSI
        } else if index == 5 {
            PhysicalRegister::RDI
        } else if index == 6 {
            PhysicalRegister::RSP
        } else if index == 7 {
            PhysicalRegister::RBP
        } else if index == 8 {
            PhysicalRegister::R8
        } else if index == 9 {
            PhysicalRegister::R9
        } else if index == 10 {
            PhysicalRegister::R10
        } else if index == 11 {
            PhysicalRegister::R11
        } else if index == 12 {
            PhysicalRegister::R12
        } else if index == 13 {
            PhysicalRegister::R13
        } else if index == 14 {
            PhysicalRegister::R14
        } else if index == 15 {
            PhysicalRegister::R15
        } else if index == 16 {
            PhysicalRegister::XMM0
        } else if index == 17 {
            PhysicalRegister::XMM1
        } else if index == 18 {
            PhysicalRegister::XMM2
        } else if index == 19 {
            PhysicalRegister::XMM3
        } else if index == 20 {
            PhysicalRegister::XMM4
        } else if index == 21 {
            PhysicalRegister::XMM5
        } else if index == 22 {
            PhysicalRegister::XMM6
        } else {
            PhysicalRegister::XMM7
        }
    }

    /// Whether the register is one of the XMM registers.
    pub open spec fn spec_is_xmm(self) -> bool {
        self.spec_index() >= 16
    }

    /// The position of the register in the order of the declaration.
    pub fn index(&self) -> (r: usize)
        ensures
            r as nat == self.spec_index(),
            r < PHYSICAL_REGISTER_COUNT,
    {
        match self {
            PhysicalRegister::RAX => 0,
            PhysicalRegister::RCX => 1,
            PhysicalRegister::RDX => 2,
            PhysicalRegister::RBX => 3,
            PhysicalRegister::RSI => 4,
            PhysicalRegister::RDI => 5,
            PhysicalRegister::RSP => 6,
            PhysicalRegister::RBP => 7,
            PhysicalRegister::R8 => 8,
            PhysicalRegister::R9 => 9,
            PhysicalRegister::R10 => 10,
            PhysicalRegister::R11 => 11,
            PhysicalRegister::R12 => 12,
            PhysicalRegister::R13 => 13,
            PhysicalRegister::R14 => 14,
            PhysicalRegister::R15 => 15,
            PhysicalRegister::XMM0 => 16,
            PhysicalRegister::XMM1 => 17,
            PhysicalRegister::XMM2 => 18,
            PhysicalRegister::XMM3 => 19,
            PhysicalRegister::XMM4 => 20,
            PhysicalRegister::XMM5 => 21,
            PhysicalRegister::XMM6 => 22,
            PhysicalRegister::XMM7 => 23,
        }
    }

    /// The register at position `index` of the declaration order.
    pub fn from_index(index: usize) -> (r: PhysicalRegister)
        requires
            index < PHYSICAL_REGISTER_COUNT,
        ensures
            r == Self::spec_from_index(index as nat),
            r.spec_index() == index,
    {
        match index {
            0 => PhysicalRegister::RAX,
            1 => PhysicalRegister::RCX,
            2 => PhysicalRegister::RDX,
            3 => PhysicalRegister::RBX,
            4 => PhysicalRegister::RSI,
            5 => PhysicalRegister::RDI,
            6 => PhysicalRegister::RSP,
            7 => PhysicalRegister::RBP,
            8 => PhysicalRegister::R8,
            9 => PhysicalRegister::R9,
            10 => PhysicalRegister::R10,
            11 => PhysicalRegister::R11,
            12 => PhysicalRegister::R12,
            13 => PhysicalRegister::R13,
            14 => PhysicalRegister::R14,
            15 => PhysicalRegister::R15,
            16 => PhysicalRegister::XMM0,
            17 => PhysicalRegister::XMM1,
            18 => PhysicalRegister::XMM2,
            19 => PhysicalRegister::XMM3,
            20 => PhysicalRegister::XMM4,
            21 => PhysicalRegister::XMM5,
            22 => PhysicalRegister::XMM6,
            _ => PhysicalRegister::XMM7,
        }
    }

    /// The class of registers the register belongs to.
    pub fn class(&self) -> (r: RegisterClass)
        ensures
            r == (if self.spec_is_xmm() {
                RegisterClass::Xmm
            } else {
                RegisterClass::General
            }),
    {
        if self.is_gpr() {
            RegisterClass::General
        } else {
            RegisterClass::Xmm
        }
    }

    /// Whether the register is a general purpose register.
    pub fn is_gpr(&self) -> (r: bool)
        ensures
            r == !self.spec_is_xmm(),
    {
        !self.is_xmm()
    }

    /// Whether the register is an XMM register.
    pub fn is_xmm(&self) -> (r: bool)
        ensures
            r == self.spec_is_xmm(),
    {
        match self {
            PhysicalRegister::XMM0 => true,
            PhysicalRegister::XMM1 => true,
            PhysicalRegister::XMM2 => true,
            PhysicalRegister::XMM3 => true,
            PhysicalRegister::XMM4 => true,
            PhysicalRegister::XMM5 => true,
            PhysicalRegister::XMM6 => true,
            PhysicalRegister::XMM7 => true,
            _ => false,
        }
    }

    /// The register's name in assembly.
    pub fn name(&self) -> (r: &'static str)
        ensures
            r@ == physical_text(*self),
    {
        match self {
            PhysicalRegister::RAX => "rax",
            PhysicalRegister::RCX => "rcx",
            PhysicalRegister::RDX => "rdx",
            PhysicalRegister::RBX => "rbx",
            PhysicalRegister::RSI => "rsi",
            PhysicalRegister::RDI => "rdi",
            PhysicalRegister::RSP => "rsp",
            PhysicalRegister::RBP => "rbp",
            PhysicalRegister::R8 => "r8",
            PhysicalRegister::R9 => "r9",
            PhysicalRegister::R10 => "r10",
            PhysicalRegister::R11 => "r11",
            PhysicalRegister::R12 => "r12",
            PhysicalRegister::R13 => "r13",
            PhysicalRegister::R14 => "r14",
            PhysicalRegister::R15 => "r15",
            PhysicalRegister::XMM0 => "xmm0",
            PhysicalRegister::XMM1 => "xmm1",
            PhysicalRegister::XMM2 => "xmm2",
            PhysicalRegister::XMM3 => "xmm3",
            PhysicalRegister::XMM4 => "xmm4",
            PhysicalRegister::XMM5 => "xmm5",
            PhysicalRegister::XMM6 => "xmm6",
            PhysicalRegister::XMM7 => "xmm7",
        }
    }
}

/// The position of a register found at a position is that position.
pub proof fn lemma_index_of_from_index(index: nat)
    requires
        index < PHYSICAL_REGISTER_COUNT,
    ensures
        PhysicalRegister::spec_from_index(index).spec_index() == index,
{
}

/// The register found at a register's position is that register.
pub proof fn lemma_from_index_of_index(reg: PhysicalRegister)
    ensures
        PhysicalRegister::spec_from_index(reg.spec_index()) == reg,
        reg.spec_index() < PHYSICAL_REGISTER_COUNT,
{
}

/// The two classes of registers.
#[derive(Debug, Clone, Copy, PartialEq, Eq, Structural, Hash)]
pub enum RegisterClass {
    General,
    Xmm,
}

/// A register operand before or after register allocation.
#[derive(Debug, Clone, Copy, PartialEq, Eq, Structural, Hash)]
pub enum Register {
    Physical(PhysicalRegister),
    Virtual { index: usize, class: RegisterClass },
    Global(usize),
}

impl Register {
    /// The class of the register; global slots have none.
    pub open spec fn spec_class(self) -> Option<RegisterClass> {
        match self {
            Register::Global(_) => None,
            Register::Virtual { class, .. } => Some(class),
            Register::Physical(phys) => Some(
                if phys.spec_is_xmm() {
                    RegisterClass::Xmm
                } else {
                    RegisterClass::General
                },
            ),
        }
    }

    /// The class of the register; global slots have none.
    pub fn class(&self) -> (r: Option<RegisterClass>)
        ensures
            r == self.spec_class(),
    {
        match self {
            Register::Global(_) => None,
            Register::Virtual { class, .. } => Some(*class),
            Register::Physical(phys) => Some(phys.class()),
        }
    }
}

/// Why a physical register has no counterpart of the requested kind.
#[derive(Debug, Clone, Copy, PartialEq, Eq, Structural)]
pub enum RegisterConversionError {
    /// An XMM register has no 8-bit form.
    InvalidXmmAs8(PhysicalRegister),
    /// An XMM register has no 16-bit form.
    InvalidXmmAs16(PhysicalRegister),
    /// An XMM register has no 32-bit form.
    InvalidXmmAs32(PhysicalRegister),
    /// An XMM register has no 64-bit form.
    InvalidXmmAs64(PhysicalRegister),
    /// A general purpose register is not an XMM register.
    InvalidGeneralAsXmm(PhysicalRegister),
}

} // verus!
