//! The outside assembler: its types, its register names and one call per
//! instruction form the encoder emits. Each item here is trusted; none of
//! them is stated to do more than hand its arguments to the assembler.
use vstd::prelude::*;
use iced_x86::code_asm::{
    AsmMemoryOperand, AsmRegister16, AsmRegister32, AsmRegister64, AsmRegister8, AsmRegisterXmm,
    CodeAssembler, CodeLabel,
};
use iced_x86::IcedError;

verus! {

#[verifier::external_type_specification]
#[verifier::external_body]
pub struct ExCodeAssembler(CodeAssembler);

#[verifier::external_type_specification]
#[verifier::external_body]
pub struct ExCodeLabel(CodeLabel);

#[verifier::external_type_specification]
#[verifier::external_body]
pub struct ExIcedError(IcedError);

#[verifier::external_type_specification]
#[verifier::external_body]
pub struct ExAsmMemoryOperand(AsmMemoryOperand);

#[verifier::external_type_specification]
#[verifier::external_body]
pub struct ExAsmRegister8(AsmRegister8);

#[verifier::external_type_specification]
#[verifier::external_body]
pub struct ExAsmRegister16(AsmRegister16);

#[verifier::external_type_specification]
#[verifier::external_body]
pub struct ExAsmRegister32(AsmRegister32);

#[verifier::external_type_specification]
#[verifier::external_body]
pub struct ExAsmRegister64(AsmRegister64);

#[verifier::external_type_specification]
#[verifier::external_body]
pub struct ExAsmRegisterXmm(AsmRegisterXmm);

/// `CodeAssembler::new`: a 64-bit assembler; nothing is stated of it.
#[verifier::external_body]
pub(crate) fn new_assembler() -> (r: Result<CodeAssembler, IcedError>) {
    CodeAssembler::new(64)
}

/// `CodeAssembler::create_label`: a fresh label; nothing is stated of it.
#[verifier::external_body]
pub(crate) fn create_label(assembler: &mut CodeAssembler) -> (r: CodeLabel) {
    assembler.create_label()
}

/// `CodeAssembler::set_label`: binds a label to the next instruction; nothing
/// is stated of the outcome.
#[verifier::external_body]
pub(crate) fn set_label(assembler: &mut CodeAssembler, label: &mut CodeLabel) -> (r: Result<(), IcedError>) {
    assembler.set_label(label)
}

/// `CodeAssembler::assemble`: the machine code of the instructions added so
/// far; nothing is stated of the bytes.
#[verifier::external_body]
pub(crate) fn assemble(assembler: &mut CodeAssembler, ip: u64) -> (r: Result<Vec<u8>, IcedError>) {
    assembler.assemble(ip)
}

/// `AsmRegister64 + i32`: a memory operand addressed by a base register and a
/// displacement; nothing is stated of it.
#[verifier::external_body]
pub(crate) fn mem_base_displ(base: AsmRegister64, displacement: i32) -> (r: AsmMemoryOperand) {
    base + displacement
}

/// `AsmMemoryOperand::from(i32)`: a memory operand holding only a
/// displacement; nothing is stated of it.
#[verifier::external_body]
pub(crate) fn mem_displ(displacement: i32) -> (r: AsmMemoryOperand) {
    AsmMemoryOperand::from(displacement)
}

/// `AsmRegister64 + AsmRegister64 * i32 + i32`: a memory operand addressed
/// by a base register, an index register scaled by `scale` (one of 1, 2, 4,
/// 8) and a displacement; nothing is stated of it. The index product has no
/// base, so adding the base to it cannot meet two base registers.
#[verifier::external_body]
pub(crate) fn mem_base_index_displ(base: AsmRegister64, index: AsmRegister64, scale: i32, displacement: i32) -> (r:
    AsmMemoryOperand)
    requires
        scale == 1 || scale == 2 || scale == 4 || scale == 8,
{
    base + index * scale + displacement
}

/// `AsmRegister64 * i32 + i32`: a memory operand addressed by an index
/// register scaled by `scale` (one of 1, 2, 4, 8) and a displacement, with no
/// base register; nothing is stated of it.
#[verifier::external_body]
pub(crate) fn mem_index_displ(index: AsmRegister64, scale: i32, displacement: i32) -> (r: AsmMemoryOperand)
    requires
        scale == 1 || scale == 2 || scale == 4 || scale == 8,
{
    index * scale + displacement
}

/// `AsmMemoryOperand::fs`: the operand with an `fs` override; nothing is
/// stated of it.
#[verifier::external_body]
pub(crate) fn mem_fs(mem: AsmMemoryOperand) -> (r: AsmMemoryOperand) {
    mem.fs()
}

/// `AsmMemoryOperand::gs`: the operand with a `gs` override; nothing is
/// stated of it.
#[verifier::external_body]
pub(crate) fn mem_gs(mem: AsmMemoryOperand) -> (r: AsmMemoryOperand) {
    mem.gs()
}

/// `byte_ptr`: the operand marked as byte-sized; nothing is stated of it.
#[verifier::external_body]
pub(crate) fn byte_ptr(mem: AsmMemoryOperand) -> (r: AsmMemoryOperand) {
    iced_x86::code_asm::byte_ptr(mem)
}

/// `word_ptr`: the operand marked as word-sized; nothing is stated of it.
#[verifier::external_body]
pub(crate) fn word_ptr(mem: AsmMemoryOperand) -> (r: AsmMemoryOperand) {
    iced_x86::code_asm::word_ptr(mem)
}

/// `dword_ptr`: the operand marked as dword-sized; nothing is stated of it.
#[verifier::external_body]
pub(crate) fn dword_ptr(mem: AsmMemoryOperand) -> (r: AsmMemoryOperand) {
    iced_x86::code_asm::dword_ptr(mem)
}

/// `qword_ptr`: the operand marked as qword-sized; nothing is stated of it.
#[verifier::external_body]
pub(crate) fn qword_ptr(mem: AsmMemoryOperand) -> (r: AsmMemoryOperand) {
    iced_x86::code_asm::qword_ptr(mem)
}

/// `xmmword_ptr`: the operand marked as xmmword-sized; nothing is stated of it.
#[verifier::external_body]
pub(crate) fn xmmword_ptr(mem: AsmMemoryOperand) -> (r: AsmMemoryOperand) {
    iced_x86::code_asm::xmmword_ptr(mem)
}

/// The assembler's register `rax`.
#[verifier::external_body]
pub(crate) fn reg_rax() -> (r: AsmRegister64) {
    iced_x86::code_asm::registers::gpr64::rax
}

/// The assembler's register `rcx`.
#[verifier::external_body]
pub(crate) fn reg_rcx() -> (r: AsmRegister64) {
    iced_x86::code_asm::registers::gpr64::rcx
}

/// The assembler's register `rdx`.
#[verifier::external_body]
pub(crate) fn reg_rdx() -> (r: AsmRegister64) {
    iced_x86::code_asm::registers::gpr64::rdx
}

/// The assembler's register `rbx`.
#[verifier::external_body]
pub(crate) fn reg_rbx() -> (r: AsmRegister64) {
    iced_x86::code_asm::registers::gpr64::rbx
}

/// The assembler's register `rsi`.
#[verifier::external_body]
pub(crate) fn reg_rsi() -> (r: AsmRegister64) {
    iced_x86::code_asm::registers::gpr64::rsi
}

/// The assembler's register `rdi`.
#[verifier::external_body]
pub(crate) fn reg_rdi() -> (r: AsmRegister64) {
    iced_x86::code_asm::registers::gpr64::rdi
}

/// The assembler's register `rsp`.
#[verifier::external_body]
pub(crate) fn reg_rsp() -> (r: AsmRegister64) {
    iced_x86::code_asm::registers::gpr64::rsp
}

/// The assembler's register `rbp`.
#[verifier::external_body]
pub(crate) fn reg_rbp() -> (r: AsmRegister64) {
    iced_x86::code_asm::registers::gpr64::rbp
}

/// The assembler's register `r8`.
#[verifier::external_body]
pub(crate) fn reg_r8() -> (r: AsmRegister64) {
    iced_x86::code_asm::registers::gpr64::r8
}

/// The assembler's register `r9`.
#[verifier::external_body]
pub(crate) fn reg_r9() -> (r: AsmRegister64) {
    iced_x86::code_asm::registers::gpr64::r9
}

/// The assembler's register `r10`.
#[verifier::external_body]
pub(crate) fn reg_r10() -> (r: AsmRegister64) {
    iced_x86::code_asm::registers::gpr64::r10
}

/// The assembler's register `r11`.
#[verifier::external_body]
pub(crate) fn reg_r11() -> (r: AsmRegister64) {
    iced_x86::code_asm::registers::gpr64::r11
}

/// The assembler's register `r12`.
#[verifier::external_body]
pub(crate) fn reg_r12() -> (r: AsmRegister64) {
    iced_x86::code_asm::registers::gpr64::r12
}

/// The assembler's register `r13`.
#[verifier::external_body]
pub(crate) fn reg_r13() -> (r: AsmRegister64) {
    iced_x86::code_asm::registers::gpr64::r13
}

/// The assembler's register `r14`.
#[verifier::external_body]
pub(crate) fn reg_r14() -> (r: AsmRegister64) {
    iced_x86::code_asm::registers::gpr64::r14
}

/// The assembler's register `r15`.
#[verifier::external_body]
pub(crate) fn reg_r15() -> (r: AsmRegister64) {
    iced_x86::code_asm::registers::gpr64::r15
}

/// The assembler's register `eax`.
#[verifier::external_body]
pub(crate) fn reg_eax() -> (r: AsmRegister32) {
    iced_x86::code_asm::registers::gpr32::eax
}

/// The assembler's register `ecx`.
#[verifier::external_body]
pub(crate) fn reg_ecx() -> (r: AsmRegister32) {
    iced_x86::code_asm::registers::gpr32::ecx
}

/// The assembler's register `edx`.
#[verifier::external_body]
pub(crate) fn reg_edx() -> (r: AsmRegister32) {
    iced_x86::code_asm::registers::gpr32::edx
}

/// The assembler's register `ebx`.
#[verifier::external_body]
pub(crate) fn reg_ebx() -> (r: AsmRegister32) {
    iced_x86::code_asm::registers::gpr32::ebx
}

/// The assembler's register `esi`.
#[verifier::external_body]
pub(crate) fn reg_esi() -> (r: AsmRegister32) {
    iced_x86::code_asm::registers::gpr32::esi
}

/// The assembler's register `edi`.
#[verifier::external_body]
pub(crate) fn reg_edi() -> (r: AsmRegister32) {
    iced_x86::code_asm::registers::gpr32::edi
}

/// The assembler's register `esp`.
#[verifier::external_body]
pub(crate) fn reg_esp() -> (r: AsmRegister32) {
    iced_x86::code_asm::registers::gpr32::esp
}

/// The assembler's register `ebp`.
#[verifier::external_body]
pub(crate) fn reg_ebp() -> (r: AsmRegister32) {
    iced_x86::code_asm::registers::gpr32::ebp
}

/// The assembler's register `r8d`.
#[verifier::external_body]
pub(crate) fn reg_r8d() -> (r: AsmRegister32) {
    iced_x86::code_asm::registers::gpr32::r8d
}

/// The assembler's register `r9d`.
#[verifier::external_body]
pub(crate) fn reg_r9d() -> (r: AsmRegister32) {
    iced_x86::code_asm::registers::gpr32::r9d
}

/// The assembler's register `r10d`.
#[verifier::external_body]
pub(crate) fn reg_r10d() -> (r: AsmRegister32) {
    iced_x86::code_asm::registers::gpr32::r10d
}

/// The assembler's register `r11d`.
#[verifier::external_body]
pub(crate) fn reg_r11d() -> (r: AsmRegister32) {
    iced_x86::code_asm::registers::gpr32::r11d
}

/// The assembler's register `r12d`.
#[verifier::external_body]
pub(crate) fn reg_r12d() -> (r: AsmRegister32) {
    iced_x86::code_asm::registers::gpr32::r12d
}

/// The assembler's register `r13d`.
#[verifier::external_body]
pub(crate) fn reg_r13d() -> (r: AsmRegister32) {
    iced_x86::code_asm::registers::gpr32::r13d
}

/// The assembler's register `r14d`.
#[verifier::external_body]
pub(crate) fn reg_r14d() -> (r: AsmRegister32) {
    iced_x86::code_asm::registers::gpr32::r14d
}

/// The assembler's register `r15d`.
#[verifier::external_body]
pub(crate) fn reg_r15d() -> (r: AsmRegister32) {
    iced_x86::code_asm::registers::gpr32::r15d
}

/// The assembler's register `ax`.
#[verifier::external_body]
pub(crate) fn reg_ax() -> (r: AsmRegister16) {
    iced_x86::code_asm::registers::gpr16::ax
}

/// The assembler's register `cx`.
#[verifier::external_body]
pub(crate) fn reg_cx() -> (r: AsmRegister16) {
    iced_x86::code_asm::registers::gpr16::cx
}

/// The assembler's register `dx`.
#[verifier::external_body]
pub(crate) fn reg_dx() -> (r: AsmRegister16) {
    iced_x86::code_asm::registers::gpr16::dx
}

/// The assembler's register `bx`.
#[verifier::external_body]
pub(crate) fn reg_bx() -> (r: AsmRegister16) {
    iced_x86::code_asm::registers::gpr16::bx
}

/// The assembler's register `si`.
#[verifier::external_body]
pub(crate) fn reg_si() -> (r: AsmRegister16) {
    iced_x86::code_asm::registers::gpr16::si
}

/// The assembler's register `di`.
#[verifier::external_body]
pub(crate) fn reg_di() -> (r: AsmRegister16) {
    iced_x86::code_asm::registers::gpr16::di
}

/// The assembler's register `sp`.
#[verifier::external_body]
pub(crate) fn reg_sp() -> (r: AsmRegister16) {
    iced_x86::code_asm::registers::gpr16::sp
}

/// The assembler's register `bp`.
#[verifier::external_body]
pub(crate) fn reg_bp() -> (r: AsmRegister16) {
    iced_x86::code_asm::registers::gpr16::bp
}

/// The assembler's register `r8w`.
#[verifier::external_body]
pub(crate) fn reg_r8w() -> (r: AsmRegister16) {
    iced_x86::code_asm::registers::gpr16::r8w
}

/// The assembler's register `r9w`.
#[verifier::external_body]
pub(crate) fn reg_r9w() -> (r: AsmRegister16) {
    iced_x86::code_asm::registers::gpr16::r9w
}

/// The assembler's register `r10w`.
#[verifier::external_body]
pub(crate) fn reg_r10w() -> (r: AsmRegister16) {
    iced_x86::code_asm::registers::gpr16::r10w
}

/// The assembler's register `r11w`.
#[verifier::external_body]
pub(crate) fn reg_r11w() -> (r: AsmRegister16) {
    iced_x86::code_asm::registers::gpr16::r11w
}

/// The assembler's register `r12w`.
#[verifier::external_body]
pub(crate) fn reg_r12w() -> (r: AsmRegister16) {
    iced_x86::code_asm::registers::gpr16::r12w
}

/// The assembler's register `r13w`.
#[verifier::external_body]
pub(crate) fn reg_r13w() -> (r: AsmRegister16) {
    iced_x86::code_asm::registers::gpr16::r13w
}

/// The assembler's register `r14w`.
#[verifier::external_body]
pub(crate) fn reg_r14w() -> (r: AsmRegister16) {
    iced_x86::code_asm::registers::gpr16::r14w
}

/// The assembler's register `r15w`.
#[verifier::external_body]
pub(crate) fn reg_r15w() -> (r: AsmRegister16) {
    iced_x86::code_asm::registers::gpr16::r15w
}

/// The assembler's register `al`.
#[verifier::external_body]
pub(crate) fn reg_al() -> (r: AsmRegister8) {
    iced_x86::code_asm::registers::gpr8::al
}

/// The assembler's register `cl`.
#[verifier::external_body]
pub(crate) fn reg_cl() -> (r: AsmRegister8) {
    iced_x86::code_asm::registers::gpr8::cl
}

/// The assembler's register `dl`.
#[verifier::external_body]
pub(crate) fn reg_dl() -> (r: AsmRegister8) {
    iced_x86::code_asm::registers::gpr8::dl
}

/// The assembler's register `bl`.
#[verifier::external_body]
pub(crate) fn reg_bl() -> (r: AsmRegister8) {
    iced_x86::code_asm::registers::gpr8::bl
}

/// The assembler's register `sil`.
#[verifier::external_body]
pub(crate) fn reg_sil() -> (r: AsmRegister8) {
    iced_x86::code_asm::registers::gpr8::sil
}

/// The assembler's register `dil`.
#[verifier::external_body]
pub(crate) fn reg_dil() -> (r: AsmRegister8) {
    iced_x86::code_asm::registers::gpr8::dil
}

/// The assembler's register `spl`.
#[verifier::external_body]
pub(crate) fn reg_spl() -> (r: AsmRegister8) {
    iced_x86::code_asm::registers::gpr8::spl
}

/// The assembler's register `bpl`.
#[verifier::external_body]
pub(crate) fn reg_bpl() -> (r: AsmRegister8) {
    iced_x86::code_asm::registers::gpr8::bpl
}

/// The assembler's register `r8b`.
#[verifier::external_body]
pub(crate) fn reg_r8b() -> (r: AsmRegister8) {
    iced_x86::code_asm::registers::gpr8::r8b
}

/// The assembler's register `r9b`.
#[verifier::external_body]
pub(crate) fn reg_r9b() -> (r: AsmRegister8) {
    iced_x86::code_asm::registers::gpr8::r9b
}

/// The assembler's register `r10b`.
#[verifier::external_body]
pub(crate) fn reg_r10b() -> (r: AsmRegister8) {
    iced_x86::code_asm::registers::gpr8::r10b
}

/// The assembler's register `r11b`.
#[verifier::external_body]
pub(crate) fn reg_r11b() -> (r: AsmRegister8) {
    iced_x86::code_asm::registers::gpr8::r11b
}

/// The assembler's register `r12b`.
#[verifier::external_body]
pub(crate) fn reg_r12b() -> (r: AsmRegister8) {
    iced_x86::code_asm::registers::gpr8::r12b
}

/// The assembler's register `r13b`.
#[verifier::external_body]
pub(crate) fn reg_r13b() -> (r: AsmRegister8) {
    iced_x86::code_asm::registers::gpr8::r13b
}

/// The assembler's register `r14b`.
#[verifier::external_body]
pub(crate) fn reg_r14b() -> (r: AsmRegister8) {
    iced_x86::code_asm::registers::gpr8::r14b
}

/// The assembler's register `r15b`.
#[verifier::external_body]
pub(crate) fn reg_r15b() -> (r: AsmRegister8) {
    iced_x86::code_asm::registers::gpr8::r15b
}

/// The assembler's register `xmm0`.
#[verifier::external_body]
pub(crate) fn reg_xmm0() -> (r: AsmRegisterXmm) {
    iced_x86::code_asm::registers::xmm::xmm0
}

/// The assembler's register `xmm8`.
#[verifier::external_body]
pub(crate) fn reg_xmm8() -> (r: AsmRegisterXmm) {
    iced_x86::code_asm::registers::xmm::xmm8
}

/// The assembler's register `xmm1`.
#[verifier::external_body]
pub(crate) fn reg_xmm1() -> (r: AsmRegisterXmm) {
    iced_x86::code_asm::registers::xmm::xmm1
}

/// The assembler's register `xmm2`.
#[verifier::external_body]
pub(crate) fn reg_xmm2() -> (r: AsmRegisterXmm) {
    iced_x86::code_asm::registers::xmm::xmm2
}

/// The assembler's register `xmm3`.
#[verifier::external_body]
pub(crate) fn reg_xmm3() -> (r: AsmRegisterXmm) {
    iced_x86::code_asm::registers::xmm::xmm3
}

/// The assembler's register `xmm4`.
#[verifier::external_body]
pub(crate) fn reg_xmm4() -> (r: AsmRegisterXmm) {
    iced_x86::code_asm::registers::xmm::xmm4
}

/// The assembler's register `xmm5`.
#[verifier::external_body]
pub(crate) fn reg_xmm5() -> (r: AsmRegisterXmm) {
    iced_x86::code_asm::registers::xmm::xmm5
}

/// The assembler's register `xmm6`.
#[verifier::external_body]
pub(crate) fn reg_xmm6() -> (r: AsmRegisterXmm) {
    iced_x86::code_asm::registers::xmm::xmm6
}

/// The assembler's register `xmm7`.
#[verifier::external_body]
pub(crate) fn reg_xmm7() -> (r: AsmRegisterXmm) {
    iced_x86::code_asm::registers::xmm::xmm7
}

/// `CodeAssembler::nop` for `nop`; nothing is stated of the outcome.
#[verifier::external_body]
pub(crate) fn asm_nop(assembler: &mut CodeAssembler) -> (r: Result<(), IcedError>) {
    assembler.nop()
}

/// `CodeAssembler::ret` for `ret`; nothing is stated of the outcome.
#[verifier::external_body]
pub(crate) fn asm_ret(assembler: &mut CodeAssembler) -> (r: Result<(), IcedError>) {
    assembler.ret()
}

/// `CodeAssembler::cqo` for `cqo`; nothing is stated of the outcome.
#[verifier::external_body]
pub(crate) fn asm_cqo(assembler: &mut CodeAssembler) -> (r: Result<(), IcedError>) {
    assembler.cqo()
}

/// `CodeAssembler::jmp` for `jmp to a block`; nothing is stated of the outcome.
#[verifier::external_body]
pub(crate) fn asm_jmp_label(assembler: &mut CodeAssembler, target: CodeLabel) -> (r: Result<(), IcedError>) {
    assembler.jmp(target)
}

/// `CodeAssembler::je` for `je to a block`; nothing is stated of the outcome.
#[verifier::external_body]
pub(crate) fn asm_je_label(assembler: &mut CodeAssembler, target: CodeLabel) -> (r: Result<(), IcedError>) {
    assembler.je(target)
}

/// `CodeAssembler::jne` for `jne to a block`; nothing is stated of the outcome.
#[verifier::external_body]
pub(crate) fn asm_jne_label(assembler: &mut CodeAssembler, target: CodeLabel) -> (r: Result<(), IcedError>) {
    assembler.jne(target)
}

/// `CodeAssembler::jmp` for `indirect jmp through a qword in memory`; nothing is stated of the outcome.
#[verifier::external_body]
pub(crate) fn asm_jmp_qword_mem(assembler: &mut CodeAssembler, mem: AsmMemoryOperand) -> (r: Result<(), IcedError>) {
    assembler.jmp(mem)
}

/// `CodeAssembler::shrd` for `shrd r64, r64, imm`; nothing is stated of the outcome.
#[verifier::external_body]
pub(crate) fn asm_shrd_r64_r64_i32(assembler: &mut CodeAssembler, lo: AsmRegister64, hi: AsmRegister64, amount: i32) -> (r: Result<(), IcedError>) {
    assembler.shrd(lo, hi, amount)
}

/// `CodeAssembler::seta` for `seta r8`; nothing is stated of the outcome.
#[verifier::external_body]
pub(crate) fn asm_seta_r8(assembler: &mut CodeAssembler, dst: AsmRegister8) -> (r: Result<(), IcedError>) {
    assembler.seta(dst)
}

/// `CodeAssembler::setg` for `setg r8`; nothing is stated of the outcome.
#[verifier::external_body]
pub(crate) fn asm_setg_r8(assembler: &mut CodeAssembler, dst: AsmRegister8) -> (r: Result<(), IcedError>) {
    assembler.setg(dst)
}

/// `CodeAssembler::setae` for `setae r8`; nothing is stated of the outcome.
#[verifier::external_body]
pub(crate) fn asm_setae_r8(assembler: &mut CodeAssembler, dst: AsmRegister8) -> (r: Result<(), IcedError>) {
    assembler.setae(dst)
}

/// `CodeAssembler::sete` for `sete r8`; nothing is stated of the outcome.
#[verifier::external_body]
pub(crate) fn asm_sete_r8(assembler: &mut CodeAssembler, dst: AsmRegister8) -> (r: Result<(), IcedError>) {
    assembler.sete(dst)
}

/// `CodeAssembler::sete` for `sete m8`; nothing is stated of the outcome.
#[verifier::external_body]
pub(crate) fn asm_sete_mem(assembler: &mut CodeAssembler, mem: AsmMemoryOperand) -> (r: Result<(), IcedError>) {
    assembler.sete(mem)
}

/// `CodeAssembler::seto` for `seto r8`; nothing is stated of the outcome.
#[verifier::external_body]
pub(crate) fn asm_seto_r8(assembler: &mut CodeAssembler, dst: AsmRegister8) -> (r: Result<(), IcedError>) {
    assembler.seto(dst)
}

/// `CodeAssembler::seto` for `seto m8`; nothing is stated of the outcome.
#[verifier::external_body]
pub(crate) fn asm_seto_mem(assembler: &mut CodeAssembler, mem: AsmMemoryOperand) -> (r: Result<(), IcedError>) {
    assembler.seto(mem)
}

/// `CodeAssembler::setc` for `setc r8`; nothing is stated of the outcome.
#[verifier::external_body]
pub(crate) fn asm_setc_r8(assembler: &mut CodeAssembler, dst: AsmRegister8) -> (r: Result<(), IcedError>) {
    assembler.setc(dst)
}

/// `CodeAssembler::setc` for `setc m8`; nothing is stated of the outcome.
#[verifier::external_body]
pub(crate) fn asm_setc_mem(assembler: &mut CodeAssembler, mem: AsmMemoryOperand) -> (r: Result<(), IcedError>) {
    assembler.setc(mem)
}

/// `CodeAssembler::sets` for `sets r8`; nothing is stated of the outcome.
#[verifier::external_body]
pub(crate) fn asm_sets_r8(assembler: &mut CodeAssembler, dst: AsmRegister8) -> (r: Result<(), IcedError>) {
    assembler.sets(dst)
}

/// `CodeAssembler::sets` for `sets m8`; nothing is stated of the outcome.
#[verifier::external_body]
pub(crate) fn asm_sets_mem(assembler: &mut CodeAssembler, mem: AsmMemoryOperand) -> (r: Result<(), IcedError>) {
    assembler.sets(mem)
}

/// `CodeAssembler::setge` for `setge r8`; nothing is stated of the outcome.
#[verifier::external_body]
pub(crate) fn asm_setge_r8(assembler: &mut CodeAssembler, dst: AsmRegister8) -> (r: Result<(), IcedError>) {
    assembler.setge(dst)
}

/// `CodeAssembler::setne` for `setne r8`; nothing is stated of the outcome.
#[verifier::external_body]
pub(crate) fn asm_setne_r8(assembler: &mut CodeAssembler, dst: AsmRegister8) -> (r: Result<(), IcedError>) {
    assembler.setne(dst)
}

/// `CodeAssembler::setnz` for `setnz r8`; nothing is stated of the outcome.
#[verifier::external_body]
pub(crate) fn asm_setnz_r8(assembler: &mut CodeAssembler, dst: AsmRegister8) -> (r: Result<(), IcedError>) {
    assembler.setnz(dst)
}

/// `CodeAssembler::setbe` for `setbe r8`; nothing is stated of the outcome.
#[verifier::external_body]
pub(crate) fn asm_setbe_r8(assembler: &mut CodeAssembler, dst: AsmRegister8) -> (r: Result<(), IcedError>) {
    assembler.setbe(dst)
}

/// `CodeAssembler::setle` for `setle r8`; nothing is stated of the outcome.
#[verifier::external_body]
pub(crate) fn asm_setle_r8(assembler: &mut CodeAssembler, dst: AsmRegister8) -> (r: Result<(), IcedError>) {
    assembler.setle(dst)
}

/// `CodeAssembler::setl` for `setl r8`; nothing is stated of the outcome.
#[verifier::external_body]
pub(crate) fn asm_setl_r8(assembler: &mut CodeAssembler, dst: AsmRegister8) -> (r: Result<(), IcedError>) {
    assembler.setl(dst)
}

/// `CodeAssembler::neg` for `neg r64`; nothing is stated of the outcome.
#[verifier::external_body]
pub(crate) fn asm_neg_r64(assembler: &mut CodeAssembler, value: AsmRegister64) -> (r: Result<(), IcedError>) {
    assembler.neg(value)
}

/// `CodeAssembler::sar` for `sar r64, r8`; nothing is stated of the outcome.
#[verifier::external_body]
pub(crate) fn asm_sar_r64_cl(assembler: &mut CodeAssembler, value: AsmRegister64, amount: AsmRegister8) -> (r: Result<(), IcedError>) {
    assembler.sar(value, amount)
}

/// `CodeAssembler::sar` for `sar r32, r8`; nothing is stated of the outcome.
#[verifier::external_body]
pub(crate) fn asm_sar_r32_cl(assembler: &mut CodeAssembler, value: AsmRegister32, amount: AsmRegister8) -> (r: Result<(), IcedError>) {
    assembler.sar(value, amount)
}

/// `CodeAssembler::sar` for `sar r64, imm`; nothing is stated of the outcome.
#[verifier::external_body]
pub(crate) fn asm_sar_r64_i32(assembler: &mut CodeAssembler, value: AsmRegister64, amount: i32) -> (r: Result<(), IcedError>) {
    assembler.sar(value, amount)
}

/// `CodeAssembler::sar` for `sar r32, imm`; nothing is stated of the outcome.
#[verifier::external_body]
pub(crate) fn asm_sar_r32_i32(assembler: &mut CodeAssembler, value: AsmRegister32, amount: i32) -> (r: Result<(), IcedError>) {
    assembler.sar(value, amount)
}

/// `CodeAssembler::bextr` for `bextr r64, r64, r64`; nothing is stated of the outcome.
#[verifier::external_body]
pub(crate) fn asm_bextr_r64(assembler: &mut CodeAssembler, dst: AsmRegister64, src: AsmRegister64, ctrl: AsmRegister64) -> (r: Result<(), IcedError>) {
    assembler.bextr(dst, src, ctrl)
}

/// `CodeAssembler::int` for `int imm`; nothing is stated of the outcome.
#[verifier::external_body]
pub(crate) fn asm_int(assembler: &mut CodeAssembler, n: i32) -> (r: Result<(), IcedError>) {
    assembler.int(n)
}

/// `CodeAssembler::push` for `push r64`; nothing is stated of the outcome.
#[verifier::external_body]
pub(crate) fn asm_push_r64(assembler: &mut CodeAssembler, src: AsmRegister64) -> (r: Result<(), IcedError>) {
    assembler.push(src)
}

/// `CodeAssembler::pop` for `pop r64`; nothing is stated of the outcome.
#[verifier::external_body]
pub(crate) fn asm_pop_r64(assembler: &mut CodeAssembler, dst: AsmRegister64) -> (r: Result<(), IcedError>) {
    assembler.pop(dst)
}

/// `CodeAssembler::cmove` for `cmove r64, r64`; nothing is stated of the outcome.
#[verifier::external_body]
pub(crate) fn asm_cmove_r64_r64(assembler: &mut CodeAssembler, dst: AsmRegister64, src: AsmRegister64) -> (r: Result<(), IcedError>) {
    assembler.cmove(dst, src)
}

/// `CodeAssembler::cmovne` for `cmovne r64, r64`; nothing is stated of the outcome.
#[verifier::external_body]
pub(crate) fn asm_cmovne_r64_r64(assembler: &mut CodeAssembler, dst: AsmRegister64, src: AsmRegister64) -> (r: Result<(), IcedError>) {
    assembler.cmovne(dst, src)
}

/// `CodeAssembler::cmovne` for `cmovne r32, r32`; nothing is stated of the outcome.
#[verifier::external_body]
pub(crate) fn asm_cmovne_r32_r32(assembler: &mut CodeAssembler, dst: AsmRegister32, src: AsmRegister32) -> (r: Result<(), IcedError>) {
    assembler.cmovne(dst, src)
}

/// `CodeAssembler::cmovne` for `cmovne r16, r16`; nothing is stated of the outcome.
#[verifier::external_body]
pub(crate) fn asm_cmovne_r16_r16(assembler: &mut CodeAssembler, dst: AsmRegister16, src: AsmRegister16) -> (r: Result<(), IcedError>) {
    assembler.cmovne(dst, src)
}

/// `CodeAssembler::mulpd` for `mulpd xmm, xmm`; nothing is stated of the outcome.
#[verifier::external_body]
pub(crate) fn asm_mulpd(assembler: &mut CodeAssembler, dst: AsmRegisterXmm, src: AsmRegisterXmm) -> (r: Result<(), IcedError>) {
    assembler.mulpd(dst, src)
}

/// `CodeAssembler::mulps` for `mulps xmm, xmm`; nothing is stated of the outcome.
#[verifier::external_body]
pub(crate) fn asm_mulps(assembler: &mut CodeAssembler, dst: AsmRegisterXmm, src: AsmRegisterXmm) -> (r: Result<(), IcedError>) {
    assembler.mulps(dst, src)
}

/// `CodeAssembler::addpd` for `addpd xmm, xmm`; nothing is stated of the outcome.
#[verifier::external_body]
pub(crate) fn asm_addpd(assembler: &mut CodeAssembler, dst: AsmRegisterXmm, src: AsmRegisterXmm) -> (r: Result<(), IcedError>) {
    assembler.addpd(dst, src)
}

/// `CodeAssembler::subpd` for `subpd xmm, xmm`; nothing is stated of the outcome.
#[verifier::external_body]
pub(crate) fn asm_subpd(assembler: &mut CodeAssembler, dst: AsmRegisterXmm, src: AsmRegisterXmm) -> (r: Result<(), IcedError>) {
    assembler.subpd(dst, src)
}

/// `CodeAssembler::divpd` for `divpd xmm, xmm`; nothing is stated of the outcome.
#[verifier::external_body]
pub(crate) fn asm_divpd(assembler: &mut CodeAssembler, dst: AsmRegisterXmm, src: AsmRegisterXmm) -> (r: Result<(), IcedError>) {
    assembler.divpd(dst, src)
}

/// `CodeAssembler::divps` for `divps xmm, xmm`; nothing is stated of the outcome.
#[verifier::external_body]
pub(crate) fn asm_divps(assembler: &mut CodeAssembler, dst: AsmRegisterXmm, src: AsmRegisterXmm) -> (r: Result<(), IcedError>) {
    assembler.divps(dst, src)
}

/// `CodeAssembler::subps` for `subps xmm, xmm`; nothing is stated of the outcome.
#[verifier::external_body]
pub(crate) fn asm_subps(assembler: &mut CodeAssembler, dst: AsmRegisterXmm, src: AsmRegisterXmm) -> (r: Result<(), IcedError>) {
    assembler.subps(dst, src)
}

/// `CodeAssembler::imul_3` for `imul r64, r64, imm`; nothing is stated of the outcome.
#[verifier::external_body]
pub(crate) fn asm_imul3_r64_i32(assembler: &mut CodeAssembler, dst: AsmRegister64, src: AsmRegister64, imm: i32) -> (r: Result<(), IcedError>) {
    assembler.imul_3(dst, src, imm)
}

/// `CodeAssembler::imul_2` for `imul r64, r64`; nothing is stated of the outcome.
#[verifier::external_body]
pub(crate) fn asm_imul2_r64_r64(assembler: &mut CodeAssembler, dst: AsmRegister64, src: AsmRegister64) -> (r: Result<(), IcedError>) {
    assembler.imul_2(dst, src)
}

/// `CodeAssembler::mul` for `mul r64 (into rdx:rax)`; nothing is stated of the outcome.
#[verifier::external_body]
pub(crate) fn asm_mul_r64(assembler: &mut CodeAssembler, src: AsmRegister64) -> (r: Result<(), IcedError>) {
    assembler.mul(src)
}

/// `CodeAssembler::imul` for `imul r64 (into rdx:rax)`; nothing is stated of the outcome.
#[verifier::external_body]
pub(crate) fn asm_imul_r64(assembler: &mut CodeAssembler, src: AsmRegister64) -> (r: Result<(), IcedError>) {
    assembler.imul(src)
}

/// `CodeAssembler::idiv` for `idiv r64`; nothing is stated of the outcome.
#[verifier::external_body]
pub(crate) fn asm_idiv_r64(assembler: &mut CodeAssembler, divisor: AsmRegister64) -> (r: Result<(), IcedError>) {
    assembler.idiv(divisor)
}

/// `CodeAssembler::div` for `div r64`; nothing is stated of the outcome.
#[verifier::external_body]
pub(crate) fn asm_div_r64(assembler: &mut CodeAssembler, divisor: AsmRegister64) -> (r: Result<(), IcedError>) {
    assembler.div(divisor)
}

/// `CodeAssembler::call` for `call r64`; nothing is stated of the outcome.
#[verifier::external_body]
pub(crate) fn asm_call_r64(assembler: &mut CodeAssembler, target: AsmRegister64) -> (r: Result<(), IcedError>) {
    assembler.call(target)
}

/// `CodeAssembler::out` for `out imm, r8`; nothing is stated of the outcome.
#[verifier::external_body]
pub(crate) fn asm_out_i32_r8(assembler: &mut CodeAssembler, port: i32, value: AsmRegister8) -> (r: Result<(), IcedError>) {
    assembler.out(port, value)
}

/// `CodeAssembler::pinsrw` for `pinsrw xmm, r32, imm`; nothing is stated of the outcome.
#[verifier::external_body]
pub(crate) fn asm_pinsrw(assembler: &mut CodeAssembler, dst: AsmRegisterXmm, src: AsmRegister32, index: i32) -> (r: Result<(), IcedError>) {
    assembler.pinsrw(dst, src, index)
}

/// `CodeAssembler::pinsrd` for `pinsrd xmm, r32, imm`; nothing is stated of the outcome.
#[verifier::external_body]
pub(crate) fn asm_pinsrd(assembler: &mut CodeAssembler, dst: AsmRegisterXmm, src: AsmRegister32, index: i32) -> (r: Result<(), IcedError>) {
    assembler.pinsrd(dst, src, index)
}

/// `CodeAssembler::pinsrq` for `pinsrq xmm, r64, imm`; nothing is stated of the outcome.
#[verifier::external_body]
pub(crate) fn asm_pinsrq(assembler: &mut CodeAssembler, dst: AsmRegisterXmm, src: AsmRegister64, index: i32) -> (r: Result<(), IcedError>) {
    assembler.pinsrq(dst, src, index)
}

/// `CodeAssembler::pinsrb` for `pinsrb xmm, r32, imm`; nothing is stated of the outcome.
#[verifier::external_body]
pub(crate) fn asm_pinsrb(assembler: &mut CodeAssembler, dst: AsmRegisterXmm, src: AsmRegister32, index: i32) -> (r: Result<(), IcedError>) {
    assembler.pinsrb(dst, src, index)
}

/// `CodeAssembler::pextrq` for `pextrq r64, xmm, imm`; nothing is stated of the outcome.
#[verifier::external_body]
pub(crate) fn asm_pextrq(assembler: &mut CodeAssembler, dst: AsmRegister64, src: AsmRegisterXmm, index: i32) -> (r: Result<(), IcedError>) {
    assembler.pextrq(dst, src, index)
}

/// `CodeAssembler::punpcklqdq` for `punpcklqdq xmm, xmm`; nothing is stated of the outcome.
#[verifier::external_body]
pub(crate) fn asm_punpcklqdq(assembler: &mut CodeAssembler, dst: AsmRegisterXmm, src: AsmRegisterXmm) -> (r: Result<(), IcedError>) {
    assembler.punpcklqdq(dst, src)
}

/// `CodeAssembler::punpcklwd` for `punpcklwd xmm, xmm`; nothing is stated of the outcome.
#[verifier::external_body]
pub(crate) fn asm_punpcklwd(assembler: &mut CodeAssembler, dst: AsmRegisterXmm, src: AsmRegisterXmm) -> (r: Result<(), IcedError>) {
    assembler.punpcklwd(dst, src)
}

/// `CodeAssembler::pshuflw` for `pshuflw xmm, xmm, imm`; nothing is stated of the outcome.
#[verifier::external_body]
pub(crate) fn asm_pshuflw(assembler: &mut CodeAssembler, dst: AsmRegisterXmm, src: AsmRegisterXmm, select: i32) -> (r: Result<(), IcedError>) {
    assembler.pshuflw(dst, src, select)
}

/// `CodeAssembler::cmpxchg` for `cmpxchg m64, r64`; nothing is stated of the outcome.
#[verifier::external_body]
pub(crate) fn asm_cmpxchg_qword_r64(assembler: &mut CodeAssembler, mem: AsmMemoryOperand, src: AsmRegister64) -> (r: Result<(), IcedError>) {
    assembler.cmpxchg(mem, src)
}

/// `CodeAssembler::cmpxchg` for `cmpxchg m32, r32`; nothing is stated of the outcome.
#[verifier::external_body]
pub(crate) fn asm_cmpxchg_dword_r32(assembler: &mut CodeAssembler, mem: AsmMemoryOperand, src: AsmRegister32) -> (r: Result<(), IcedError>) {
    assembler.cmpxchg(mem, src)
}

/// `CodeAssembler::cmpxchg` for `cmpxchg m8, r8`; nothing is stated of the outcome.
#[verifier::external_body]
pub(crate) fn asm_cmpxchg_byte_r8(assembler: &mut CodeAssembler, mem: AsmMemoryOperand, src: AsmRegister8) -> (r: Result<(), IcedError>) {
    assembler.cmpxchg(mem, src)
}

/// `CodeAssembler::inc` for `inc m64`; nothing is stated of the outcome.
#[verifier::external_body]
pub(crate) fn asm_inc_qword_mem(assembler: &mut CodeAssembler, mem: AsmMemoryOperand) -> (r: Result<(), IcedError>) {
    assembler.inc(mem)
}

/// `CodeAssembler::cvtsi2sd` for `cvtsi2sd xmm, r64`; nothing is stated of the outcome.
#[verifier::external_body]
pub(crate) fn asm_cvtsi2sd_r64(assembler: &mut CodeAssembler, dst: AsmRegisterXmm, src: AsmRegister64) -> (r: Result<(), IcedError>) {
    assembler.cvtsi2sd(dst, src)
}

/// `CodeAssembler::cvtsi2sd` for `cvtsi2sd xmm, r32`; nothing is stated of the outcome.
#[verifier::external_body]
pub(crate) fn asm_cvtsi2sd_r32(assembler: &mut CodeAssembler, dst: AsmRegisterXmm, src: AsmRegister32) -> (r: Result<(), IcedError>) {
    assembler.cvtsi2sd(dst, src)
}

/// `CodeAssembler::cvtsi2ss` for `cvtsi2ss xmm, r32`; nothing is stated of the outcome.
#[verifier::external_body]
pub(crate) fn asm_cvtsi2ss_r32(assembler: &mut CodeAssembler, dst: AsmRegisterXmm, src: AsmRegister32) -> (r: Result<(), IcedError>) {
    assembler.cvtsi2ss(dst, src)
}

/// `CodeAssembler::cvtsi2ss` for `cvtsi2ss xmm, r64`; nothing is stated of the outcome.
#[verifier::external_body]
pub(crate) fn asm_cvtsi2ss_r64(assembler: &mut CodeAssembler, dst: AsmRegisterXmm, src: AsmRegister64) -> (r: Result<(), IcedError>) {
    assembler.cvtsi2ss(dst, src)
}

/// `CodeAssembler::cvtsd2si` for `cvtsd2si r32, xmm`; nothing is stated of the outcome.
#[verifier::external_body]
pub(crate) fn asm_cvtsd2si_r32(assembler: &mut CodeAssembler, dst: AsmRegister32, src: AsmRegisterXmm) -> (r: Result<(), IcedError>) {
    assembler.cvtsd2si(dst, src)
}

/// `CodeAssembler::cvtss2sd` for `cvtss2sd xmm, xmm`; nothing is stated of the outcome.
#[verifier::external_body]
pub(crate) fn asm_cvtss2sd(assembler: &mut CodeAssembler, dst: AsmRegisterXmm, src: AsmRegisterXmm) -> (r: Result<(), IcedError>) {
    assembler.cvtss2sd(dst, src)
}

/// `CodeAssembler::cvtsd2ss` for `cvtsd2ss xmm, xmm`; nothing is stated of the outcome.
#[verifier::external_body]
pub(crate) fn asm_cvtsd2ss(assembler: &mut CodeAssembler, dst: AsmRegisterXmm, src: AsmRegisterXmm) -> (r: Result<(), IcedError>) {
    assembler.cvtsd2ss(dst, src)
}

/// `CodeAssembler::cmppd` for `cmppd xmm, xmm, imm`; nothing is stated of the outcome.
#[verifier::external_body]
pub(crate) fn asm_cmppd(assembler: &mut CodeAssembler, dst: AsmRegisterXmm, src: AsmRegisterXmm, predicate: i32) -> (r: Result<(), IcedError>) {
    assembler.cmppd(dst, src, predicate)
}

/// `CodeAssembler::mov` for `mov r64, r64`; nothing is stated of the outcome.
#[verifier::external_body]
pub(crate) fn asm_mov_r64_r64(assembler: &mut CodeAssembler, dst: AsmRegister64, src: AsmRegister64) -> (r: Result<(), IcedError>) {
    assembler.mov(dst, src)
}

/// `CodeAssembler::mov` for `mov r32, r32`; nothing is stated of the outcome.
#[verifier::external_body]
pub(crate) fn asm_mov_r32_r32(assembler: &mut CodeAssembler, dst: AsmRegister32, src: AsmRegister32) -> (r: Result<(), IcedError>) {
    assembler.mov(dst, src)
}

/// `CodeAssembler::mov` for `mov r16, r16`; nothing is stated of the outcome.
#[verifier::external_body]
pub(crate) fn asm_mov_r16_r16(assembler: &mut CodeAssembler, dst: AsmRegister16, src: AsmRegister16) -> (r: Result<(), IcedError>) {
    assembler.mov(dst, src)
}

/// `CodeAssembler::mov` for `mov r8, r8`; nothing is stated of the outcome.
#[verifier::external_body]
pub(crate) fn asm_mov_r8_r8(assembler: &mut CodeAssembler, dst: AsmRegister8, src: AsmRegister8) -> (r: Result<(), IcedError>) {
    assembler.mov(dst, src)
}

/// `CodeAssembler::movdqa` for `movdqa xmm, xmm`; nothing is stated of the outcome.
#[verifier::external_body]
pub(crate) fn asm_movdqa(assembler: &mut CodeAssembler, dst: AsmRegisterXmm, src: AsmRegisterXmm) -> (r: Result<(), IcedError>) {
    assembler.movdqa(dst, src)
}

/// `CodeAssembler::movq` for `movq xmm, xmm`; nothing is stated of the outcome.
#[verifier::external_body]
pub(crate) fn asm_movq_x_x(assembler: &mut CodeAssembler, dst: AsmRegisterXmm, src: AsmRegisterXmm) -> (r: Result<(), IcedError>) {
    assembler.movq(dst, src)
}

/// `CodeAssembler::mov` for `mov r64, m64`; nothing is stated of the outcome.
#[verifier::external_body]
pub(crate) fn asm_mov_r64_mem(assembler: &mut CodeAssembler, dst: AsmRegister64, mem: AsmMemoryOperand) -> (r: Result<(), IcedError>) {
    assembler.mov(dst, mem)
}

/// `CodeAssembler::mov` for `mov r32, m32`; nothing is stated of the outcome.
#[verifier::external_body]
pub(crate) fn asm_mov_r32_mem(assembler: &mut CodeAssembler, dst: AsmRegister32, mem: AsmMemoryOperand) -> (r: Result<(), IcedError>) {
    assembler.mov(dst, mem)
}

/// `CodeAssembler::mov` for `mov r16, m16`; nothing is stated of the outcome.
#[verifier::external_body]
pub(crate) fn asm_mov_r16_mem(assembler: &mut CodeAssembler, dst: AsmRegister16, mem: AsmMemoryOperand) -> (r: Result<(), IcedError>) {
    assembler.mov(dst, mem)
}

/// `CodeAssembler::mov` for `mov r8, m8`; nothing is stated of the outcome.
#[verifier::external_body]
pub(crate) fn asm_mov_r8_mem(assembler: &mut CodeAssembler, dst: AsmRegister8, mem: AsmMemoryOperand) -> (r: Result<(), IcedError>) {
    assembler.mov(dst, mem)
}

/// `CodeAssembler::mov` for `mov m64, r64`; nothing is stated of the outcome.
#[verifier::external_body]
pub(crate) fn asm_mov_mem_r64(assembler: &mut CodeAssembler, mem: AsmMemoryOperand, src: AsmRegister64) -> (r: Result<(), IcedError>) {
    assembler.mov(mem, src)
}

/// `CodeAssembler::mov` for `mov m32, r32`; nothing is stated of the outcome.
#[verifier::external_body]
pub(crate) fn asm_mov_mem_r32(assembler: &mut CodeAssembler, mem: AsmMemoryOperand, src: AsmRegister32) -> (r: Result<(), IcedError>) {
    assembler.mov(mem, src)
}

/// `CodeAssembler::mov` for `mov m16, r16`; nothing is stated of the outcome.
#[verifier::external_body]
pub(crate) fn asm_mov_mem_r16(assembler: &mut CodeAssembler, mem: AsmMemoryOperand, src: AsmRegister16) -> (r: Result<(), IcedError>) {
    assembler.mov(mem, src)
}

/// `CodeAssembler::mov` for `mov m8, r8`; nothing is stated of the outcome.
#[verifier::external_body]
pub(crate) fn asm_mov_mem_r8(assembler: &mut CodeAssembler, mem: AsmMemoryOperand, src: AsmRegister8) -> (r: Result<(), IcedError>) {
    assembler.mov(mem, src)
}

/// `CodeAssembler::mov` for `mov dword [m], imm`; nothing is stated of the outcome.
#[verifier::external_body]
pub(crate) fn asm_mov_dword_mem_i32(assembler: &mut CodeAssembler, mem: AsmMemoryOperand, imm: i32) -> (r: Result<(), IcedError>) {
    assembler.mov(mem, imm)
}

/// `CodeAssembler::mov` for `mov dword [m], imm`; nothing is stated of the outcome.
#[verifier::external_body]
pub(crate) fn asm_mov_dword_mem_u32(assembler: &mut CodeAssembler, mem: AsmMemoryOperand, imm: u32) -> (r: Result<(), IcedError>) {
    assembler.mov(mem, imm)
}

/// `CodeAssembler::mov` for `mov word [m], imm`; nothing is stated of the outcome.
#[verifier::external_body]
pub(crate) fn asm_mov_word_mem_u32(assembler: &mut CodeAssembler, mem: AsmMemoryOperand, imm: u32) -> (r: Result<(), IcedError>) {
    assembler.mov(mem, imm)
}

/// `CodeAssembler::mov` for `mov byte [m], imm`; nothing is stated of the outcome.
#[verifier::external_body]
pub(crate) fn asm_mov_byte_mem_u32(assembler: &mut CodeAssembler, mem: AsmMemoryOperand, imm: u32) -> (r: Result<(), IcedError>) {
    assembler.mov(mem, imm)
}

/// `CodeAssembler::mov` for `mov r8, imm`; nothing is stated of the outcome.
#[verifier::external_body]
pub(crate) fn asm_mov_r8_i32(assembler: &mut CodeAssembler, dst: AsmRegister8, imm: i32) -> (r: Result<(), IcedError>) {
    assembler.mov(dst, imm)
}

/// `CodeAssembler::mov` for `mov r16, imm`; nothing is stated of the outcome.
#[verifier::external_body]
pub(crate) fn asm_mov_r16_i32(assembler: &mut CodeAssembler, dst: AsmRegister16, imm: i32) -> (r: Result<(), IcedError>) {
    assembler.mov(dst, imm)
}

/// `CodeAssembler::mov` for `mov r32, imm`; nothing is stated of the outcome.
#[verifier::external_body]
pub(crate) fn asm_mov_r32_i32(assembler: &mut CodeAssembler, dst: AsmRegister32, imm: i32) -> (r: Result<(), IcedError>) {
    assembler.mov(dst, imm)
}

/// `CodeAssembler::mov` for `mov r32, imm`; nothing is stated of the outcome.
#[verifier::external_body]
pub(crate) fn asm_mov_r32_u32(assembler: &mut CodeAssembler, dst: AsmRegister32, imm: u32) -> (r: Result<(), IcedError>) {
    assembler.mov(dst, imm)
}

/// `CodeAssembler::mov` for `mov r64, imm64`; nothing is stated of the outcome.
#[verifier::external_body]
pub(crate) fn asm_mov_r64_u64(assembler: &mut CodeAssembler, dst: AsmRegister64, imm: u64) -> (r: Result<(), IcedError>) {
    assembler.mov(dst, imm)
}

/// `CodeAssembler::movdqu` for `movdqu xmm, m128`; nothing is stated of the outcome.
#[verifier::external_body]
pub(crate) fn asm_movdqu_x_mem(assembler: &mut CodeAssembler, dst: AsmRegisterXmm, mem: AsmMemoryOperand) -> (r: Result<(), IcedError>) {
    assembler.movdqu(dst, mem)
}

/// `CodeAssembler::movdqu` for `movdqu m128, xmm`; nothing is stated of the outcome.
#[verifier::external_body]
pub(crate) fn asm_movdqu_mem_x(assembler: &mut CodeAssembler, mem: AsmMemoryOperand, src: AsmRegisterXmm) -> (r: Result<(), IcedError>) {
    assembler.movdqu(mem, src)
}

/// `CodeAssembler::movd` for `movd r32, xmm`; nothing is stated of the outcome.
#[verifier::external_body]
pub(crate) fn asm_movd_r32_x(assembler: &mut CodeAssembler, dst: AsmRegister32, src: AsmRegisterXmm) -> (r: Result<(), IcedError>) {
    assembler.movd(dst, src)
}

/// `CodeAssembler::movd` for `movd xmm, r32`; nothing is stated of the outcome.
#[verifier::external_body]
pub(crate) fn asm_movd_x_r32(assembler: &mut CodeAssembler, dst: AsmRegisterXmm, src: AsmRegister32) -> (r: Result<(), IcedError>) {
    assembler.movd(dst, src)
}

/// `CodeAssembler::movq` for `movq xmm, r64`; nothing is stated of the outcome.
#[verifier::external_body]
pub(crate) fn asm_movq_x_r64(assembler: &mut CodeAssembler, dst: AsmRegisterXmm, src: AsmRegister64) -> (r: Result<(), IcedError>) {
    assembler.movq(dst, src)
}

/// `CodeAssembler::movq` for `movq r64, xmm`; nothing is stated of the outcome.
#[verifier::external_body]
pub(crate) fn asm_movq_r64_x(assembler: &mut CodeAssembler, dst: AsmRegister64, src: AsmRegisterXmm) -> (r: Result<(), IcedError>) {
    assembler.movq(dst, src)
}

/// `CodeAssembler::movq` for `movq xmm, m64`; nothing is stated of the outcome.
#[verifier::external_body]
pub(crate) fn asm_movq_x_mem(assembler: &mut CodeAssembler, dst: AsmRegisterXmm, mem: AsmMemoryOperand) -> (r: Result<(), IcedError>) {
    assembler.movq(dst, mem)
}

/// `CodeAssembler::movzx` for `movzx r32, r8`; nothing is stated of the outcome.
#[verifier::external_body]
pub(crate) fn asm_movzx_r32_r8(assembler: &mut CodeAssembler, dst: AsmRegister32, src: AsmRegister8) -> (r: Result<(), IcedError>) {
    assembler.movzx(dst, src)
}

/// `CodeAssembler::movzx` for `movzx r64, r8`; nothing is stated of the outcome.
#[verifier::external_body]
pub(crate) fn asm_movzx_r64_r8(assembler: &mut CodeAssembler, dst: AsmRegister64, src: AsmRegister8) -> (r: Result<(), IcedError>) {
    assembler.movzx(dst, src)
}

/// `CodeAssembler::movzx` for `movzx r16, r8`; nothing is stated of the outcome.
#[verifier::external_body]
pub(crate) fn asm_movzx_r16_r8(assembler: &mut CodeAssembler, dst: AsmRegister16, src: AsmRegister8) -> (r: Result<(), IcedError>) {
    assembler.movzx(dst, src)
}

/// `CodeAssembler::movzx` for `movzx r32, r16`; nothing is stated of the outcome.
#[verifier::external_body]
pub(crate) fn asm_movzx_r32_r16(assembler: &mut CodeAssembler, dst: AsmRegister32, src: AsmRegister16) -> (r: Result<(), IcedError>) {
    assembler.movzx(dst, src)
}

/// `CodeAssembler::movzx` for `movzx r64, r16`; nothing is stated of the outcome.
#[verifier::external_body]
pub(crate) fn asm_movzx_r64_r16(assembler: &mut CodeAssembler, dst: AsmRegister64, src: AsmRegister16) -> (r: Result<(), IcedError>) {
    assembler.movzx(dst, src)
}

/// `CodeAssembler::xor` for `xor r64, r64`; nothing is stated of the outcome.
#[verifier::external_body]
pub(crate) fn asm_xor_r64_r64(assembler: &mut CodeAssembler, dst: AsmRegister64, src: AsmRegister64) -> (r: Result<(), IcedError>) {
    assembler.xor(dst, src)
}

/// `CodeAssembler::xor` for `xor r32, r32`; nothing is stated of the outcome.
#[verifier::external_body]
pub(crate) fn asm_xor_r32_r32(assembler: &mut CodeAssembler, dst: AsmRegister32, src: AsmRegister32) -> (r: Result<(), IcedError>) {
    assembler.xor(dst, src)
}

/// `CodeAssembler::xor` for `xor r16, r16`; nothing is stated of the outcome.
#[verifier::external_body]
pub(crate) fn asm_xor_r16_r16(assembler: &mut CodeAssembler, dst: AsmRegister16, src: AsmRegister16) -> (r: Result<(), IcedError>) {
    assembler.xor(dst, src)
}

/// `CodeAssembler::xor` for `xor r8, r8`; nothing is stated of the outcome.
#[verifier::external_body]
pub(crate) fn asm_xor_r8_r8(assembler: &mut CodeAssembler, dst: AsmRegister8, src: AsmRegister8) -> (r: Result<(), IcedError>) {
    assembler.xor(dst, src)
}

/// `CodeAssembler::xor` for `xor r64, imm`; nothing is stated of the outcome.
#[verifier::external_body]
pub(crate) fn asm_xor_r64_i32(assembler: &mut CodeAssembler, dst: AsmRegister64, imm: i32) -> (r: Result<(), IcedError>) {
    assembler.xor(dst, imm)
}

/// `CodeAssembler::xor` for `xor r32, imm`; nothing is stated of the outcome.
#[verifier::external_body]
pub(crate) fn asm_xor_r32_u32(assembler: &mut CodeAssembler, dst: AsmRegister32, imm: u32) -> (r: Result<(), IcedError>) {
    assembler.xor(dst, imm)
}

/// `CodeAssembler::pxor` for `pxor xmm, xmm`; nothing is stated of the outcome.
#[verifier::external_body]
pub(crate) fn asm_pxor(assembler: &mut CodeAssembler, dst: AsmRegisterXmm, src: AsmRegisterXmm) -> (r: Result<(), IcedError>) {
    assembler.pxor(dst, src)
}

/// `CodeAssembler::or` for `or r8, imm`; nothing is stated of the outcome.
#[verifier::external_body]
pub(crate) fn asm_or_r8_i32(assembler: &mut CodeAssembler, dst: AsmRegister8, imm: i32) -> (r: Result<(), IcedError>) {
    assembler.or(dst, imm)
}

/// `CodeAssembler::or` for `or r32, imm`; nothing is stated of the outcome.
#[verifier::external_body]
pub(crate) fn asm_or_r32_i32(assembler: &mut CodeAssembler, dst: AsmRegister32, imm: i32) -> (r: Result<(), IcedError>) {
    assembler.or(dst, imm)
}

/// `CodeAssembler::or` for `or r32, imm`; nothing is stated of the outcome.
#[verifier::external_body]
pub(crate) fn asm_or_r32_u32(assembler: &mut CodeAssembler, dst: AsmRegister32, imm: u32) -> (r: Result<(), IcedError>) {
    assembler.or(dst, imm)
}

/// `CodeAssembler::or` for `or r64, imm`; nothing is stated of the outcome.
#[verifier::external_body]
pub(crate) fn asm_or_r64_i32(assembler: &mut CodeAssembler, dst: AsmRegister64, imm: i32) -> (r: Result<(), IcedError>) {
    assembler.or(dst, imm)
}

/// `CodeAssembler::or` for `or r8, r8`; nothing is stated of the outcome.
#[verifier::external_body]
pub(crate) fn asm_or_r8_r8(assembler: &mut CodeAssembler, dst: AsmRegister8, src: AsmRegister8) -> (r: Result<(), IcedError>) {
    assembler.or(dst, src)
}

/// `CodeAssembler::or` for `or r16, r16`; nothing is stated of the outcome.
#[verifier::external_body]
pub(crate) fn asm_or_r16_r16(assembler: &mut CodeAssembler, dst: AsmRegister16, src: AsmRegister16) -> (r: Result<(), IcedError>) {
    assembler.or(dst, src)
}

/// `CodeAssembler::or` for `or r32, r32`; nothing is stated of the outcome.
#[verifier::external_body]
pub(crate) fn asm_or_r32_r32(assembler: &mut CodeAssembler, dst: AsmRegister32, src: AsmRegister32) -> (r: Result<(), IcedError>) {
    assembler.or(dst, src)
}

/// `CodeAssembler::or` for `or r64, r64`; nothing is stated of the outcome.
#[verifier::external_body]
pub(crate) fn asm_or_r64_r64(assembler: &mut CodeAssembler, dst: AsmRegister64, src: AsmRegister64) -> (r: Result<(), IcedError>) {
    assembler.or(dst, src)
}

/// `CodeAssembler::por` for `por xmm, xmm`; nothing is stated of the outcome.
#[verifier::external_body]
pub(crate) fn asm_por(assembler: &mut CodeAssembler, dst: AsmRegisterXmm, src: AsmRegisterXmm) -> (r: Result<(), IcedError>) {
    assembler.por(dst, src)
}

/// `CodeAssembler::shl` for `shl r8, imm`; nothing is stated of the outcome.
#[verifier::external_body]
pub(crate) fn asm_shl_r8_u32(assembler: &mut CodeAssembler, value: AsmRegister8, amount: u32) -> (r: Result<(), IcedError>) {
    assembler.shl(value, amount)
}

/// `CodeAssembler::shl` for `shl r16, imm`; nothing is stated of the outcome.
#[verifier::external_body]
pub(crate) fn asm_shl_r16_u32(assembler: &mut CodeAssembler, value: AsmRegister16, amount: u32) -> (r: Result<(), IcedError>) {
    assembler.shl(value, amount)
}

/// `CodeAssembler::shl` for `shl r32, imm`; nothing is stated of the outcome.
#[verifier::external_body]
pub(crate) fn asm_shl_r32_u32(assembler: &mut CodeAssembler, value: AsmRegister32, amount: u32) -> (r: Result<(), IcedError>) {
    assembler.shl(value, amount)
}

/// `CodeAssembler::shl` for `shl r64, imm`; nothing is stated of the outcome.
#[verifier::external_body]
pub(crate) fn asm_shl_r64_u32(assembler: &mut CodeAssembler, value: AsmRegister64, amount: u32) -> (r: Result<(), IcedError>) {
    assembler.shl(value, amount)
}

/// `CodeAssembler::shl` for `shl r64, r8`; nothing is stated of the outcome.
#[verifier::external_body]
pub(crate) fn asm_shl_r64_cl(assembler: &mut CodeAssembler, value: AsmRegister64, amount: AsmRegister8) -> (r: Result<(), IcedError>) {
    assembler.shl(value, amount)
}

/// `CodeAssembler::shl` for `shl r32, r8`; nothing is stated of the outcome.
#[verifier::external_body]
pub(crate) fn asm_shl_r32_cl(assembler: &mut CodeAssembler, value: AsmRegister32, amount: AsmRegister8) -> (r: Result<(), IcedError>) {
    assembler.shl(value, amount)
}

/// `CodeAssembler::pslldq` for `pslldq xmm, imm`; nothing is stated of the outcome.
#[verifier::external_body]
pub(crate) fn asm_pslldq(assembler: &mut CodeAssembler, value: AsmRegisterXmm, bytes: u32) -> (r: Result<(), IcedError>) {
    assembler.pslldq(value, bytes)
}

/// `CodeAssembler::add` for `add r64, r64`; nothing is stated of the outcome.
#[verifier::external_body]
pub(crate) fn asm_add_r64_r64(assembler: &mut CodeAssembler, dst: AsmRegister64, src: AsmRegister64) -> (r: Result<(), IcedError>) {
    assembler.add(dst, src)
}

/// `CodeAssembler::add` for `add r32, r32`; nothing is stated of the outcome.
#[verifier::external_body]
pub(crate) fn asm_add_r32_r32(assembler: &mut CodeAssembler, dst: AsmRegister32, src: AsmRegister32) -> (r: Result<(), IcedError>) {
    assembler.add(dst, src)
}

/// `CodeAssembler::add` for `add r16, r16`; nothing is stated of the outcome.
#[verifier::external_body]
pub(crate) fn asm_add_r16_r16(assembler: &mut CodeAssembler, dst: AsmRegister16, src: AsmRegister16) -> (r: Result<(), IcedError>) {
    assembler.add(dst, src)
}

/// `CodeAssembler::add` for `add r8, r8`; nothing is stated of the outcome.
#[verifier::external_body]
pub(crate) fn asm_add_r8_r8(assembler: &mut CodeAssembler, dst: AsmRegister8, src: AsmRegister8) -> (r: Result<(), IcedError>) {
    assembler.add(dst, src)
}

/// `CodeAssembler::add` for `add r64, imm`; nothing is stated of the outcome.
#[verifier::external_body]
pub(crate) fn asm_add_r64_i32(assembler: &mut CodeAssembler, dst: AsmRegister64, imm: i32) -> (r: Result<(), IcedError>) {
    assembler.add(dst, imm)
}

/// `CodeAssembler::add` for `add r32, imm`; nothing is stated of the outcome.
#[verifier::external_body]
pub(crate) fn asm_add_r32_i32(assembler: &mut CodeAssembler, dst: AsmRegister32, imm: i32) -> (r: Result<(), IcedError>) {
    assembler.add(dst, imm)
}

/// `CodeAssembler::add` for `add qword [m], imm`; nothing is stated of the outcome.
#[verifier::external_body]
pub(crate) fn asm_add_qword_mem_i32(assembler: &mut CodeAssembler, mem: AsmMemoryOperand, imm: i32) -> (r: Result<(), IcedError>) {
    assembler.add(mem, imm)
}

/// `CodeAssembler::not` for `not r64`; nothing is stated of the outcome.
#[verifier::external_body]
pub(crate) fn asm_not_r64(assembler: &mut CodeAssembler, value: AsmRegister64) -> (r: Result<(), IcedError>) {
    assembler.not(value)
}

/// `CodeAssembler::not` for `not r32`; nothing is stated of the outcome.
#[verifier::external_body]
pub(crate) fn asm_not_r32(assembler: &mut CodeAssembler, value: AsmRegister32) -> (r: Result<(), IcedError>) {
    assembler.not(value)
}

/// `CodeAssembler::not` for `not r16`; nothing is stated of the outcome.
#[verifier::external_body]
pub(crate) fn asm_not_r16(assembler: &mut CodeAssembler, value: AsmRegister16) -> (r: Result<(), IcedError>) {
    assembler.not(value)
}

/// `CodeAssembler::not` for `not r8`; nothing is stated of the outcome.
#[verifier::external_body]
pub(crate) fn asm_not_r8(assembler: &mut CodeAssembler, value: AsmRegister8) -> (r: Result<(), IcedError>) {
    assembler.not(value)
}

/// `CodeAssembler::pcmpeqd` for `pcmpeqd xmm, xmm`; nothing is stated of the outcome.
#[verifier::external_body]
pub(crate) fn asm_pcmpeqd(assembler: &mut CodeAssembler, dst: AsmRegisterXmm, src: AsmRegisterXmm) -> (r: Result<(), IcedError>) {
    assembler.pcmpeqd(dst, src)
}

} // verus!
