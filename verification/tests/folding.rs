use brig::checked::{try_binary, try_constant, try_unary};
use brig::emitter::EmitError;
use brig::fold::{constant, fold_add, fold_and, fold_mul, fold_or, fold_sub, fold_xor};
use brig::ir::{BinaryOperationKind, NodeKind, Type, UnaryOperationKind, X86NodeRef};
use brig::unary::read_register;

fn value_of(n: &X86NodeRef) -> Option<u64> {
    match n.kind() {
        NodeKind::Constant { value, .. } => Some(*value),
        _ => None,
    }
}

fn u64c(v: u64) -> X86NodeRef {
    constant(v, Type::Unsigned(64))
}

#[test]
fn add_of_constants_wraps() {
    assert_eq!(value_of(&fold_add(u64c(2), u64c(3))), Some(5));
    assert_eq!(value_of(&fold_add(u64c(u64::MAX), u64c(2))), Some(1));
}

#[test]
fn add_of_zero_keeps_other_operand() {
    let reg = read_register(0x10, Type::Unsigned(64));
    let sum = fold_add(u64c(0), reg.clone());
    assert!(matches!(sum.kind(), NodeKind::GuestRegister { offset: 0x10 }));
    let sum = fold_add(read_register(0x18, Type::Unsigned(64)), u64c(0));
    assert!(matches!(sum.kind(), NodeKind::GuestRegister { offset: 0x18 }));
}

#[test]
fn add_of_register_is_an_operation() {
    let reg = read_register(0x10, Type::Unsigned(64));
    let sum = fold_add(reg, u64c(7));
    assert!(matches!(sum.kind(), NodeKind::BinaryOperation(BinaryOperationKind::Add(..))));
    assert_eq!(sum.typ(), Type::Unsigned(64));
}

#[test]
fn sub_mul_and_or_xor_of_constants() {
    assert_eq!(value_of(&fold_sub(u64c(3), u64c(5))), Some(u64::MAX - 1));
    assert_eq!(value_of(&fold_mul(u64c(6), u64c(7))), Some(42));
    assert_eq!(value_of(&fold_and(u64c(0b1100), u64c(0b1010))), Some(0b1000));
    assert_eq!(value_of(&fold_or(u64c(0b1100), u64c(0b1010))), Some(0b1110));
    assert_eq!(value_of(&fold_xor(u64c(0b1100), u64c(0b1010))), Some(0b0110));
}

#[test]
fn and_with_zero_is_zero() {
    let reg = read_register(0x20, Type::Unsigned(32));
    let r = fold_and(reg, constant(0, Type::Unsigned(32)));
    assert_eq!(value_of(&r), Some(0));
}

#[test]
fn mul_by_one_keeps_other_operand() {
    let reg = read_register(0x20, Type::Unsigned(64));
    let r = fold_mul(u64c(1), reg);
    assert!(matches!(r.kind(), NodeKind::GuestRegister { offset: 0x20 }));
}

#[test]
fn compare_of_constants_unsigned_and_signed() {
    let lt = try_binary(BinaryOperationKind::CompareLessThan(u64c(1), u64c(u64::MAX))).unwrap();
    assert_eq!(value_of(&lt), Some(1));
    let s = |v: u64| constant(v, Type::Signed(64));
    let lt = try_binary(BinaryOperationKind::CompareLessThan(s(1), s(u64::MAX))).unwrap();
    assert_eq!(value_of(&lt), Some(0));
    let eq = try_binary(BinaryOperationKind::CompareEqual(u64c(9), u64c(9))).unwrap();
    assert_eq!(value_of(&eq), Some(1));
}

#[test]
fn zero_width_constant_is_refused() {
    assert!(matches!(try_constant(1, Type::Tuple), Err(EmitError::Unsupported)));
    assert!(try_constant(1, Type::Unsigned(8)).is_ok());
}

#[test]
fn not_of_a_register_builds_a_node() {
    let reg = read_register(0x8, Type::Unsigned(1));
    let n = try_unary(UnaryOperationKind::Not(reg)).unwrap();
    assert!(matches!(n.kind(), NodeKind::UnaryOperation(UnaryOperationKind::Not(_))));
}
