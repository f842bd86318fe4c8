//! Searches of an expression graph for the operations whose flags or carry
//! a value depends on.
use vstd::prelude::*;
use crate::ir::{BinaryOperationKind, NodeKind, NodeList, TernaryOperationKind, UnaryOperationKind, X86NodeRef};

verus! {

/// The operand of a unary operation.
pub open spec fn unary_operand(op: UnaryOperationKind) -> X86NodeRef {
    match op {
        UnaryOperationKind::Not(a) => a,
        UnaryOperationKind::Negate(a) => a,
        UnaryOperationKind::Complement(a) => a,
        UnaryOperationKind::Power2(a) => a,
        UnaryOperationKind::Absolute(a) => a,
        UnaryOperationKind::Ceil(a) => a,
        UnaryOperationKind::Floor(a) => a,
        UnaryOperationKind::SquareRoot(a) => a,
    }
}

fn operand_of(op: &UnaryOperationKind) -> (r: &X86NodeRef)
    ensures
        *r == unary_operand(*op),
{
    match op {
        UnaryOperationKind::Not(a)
        | UnaryOperationKind::Negate(a)
        | UnaryOperationKind::Complement(a)
        | UnaryOperationKind::Power2(a)
        | UnaryOperationKind::Absolute(a)
        | UnaryOperationKind::Ceil(a)
        | UnaryOperationKind::Floor(a)
        | UnaryOperationKind::SquareRoot(a) => a,
    }
}

/// The first of two searches that finds something, searching the second
/// only where the first found nothing; `None` where a search that ran is
/// not defined.
pub open spec fn first_found(
    a: Option<Option<X86NodeRef>>,
    b: Option<Option<X86NodeRef>>,
) -> Option<Option<X86NodeRef>> {
    match a {
        None => None,
        Some(Some(x)) => Some(Some(x)),
        Some(None) => b,
    }
}

/// The operation whose flags `n` reads, searching operands left to right:
/// `Some(Some(op))` for the first `GetFlags` of `op` found, `Some(None)`
/// where there is none, and `None` where the search meets a node it does
/// not look into (a ternary operation, a bit insertion or replication, a
/// rational, a call's result or a function pointer) before finding one.
pub open spec fn flags_source(n: X86NodeRef) -> Option<Option<X86NodeRef>>
    decreases n,
{
    match n.0.kind {
        NodeKind::GetFlags { operation } => Some(Some(operation)),
        NodeKind::Constant { .. } => Some(None),
        NodeKind::GuestRegister { .. } => Some(None),
        NodeKind::Operand(_) => Some(None),
        NodeKind::ReadStackVariable { .. } => Some(None),
        NodeKind::UnaryOperation(op) => flags_source_unary(op),
        NodeKind::Cast { value, .. } => flags_source(value),
        NodeKind::Select { condition, .. } => flags_source(condition),
        NodeKind::BinaryOperation(op) => flags_source_binary(op),
        NodeKind::Shift { value, amount, .. } => first_found(flags_source(value), flags_source(amount)),
        NodeKind::BitExtract { value, .. } => flags_source(value),
        NodeKind::Tuple(values) => flags_source_list(values),
        _ => None,
    }
}

/// [`flags_source`] of the operand of a unary operation.
pub open spec fn flags_source_unary(op: UnaryOperationKind) -> Option<Option<X86NodeRef>>
    decreases op,
{
    match op {
        UnaryOperationKind::Not(a) => flags_source(a),
        UnaryOperationKind::Negate(a) => flags_source(a),
        UnaryOperationKind::Complement(a) => flags_source(a),
        UnaryOperationKind::Power2(a) => flags_source(a),
        UnaryOperationKind::Absolute(a) => flags_source(a),
        UnaryOperationKind::Ceil(a) => flags_source(a),
        UnaryOperationKind::Floor(a) => flags_source(a),
        UnaryOperationKind::SquareRoot(a) => flags_source(a),
    }
}

/// [`flags_source`] of the operands of a binary operation, left first.
pub open spec fn flags_source_binary(op: BinaryOperationKind) -> Option<Option<X86NodeRef>>
    decreases op,
{
    match op {
        BinaryOperationKind::Add(a, b) => first_found(flags_source(a), flags_source(b)),
        BinaryOperationKind::Sub(a, b) => first_found(flags_source(a), flags_source(b)),
        BinaryOperationKind::Multiply(a, b) => first_found(flags_source(a), flags_source(b)),
        BinaryOperationKind::Divide(a, b) => first_found(flags_source(a), flags_source(b)),
        BinaryOperationKind::Modulo(a, b) => first_found(flags_source(a), flags_source(b)),
        BinaryOperationKind::And(a, b) => first_found(flags_source(a), flags_source(b)),
        BinaryOperationKind::Or(a, b) => first_found(flags_source(a), flags_source(b)),
        BinaryOperationKind::Xor(a, b) => first_found(flags_source(a), flags_source(b)),
        BinaryOperationKind::PowI(a, b) => first_found(flags_source(a), flags_source(b)),
        BinaryOperationKind::CompareEqual(a, b) => first_found(flags_source(a), flags_source(b)),
        BinaryOperationKind::CompareNotEqual(a, b) => first_found(flags_source(a), flags_source(b)),
        BinaryOperationKind::CompareLessThan(a, b) => first_found(flags_source(a), flags_source(b)),
        BinaryOperationKind::CompareLessThanOrEqual(a, b) => first_found(flags_source(a), flags_source(b)),
        BinaryOperationKind::CompareGreaterThan(a, b) => first_found(flags_source(a), flags_source(b)),
        BinaryOperationKind::CompareGreaterThanOrEqual(a, b) => first_found(flags_source(a), flags_source(b)),
    }
}

/// [`flags_source`] of the elements of a tuple, first element first.
pub open spec fn flags_source_list(l: NodeList) -> Option<Option<X86NodeRef>>
    decreases l,
{
    match l {
        NodeList::Nil => Some(None),
        NodeList::Cons(h, t) => first_found(flags_source(h), flags_source_list(*t)),
    }
}

/// The add-with-carry operation `n` depends on, searching operands left to
/// right: `Some(Some(op))` for the first found, `Some(None)` where there is
/// none, and `None` where the search meets a bit insertion, a bit
/// replication or a call's result before finding one.
pub open spec fn carry_source(n: X86NodeRef) -> Option<Option<X86NodeRef>>
    decreases n,
{
    match n.0.kind {
        NodeKind::TernaryOperation(TernaryOperationKind::AddWithCarry(..)) => Some(Some(n)),
        NodeKind::Constant { .. } => Some(None),
        NodeKind::GuestRegister { .. } => Some(None),
        NodeKind::Operand(_) => Some(None),
        NodeKind::ReadStackVariable { .. } => Some(None),
        NodeKind::FunctionPointer(_) => Some(None),
        NodeKind::UnaryOperation(op) => carry_source_unary(op),
        NodeKind::GetFlags { operation } => carry_source(operation),
        NodeKind::Cast { value, .. } => carry_source(value),
        NodeKind::Select { condition, .. } => carry_source(condition),
        NodeKind::BinaryOperation(op) => carry_source_binary(op),
        NodeKind::Shift { value, amount, .. } => first_found(carry_source(value), carry_source(amount)),
        NodeKind::Real { numerator, denominator } => first_found(carry_source(numerator), carry_source(denominator)),
        NodeKind::BitExtract { value, .. } => carry_source(value),
        NodeKind::Tuple(values) => carry_source_list(values),
        _ => None,
    }
}

/// [`carry_source`] of the operand of a unary operation.
pub open spec fn carry_source_unary(op: UnaryOperationKind) -> Option<Option<X86NodeRef>>
    decreases op,
{
    match op {
        UnaryOperationKind::Not(a) => carry_source(a),
        UnaryOperationKind::Negate(a) => carry_source(a),
        UnaryOperationKind::Complement(a) => carry_source(a),
        UnaryOperationKind::Power2(a) => carry_source(a),
        UnaryOperationKind::Absolute(a) => carry_source(a),
        UnaryOperationKind::Ceil(a) => carry_source(a),
        UnaryOperationKind::Floor(a) => carry_source(a),
        UnaryOperationKind::SquareRoot(a) => carry_source(a),
    }
}

/// [`carry_source`] of the operands of a binary operation, left first.
pub open spec fn carry_source_binary(op: BinaryOperationKind) -> Option<Option<X86NodeRef>>
    decreases op,
{
    match op {
        BinaryOperationKind::Add(a, b) => first_found(carry_source(a), carry_source(b)),
        BinaryOperationKind::Sub(a, b) => first_found(carry_source(a), carry_source(b)),
        BinaryOperationKind::Multiply(a, b) => first_found(carry_source(a), carry_source(b)),
        BinaryOperationKind::Divide(a, b) => first_found(carry_source(a), carry_source(b)),
        BinaryOperationKind::Modulo(a, b) => first_found(carry_source(a), carry_source(b)),
        BinaryOperationKind::And(a, b) => first_found(carry_source(a), carry_source(b)),
        BinaryOperationKind::Or(a, b) => first_found(carry_source(a), carry_source(b)),
        BinaryOperationKind::Xor(a, b) => first_found(carry_source(a), carry_source(b)),
        BinaryOperationKind::PowI(a, b) => first_found(carry_source(a), carry_source(b)),
        BinaryOperationKind::CompareEqual(a, b) => first_found(carry_source(a), carry_source(b)),
        BinaryOperationKind::CompareNotEqual(a, b) => first_found(carry_source(a), carry_source(b)),
        BinaryOperationKind::CompareLessThan(a, b) => first_found(carry_source(a), carry_source(b)),
        BinaryOperationKind::CompareLessThanOrEqual(a, b) => first_found(carry_source(a), carry_source(b)),
        BinaryOperationKind::CompareGreaterThan(a, b) => first_found(carry_source(a), carry_source(b)),
        BinaryOperationKind::CompareGreaterThanOrEqual(a, b) => first_found(carry_source(a), carry_source(b)),
    }
}

/// [`carry_source`] of the elements of a tuple, first element first.
pub open spec fn carry_source_list(l: NodeList) -> Option<Option<X86NodeRef>>
    decreases l,
{
    match l {
        NodeList::Nil => Some(None),
        NodeList::Cons(h, t) => first_found(carry_source(h), carry_source_list(*t)),
    }
}

/// The operation whose flags `value` reads: `Ok(Some(op))` for the first
/// `GetFlags` of `op` found searching operands left to right, `Ok(None)`
/// where there is none, and an error where the search meets a node it does
/// not look into (see [`flags_source`]).
pub fn contains_get_flags(value: &X86NodeRef) -> (r: Result<Option<X86NodeRef>, ()>)
    ensures
        r matches Ok(found) ==> flags_source(*value) == Some(found),
        r is Err ==> flags_source(*value) is None,
    decreases *value,
{
    match value.kind() {
        NodeKind::GetFlags { operation } => Ok(Some(operation.dup())),
        NodeKind::Constant { .. } | NodeKind::GuestRegister { .. } | NodeKind::Operand(_)
        | NodeKind::ReadStackVariable { .. } => Ok(None),
        NodeKind::UnaryOperation(op) => {
            let a = operand_of(op);
            let r = contains_get_flags(a);
            proof {
                assert(flags_source_unary(*op) == flags_source(unary_operand(*op)));
            }
            r
        },
        NodeKind::Cast { value: a, .. } | NodeKind::Select { condition: a, .. }
        | NodeKind::BitExtract { value: a, .. } => contains_get_flags(a),
        NodeKind::BinaryOperation(op) => {
            let (a, b) = op.children();
            proof {
                assert(flags_source_binary(*op) == first_found(flags_source(*a), flags_source(*b)));
            }
            match contains_get_flags(a) {
                Err(()) => Err(()),
                Ok(Some(x)) => Ok(Some(x)),
                Ok(None) => contains_get_flags(b),
            }
        },
        NodeKind::Shift { value: a, amount: b, .. } => match contains_get_flags(a) {
            Err(()) => Err(()),
            Ok(Some(x)) => Ok(Some(x)),
            Ok(None) => contains_get_flags(b),
        },
        NodeKind::Tuple(values) => flags_in_list(values),
        _ => Err(()),
    }
}

fn flags_in_list(values: &NodeList) -> (r: Result<Option<X86NodeRef>, ()>)
    ensures
        r matches Ok(found) ==> flags_source_list(*values) == Some(found),
        r is Err ==> flags_source_list(*values) is None,
    decreases *values,
{
    match values {
        NodeList::Nil => Ok(None),
        NodeList::Cons(h, t) => match contains_get_flags(h) {
            Err(()) => Err(()),
            Ok(Some(x)) => Ok(Some(x)),
            Ok(None) => flags_in_list(t),
        },
    }
}

/// The add-with-carry operation `value` depends on: `Ok(Some(op))` for the
/// first found searching operands left to right, `Ok(None)` where there is
/// none, and an error where the search meets a node it does not look into
/// (see [`carry_source`]).
pub fn contains_addwithcarry(value: &X86NodeRef) -> (r: Result<Option<X86NodeRef>, ()>)
    ensures
        r matches Ok(found) ==> carry_source(*value) == Some(found),
        r is Err ==> carry_source(*value) is None,
    decreases *value,
{
    match value.kind() {
        NodeKind::TernaryOperation(TernaryOperationKind::AddWithCarry(..)) => Ok(Some(value.dup())),
        NodeKind::Constant { .. } | NodeKind::GuestRegister { .. } | NodeKind::Operand(_)
        | NodeKind::ReadStackVariable { .. } | NodeKind::FunctionPointer(_) => Ok(None),
        NodeKind::UnaryOperation(op) => {
            let a = operand_of(op);
            let r = contains_addwithcarry(a);
            proof {
                assert(carry_source_unary(*op) == carry_source(unary_operand(*op)));
            }
            r
        },
        NodeKind::GetFlags { operation: a } | NodeKind::Cast { value: a, .. }
        | NodeKind::Select { condition: a, .. } | NodeKind::BitExtract { value: a, .. } => contains_addwithcarry(a),
        NodeKind::BinaryOperation(op) => {
            let (a, b) = op.children();
            proof {
                assert(carry_source_binary(*op) == first_found(carry_source(*a), carry_source(*b)));
            }
            match contains_addwithcarry(a) {
                Err(()) => Err(()),
                Ok(Some(x)) => Ok(Some(x)),
                Ok(None) => contains_addwithcarry(b),
            }
        },
        NodeKind::Shift { value: a, amount: b, .. } | NodeKind::Real { numerator: a, denominator: b } => {
            match contains_addwithcarry(a) {
                Err(()) => Err(()),
                Ok(Some(x)) => Ok(Some(x)),
                Ok(None) => contains_addwithcarry(b),
            }
        },
        NodeKind::Tuple(values) => carry_in_list(values),
        _ => Err(()),
    }
}

fn carry_in_list(values: &NodeList) -> (r: Result<Option<X86NodeRef>, ()>)
    ensures
        r matches Ok(found) ==> carry_source_list(*values) == Some(found),
        r is Err ==> carry_source_list(*values) is None,
    decreases *values,
{
    match values {
        NodeList::Nil => Ok(None),
        NodeList::Cons(h, t) => match contains_addwithcarry(h) {
            Err(()) => Err(()),
            Ok(Some(x)) => Ok(Some(x)),
            Ok(None) => carry_in_list(t),
        },
    }
}

} // verus!
