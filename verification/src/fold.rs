//! Building nodes of the expression graph for two-operand operations,
//! folding constants as they are built.
//!
//! Each operation has a spec function `<op>_node` that says which node is
//! built, and a spec function `<op>_defined` that says on which operands the
//! build is defined (the others are programming errors of the front end).
use vstd::prelude::*;
use vstd::arithmetic::power::pow;
use crate::bits::{mask, mask_spec};
use crate::ir::{BinaryOperationKind, NodeKind, Type, X86Node, X86NodeRef, mk_node};

verus! {

/// The node of the given type and kind.
pub open spec fn node(typ: Type, kind: NodeKind) -> X86NodeRef {
    X86NodeRef(Box::new(X86Node { typ, kind }))
}

/// A constant of the given type; its width is the type's width.
pub open spec fn constant_node(value: u64, typ: Type) -> X86NodeRef {
    node(typ, NodeKind::Constant { value, width: typ.spec_width() })
}

/// A constant node of the given type; zero-width constants do not exist.
pub fn constant(value: u64, typ: Type) -> (r: X86NodeRef)
    requires
        typ.spec_width() != 0,
    ensures
        r == constant_node(value, typ),
{
    let width = typ.width();
    mk_node(typ, NodeKind::Constant { value, width })
}

/// A rational node.
pub open spec fn real_node(numerator: X86NodeRef, denominator: X86NodeRef) -> X86NodeRef {
    node(Type::Real, NodeKind::Real { numerator, denominator })
}

/// Builds a rational node.
pub fn create_real(numerator: X86NodeRef, denominator: X86NodeRef) -> (r: X86NodeRef)
    ensures
        r == real_node(numerator, denominator),
{
    mk_node(Type::Real, NodeKind::Real { numerator, denominator })
}

/// The node computing `op` on its operands, left unfolded.
pub open spec fn op_node(typ: Type, op: BinaryOperationKind) -> X86NodeRef {
    node(typ, NodeKind::BinaryOperation(op))
}

/// The nesting depth of rationals in a node.
pub open spec fn real_depth(n: X86NodeRef) -> nat
    decreases n,
{
    match n.0.kind {
        NodeKind::Real { numerator, denominator } => 1 + max_nat(
            real_depth(numerator),
            real_depth(denominator),
        ),
        _ => 0,
    }
}

/// The larger of two numbers.
pub open spec fn max_nat(a: nat, b: nat) -> nat {
    if a >= b {
        a
    } else {
        b
    }
}

// ---------------------------------------------------------------- add

/// The node an addition is built as: constants are added (wrapping at 64
/// bits) and a constant zero on either side is dropped.
pub open spec fn add_node(l: X86NodeRef, r: X86NodeRef) -> X86NodeRef {
    match (l.0.kind, r.0.kind) {
        (NodeKind::Constant { value: a, width }, NodeKind::Constant { value: b, .. }) => node(
            l.0.typ,
            NodeKind::Constant { value: vstd::wrapping::u64_specs::wrapping_add(a, b), width },
        ),
        (NodeKind::Constant { value: a, .. }, _) => if a == 0 {
            r
        } else {
            op_node(l.0.typ, BinaryOperationKind::Add(l, r))
        },
        (_, NodeKind::Constant { value: b, .. }) => if b == 0 {
            l
        } else {
            op_node(l.0.typ, BinaryOperationKind::Add(l, r))
        },
        _ => op_node(l.0.typ, BinaryOperationKind::Add(l, r)),
    }
}

/// Builds an addition.
pub fn fold_add(l: X86NodeRef, r: X86NodeRef) -> (out: X86NodeRef)
    ensures
        out == add_node(l, r),
{
    let mut keep_left = false;
    let mut keep_right = false;
    match (l.kind(), r.kind()) {
        (NodeKind::Constant { value: a, width }, NodeKind::Constant { value: b, .. }) => {
            let v = a.wrapping_add(*b);
            let w = *width;
            return mk_node(l.typ(), NodeKind::Constant { value: v, width: w });
        },
        (NodeKind::Constant { value: a, .. }, _) => {
            keep_right = *a == 0;
        },
        (_, NodeKind::Constant { value: b, .. }) => {
            keep_left = *b == 0;
        },
        _ => {},
    }
    if keep_right {
        return r;
    }
    if keep_left {
        return l;
    }
    let t = l.typ();
    mk_node(t, NodeKind::BinaryOperation(BinaryOperationKind::Add(l, r)))
}

// ---------------------------------------------------------------- multiply

/// Whether multiplying the two nodes is defined: a product of constants
/// must fit in 64 bits, and so on down through rationals.
pub open spec fn mul_defined(l: X86NodeRef, r: X86NodeRef) -> bool
    decreases real_depth(l) + real_depth(r),
{
    match (l.0.kind, r.0.kind) {
        (NodeKind::Constant { value: a, .. }, NodeKind::Constant { value: b, .. }) => a * b
            <= u64::MAX,
        (NodeKind::Constant { .. }, _) => true,
        (_, NodeKind::Constant { .. }) => true,
        (
            NodeKind::Real { numerator: ln, denominator: ld },
            NodeKind::Real { numerator: rn, denominator: rd },
        ) => mul_defined(ln, rn) && mul_defined(ld, rd),
        _ => true,
    }
}

/// The node a multiplication is built as: constants are multiplied, a
/// constant zero gives zero, a constant one is dropped, and rationals are
/// multiplied numerator by numerator and denominator by denominator.
pub open spec fn mul_node(l: X86NodeRef, r: X86NodeRef) -> X86NodeRef
    decreases real_depth(l) + real_depth(r),
{
    match (l.0.kind, r.0.kind) {
        (NodeKind::Constant { value: a, width }, NodeKind::Constant { value: b, .. }) => node(
            l.0.typ,
            NodeKind::Constant { value: (a * b) as u64, width },
        ),
        (NodeKind::Constant { value: 0, .. }, _) => node(
            r.0.typ,
            NodeKind::Constant { value: 0, width: r.0.typ.spec_width() },
        ),
        (NodeKind::Constant { value: 1, .. }, _) => r,
        (_, NodeKind::Constant { value: 0, .. }) => node(
            l.0.typ,
            NodeKind::Constant { value: 0, width: l.0.typ.spec_width() },
        ),
        (_, NodeKind::Constant { value: 1, .. }) => l,
        (
            NodeKind::Real { numerator: ln, denominator: ld },
            NodeKind::Real { numerator: rn, denominator: rd },
        ) => real_node(mul_node(ln, rn), mul_node(ld, rd)),
        _ => op_node(l.0.typ, BinaryOperationKind::Multiply(l, r)),
    }
}

/// Multiplying never nests rationals deeper than the operands do.
pub proof fn lemma_mul_real_depth(l: X86NodeRef, r: X86NodeRef)
    ensures
        real_depth(mul_node(l, r)) <= max_nat(real_depth(l), real_depth(r)),
    decreases real_depth(l) + real_depth(r),
{
    match (l.0.kind, r.0.kind) {
        (NodeKind::Constant { .. }, NodeKind::Constant { .. }) => {},
        (NodeKind::Constant { value: 0, .. }, _) => {},
        (NodeKind::Constant { value: 1, .. }, _) => {},
        (_, NodeKind::Constant { value: 0, .. }) => {},
        (_, NodeKind::Constant { value: 1, .. }) => {},
        (
            NodeKind::Real { numerator: ln, denominator: ld },
            NodeKind::Real { numerator: rn, denominator: rd },
        ) => {
            lemma_mul_real_depth(ln, rn);
            lemma_mul_real_depth(ld, rd);
        },
        _ => {},
    }
}

/// Builds a multiplication.
pub fn fold_mul(l: X86NodeRef, r: X86NodeRef) -> (out: X86NodeRef)
    requires
        mul_defined(l, r),
    ensures
        out == mul_node(l, r),
    decreases real_depth(l) + real_depth(r),
{
    match (l.kind(), r.kind()) {
        (NodeKind::Constant { value: a, width }, NodeKind::Constant { value: b, .. }) => {
            let v = *a * *b;
            let w = *width;
            return mk_node(l.typ(), NodeKind::Constant { value: v, width: w });
        },
        (NodeKind::Constant { value: 0, .. }, _) => {
            let t = r.typ();
            let w = t.width();
            return mk_node(t, NodeKind::Constant { value: 0, width: w });
        },
        (NodeKind::Constant { value: 1, .. }, _) => {
            return r;
        },
        (_, NodeKind::Constant { value: 0, .. }) => {
            let t = l.typ();
            let w = t.width();
            return mk_node(t, NodeKind::Constant { value: 0, width: w });
        },
        (_, NodeKind::Constant { value: 1, .. }) => {
            return l;
        },
        (
            NodeKind::Real { numerator: ln, denominator: ld },
            NodeKind::Real { numerator: rn, denominator: rd },
        ) => {
            let num = fold_mul(ln.dup(), rn.dup());
            let den = fold_mul(ld.dup(), rd.dup());
            return create_real(num, den);
        },
        _ => {},
    }
    let t = l.typ();
    mk_node(t, NodeKind::BinaryOperation(BinaryOperationKind::Multiply(l, r)))
}

// ---------------------------------------------------------------- subtract

/// Whether building the difference of the two nodes is defined.
pub open spec fn sub_defined(l: X86NodeRef, r: X86NodeRef) -> bool
    decreases max_nat(real_depth(l), real_depth(r)),
{
    match (l.0.kind, r.0.kind) {
        (NodeKind::Constant { .. }, NodeKind::Constant { .. }) => true,
        (
            NodeKind::Real { numerator: ln, denominator: ld },
            NodeKind::Real { numerator: rn, denominator: rd },
        ) => {
            proof {
                lemma_mul_real_depth(ln, rd);
                lemma_mul_real_depth(rn, ld);
            }
            mul_defined(ln, rd) && mul_defined(ld, rd) && mul_defined(rn, ld) && sub_defined(
                mul_node(ln, rd),
                mul_node(rn, ld),
            )
        },
        _ => true,
    }
}

/// The node a subtraction is built as: constants are subtracted (wrapping
/// at 64 bits) and rationals are brought over the common denominator
/// `ld * rd`.
pub open spec fn sub_node(l: X86NodeRef, r: X86NodeRef) -> X86NodeRef
    decreases max_nat(real_depth(l), real_depth(r)),
{
    match (l.0.kind, r.0.kind) {
        (NodeKind::Constant { value: a, width }, NodeKind::Constant { value: b, .. }) => node(
            l.0.typ,
            NodeKind::Constant { value: vstd::wrapping::u64_specs::wrapping_sub(a, b), width },
        ),
        (
            NodeKind::Real { numerator: ln, denominator: ld },
            NodeKind::Real { numerator: rn, denominator: rd },
        ) => {
            proof {
                lemma_mul_real_depth(ln, rd);
                lemma_mul_real_depth(rn, ld);
            }
            real_node(sub_node(mul_node(ln, rd), mul_node(rn, ld)), mul_node(ld, rd))
        },
        _ => op_node(l.0.typ, BinaryOperationKind::Sub(l, r)),
    }
}

/// Builds a subtraction.
pub fn fold_sub(l: X86NodeRef, r: X86NodeRef) -> (out: X86NodeRef)
    requires
        sub_defined(l, r),
    ensures
        out == sub_node(l, r),
    decreases max_nat(real_depth(l), real_depth(r)),
{
    match (l.kind(), r.kind()) {
        (NodeKind::Constant { value: a, width }, NodeKind::Constant { value: b, .. }) => {
            let v = a.wrapping_sub(*b);
            let w = *width;
            return mk_node(l.typ(), NodeKind::Constant { value: v, width: w });
        },
        (
            NodeKind::Real { numerator: ln, denominator: ld },
            NodeKind::Real { numerator: rn, denominator: rd },
        ) => {
            proof {
                lemma_mul_real_depth(*ln, *rd);
                lemma_mul_real_depth(*rn, *ld);
            }
            let left_num = fold_mul(ln.dup(), rd.dup());
            let left_den = fold_mul(ld.dup(), rd.dup());
            let right_num = fold_mul(rn.dup(), ld.dup());
            let diff = fold_sub(left_num, right_num);
            return create_real(diff, left_den);
        },
        _ => {},
    }
    let t = l.typ();
    mk_node(t, NodeKind::BinaryOperation(BinaryOperationKind::Sub(l, r)))
}

// ---------------------------------------------------------------- divide

/// Whether building the quotient is defined: no constant division by zero,
/// and the cross products of rationals must be defined.
pub open spec fn div_defined(l: X86NodeRef, r: X86NodeRef) -> bool {
    match (l.0.kind, r.0.kind) {
        (NodeKind::Constant { .. }, NodeKind::Constant { value: b, .. }) => b != 0,
        (
            NodeKind::Real { numerator: ln, denominator: ld },
            NodeKind::Real { numerator: rn, denominator: rd },
        ) => mul_defined(ln, rd) && mul_defined(ld, rn),
        _ => true,
    }
}

/// The node a division is built as: constants are divided (rounding down)
/// and a quotient of rationals becomes `(ln * rd) / (ld * rn)`.
pub open spec fn div_node(l: X86NodeRef, r: X86NodeRef) -> X86NodeRef {
    match (l.0.kind, r.0.kind) {
        (NodeKind::Constant { value: a, width }, NodeKind::Constant { value: b, .. }) => node(
            l.0.typ,
            NodeKind::Constant { value: a / b, width },
        ),
        (
            NodeKind::Real { numerator: ln, denominator: ld },
            NodeKind::Real { numerator: rn, denominator: rd },
        ) => real_node(mul_node(ln, rd), mul_node(ld, rn)),
        _ => op_node(l.0.typ, BinaryOperationKind::Divide(l, r)),
    }
}

/// Builds a division.
pub fn fold_div(l: X86NodeRef, r: X86NodeRef) -> (out: X86NodeRef)
    requires
        div_defined(l, r),
    ensures
        out == div_node(l, r),
{
    match (l.kind(), r.kind()) {
        (NodeKind::Constant { value: a, width }, NodeKind::Constant { value: b, .. }) => {
            let v = *a / *b;
            let w = *width;
            return mk_node(l.typ(), NodeKind::Constant { value: v, width: w });
        },
        (
            NodeKind::Real { numerator: ln, denominator: ld },
            NodeKind::Real { numerator: rn, denominator: rd },
        ) => {
            let num = fold_mul(ln.dup(), rd.dup());
            let den = fold_mul(ld.dup(), rn.dup());
            return create_real(num, den);
        },
        _ => {},
    }
    let t = l.typ();
    mk_node(t, NodeKind::BinaryOperation(BinaryOperationKind::Divide(l, r)))
}

// ---------------------------------------------------------------- modulo

/// Whether building the remainder is defined: no constant division by zero.
pub open spec fn mod_defined(l: X86NodeRef, r: X86NodeRef) -> bool {
    match (l.0.kind, r.0.kind) {
        (NodeKind::Constant { .. }, NodeKind::Constant { value: b, .. }) => b != 0,
        _ => true,
    }
}

/// The node a remainder is built as: constants are folded.
pub open spec fn mod_node(l: X86NodeRef, r: X86NodeRef) -> X86NodeRef {
    match (l.0.kind, r.0.kind) {
        (NodeKind::Constant { value: a, width }, NodeKind::Constant { value: b, .. }) => node(
            l.0.typ,
            NodeKind::Constant { value: a % b, width },
        ),
        _ => op_node(l.0.typ, BinaryOperationKind::Modulo(l, r)),
    }
}

/// Builds a remainder.
pub fn fold_mod(l: X86NodeRef, r: X86NodeRef) -> (out: X86NodeRef)
    requires
        mod_defined(l, r),
    ensures
        out == mod_node(l, r),
{
    match (l.kind(), r.kind()) {
        (NodeKind::Constant { value: a, width }, NodeKind::Constant { value: b, .. }) => {
            let v = *a % *b;
            let w = *width;
            return mk_node(l.typ(), NodeKind::Constant { value: v, width: w });
        },
        _ => {},
    }
    let t = l.typ();
    mk_node(t, NodeKind::BinaryOperation(BinaryOperationKind::Modulo(l, r)))
}

// ---------------------------------------------------------------- or, xor

/// The node a bitwise or is built as: constants are folded, and otherwise
/// the node takes the wider of the two types.
pub open spec fn or_node(l: X86NodeRef, r: X86NodeRef) -> X86NodeRef {
    match (l.0.kind, r.0.kind) {
        (NodeKind::Constant { value: a, width }, NodeKind::Constant { value: b, .. }) => node(
            l.0.typ,
            NodeKind::Constant { value: a | b, width },
        ),
        _ => op_node(
            if r.0.typ.spec_width() > l.0.typ.spec_width() {
                r.0.typ
            } else {
                l.0.typ
            },
            BinaryOperationKind::Or(l, r),
        ),
    }
}

/// Builds a bitwise or.
pub fn fold_or(l: X86NodeRef, r: X86NodeRef) -> (out: X86NodeRef)
    ensures
        out == or_node(l, r),
{
    match (l.kind(), r.kind()) {
        (NodeKind::Constant { value: a, width }, NodeKind::Constant { value: b, .. }) => {
            let v = *a | *b;
            let w = *width;
            return mk_node(l.typ(), NodeKind::Constant { value: v, width: w });
        },
        _ => {},
    }
    let t = if r.typ().width() > l.typ().width() {
        r.typ()
    } else {
        l.typ()
    };
    mk_node(t, NodeKind::BinaryOperation(BinaryOperationKind::Or(l, r)))
}

/// The node a bitwise exclusive or is built as: constants are folded.
pub open spec fn xor_node(l: X86NodeRef, r: X86NodeRef) -> X86NodeRef {
    match (l.0.kind, r.0.kind) {
        (NodeKind::Constant { value: a, width }, NodeKind::Constant { value: b, .. }) => node(
            l.0.typ,
            NodeKind::Constant { value: a ^ b, width },
        ),
        _ => op_node(l.0.typ, BinaryOperationKind::Xor(l, r)),
    }
}

/// Builds a bitwise exclusive or.
pub fn fold_xor(l: X86NodeRef, r: X86NodeRef) -> (out: X86NodeRef)
    ensures
        out == xor_node(l, r),
{
    match (l.kind(), r.kind()) {
        (NodeKind::Constant { value: a, width }, NodeKind::Constant { value: b, .. }) => {
            let v = *a ^ *b;
            let w = *width;
            return mk_node(l.typ(), NodeKind::Constant { value: v, width: w });
        },
        _ => {},
    }
    let t = l.typ();
    mk_node(t, NodeKind::BinaryOperation(BinaryOperationKind::Xor(l, r)))
}

// ---------------------------------------------------------------- and

/// Whether and-ing a value of type `left_type` with the constant
/// `right_constant` (of type `right_type`) leaves the value unchanged: the
/// constant is all ones over a power-of-two width, or the value is wider
/// than 64 bits and the constant is all ones.
pub open spec fn no_op_and(left_type: Type, right_type: Type, right_constant: u64) -> bool {
    let lw = left_type.spec_width();
    let rw = right_type.spec_width();
    if lw > 128 {
        false
    } else {
        (right_constant == mask_spec(lw) && (rw == 8 || rw == 16 || rw == 32 || rw == 64 || rw
            == 128)) || (lw > 64 && right_constant == u64::MAX)
    }
}

/// Decides [`no_op_and`].
pub fn is_no_op_and(left_type: Type, right_type: Type, right_constant: u64) -> (r: bool)
    ensures
        r == no_op_and(left_type, right_type, right_constant),
{
    let lw = left_type.width();
    let rw = right_type.width();
    if lw > 128 {
        false
    } else {
        (right_constant == mask(lw) && (rw == 8 || rw == 16 || rw == 32 || rw == 64 || rw == 128))
            || (lw > 64 && right_constant == u64::MAX)
    }
}

/// Whether building the conjunction is defined: a zero constant against a
/// non-constant gives a constant of the other side's type, which must have
/// a width.
pub open spec fn and_defined(l: X86NodeRef, r: X86NodeRef) -> bool {
    match (l.0.kind, r.0.kind) {
        (NodeKind::Constant { .. }, NodeKind::Constant { .. }) => true,
        (NodeKind::Constant { value: a, .. }, _) => a == 0 ==> r.0.typ.spec_width() != 0,
        (_, NodeKind::Constant { value: b, .. }) => b == 0 ==> l.0.typ.spec_width() != 0,
        _ => true,
    }
}

/// The node a bitwise and is built as: constants are folded, a zero
/// constant gives zero, and a constant that keeps every bit is dropped.
pub open spec fn and_node(l: X86NodeRef, r: X86NodeRef) -> X86NodeRef {
    match (l.0.kind, r.0.kind) {
        (NodeKind::Constant { value: a, width }, NodeKind::Constant { value: b, .. }) => node(
            l.0.typ,
            NodeKind::Constant { value: a & b, width },
        ),
        (NodeKind::Constant { value: a, .. }, _) => if a == 0 {
            constant_node(0, r.0.typ)
        } else if no_op_and(r.0.typ, l.0.typ, a) {
            r
        } else {
            op_node(l.0.typ, BinaryOperationKind::And(l, r))
        },
        (_, NodeKind::Constant { value: b, .. }) => if b == 0 {
            constant_node(0, l.0.typ)
        } else if no_op_and(l.0.typ, r.0.typ, b) {
            l
        } else {
            op_node(r.0.typ, BinaryOperationKind::And(l, r))
        },
        _ => op_node(l.0.typ, BinaryOperationKind::And(l, r)),
    }
}

/// Builds a bitwise and.
pub fn fold_and(l: X86NodeRef, r: X86NodeRef) -> (out: X86NodeRef)
    requires
        and_defined(l, r),
    ensures
        out == and_node(l, r),
{
    // 0: build the node, 1: keep the left operand, 2: keep the right one
    let mut choice: u8 = 0;
    let mut result_type = l.typ();
    match (l.kind(), r.kind()) {
        (NodeKind::Constant { value: a, width }, NodeKind::Constant { value: b, .. }) => {
            let v = *a & *b;
            let w = *width;
            return mk_node(l.typ(), NodeKind::Constant { value: v, width: w });
        },
        (NodeKind::Constant { value: a, .. }, _) => {
            if *a == 0 {
                return constant(0, r.typ());
            } else if is_no_op_and(r.typ(), l.typ(), *a) {
                choice = 2;
            }
        },
        (_, NodeKind::Constant { value: b, .. }) => {
            if *b == 0 {
                return constant(0, l.typ());
            } else if is_no_op_and(l.typ(), r.typ(), *b) {
                choice = 1;
            } else {
                result_type = r.typ();
            }
        },
        _ => {},
    }
    if choice == 1 {
        return l;
    }
    if choice == 2 {
        return r;
    }
    mk_node(result_type, NodeKind::BinaryOperation(BinaryOperationKind::And(l, r)))
}

// ---------------------------------------------------------------- power

/// Whether building the power is defined: a constant exponent fits in 32
/// bits, a constant power fits in 64 bits and has a type with a width, and
/// so on down through rationals.
pub open spec fn pow_defined(base: X86NodeRef, exponent: X86NodeRef) -> bool
    decreases base,
{
    match (base.0.kind, exponent.0.kind) {
        (NodeKind::Constant { value: b, .. }, NodeKind::Constant { value: e, .. }) => {
            &&& e <= u32::MAX
            &&& pow(b as int, e as nat) <= u64::MAX
            &&& base.0.typ.spec_width() != 0
        },
        (NodeKind::Constant { .. }, _) => true,
        (NodeKind::Real { numerator, denominator }, _) => pow_defined(numerator, exponent)
            && pow_defined(denominator, exponent),
        _ => true,
    }
}

/// The node a power is built as: constants are folded, one to any power
/// is one, and a rational is raised numerator and denominator apart.
pub open spec fn pow_node(base: X86NodeRef, exponent: X86NodeRef) -> X86NodeRef
    decreases base,
{
    match (base.0.kind, exponent.0.kind) {
        (NodeKind::Constant { value: b, .. }, NodeKind::Constant { value: e, .. }) => constant_node(
            pow(b as int, e as nat) as u64,
            base.0.typ,
        ),
        (NodeKind::Constant { value: 1, .. }, _) => base,
        (NodeKind::Real { numerator, denominator }, _) => real_node(
            pow_node(numerator, exponent),
            pow_node(denominator, exponent),
        ),
        _ => op_node(base.0.typ, BinaryOperationKind::PowI(base, exponent)),
    }
}

/// `base` raised to `exponent`.
pub fn pow_u64(base: u64, exponent: u32) -> (r: u64)
    requires
        pow(base as int, exponent as nat) <= u64::MAX,
    ensures
        r == pow(base as int, exponent as nat),
{
    let mut result: u64 = 1;
    let mut i: u32 = 0;
    proof {
        vstd::arithmetic::power::lemma_pow0(base as int);
    }
    if base == 0 {
        if exponent == 0 {
            return 1;
        }
        proof {
            vstd::arithmetic::power::lemma0_pow(exponent as nat);
        }
        return 0;
    }
    while i < exponent
        invariant
            base > 0,
            i <= exponent,
            result == pow(base as int, i as nat),
            pow(base as int, exponent as nat) <= u64::MAX,
        decreases exponent - i,
    {
        proof {
            vstd::arithmetic::power::lemma_pow_increases(base as nat, (i + 1) as nat, exponent as nat);
            vstd::arithmetic::power::lemma_pow_adds(base as int, i as nat, 1);
            vstd::arithmetic::power::lemma_pow1(base as int);
            vstd::arithmetic::power::lemma_pow_positive(base as int, i as nat);
        }
        result = result * base;
        i = i + 1;
    }
    result
}

/// Builds a power.
pub fn fold_pow(base: X86NodeRef, exponent: X86NodeRef) -> (out: X86NodeRef)
    requires
        pow_defined(base, exponent),
    ensures
        out == pow_node(base, exponent),
    decreases base,
{
    match (base.kind(), exponent.kind()) {
        (NodeKind::Constant { value: b, .. }, NodeKind::Constant { value: e, .. }) => {
            let v = pow_u64(*b, *e as u32);
            return constant(v, base.typ());
        },
        (NodeKind::Constant { value: 1, .. }, _) => {
            return base;
        },
        (NodeKind::Real { numerator, denominator }, _) => {
            let num = fold_pow(numerator.dup(), exponent.dup());
            let den = fold_pow(denominator.dup(), exponent.dup());
            return create_real(num, den);
        },
        _ => {},
    }
    let t = base.typ();
    mk_node(t, NodeKind::BinaryOperation(BinaryOperationKind::PowI(base, exponent)))
}

// ---------------------------------------------------------------- compare

/// A 64-bit word read as a two's complement signed number.
pub open spec fn as_signed(x: u64) -> int {
    if x < 0x8000_0000_0000_0000 {
        x as int
    } else {
        x as int - 0x1_0000_0000_0000_0000
    }
}

/// Whether comparing constants of the two types compares them as signed
/// (`Some(true)`) or unsigned (`Some(false)`) numbers; `None` where the two
/// types cannot be compared.
pub open spec fn compare_signedness(left: Type, right: Type) -> Option<bool> {
    match (left, right) {
        (Type::Signed(_), Type::Signed(_)) => Some(true),
        (Type::Unsigned(_), Type::Unsigned(_)) => Some(false),
        (Type::Int, Type::Signed(64)) => Some(true),
        (Type::Unsigned(64), Type::Signed(64)) => Some(true),
        (Type::Signed(64), Type::Unsigned(64)) => Some(true),
        _ => None,
    }
}

/// Whether the comparison `op` holds between `a` and `b`.
pub open spec fn compare_holds(op: BinaryOperationKind, a: int, b: int) -> bool {
    match op {
        BinaryOperationKind::CompareEqual(..) => a == b,
        BinaryOperationKind::CompareNotEqual(..) => a != b,
        BinaryOperationKind::CompareLessThan(..) => a < b,
        BinaryOperationKind::CompareLessThanOrEqual(..) => a <= b,
        BinaryOperationKind::CompareGreaterThan(..) => a > b,
        BinaryOperationKind::CompareGreaterThanOrEqual(..) => a >= b,
        _ => false,
    }
}

/// The depth of rationals in the operands of a comparison.
pub open spec fn compare_depth(op: BinaryOperationKind) -> nat {
    max_nat(real_depth(op.spec_children().0), real_depth(op.spec_children().1))
}

/// Whether building the comparison is defined: constants must have types
/// that can be compared, and the cross products of rationals must be
/// defined.
pub open spec fn compare_defined(op: BinaryOperationKind) -> bool
    decreases compare_depth(op),
{
    let (l, r) = op.spec_children();
    match (l.0.kind, r.0.kind) {
        (NodeKind::Constant { .. }, NodeKind::Constant { .. }) => compare_signedness(
            l.0.typ,
            r.0.typ,
        ) is Some,
        (
            NodeKind::Real { numerator: ln, denominator: ld },
            NodeKind::Real { numerator: rn, denominator: rd },
        ) => {
            proof {
                lemma_mul_real_depth(ln, rd);
                lemma_mul_real_depth(ld, rn);
            }
            mul_defined(ln, rd) && mul_defined(ld, rn) && compare_defined(
                op.with_children(mul_node(ln, rd), mul_node(ld, rn)),
            )
        },
        _ => true,
    }
}

/// The node a comparison is built as: constants are compared (as signed or
/// unsigned numbers according to their types) into a one-bit constant of
/// the left operand's type, rationals `ln / ld` and `rn / rd` are compared
/// as `ln * rd` against `ld * rn`, and anything else gives an unsigned
/// one-bit comparison node.
pub open spec fn compare_node(op: BinaryOperationKind) -> X86NodeRef
    decreases compare_depth(op),
{
    let (l, r) = op.spec_children();
    match (l.0.kind, r.0.kind) {
        (NodeKind::Constant { value: a, .. }, NodeKind::Constant { value: b, .. }) => {
            let holds = if compare_signedness(l.0.typ, r.0.typ) == Some(true) {
                compare_holds(op, as_signed(a), as_signed(b))
            } else {
                compare_holds(op, a as int, b as int)
            };
            node(l.0.typ, NodeKind::Constant { value: if holds { 1 } else { 0 }, width: 1 })
        },
        (
            NodeKind::Real { numerator: ln, denominator: ld },
            NodeKind::Real { numerator: rn, denominator: rd },
        ) => {
            proof {
                lemma_mul_real_depth(ln, rd);
                lemma_mul_real_depth(ld, rn);
            }
            compare_node(op.with_children(mul_node(ln, rd), mul_node(ld, rn)))
        },
        _ => op_node(Type::Unsigned(1), op),
    }
}

/// Whether `a < b` as signed numbers.
fn signed_less(a: u64, b: u64) -> (r: bool)
    ensures
        r == (as_signed(a) < as_signed(b)),
{
    let a_negative = a >= 0x8000_0000_0000_0000;
    let b_negative = b >= 0x8000_0000_0000_0000;
    if a_negative == b_negative {
        a < b
    } else {
        a_negative
    }
}

/// Evaluates the comparison `op` on two constants.
fn evaluate_compare(op: &BinaryOperationKind, a: u64, b: u64, signed: bool) -> (r: bool)
    requires
        op.is_compare(),
    ensures
        r == if signed {
            compare_holds(*op, as_signed(a), as_signed(b))
        } else {
            compare_holds(*op, a as int, b as int)
        },
{
    let (less, greater) = if signed {
        (signed_less(a, b), signed_less(b, a))
    } else {
        (a < b, b < a)
    };
    proof {
        if signed {
            assert(as_signed(a) == as_signed(b) <==> a == b);
        }
    }
    match op {
        BinaryOperationKind::CompareEqual(..) => a == b,
        BinaryOperationKind::CompareNotEqual(..) => a != b,
        BinaryOperationKind::CompareLessThan(..) => less,
        BinaryOperationKind::CompareLessThanOrEqual(..) => !greater,
        BinaryOperationKind::CompareGreaterThan(..) => greater,
        BinaryOperationKind::CompareGreaterThanOrEqual(..) => !less,
        _ => false,
    }
}

/// Decides [`compare_signedness`].
pub fn signedness(left: Type, right: Type) -> (r: Option<bool>)
    ensures
        r == compare_signedness(left, right),
{
    match (left, right) {
        (Type::Signed(_), Type::Signed(_)) => Some(true),
        (Type::Unsigned(_), Type::Unsigned(_)) => Some(false),
        (Type::Int, Type::Signed(64)) => Some(true),
        (Type::Unsigned(64), Type::Signed(64)) => Some(true),
        (Type::Signed(64), Type::Unsigned(64)) => Some(true),
        _ => None,
    }
}

/// Builds a comparison.
pub fn emit_compare(op: BinaryOperationKind) -> (out: X86NodeRef)
    requires
        op.is_compare(),
        compare_defined(op),
    ensures
        out == compare_node(op),
    decreases compare_depth(op),
{
    let mut cross: Option<(X86NodeRef, X86NodeRef)> = None;
    {
        let (l, r) = op.children();
        match (l.kind(), r.kind()) {
            (NodeKind::Constant { value: a, .. }, NodeKind::Constant { value: b, .. }) => {
                let signed = signedness(l.typ(), r.typ()).unwrap();
                let holds = evaluate_compare(&op, *a, *b, signed);
                let v: u64 = if holds {
                    1
                } else {
                    0
                };
                return mk_node(l.typ(), NodeKind::Constant { value: v, width: 1 });
            },
            (
                NodeKind::Real { numerator: ln, denominator: ld },
                NodeKind::Real { numerator: rn, denominator: rd },
            ) => {
                proof {
                    lemma_mul_real_depth(*ln, *rd);
                    lemma_mul_real_depth(*ld, *rn);
                }
                let left = fold_mul(ln.dup(), rd.dup());
                let right = fold_mul(ld.dup(), rn.dup());
                cross = Some((left, right));
            },
            _ => {},
        }
    }
    match cross {
        Some((left, right)) => {
            let next = BinaryOperationKind::new_with_kind(&op, left, right);
            emit_compare(next)
        },
        None => mk_node(Type::Unsigned(1), NodeKind::BinaryOperation(op)),
    }
}

// ---------------------------------------------------------------- dispatch

/// Whether building the operation `op` is defined.
pub open spec fn binary_defined(op: BinaryOperationKind) -> bool {
    match op {
        BinaryOperationKind::Add(..) => true,
        BinaryOperationKind::Sub(l, r) => sub_defined(l, r),
        BinaryOperationKind::Multiply(l, r) => mul_defined(l, r),
        BinaryOperationKind::Divide(l, r) => div_defined(l, r),
        BinaryOperationKind::Modulo(l, r) => mod_defined(l, r),
        BinaryOperationKind::And(l, r) => and_defined(l, r),
        BinaryOperationKind::Or(..) => true,
        BinaryOperationKind::Xor(..) => true,
        BinaryOperationKind::PowI(b, e) => pow_defined(b, e),
        _ => compare_defined(op),
    }
}

/// The node the operation `op` is built as.
pub open spec fn binary_node(op: BinaryOperationKind) -> X86NodeRef {
    match op {
        BinaryOperationKind::Add(l, r) => add_node(l, r),
        BinaryOperationKind::Sub(l, r) => sub_node(l, r),
        BinaryOperationKind::Multiply(l, r) => mul_node(l, r),
        BinaryOperationKind::Divide(l, r) => div_node(l, r),
        BinaryOperationKind::Modulo(l, r) => mod_node(l, r),
        BinaryOperationKind::And(l, r) => and_node(l, r),
        BinaryOperationKind::Or(l, r) => or_node(l, r),
        BinaryOperationKind::Xor(l, r) => xor_node(l, r),
        BinaryOperationKind::PowI(b, e) => pow_node(b, e),
        _ => compare_node(op),
    }
}

/// Builds the node for a two-operand operation, folding what can be folded.
pub fn binary_operation(op: BinaryOperationKind) -> (out: X86NodeRef)
    requires
        binary_defined(op),
    ensures
        out == binary_node(op),
{
    match op {
        BinaryOperationKind::Add(l, r) => fold_add(l, r),
        BinaryOperationKind::Sub(l, r) => fold_sub(l, r),
        BinaryOperationKind::Multiply(l, r) => fold_mul(l, r),
        BinaryOperationKind::Divide(l, r) => fold_div(l, r),
        BinaryOperationKind::Modulo(l, r) => fold_mod(l, r),
        BinaryOperationKind::And(l, r) => fold_and(l, r),
        BinaryOperationKind::Or(l, r) => fold_or(l, r),
        BinaryOperationKind::Xor(l, r) => fold_xor(l, r),
        BinaryOperationKind::PowI(b, e) => fold_pow(b, e),
        _ => emit_compare(op),
    }
}

// ---------------------------------------------------------------- checks

/// Decides [`mul_defined`].
pub fn is_mul_defined(l: &X86NodeRef, r: &X86NodeRef) -> (ok: bool)
    ensures
        ok == mul_defined(*l, *r),
    decreases real_depth(*l) + real_depth(*r),
{
    match (l.kind(), r.kind()) {
        (NodeKind::Constant { value: a, .. }, NodeKind::Constant { value: b, .. }) => a.checked_mul(
            *b,
        ).is_some(),
        (NodeKind::Constant { .. }, _) => true,
        (_, NodeKind::Constant { .. }) => true,
        (
            NodeKind::Real { numerator: ln, denominator: ld },
            NodeKind::Real { numerator: rn, denominator: rd },
        ) => is_mul_defined(ln, rn) && is_mul_defined(ld, rd),
        _ => true,
    }
}

/// Multiplication as built, on references.
fn mul_of(l: &X86NodeRef, r: &X86NodeRef) -> (out: X86NodeRef)
    requires
        mul_defined(*l, *r),
    ensures
        out == mul_node(*l, *r),
{
    fold_mul(l.dup(), r.dup())
}

/// Decides [`sub_defined`].
pub fn is_sub_defined(l: &X86NodeRef, r: &X86NodeRef) -> (ok: bool)
    ensures
        ok == sub_defined(*l, *r),
    decreases max_nat(real_depth(*l), real_depth(*r)),
{
    match (l.kind(), r.kind()) {
        (NodeKind::Constant { .. }, NodeKind::Constant { .. }) => true,
        (
            NodeKind::Real { numerator: ln, denominator: ld },
            NodeKind::Real { numerator: rn, denominator: rd },
        ) => {
            proof {
                lemma_mul_real_depth(*ln, *rd);
                lemma_mul_real_depth(*rn, *ld);
            }
            if !(is_mul_defined(ln, rd) && is_mul_defined(ld, rd) && is_mul_defined(rn, ld)) {
                return false;
            }
            let a = mul_of(ln, rd);
            let b = mul_of(rn, ld);
            is_sub_defined(&a, &b)
        },
        _ => true,
    }
}

/// Decides [`compare_defined`].
pub fn is_compare_defined(op: &BinaryOperationKind) -> (ok: bool)
    requires
        op.is_compare(),
    ensures
        ok == compare_defined(*op),
    decreases compare_depth(*op),
{
    let (l, r) = op.children();
    match (l.kind(), r.kind()) {
        (NodeKind::Constant { .. }, NodeKind::Constant { .. }) => signedness(l.typ(), r.typ()).is_some(),
        (
            NodeKind::Real { numerator: ln, denominator: ld },
            NodeKind::Real { numerator: rn, denominator: rd },
        ) => {
            proof {
                lemma_mul_real_depth(*ln, *rd);
                lemma_mul_real_depth(*ld, *rn);
            }
            if !(is_mul_defined(ln, rd) && is_mul_defined(ld, rn)) {
                return false;
            }
            let a = mul_of(ln, rd);
            let b = mul_of(ld, rn);
            let next = BinaryOperationKind::new_with_kind(op, a, b);
            is_compare_defined(&next)
        },
        _ => true,
    }
}

/// Whether `base` to the power `exponent` fits in 64 bits.
fn pow_fits(base: u64, exponent: u64) -> (ok: bool)
    requires
        exponent <= u32::MAX,
    ensures
        ok == (pow(base as int, exponent as nat) <= u64::MAX),
{
    proof {
        vstd::arithmetic::power::lemma_pow0(base as int);
    }
    if base == 0 {
        if exponent > 0 {
            proof {
                vstd::arithmetic::power::lemma0_pow(exponent as nat);
            }
        }
        return true;
    }
    if base == 1 {
        proof {
            vstd::arithmetic::power::lemma1_pow(exponent as nat);
        }
        return true;
    }
    let mut acc: u64 = 1;
    let mut i: u64 = 0;
    while i < exponent
        invariant
            base >= 2,
            i <= exponent,
            acc == pow(base as int, i as nat),
        decreases exponent - i,
    {
        proof {
            vstd::arithmetic::power::lemma_pow_adds(base as int, i as nat, 1);
            vstd::arithmetic::power::lemma_pow1(base as int);
        }
        match acc.checked_mul(base) {
            Some(next) => {
                acc = next;
            },
            None => {
                proof {
                    vstd::arithmetic::power::lemma_pow_increases(base as nat, (i + 1) as nat, exponent as nat);
                }
                return false;
            },
        }
        i = i + 1;
    }
    true
}

/// Decides [`pow_defined`].
pub fn is_pow_defined(base: &X86NodeRef, exponent: &X86NodeRef) -> (ok: bool)
    ensures
        ok == pow_defined(*base, *exponent),
    decreases *base,
{
    match (base.kind(), exponent.kind()) {
        (NodeKind::Constant { value: b, .. }, NodeKind::Constant { value: e, .. }) => {
            *e <= u32::MAX as u64 && pow_fits(*b, *e) && base.typ().width() != 0
        },
        (NodeKind::Constant { .. }, _) => true,
        (NodeKind::Real { numerator, denominator }, _) => is_pow_defined(numerator, exponent)
            && is_pow_defined(denominator, exponent),
        _ => true,
    }
}

/// Decides [`and_defined`].
pub fn is_and_defined(l: &X86NodeRef, r: &X86NodeRef) -> (ok: bool)
    ensures
        ok == and_defined(*l, *r),
{
    match (l.kind(), r.kind()) {
        (NodeKind::Constant { .. }, NodeKind::Constant { .. }) => true,
        (NodeKind::Constant { value: a, .. }, _) => *a != 0 || r.typ().width() != 0,
        (_, NodeKind::Constant { value: b, .. }) => *b != 0 || l.typ().width() != 0,
        _ => true,
    }
}

/// Decides [`binary_defined`].
pub fn is_binary_defined(op: &BinaryOperationKind) -> (ok: bool)
    ensures
        ok == binary_defined(*op),
{
    match op {
        BinaryOperationKind::Add(..) => true,
        BinaryOperationKind::Sub(l, r) => is_sub_defined(l, r),
        BinaryOperationKind::Multiply(l, r) => is_mul_defined(l, r),
        BinaryOperationKind::Divide(l, r) => match (l.kind(), r.kind()) {
            (NodeKind::Constant { .. }, NodeKind::Constant { value: b, .. }) => *b != 0,
            (
                NodeKind::Real { numerator: ln, denominator: ld },
                NodeKind::Real { numerator: rn, denominator: rd },
            ) => is_mul_defined(ln, rd) && is_mul_defined(ld, rn),
            _ => true,
        },
        BinaryOperationKind::Modulo(l, r) => match (l.kind(), r.kind()) {
            (NodeKind::Constant { .. }, NodeKind::Constant { value: b, .. }) => *b != 0,
            _ => true,
        },
        BinaryOperationKind::And(l, r) => is_and_defined(l, r),
        BinaryOperationKind::Or(..) => true,
        BinaryOperationKind::Xor(..) => true,
        BinaryOperationKind::PowI(b, e) => is_pow_defined(b, e),
        _ => is_compare_defined(op),
    }
}

/// Folding a division and a remainder of the same two constants `a` and
/// `b` (with `b` not zero) gives constants `q` and `m` that satisfy the
/// division identity `a == q * b + m` with `m < b`: `q` is the truncating
/// quotient and `m` the remainder. Both keep the left operand's type.
pub proof fn law_constant_division(l: X86NodeRef, r: X86NodeRef, a: u64, b: u64)
    requires
        l.const_value() == Some(a),
        r.const_value() == Some(b),
        b != 0,
    ensures
        ({
            let q = binary_node(BinaryOperationKind::Divide(l, r));
            let m = binary_node(BinaryOperationKind::Modulo(l, r));
            &&& q.const_value() is Some && m.const_value() is Some
            &&& q.const_value().unwrap() * b + m.const_value().unwrap() == a
            &&& m.const_value().unwrap() < b
            &&& q.0.typ == l.0.typ && m.0.typ == l.0.typ
        }),
{
    let qv = binary_node(BinaryOperationKind::Divide(l, r)).const_value().unwrap();
    let mv = binary_node(BinaryOperationKind::Modulo(l, r)).const_value().unwrap();
    assert(qv == a / b && mv == a % b);
    assert(qv * b + mv == a && mv < b) by (nonlinear_arith)
        requires
            qv == a / b,
            mv == a % b,
            b != 0,
    ;
}

/// Folding an addition and a subtraction of constants `a` and `b` is
/// arithmetic modulo 2^64: the sum is `a + b` and the difference is the
/// number that `b` added to gives `a`, both wrapping around.
pub proof fn law_constant_add_sub(l: X86NodeRef, r: X86NodeRef, a: u64, b: u64)
    requires
        l.const_value() == Some(a),
        r.const_value() == Some(b),
    ensures
        ({
            let sum = binary_node(BinaryOperationKind::Add(l, r));
            let diff = binary_node(BinaryOperationKind::Sub(l, r));
            &&& sum.const_value() is Some && diff.const_value() is Some
            &&& (sum.const_value().unwrap() as int) == (a as int + b as int) % 0x1_0000_0000_0000_0000
            &&& (diff.const_value().unwrap() as int + b as int) % 0x1_0000_0000_0000_0000 == a as int
            &&& sum.0.typ == l.0.typ && diff.0.typ == l.0.typ
        }),
{
    let sv = binary_node(BinaryOperationKind::Add(l, r)).const_value().unwrap();
    let dv = binary_node(BinaryOperationKind::Sub(l, r)).const_value().unwrap();
    assert(sv == vstd::wrapping::u64_specs::wrapping_add(a, b));
    assert(dv == vstd::wrapping::u64_specs::wrapping_sub(a, b));
    assert((sv as int) == (a as int + b as int) % 0x1_0000_0000_0000_0000);
    assert((dv as int + b as int) % 0x1_0000_0000_0000_0000 == a as int);
}

/// Folding a bitwise and, or and exclusive or of constants `a` and `b` works
/// bit by bit: bit `i` of the results is the and, the or and the
/// difference of bit `i` of `a` and of `b`.
pub proof fn law_constant_bitwise(l: X86NodeRef, r: X86NodeRef, a: u64, b: u64)
    requires
        l.const_value() == Some(a),
        r.const_value() == Some(b),
    ensures
        ({
            let x = binary_node(BinaryOperationKind::And(l, r)).const_value();
            let y = binary_node(BinaryOperationKind::Or(l, r)).const_value();
            let z = binary_node(BinaryOperationKind::Xor(l, r)).const_value();
            &&& x is Some && y is Some && z is Some
            &&& forall|i: u64|
                i < 64 ==> ((#[trigger] (x.unwrap() >> i)) & 1u64 == 1u64) == ((a >> i) & 1u64 == 1u64 && (b >> i) & 1u64
                    == 1u64)
            &&& forall|i: u64|
                i < 64 ==> ((#[trigger] (y.unwrap() >> i)) & 1u64 == 1u64) == ((a >> i) & 1u64 == 1u64 || (b >> i) & 1u64
                    == 1u64)
            &&& forall|i: u64|
                i < 64 ==> ((#[trigger] (z.unwrap() >> i)) & 1u64 == 1u64) == ((a >> i) & 1u64 != (b >> i) & 1u64)
        }),
{
    let x = binary_node(BinaryOperationKind::And(l, r)).const_value().unwrap();
    let y = binary_node(BinaryOperationKind::Or(l, r)).const_value().unwrap();
    let z = binary_node(BinaryOperationKind::Xor(l, r)).const_value().unwrap();
    assert(x == a & b && y == a | b && z == a ^ b);
    assert(forall|i: u64|
        i < 64 ==> {
            &&& (((a & b) >> i) & 1u64 == 1u64) == ((a >> i) & 1u64 == 1u64 && (b >> i) & 1u64 == 1u64)
            &&& (((a | b) >> i) & 1u64 == 1u64) == ((a >> i) & 1u64 == 1u64 || (b >> i) & 1u64 == 1u64)
            &&& (((a ^ b) >> i) & 1u64 == 1u64) == ((a >> i) & 1u64 != (b >> i) & 1u64)
        }) by (bit_vector);
}

/// Folding a comparison of two unsigned constants gives the one-bit
/// constant 1 exactly where the comparison holds of the two numbers, and 0
/// elsewhere.
pub proof fn law_constant_compare_unsigned(l: X86NodeRef, r: X86NodeRef, a: u64, b: u64, w: u32, v: u32)
    requires
        l.const_value() == Some(a),
        r.const_value() == Some(b),
        l.0.typ == Type::Unsigned(w),
        r.0.typ == Type::Unsigned(v),
    ensures
        binary_node(BinaryOperationKind::CompareLessThan(l, r)).const_value() == Some(if a < b { 1u64 } else { 0u64 }),
        binary_node(BinaryOperationKind::CompareLessThanOrEqual(l, r)).const_value() == Some(
            if a <= b { 1u64 } else { 0u64 },
        ),
        binary_node(BinaryOperationKind::CompareGreaterThan(l, r)).const_value() == Some(if a > b { 1u64 } else { 0u64 }),
        binary_node(BinaryOperationKind::CompareGreaterThanOrEqual(l, r)).const_value() == Some(
            if a >= b { 1u64 } else { 0u64 },
        ),
        binary_node(BinaryOperationKind::CompareEqual(l, r)).const_value() == Some(if a == b { 1u64 } else { 0u64 }),
        binary_node(BinaryOperationKind::CompareNotEqual(l, r)).const_value() == Some(if a != b { 1u64 } else { 0u64 }),
{
}

/// Folding a signed less-than of two signed constants compares them as
/// two's complement numbers: it holds where `a` is negative (its top bit
/// set) and `b` is not, or where both have the same sign and `a < b`.
pub proof fn law_constant_compare_signed(l: X86NodeRef, r: X86NodeRef, a: u64, b: u64, w: u32, v: u32)
    requires
        l.const_value() == Some(a),
        r.const_value() == Some(b),
        l.0.typ == Type::Signed(w),
        r.0.typ == Type::Signed(v),
    ensures
        binary_node(BinaryOperationKind::CompareLessThan(l, r)).const_value() == Some(
            if (a >= 0x8000_0000_0000_0000 && b < 0x8000_0000_0000_0000) || ((a >= 0x8000_0000_0000_0000) == (b
                >= 0x8000_0000_0000_0000) && a < b) {
                1u64
            } else {
                0u64
            },
        ),
{
}

} // verus!
