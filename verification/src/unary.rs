//! Building one-operand operations, casts, shifts and selections of the
//! expression graph, folding constants as they are built.
use vstd::prelude::*;
use crate::bits::{mask, mask_spec};
use crate::fold::{as_signed, constant, constant_node, create_real, node, real_node};
use crate::ir::{
    CastOperationKind, NodeKind, NodeList, ShiftOperationKind, TernaryOperationKind, Type,
    UnaryOperationKind, X86NodeRef, mk_node,
};

verus! {

// ---------------------------------------------------------------- integers

/// The low `width` bits of `value` read as a signed number and widened to
/// 64 bits: the bit below `width` is copied into every bit above it. Zero
/// stays zero whatever the width.
pub open spec fn sign_extend_value(value: u64, width: u32) -> u64 {
    if value == 0 {
        0
    } else {
        let low = value & mask_spec(width);
        if (low >> ((width - 1) as u32)) & 1u64 == 1u64 {
            low | !mask_spec(width)
        } else {
            low
        }
    }
}

/// Sign-extends the low `original_width` bits of `value` to 64 bits; the
/// target width does not change the result.
pub fn sign_extend(value: u64, original_width: u32, target_width: u32) -> (r: u64)
    requires
        value != 0 ==> 1 <= original_width <= 64,
    ensures
        r == sign_extend_value(value, original_width),
{
    if value == 0 {
        return 0;
    }
    let low = value & mask(original_width);
    if (low >> (original_width - 1)) & 1 == 1 {
        low | !mask(original_width)
    } else {
        low
    }
}

/// `x` shifted right by `amount` bits as a signed number: the sign bit is
/// copied into the bits that come free.
pub open spec fn asr_value(x: u64, amount: u64) -> u64 {
    if (x >> 63u64) & 1u64 == 1u64 {
        (x >> amount) | !(u64::MAX >> amount)
    } else {
        x >> amount
    }
}

fn asr(x: u64, amount: u64) -> (r: u64)
    requires
        amount < 64,
    ensures
        r == asr_value(x, amount),
{
    if (x >> 63u64) & 1 == 1 {
        (x >> amount) | !(u64::MAX >> amount)
    } else {
        x >> amount
    }
}

/// The signed number `x` in two's complement.
pub open spec fn as_word(x: int) -> u64 {
    if x >= 0 {
        x as u64
    } else {
        (x + 0x1_0000_0000_0000_0000) as u64
    }
}

/// `a / b` rounded towards negative infinity.
pub open spec fn floor_div(a: int, b: int) -> int {
    if b > 0 {
        a / b
    } else {
        (-a) / (-b)
    }
}

proof fn lemma_negated_quotient(ua: int, ub: int)
    requires
        ua >= 0,
        ub > 0,
    ensures
        (-ua) / ub == -(ua / ub) - (if ua % ub != 0 {
            1int
        } else {
            0int
        }),
{
    let q = ua / ub;
    let rem = ua % ub;
    vstd::arithmetic::div_mod::lemma_fundamental_div_mod(ua, ub);
    assert(ua == ub * q + rem);
    assert(0 <= rem < ub);
    if rem == 0 {
        assert(-ua == (-q) * ub + 0) by (nonlinear_arith)
            requires
                ua == ub * q + rem,
                rem == 0,
        ;
        vstd::arithmetic::div_mod::lemma_fundamental_div_mod_converse(-ua, ub, -q, 0);
    } else {
        assert(-ua == (-q - 1) * ub + (ub - rem)) by (nonlinear_arith)
            requires
                ua == ub * q + rem,
        ;
        vstd::arithmetic::div_mod::lemma_fundamental_div_mod_converse(-ua, ub, -q - 1, ub - rem);
    }
}

/// The signed quotient of two 64-bit words, rounded towards negative
/// infinity.
fn floor_div_words(a: u64, b: u64) -> (r: u64)
    requires
        b != 0,
        !(a == 0x8000_0000_0000_0000 && b == u64::MAX),
    ensures
        r == as_word(floor_div(as_signed(a), as_signed(b))),
{
    let a_negative = a >= 0x8000_0000_0000_0000;
    let b_negative = b >= 0x8000_0000_0000_0000;
    let ua: u64 = if a_negative {
        0u64.wrapping_sub(a)
    } else {
        a
    };
    let ub: u64 = if b_negative {
        0u64.wrapping_sub(b)
    } else {
        b
    };
    assert(ua == if as_signed(a) < 0 { -as_signed(a) } else { as_signed(a) });
    assert(ub == if as_signed(b) < 0 { -as_signed(b) } else { as_signed(b) });
    assert(ub > 0);
    let q = ua / ub;
    let rem = ua % ub;
    proof {
        lemma_negated_quotient(ua as int, ub as int);
        vstd::arithmetic::div_mod::lemma_fundamental_div_mod(ua as int, ub as int);
        assert(q <= ua) by (nonlinear_arith)
            requires
                ub >= 1,
                q == ua / ub,
                ua >= 0,
        ;
    }
    if a_negative == b_negative {
        proof {
            if a_negative {
                assert(ua <= 0x8000_0000_0000_0000);
                if ua == 0x8000_0000_0000_0000 && ub == 1 {
                    assert(b == u64::MAX);
                    assert(false);
                }
                assert(q < 0x8000_0000_0000_0000) by (nonlinear_arith)
                    requires
                        ua <= 0x8000_0000_0000_0000,
                        ub >= 1,
                        !(ua == 0x8000_0000_0000_0000 && ub == 1),
                        q == ua / ub,
                        ua == ub * q + rem,
                        0 <= rem < ub,
                {
                    if ub == 1 {
                    } else {
                        assert(ub * q <= ua);
                        assert(2 * q <= ub * q);
                    }
                }
            }
        }
        q
    } else {
        let adjust: u64 = if rem != 0 {
            1
        } else {
            0
        };
        proof {
            if rem != 0 {
                assert(q < ua) by (nonlinear_arith)
                    requires
                        ua == ub * q + rem,
                        rem > 0,
                        ub >= 1,
                        q >= 0,
                {
                    assert(ub * q >= q);
                }
            }
        }
        let magnitude = q + adjust;
        0u64.wrapping_sub(magnitude)
    }
}

// ---------------------------------------------------------------- unary

/// Whether a node is a rational whose numerator and denominator are both
/// constants.
pub open spec fn is_constant_real(v: X86NodeRef) -> bool {
    match v.0.kind {
        NodeKind::Real { numerator, denominator } => numerator.is_const()
            && denominator.is_const(),
        _ => false,
    }
}

/// Whether building the one-operand operation `op` is defined: rounding
/// applies to rationals only, rounding a constant rational towards positive
/// infinity is not supported, negation and absolute value of constants need
/// a signed type and a value whose result is representable, and powers of
/// two and square roots are not supported.
pub open spec fn unary_defined(op: UnaryOperationKind) -> bool {
    match op {
        UnaryOperationKind::Not(_) => true,
        UnaryOperationKind::Complement(_) => true,
        UnaryOperationKind::Ceil(v) => v.is_real() && !is_constant_real(v),
        UnaryOperationKind::Floor(v) => match v.0.kind {
            NodeKind::Real { numerator, denominator } => is_constant_real(v) ==> {
                &&& numerator.0.typ == Type::Signed(64)
                &&& denominator.0.typ == Type::Signed(64)
                &&& denominator.const_value() != Some(0u64)
                &&& !(numerator.const_value() == Some(0x8000_0000_0000_0000u64)
                    && denominator.const_value() == Some(u64::MAX))
            },
            _ => false,
        },
        UnaryOperationKind::Negate(v) => v.is_const() ==> {
            &&& v.0.typ is Signed
            &&& v.0.typ.spec_width() != 0
            &&& v.const_value() != Some(0x8000_0000_0000_0000u64)
        },
        UnaryOperationKind::Absolute(v) => v.is_const() ==> {
            &&& v.0.typ == Type::Signed(64)
            &&& v.const_width() == 64
            &&& v.const_value() != Some(0x8000_0000_0000_0000u64)
        },
        UnaryOperationKind::Power2(_) => false,
        UnaryOperationKind::SquareRoot(_) => false,
    }
}

/// The node the one-operand operation `op` is built as: logical not,
/// complement (within the constant's width), negation and absolute value of
/// constants are folded, as is rounding down a rational of two constants;
/// otherwise an operation node of the operand's type (signed 64-bit for
/// rounding) is built.
pub open spec fn unary_node(op: UnaryOperationKind) -> X86NodeRef {
    match op {
        UnaryOperationKind::Not(v) => match v.0.kind {
            NodeKind::Constant { value, width } => node(
                v.0.typ,
                NodeKind::Constant { value: if value == 0 { 1 } else { 0 }, width },
            ),
            _ => node(v.0.typ, NodeKind::UnaryOperation(op)),
        },
        UnaryOperationKind::Complement(v) => match v.0.kind {
            NodeKind::Constant { value, width } => node(
                v.0.typ,
                NodeKind::Constant { value: !value & mask_spec(width), width },
            ),
            _ => node(v.0.typ, NodeKind::UnaryOperation(op)),
        },
        UnaryOperationKind::Ceil(_) => node(Type::Signed(64), NodeKind::UnaryOperation(op)),
        UnaryOperationKind::Floor(v) => match v.0.kind {
            NodeKind::Real { numerator, denominator } => if is_constant_real(v) {
                node(
                    Type::Signed(64),
                    NodeKind::Constant {
                        value: as_word(
                            floor_div(
                                as_signed(numerator.const_value().unwrap()),
                                as_signed(denominator.const_value().unwrap()),
                            ),
                        ),
                        width: 64,
                    },
                )
            } else {
                node(Type::Signed(64), NodeKind::UnaryOperation(op))
            },
            _ => node(Type::Signed(64), NodeKind::UnaryOperation(op)),
        },
        UnaryOperationKind::Negate(v) => match v.0.kind {
            NodeKind::Constant { value, .. } => constant_node(as_word(-as_signed(value)), v.0.typ),
            _ => node(v.0.typ, NodeKind::UnaryOperation(op)),
        },
        UnaryOperationKind::Absolute(v) => match v.0.kind {
            NodeKind::Constant { value, .. } => constant_node(
                as_word(
                    if as_signed(value) < 0 {
                        -as_signed(value)
                    } else {
                        as_signed(value)
                    },
                ),
                Type::Signed(64),
            ),
            _ => node(v.0.typ, NodeKind::UnaryOperation(op)),
        },
        _ => node(Type::Signed(64), NodeKind::UnaryOperation(op)),
    }
}

/// Builds the node for a one-operand operation, folding constants.
pub fn unary_operation(op: UnaryOperationKind) -> (out: X86NodeRef)
    requires
        unary_defined(op),
    ensures
        out == unary_node(op),
{
    match op {
        UnaryOperationKind::Not(v) => {
            if let NodeKind::Constant { value, width } = v.kind() {
                let folded: u64 = if *value == 0 {
                    1
                } else {
                    0
                };
                return mk_node(v.typ(), NodeKind::Constant { value: folded, width: *width });
            }
            let t = v.typ();
            mk_node(t, NodeKind::UnaryOperation(UnaryOperationKind::Not(v)))
        },
        UnaryOperationKind::Complement(v) => {
            if let NodeKind::Constant { value, width } = v.kind() {
                let folded = !*value & mask(*width);
                return mk_node(v.typ(), NodeKind::Constant { value: folded, width: *width });
            }
            let t = v.typ();
            mk_node(t, NodeKind::UnaryOperation(UnaryOperationKind::Complement(v)))
        },
        UnaryOperationKind::Ceil(v) => {
            mk_node(Type::Signed(64), NodeKind::UnaryOperation(UnaryOperationKind::Ceil(v)))
        },
        UnaryOperationKind::Floor(v) => {
            if let NodeKind::Real { numerator, denominator } = v.kind() {
                if let (
                    NodeKind::Constant { value: num, .. },
                    NodeKind::Constant { value: den, .. },
                ) = (numerator.kind(), denominator.kind()) {
                    let q = floor_div_words(*num, *den);
                    return mk_node(Type::Signed(64), NodeKind::Constant { value: q, width: 64 });
                }
            }
            mk_node(Type::Signed(64), NodeKind::UnaryOperation(UnaryOperationKind::Floor(v)))
        },
        UnaryOperationKind::Negate(v) => {
            if let NodeKind::Constant { value, .. } = v.kind() {
                let negated = 0u64.wrapping_sub(*value);
                return constant(negated, v.typ());
            }
            let t = v.typ();
            mk_node(t, NodeKind::UnaryOperation(UnaryOperationKind::Negate(v)))
        },
        UnaryOperationKind::Absolute(v) => {
            if let NodeKind::Constant { value, .. } = v.kind() {
                let abs = if *value >= 0x8000_0000_0000_0000 {
                    0u64.wrapping_sub(*value)
                } else {
                    *value
                };
                return constant(abs, Type::Signed(64));
            }
            let t = v.typ();
            mk_node(t, NodeKind::UnaryOperation(UnaryOperationKind::Absolute(v)))
        },
        UnaryOperationKind::Power2(v) => {
            mk_node(Type::Signed(64), NodeKind::UnaryOperation(UnaryOperationKind::Power2(v)))
        },
        UnaryOperationKind::SquareRoot(v) => {
            mk_node(Type::Signed(64), NodeKind::UnaryOperation(UnaryOperationKind::SquareRoot(v)))
        },
    }
}

// ---------------------------------------------------------------- ternary

/// The node a three-operand operation is built as: it is never folded, and
/// takes the type of its first operand.
pub open spec fn ternary_node(op: TernaryOperationKind) -> X86NodeRef {
    match op {
        TernaryOperationKind::AddWithCarry(src, _, _) => node(
            src.0.typ,
            NodeKind::TernaryOperation(op),
        ),
    }
}

/// Builds the node for a three-operand operation.
pub fn ternary_operation(op: TernaryOperationKind) -> (out: X86NodeRef)
    ensures
        out == ternary_node(op),
{
    let t = match &op {
        TernaryOperationKind::AddWithCarry(src, _, _) => src.typ(),
    };
    mk_node(t, NodeKind::TernaryOperation(op))
}

// ---------------------------------------------------------------- cast

/// The value a constant takes when cast from `original_width` bits to
/// `target_width` bits.
pub open spec fn cast_value(
    value: u64,
    original_width: u32,
    target_width: u32,
    kind: CastOperationKind,
) -> u64 {
    match kind {
        CastOperationKind::ZeroExtend => if original_width == 64 {
            value
        } else {
            value & mask_spec(original_width)
        },
        CastOperationKind::SignExtend => sign_extend_value(value, original_width),
        CastOperationKind::Truncate => value & mask_spec(target_width),
        _ => value,
    }
}

/// Whether building the cast is defined: a constant cannot be cast to bits
/// or to a type without a width, and sign-extending a non-zero constant
/// needs a source width of 1 to 64 bits.
pub open spec fn cast_defined(value: X86NodeRef, target: Type, kind: CastOperationKind) -> bool {
    value.is_const() ==> {
        &&& target != Type::Bits
        &&& target.spec_width() != 0
        &&& (kind == CastOperationKind::SignExtend && value.const_value() != Some(0u64)) ==> 1
            <= value.0.typ.spec_width() <= 64
    }
}

/// The node a cast is built as: constants are converted, a reinterpretation
/// or truncation to the value's own type is dropped, and anything else
/// becomes a cast node of the target type.
pub open spec fn cast_node(value: X86NodeRef, target: Type, kind: CastOperationKind) -> X86NodeRef {
    match value.0.kind {
        NodeKind::Constant { value: c, .. } => constant_node(
            cast_value(c, value.0.typ.spec_width(), target.spec_width(), kind),
            target,
        ),
        _ => if (kind == CastOperationKind::Reinterpret || kind == CastOperationKind::Truncate)
            && value.0.typ == target {
            value
        } else {
            node(target, NodeKind::Cast { value, kind })
        },
    }
}

/// Builds a cast.
pub fn cast(value: X86NodeRef, target: Type, kind: CastOperationKind) -> (out: X86NodeRef)
    requires
        cast_defined(value, target, kind),
    ensures
        out == cast_node(value, target, kind),
{
    if let NodeKind::Constant { value: c, .. } = value.kind() {
        let original_width = value.typ().width();
        let target_width = target.width();
        let converted = match kind {
            CastOperationKind::ZeroExtend => {
                if original_width == 64 {
                    *c
                } else {
                    *c & mask(original_width)
                }
            },
            CastOperationKind::SignExtend => sign_extend(*c, original_width, target_width),
            CastOperationKind::Truncate => *c & mask(target_width),
            CastOperationKind::Reinterpret => *c,
            CastOperationKind::Convert => *c,
            CastOperationKind::Broadcast => *c,
        };
        return constant(converted, target);
    }
    let same = value.typ() == target;
    match kind {
        CastOperationKind::Reinterpret | CastOperationKind::Truncate => {
            if same {
                return value;
            }
        },
        _ => {},
    }
    mk_node(target, NodeKind::Cast { value, kind })
}

// ---------------------------------------------------------------- shift

/// A constant shifted left: zero stays zero, a zero amount keeps the value
/// and an amount of 64 or more clears it.
pub open spec fn shl_value(value: u64, amount: u64) -> u64 {
    if value == 0 {
        0
    } else if amount == 0 {
        value
    } else if amount < 64 {
        value << amount
    } else {
        0
    }
}

/// Whether building the shift is defined: constant amounts must fit in 32
/// bits (64 bits for a left shift of a non-zero value by a non-zero
/// amount), arithmetic right shifts of constants are supported on 32-bit
/// and 64-bit constants by less than their width, rotations of constants
/// are not supported, and a folded constant needs a type with a width.
pub open spec fn shift_defined(value: X86NodeRef, amount: X86NodeRef, kind: ShiftOperationKind) -> bool {
    match (value.0.kind, amount.0.kind) {
        (NodeKind::Constant { value: v, width }, NodeKind::Constant { value: a, .. }) => {
            &&& value.0.typ.spec_width() != 0
            &&& match kind {
                ShiftOperationKind::LogicalShiftLeft => (v != 0 && a != 0) ==> a <= u32::MAX,
                ShiftOperationKind::LogicalShiftRight => a <= u32::MAX,
                ShiftOperationKind::ArithmeticShiftRight => (width == 64 && a < 64) || (width
                    == 32 && a < 32),
                _ => false,
            }
        },
        _ => true,
    }
}

/// The node a shift is built as: constants are shifted (a left shift is
/// kept within the constant's width; a 32-bit arithmetic shift gives the
/// sign-extended 64-bit result), a constant zero amount is dropped, and
/// anything else becomes a shift node of the value's type.
pub open spec fn shift_node(value: X86NodeRef, amount: X86NodeRef, kind: ShiftOperationKind) -> X86NodeRef {
    let typ = value.0.typ;
    match (value.0.kind, amount.0.kind) {
        (NodeKind::Constant { value: v, width }, NodeKind::Constant { value: a, .. }) => match kind {
            ShiftOperationKind::LogicalShiftLeft => constant_node(
                shl_value(v, a) & mask_spec(width),
                typ,
            ),
            ShiftOperationKind::LogicalShiftRight => constant_node(
                if a < 64 {
                    v >> a
                } else {
                    0
                },
                typ,
            ),
            _ => constant_node(
                if width == 64 {
                    asr_value(v, a)
                } else {
                    asr_value(sign_extend_value(v, 32), a)
                },
                typ,
            ),
        },
        (_, NodeKind::Constant { value: 0, .. }) => value,
        _ => node(typ, NodeKind::Shift { value, amount, kind }),
    }
}

/// Builds a shift.
pub fn shift(value: X86NodeRef, amount: X86NodeRef, kind: ShiftOperationKind) -> (out: X86NodeRef)
    requires
        shift_defined(value, amount, kind),
    ensures
        out == shift_node(value, amount, kind),
{
    let typ = value.typ();
    let mut keep = false;
    match (value.kind(), amount.kind()) {
        (NodeKind::Constant { value: v, width }, NodeKind::Constant { value: a, .. }) => {
            let shifted = match kind {
                ShiftOperationKind::LogicalShiftLeft => {
                    let s: u64 = if *v == 0 {
                        0
                    } else if *a == 0 {
                        *v
                    } else if *a < 64 {
                        *v << (*a as u32)
                    } else {
                        0
                    };
                    s & mask(*width)
                },
                ShiftOperationKind::LogicalShiftRight => {
                    if *a < 64 {
                        *v >> (*a as u32)
                    } else {
                        0
                    }
                },
                _ => {
                    if *width == 64 {
                        asr(*v, *a)
                    } else {
                        asr(sign_extend(*v, 32, 64), *a)
                    }
                },
            };
            return constant(shifted, typ);
        },
        (_, NodeKind::Constant { value: 0, .. }) => {
            keep = true;
        },
        _ => {},
    }
    if keep {
        return value;
    }
    mk_node(typ, NodeKind::Shift { value, amount, kind })
}

// ---------------------------------------------------------------- select

/// The node a selection is built as: a constant condition picks one side,
/// otherwise a selection node of the first side's type is built.
pub open spec fn select_node(
    condition: X86NodeRef,
    true_value: X86NodeRef,
    false_value: X86NodeRef,
) -> X86NodeRef {
    match condition.0.kind {
        NodeKind::Constant { value, .. } => if value == 0 {
            false_value
        } else {
            true_value
        },
        _ => node(true_value.0.typ, NodeKind::Select { condition, true_value, false_value }),
    }
}

/// Builds a selection.
pub fn select(condition: X86NodeRef, true_value: X86NodeRef, false_value: X86NodeRef) -> (out:
    X86NodeRef)
    ensures
        out == select_node(condition, true_value, false_value),
{
    if let NodeKind::Constant { value, .. } = condition.kind() {
        if *value == 0 {
            return false_value;
        } else {
            return true_value;
        }
    }
    let t = true_value.typ();
    mk_node(t, NodeKind::Select { condition, true_value, false_value })
}

// ---------------------------------------------------------------- leaves

/// Builds a pointer to host code.
pub fn function_ptr(val: u64) -> (out: X86NodeRef)
    ensures
        out == node(Type::Unsigned(64), NodeKind::FunctionPointer(val)),
{
    mk_node(Type::Unsigned(64), NodeKind::FunctionPointer(val))
}

/// Builds a read of the guest register at `offset` in the register file.
pub fn read_register(offset: u64, typ: Type) -> (out: X86NodeRef)
    ensures
        out == node(typ, NodeKind::GuestRegister { offset }),
{
    mk_node(typ, NodeKind::GuestRegister { offset })
}

/// Builds the flags an operation leaves behind, as a 4-bit value.
pub fn get_flags(operation: X86NodeRef) -> (out: X86NodeRef)
    ensures
        out == node(Type::Unsigned(4), NodeKind::GetFlags { operation }),
{
    mk_node(Type::Unsigned(4), NodeKind::GetFlags { operation })
}

/// Builds a tuple of the given values, in order.
pub fn create_tuple(values: Vec<X86NodeRef>) -> (out: X86NodeRef)
    ensures
        out.0.typ == Type::Tuple,
        out.0.kind matches NodeKind::Tuple(list) && list.elems() == values@,
{
    mk_node(Type::Tuple, NodeKind::Tuple(NodeList::from_vec(values)))
}

/// The element at `index` of a tuple node.
pub fn access_tuple(tuple: X86NodeRef, index: usize) -> (out: X86NodeRef)
    requires
        tuple.0.kind matches NodeKind::Tuple(list) && index < list.elems().len(),
    ensures
        tuple.0.kind matches NodeKind::Tuple(list) && out == list.elems()[index as int],
{
    match tuple.kind() {
        NodeKind::Tuple(values) => values.get(index).dup(),
        _ => vstd::pervasive::unreached(),
    }
}

/// The node a read of a local variable is built as: a rational variable
/// holds its numerator, over a denominator of one.
pub open spec fn read_stack_variable_node(id: usize, typ: Type) -> X86NodeRef {
    if typ == Type::Real {
        real_node(
            node(Type::Int, NodeKind::ReadStackVariable { id, width: typ.spec_width() }),
            constant_node(1, Type::Int),
        )
    } else {
        node(typ, NodeKind::ReadStackVariable { id, width: typ.spec_width() })
    }
}

/// Builds a read of the local variable `id`.
pub fn read_stack_variable(id: usize, typ: Type) -> (out: X86NodeRef)
    ensures
        out == read_stack_variable_node(id, typ),
{
    let width = typ.width();
    if typ == Type::Real {
        let numerator = mk_node(Type::Int, NodeKind::ReadStackVariable { id, width });
        let denominator = constant(1, Type::Int);
        create_real(numerator, denominator)
    } else {
        mk_node(typ, NodeKind::ReadStackVariable { id, width })
    }
}

// ---------------------------------------------------------------- checks

/// Decides [`unary_defined`].
pub fn is_unary_defined(op: &UnaryOperationKind) -> (ok: bool)
    ensures
        ok == unary_defined(*op),
{
    match op {
        UnaryOperationKind::Not(_) => true,
        UnaryOperationKind::Complement(_) => true,
        UnaryOperationKind::Ceil(v) => match v.kind() {
            NodeKind::Real { numerator, denominator } => !(matches!(numerator.kind(), NodeKind::Constant { .. })
                && matches!(denominator.kind(), NodeKind::Constant { .. })),
            _ => false,
        },
        UnaryOperationKind::Floor(v) => match v.kind() {
            NodeKind::Real { numerator, denominator } => match (numerator.kind(), denominator.kind()) {
                (NodeKind::Constant { value: n, .. }, NodeKind::Constant { value: d, .. }) => {
                    numerator.typ() == Type::Signed(64) && denominator.typ() == Type::Signed(64) && *d
                        != 0 && !(*n == 0x8000_0000_0000_0000 && *d == u64::MAX)
                },
                _ => true,
            },
            _ => false,
        },
        UnaryOperationKind::Negate(v) => match v.kind() {
            NodeKind::Constant { value, .. } => {
                let signed = match v.typ() {
                    Type::Signed(_) => true,
                    _ => false,
                };
                signed && v.typ().width() != 0 && *value != 0x8000_0000_0000_0000
            },
            _ => true,
        },
        UnaryOperationKind::Absolute(v) => match v.kind() {
            NodeKind::Constant { value, width } => v.typ() == Type::Signed(64) && *width == 64 && *value
                != 0x8000_0000_0000_0000,
            _ => true,
        },
        UnaryOperationKind::Power2(_) => false,
        UnaryOperationKind::SquareRoot(_) => false,
    }
}

/// Decides [`cast_defined`].
pub fn is_cast_defined(value: &X86NodeRef, target: Type, kind: CastOperationKind) -> (ok: bool)
    ensures
        ok == cast_defined(*value, target, kind),
{
    match value.kind() {
        NodeKind::Constant { value: c, .. } => {
            let w = value.typ().width();
            target != Type::Bits && target.width() != 0 && (!(kind == CastOperationKind::SignExtend
                && *c != 0) || (1 <= w && w <= 64))
        },
        _ => true,
    }
}

/// Decides [`shift_defined`].
pub fn is_shift_defined(value: &X86NodeRef, amount: &X86NodeRef, kind: ShiftOperationKind) -> (ok: bool)
    ensures
        ok == shift_defined(*value, *amount, kind),
{
    match (value.kind(), amount.kind()) {
        (NodeKind::Constant { value: v, width }, NodeKind::Constant { value: a, .. }) => {
            value.typ().width() != 0 && match kind {
                ShiftOperationKind::LogicalShiftLeft => !(*v != 0 && *a != 0) || *a <= u32::MAX as u64,
                ShiftOperationKind::LogicalShiftRight => *a <= u32::MAX as u64,
                ShiftOperationKind::ArithmeticShiftRight => (*width == 64 && *a < 64) || (*width == 32
                    && *a < 32),
                _ => false,
            }
        },
        _ => true,
    }
}

/// A selection on a constant condition is the true value where the
/// condition is not zero and the false value where it is zero.
pub proof fn law_select_constant(condition: X86NodeRef, true_value: X86NodeRef, false_value: X86NodeRef, c: u64)
    requires
        condition.const_value() == Some(c),
    ensures
        c != 0 ==> select_node(condition, true_value, false_value) == true_value,
        c == 0 ==> select_node(condition, true_value, false_value) == false_value,
{
}

} // verus!
