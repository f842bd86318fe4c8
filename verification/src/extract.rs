//! Building bit-field operations of the expression graph: extraction,
//! insertion, replication, resizing and sizes, folding constants and
//! looking through insertions as they are built.
use vstd::prelude::*;
use crate::bits::{bit_extract_spec, bit_insert_spec, mask, mask_spec};
use crate::fold::{and_defined, and_node, constant, constant_node, fold_and, node};
use crate::ir::{BinaryOperationKind, CastOperationKind, NodeKind, ShiftOperationKind, Type, X86NodeRef, mk_node};
use crate::unary::{
    cast, cast_defined, cast_node, is_cast_defined, is_shift_defined, read_register, shift,
    shift_defined, shift_node, sign_extend, sign_extend_value,
};
use crate::fold::is_and_defined;
use crate::width::Width;

verus! {

// ---------------------------------------------------------------- insert

/// Whether building the insertion is defined: a fully constant insertion
/// (into at most 64 bits) must be one that [`crate::bits::bit_insert`]
/// accepts, into a target with a width; an insertion at bit zero must give
/// widths to the length and to the source, and to the target where those
/// two agree.
pub open spec fn bit_insert_defined(
    target: X86NodeRef,
    source: X86NodeRef,
    start: X86NodeRef,
    length: X86NodeRef,
) -> bool {
    match (target.0.kind, source.0.kind, start.0.kind, length.0.kind) {
        (
            NodeKind::Constant { width: tw, .. },
            NodeKind::Constant { value: s, .. },
            NodeKind::Constant { value: st, .. },
            NodeKind::Constant { value: l, .. },
        ) if tw <= 64 => (st >= 64 ==> s == 0) && l <= u32::MAX && tw != 0,
        _ => match (start.0.kind, length.0.kind) {
            (NodeKind::Constant { value: st, .. }, NodeKind::Constant { value: l, .. }) => st
                == 0 ==> {
                &&& l != 0
                &&& source.0.typ.spec_width() != 0
                &&& Width::canonical(l) == Width::canonical(source.0.typ.spec_width() as u64)
                    ==> target.0.typ.spec_width() != 0
            },
            _ => true,
        },
    }
}

/// The node an insertion is built as: a fully constant insertion into at
/// most 64 bits is folded, an insertion at bit zero of as many bits as the
/// source and the target both have replaces the whole target and is the
/// source itself, and
/// anything else becomes an insertion node of the target's type.
pub open spec fn bit_insert_node(
    target: X86NodeRef,
    source: X86NodeRef,
    start: X86NodeRef,
    length: X86NodeRef,
) -> X86NodeRef {
    match (target.0.kind, source.0.kind, start.0.kind, length.0.kind) {
        (
            NodeKind::Constant { value: t, width: tw },
            NodeKind::Constant { value: s, .. },
            NodeKind::Constant { value: st, .. },
            NodeKind::Constant { value: l, .. },
        ) if tw <= 64 => constant_node(bit_insert_spec(t, s, st, l), Type::Unsigned(tw)),
        _ => match (start.0.kind, length.0.kind) {
            (NodeKind::Constant { value: st, .. }, NodeKind::Constant { value: l, .. }) if st
                == 0 && l == source.0.typ.spec_width() && l == target.0.typ.spec_width() => {
                source
            },
            _ => node(target.0.typ, NodeKind::BitInsert { target, source, start, length }),
        },
    }
}

/// Builds an insertion of the low `length` bits of `source` into `target`
/// at bit `start`.
pub fn bit_insert(target: X86NodeRef, source: X86NodeRef, start: X86NodeRef, length: X86NodeRef) -> (out:
    X86NodeRef)
    requires
        bit_insert_defined(target, source, start, length),
    ensures
        out == bit_insert_node(target, source, start, length),
{
    let typ = target.typ();
    if let (
        NodeKind::Constant { value: t, width: tw },
        NodeKind::Constant { value: s, .. },
        NodeKind::Constant { value: st, .. },
        NodeKind::Constant { value: l, .. },
    ) = (target.kind(), source.kind(), start.kind(), length.kind()) {
        if *tw <= 64 {
            let v = crate::bits::bit_insert(*t, *s, *st, *l);
            return constant(v, Type::Unsigned(*tw));
        }
    }
    let mut whole = false;
    if let (NodeKind::Constant { value: st, .. }, NodeKind::Constant { value: l, .. }) = (
        start.kind(),
        length.kind(),
    ) {
        if *st == 0 {
            let source_bits = source.typ().width() as u64;
            let target_bits = target.typ().width() as u64;
            whole = *l == source_bits && *l == target_bits;
        }
    }
    if whole {
        return source;
    }
    mk_node(typ, NodeKind::BitInsert { target, source, start, length })
}

// ---------------------------------------------------------------- extract

/// What an extraction of `length` bits from bit `start` reads: the value
/// before a zero-extension of an unsigned value where that value already
/// held the bits, else the value itself.
pub open spec fn extract_source(value: X86NodeRef, start: u64, length: u64) -> X86NodeRef {
    match (value.0.kind, value.0.typ) {
        (
            NodeKind::Cast { value: pre, kind: CastOperationKind::ZeroExtend },
            Type::Unsigned(_),
        ) => if pre.0.typ.spec_width() >= start + length {
            pre
        } else {
            value
        },
        _ => value,
    }
}

/// Whether `length` is the size of a whole register.
pub open spec fn is_register_size(length: u64) -> bool {
    length == 8 || length == 16 || length == 32 || length == 64 || length == 128
}

/// A signed 64-bit constant.
pub open spec fn s64(value: u64) -> X86NodeRef {
    constant_node(value, Type::Signed(64))
}

/// Whether position `x` lies in the inserted target's bits below `bits_start`.
pub open spec fn in_below(x: u64, bits_start: u64) -> bool {
    x < bits_start
}

/// Whether position `x` lies in the inserted bits `bits_start .. bits_start + bits_length`.
pub open spec fn in_inserted(x: u64, bits_start: u64, bits_length: u64) -> bool {
    bits_start <= x < bits_start + bits_length
}

/// Whether building the extraction is defined (see [`bit_extract_node`]).
pub open spec fn bit_extract_defined(value: X86NodeRef, start: X86NodeRef, length: X86NodeRef) -> bool
    decreases value,
{
    match (value.0.kind, start.0.kind, length.0.kind) {
        (
            NodeKind::Constant { .. },
            NodeKind::Constant { value: s, .. },
            NodeKind::Constant { value: l, .. },
        ) => s < 64 && l <= u32::MAX && l != 0,
        (
            NodeKind::BitInsert {
                target: t,
                source: src,
                start: inserted_start,
                length: inserted_length,
            },
            NodeKind::Constant { value: es, .. },
            NodeKind::Constant { value: el, .. },
        ) => match (inserted_start.0.kind, inserted_length.0.kind) {
            (NodeKind::Constant { value: si, .. }, NodeKind::Constant { value: li, .. }) => {
                if es == si && el == li {
                    true
                } else if es == 0 && el == si {
                    el <= u32::MAX && cast_defined(t, Type::Unsigned(el as u32), CastOperationKind::Truncate)
                } else {
                    &&& es + el <= u64::MAX
                    &&& es + el >= 1
                    &&& si + li <= u64::MAX
                    &&& {
                        let end = (es + el - 1) as u64;
                        if in_below(es, si) && in_below(end, si) {
                            bit_extract_defined(t, s64(es), s64(el))
                        } else if in_inserted(es, si, li) && in_inserted(end, si, li) {
                            bit_extract_defined(src, s64((es - si) as u64), s64(el))
                        } else if in_below(es, si) && in_inserted(end, si, li) {
                            let below_length = (si - es) as u64;
                            let inserted_part = (el - below_length) as u64;
                            let low = bit_extract_node(t, s64(es), s64(below_length));
                            let high = bit_extract_node(src, s64(0), s64(inserted_part));
                            let widened = cast_node(
                                low,
                                Type::Unsigned(el as u32),
                                CastOperationKind::ZeroExtend,
                            );
                            &&& el <= u32::MAX
                            &&& bit_extract_defined(t, s64(es), s64(below_length))
                            &&& bit_extract_defined(src, s64(0), s64(inserted_part))
                            &&& cast_defined(low, Type::Unsigned(el as u32), CastOperationKind::ZeroExtend)
                            &&& bit_insert_defined(widened, high, s64(below_length), s64(inserted_part))
                        } else {
                            false
                        }
                    }
                }
            },
            _ => false,
        },
        (
            NodeKind::BinaryOperation(BinaryOperationKind::Multiply(..)),
            NodeKind::Constant { value: 64, .. },
            NodeKind::Constant { value: 64, .. },
        ) => true,
        (_, NodeKind::Constant { value: s, .. }, NodeKind::Constant { value: l, .. }) => {
            &&& (value.0.kind is Cast && value.0.typ is Unsigned) ==> s + l <= u64::MAX
            &&& {
                let v = extract_source(value, s, l);
                if v.0.kind is GuestRegister && is_register_size(l) {
                    &&& value.0.typ is Unsigned
                    &&& s % 8 == 0
                    &&& v.0.kind->offset + s / 8 <= u64::MAX
                } else {
                    let shifted = shift_node(v, start, ShiftOperationKind::LogicalShiftRight);
                    let narrowed = cast_node(
                        shifted,
                        Type::Unsigned(l as u32),
                        CastOperationKind::Truncate,
                    );
                    &&& l <= u32::MAX
                    &&& shift_defined(v, start, ShiftOperationKind::LogicalShiftRight)
                    &&& cast_defined(shifted, Type::Unsigned(l as u32), CastOperationKind::Truncate)
                    &&& narrowed.0.typ.spec_width() != 0
                    &&& and_defined(
                        narrowed,
                        constant_node(mask_spec(l as u32), narrowed.0.typ),
                    )
                }
            }
        },
        (_, _, NodeKind::Constant { value: l, .. }) => l <= u32::MAX,
        _ => true,
    }
}

/// The node an extraction of `length` bits of `value` from bit `start` is
/// built as:
/// - all constant: the extracted bits, as a constant of `length` bits;
/// - from an insertion, with constant bounds: the inserted source when the
///   bounds are those of the insertion, the target truncated when the
///   bounds are exactly the target's bits below the insertion, an
///   extraction from the target or from the source when the bounds lie
///   within one of them, and the two pieces joined by an insertion when the
///   bounds start in the target and end in the source;
/// - the high 64 bits of a product: left for the instruction selector;
/// - other constant bounds: a read of the register bytes for a whole
///   register read from a guest register, else the value shifted right,
///   truncated and masked;
/// - a constant length only: an extraction node of `length` bits;
/// - otherwise an extraction node of the value's type.
pub open spec fn bit_extract_node(value: X86NodeRef, start: X86NodeRef, length: X86NodeRef) -> X86NodeRef
    decreases value,
{
    let typ = value.0.typ;
    match (value.0.kind, start.0.kind, length.0.kind) {
        (
            NodeKind::Constant { value: v, .. },
            NodeKind::Constant { value: s, .. },
            NodeKind::Constant { value: l, .. },
        ) => constant_node(bit_extract_spec(v, s, l), Type::Unsigned(l as u32)),
        (
            NodeKind::BitInsert {
                target: t,
                source: src,
                start: inserted_start,
                length: inserted_length,
            },
            NodeKind::Constant { value: es, .. },
            NodeKind::Constant { value: el, .. },
        ) => {
            let si = inserted_start.const_value().unwrap();
            let li = inserted_length.const_value().unwrap();
            if es == si && el == li {
                src
            } else if es == 0 && el == si {
                cast_node(t, Type::Unsigned(el as u32), CastOperationKind::Truncate)
            } else {
                let end = (es + el - 1) as u64;
                if in_below(es, si) && in_below(end, si) {
                    bit_extract_node(t, s64(es), s64(el))
                } else if in_inserted(es, si, li) && in_inserted(end, si, li) {
                    bit_extract_node(src, s64((es - si) as u64), s64(el))
                } else {
                    let below_length = (si - es) as u64;
                    let inserted_part = (el - below_length) as u64;
                    let low = bit_extract_node(t, s64(es), s64(below_length));
                    let high = bit_extract_node(src, s64(0), s64(inserted_part));
                    bit_insert_node(
                        cast_node(low, Type::Unsigned(el as u32), CastOperationKind::ZeroExtend),
                        high,
                        s64(below_length),
                        s64(inserted_part),
                    )
                }
            }
        },
        (
            NodeKind::BinaryOperation(BinaryOperationKind::Multiply(..)),
            NodeKind::Constant { value: 64, .. },
            NodeKind::Constant { value: 64, .. },
        ) => node(typ, NodeKind::BitExtract { value, start, length }),
        (_, NodeKind::Constant { value: s, .. }, NodeKind::Constant { value: l, .. }) => {
            let v = extract_source(value, s, l);
            if v.0.kind is GuestRegister && is_register_size(l) {
                node(
                    Type::Unsigned(l as u32),
                    NodeKind::GuestRegister { offset: (v.0.kind->offset + s / 8) as u64 },
                )
            } else {
                let shifted = shift_node(v, start, ShiftOperationKind::LogicalShiftRight);
                let narrowed = cast_node(
                    shifted,
                    Type::Unsigned(l as u32),
                    CastOperationKind::Truncate,
                );
                and_node(narrowed, constant_node(mask_spec(l as u32), narrowed.0.typ))
            }
        },
        (_, _, NodeKind::Constant { value: l, .. }) => node(
            Type::Unsigned(l as u32),
            NodeKind::BitExtract { value, start, length },
        ),
        _ => node(typ, NodeKind::BitExtract { value, start, length }),
    }
}

/// The value of a constant node that is known to be one.
fn const_of(n: &X86NodeRef) -> (r: u64)
    requires
        n.is_const(),
    ensures
        Some(r) == n.const_value(),
{
    match n.kind() {
        NodeKind::Constant { value, .. } => *value,
        _ => vstd::pervasive::unreached(),
    }
}

/// Builds an extraction of `length` bits of `value` from bit `start`.
pub fn bit_extract(value: X86NodeRef, start: X86NodeRef, length: X86NodeRef) -> (out: X86NodeRef)
    requires
        bit_extract_defined(value, start, length),
    ensures
        out == bit_extract_node(value, start, length),
    decreases value,
{
    let typ = value.typ();
    match (value.kind(), start.kind(), length.kind()) {
        (
            NodeKind::Constant { value: v, .. },
            NodeKind::Constant { value: s, .. },
            NodeKind::Constant { value: l, .. },
        ) => {
            let bits = crate::bits::bit_extract(*v, *s, *l);
            return constant(bits, Type::Unsigned(*l as u32));
        },
        (
            NodeKind::BitInsert {
                target: t,
                source: src,
                start: inserted_start,
                length: inserted_length,
            },
            NodeKind::Constant { value: es, .. },
            NodeKind::Constant { value: el, .. },
        ) => {
            let si = const_of(inserted_start);
            let li = const_of(inserted_length);
            let es = *es;
            let el = *el;
            if es == si && el == li {
                return src.dup();
            }
            if es == 0 && el == si {
                return cast(t.dup(), Type::Unsigned(el as u32), CastOperationKind::Truncate);
            }
            let end = es + el - 1;
            let start_below = es < si;
            let end_below = end < si;
            let start_inserted = si <= es && es < si + li;
            let end_inserted = si <= end && end < si + li;
            if start_below && end_below {
                return bit_extract(
                    t.dup(),
                    constant(es, Type::Signed(64)),
                    constant(el, Type::Signed(64)),
                );
            }
            if start_inserted && end_inserted {
                return bit_extract(
                    src.dup(),
                    constant(es - si, Type::Signed(64)),
                    constant(el, Type::Signed(64)),
                );
            }
            let below_length = si - es;
            let inserted_part = el - below_length;
            let low = bit_extract(
                t.dup(),
                constant(es, Type::Signed(64)),
                constant(below_length, Type::Signed(64)),
            );
            let high = bit_extract(
                src.dup(),
                constant(0, Type::Signed(64)),
                constant(inserted_part, Type::Signed(64)),
            );
            let widened = cast(low, Type::Unsigned(el as u32), CastOperationKind::ZeroExtend);
            return bit_insert(
                widened,
                high,
                constant(below_length, Type::Signed(64)),
                constant(inserted_part, Type::Signed(64)),
            );
        },
        (
            NodeKind::BinaryOperation(BinaryOperationKind::Multiply(..)),
            NodeKind::Constant { value: 64, .. },
            NodeKind::Constant { value: 64, .. },
        ) => {},
        (_, NodeKind::Constant { value: s, .. }, NodeKind::Constant { value: l, .. }) => {
            let s = *s;
            let l = *l;
            let mut narrow_to_pre = false;
            if let (NodeKind::Cast { value: pre, kind: CastOperationKind::ZeroExtend }, Type::Unsigned(_)) = (value.kind(), typ) {
                narrow_to_pre = pre.typ().width() as u64 >= s + l;
            }
            let v = if narrow_to_pre {
                match value.kind() {
                    NodeKind::Cast { value: pre, .. } => pre.dup(),
                    _ => vstd::pervasive::unreached(),
                }
            } else {
                value.dup()
            };
            assert(v == extract_source(value, s, l));
            if let NodeKind::GuestRegister { offset } = v.kind() {
                if l == 8 || l == 16 || l == 32 || l == 64 || l == 128 {
                    let new_typ = match typ {
                        Type::Unsigned(_) => Type::Unsigned(l as u32),
                        _ => vstd::pervasive::unreached(),
                    };
                    return read_register(*offset + s / 8, new_typ);
                }
            }
            let shifted = shift(v, start.dup(), ShiftOperationKind::LogicalShiftRight);
            let narrowed = cast(shifted, Type::Unsigned(l as u32), CastOperationKind::Truncate);
            let m = constant(mask(l as u32), narrowed.typ());
            return fold_and(narrowed, m);
        },
        (_, _, NodeKind::Constant { value: l, .. }) => {
            let t = Type::Unsigned(*l as u32);
            return mk_node(t, NodeKind::BitExtract { value, start, length });
        },
        _ => {},
    }
    mk_node(typ, NodeKind::BitExtract { value, start, length })
}

// ---------------------------------------------------------------- replicate

/// `pattern` written `1 + count` times one after the other, the first copy
/// highest, each `width` bits apart (kept within 64 bits).
pub open spec fn replicate_value(pattern: u64, width: u32, count: nat) -> u64
    decreases count,
{
    if count == 0 {
        pattern
    } else {
        (replicate_value(pattern, width, (count - 1) as nat) << width) | pattern
    }
}

/// Whether building the replication is defined: for a constant pattern and
/// count, the count and the total width fit in 32 bits, the total width is
/// not zero, and a pattern copied more than once is narrower than 64 bits.
pub open spec fn bit_replicate_defined(pattern: X86NodeRef, count: X86NodeRef) -> bool {
    match (pattern.0.kind, count.0.kind) {
        (NodeKind::Constant { width, .. }, NodeKind::Constant { value: c, .. }) => {
            &&& c <= u32::MAX
            &&& width * c <= u32::MAX
            &&& width * c != 0
            &&& c >= 2 ==> width < 64
        },
        _ => true,
    }
}

/// The node a replication is built as: constants are replicated into a
/// constant of the total width, anything else becomes a replication node
/// of 64 bits.
pub open spec fn bit_replicate_node(pattern: X86NodeRef, count: X86NodeRef) -> X86NodeRef {
    match (pattern.0.kind, count.0.kind) {
        (NodeKind::Constant { value: p, width }, NodeKind::Constant { value: c, .. }) => constant_node(
            replicate_value(p, width, if c >= 1 { (c - 1) as nat } else { 0 }),
            Type::Unsigned((width * c) as u32),
        ),
        _ => node(Type::Unsigned(64), NodeKind::BitReplicate { pattern, count }),
    }
}

/// Builds a replication of `pattern`, `count` times.
pub fn bit_replicate(pattern: X86NodeRef, count: X86NodeRef) -> (out: X86NodeRef)
    requires
        bit_replicate_defined(pattern, count),
    ensures
        out == bit_replicate_node(pattern, count),
{
    if let (NodeKind::Constant { value: p, width }, NodeKind::Constant { value: c, .. }) = (
        pattern.kind(),
        count.kind(),
    ) {
        let mut dest = *p;
        let mut i: u64 = 1;
        while i < *c
            invariant
                1 <= i,
                i <= *c || i == 1,
                *c >= 2 ==> *width < 64,
                dest == replicate_value(*p, *width, (i - 1) as nat),
            decreases *c - i,
        {
            dest = (dest << *width) | *p;
            i = i + 1;
        }
        proof {
            if *c >= 1 {
                assert(i == *c);
                assert((i - 1) as nat == (*c - 1) as nat);
            } else {
                assert(i == 1);
            }
        }
        let total = *width * (*c as u32);
        return constant(dest, Type::Unsigned(total));
    }
    mk_node(Type::Unsigned(64), NodeKind::BitReplicate { pattern, count })
}

// ---------------------------------------------------------------- resizing

/// The type of a value of `typ` resized to `length` bits, for the integer
/// types that can be resized.
pub open spec fn resized_type(typ: Type, length: u32) -> Option<Type> {
    match typ {
        Type::Unsigned(_) => Some(Type::Unsigned(length)),
        Type::Bits => Some(Type::Unsigned(length)),
        Type::Signed(_) => Some(Type::Signed(length)),
        _ => None,
    }
}

/// Whether building the resize of `value` to `length` bits is defined:
/// a constant is truncated to no more than its width, and extended to no
/// less than its width (sign extension from 1 to 64 bits), within 32 bits,
/// to a non-zero width, from a type that can be resized; a non-constant
/// value sign-extended to a constant length must be a valid cast.
pub open spec fn bits_cast_defined(value: X86NodeRef, length: X86NodeRef, kind: CastOperationKind) -> bool {
    match (value.0.kind, length.0.kind) {
        (NodeKind::Constant { width, .. }, NodeKind::Constant { value: l, .. }) => match kind {
            CastOperationKind::Truncate => l <= u32::MAX && l <= width && l != 0 && resized_type(
                value.0.typ,
                l as u32,
            ) is Some,
            CastOperationKind::SignExtend => l <= u32::MAX && l >= width && l != 0 && resized_type(
                value.0.typ,
                l as u32,
            ) is Some && 1 <= width <= 64,
            CastOperationKind::ZeroExtend => l <= u32::MAX && l >= width && l != 0 && resized_type(
                value.0.typ,
                l as u32,
            ) is Some,
            _ => true,
        },
        (_, NodeKind::Constant { value: l, .. }) => kind == CastOperationKind::SignExtend ==> (l
            <= u32::MAX && cast_defined(value, Type::Signed(l as u32), kind)),
        _ => true,
    }
}

/// The node a resize of `value` to `length` bits is built as: constants
/// are truncated, sign-extended or zero-extended to a constant of the
/// resized type; a sign extension to a constant length becomes a cast to a
/// signed type of that length; anything else is the value itself.
pub open spec fn bits_cast_node(value: X86NodeRef, length: X86NodeRef, kind: CastOperationKind) -> X86NodeRef {
    match (value.0.kind, length.0.kind) {
        (NodeKind::Constant { value: v, width }, NodeKind::Constant { value: l, .. }) => match kind {
            CastOperationKind::Truncate => constant_node(
                v & mask_spec(l as u32),
                resized_type(value.0.typ, l as u32).unwrap(),
            ),
            CastOperationKind::SignExtend => constant_node(
                sign_extend_value(v, width) & mask_spec(l as u32),
                resized_type(value.0.typ, l as u32).unwrap(),
            ),
            CastOperationKind::ZeroExtend => constant_node(
                v,
                resized_type(value.0.typ, l as u32).unwrap(),
            ),
            _ => value,
        },
        (_, NodeKind::Constant { value: l, .. }) => if kind == CastOperationKind::SignExtend {
            cast_node(value, Type::Signed(l as u32), kind)
        } else {
            value
        },
        _ => value,
    }
}

fn resize_type(typ: Type, length: u32) -> (r: Type)
    requires
        resized_type(typ, length) is Some,
    ensures
        r == resized_type(typ, length).unwrap(),
{
    match typ {
        Type::Unsigned(_) => Type::Unsigned(length),
        Type::Bits => Type::Unsigned(length),
        Type::Signed(_) => Type::Signed(length),
        _ => vstd::pervasive::unreached(),
    }
}

/// Builds a resize of `value` to `length` bits; the requested type is not
/// used.
pub fn bits_cast(value: X86NodeRef, length: X86NodeRef, typ: Type, kind: CastOperationKind) -> (out:
    X86NodeRef)
    requires
        bits_cast_defined(value, length, kind),
    ensures
        out == bits_cast_node(value, length, kind),
{
    let mut sign_extend_to: Option<u32> = None;
    match (value.kind(), length.kind()) {
        (NodeKind::Constant { value: v, width }, NodeKind::Constant { value: l, .. }) => {
            let l32 = *l as u32;
            match kind {
                CastOperationKind::Truncate => {
                    let t = resize_type(value.typ(), l32);
                    return constant(*v & mask(l32), t);
                },
                CastOperationKind::SignExtend => {
                    let t = resize_type(value.typ(), l32);
                    let extended = sign_extend(*v, *width, 64);
                    return constant(extended & mask(l32), t);
                },
                CastOperationKind::ZeroExtend => {
                    let t = resize_type(value.typ(), l32);
                    return constant(*v, t);
                },
                _ => {},
            }
        },
        (_, NodeKind::Constant { value: l, .. }) => {
            if kind == CastOperationKind::SignExtend {
                sign_extend_to = Some(*l as u32);
            }
        },
        _ => {},
    }
    match sign_extend_to {
        Some(l) => cast(value, Type::Signed(l), kind),
        None => value,
    }
}

/// The kind of cast that takes `width` bits to `length` bits.
pub open spec fn resize_kind(width: u32, length: u32) -> CastOperationKind {
    if width < length {
        CastOperationKind::ZeroExtend
    } else if width == length {
        CastOperationKind::Reinterpret
    } else {
        CastOperationKind::Truncate
    }
}

/// Whether building a bit vector of `length` bits from `value` is defined:
/// for a constant length, within 32 bits, from an unsigned or signed value,
/// as a valid cast.
pub open spec fn create_bits_defined(value: X86NodeRef, length: X86NodeRef) -> bool {
    match length.0.kind {
        NodeKind::Constant { value: l, .. } => {
            &&& l <= u32::MAX
            &&& (value.0.typ is Unsigned || value.0.typ is Signed)
            &&& cast_defined(
                value,
                resized_type(value.0.typ, l as u32).unwrap(),
                resize_kind(value.0.typ.spec_width(), l as u32),
            )
        },
        _ => true,
    }
}

/// The node a bit vector of `length` bits made from `value` is built as:
/// for a constant length, `value` cast to that many bits of the same
/// signedness; otherwise the value itself.
pub open spec fn create_bits_node(value: X86NodeRef, length: X86NodeRef) -> X86NodeRef {
    match length.0.kind {
        NodeKind::Constant { value: l, .. } => cast_node(
            value,
            resized_type(value.0.typ, l as u32).unwrap(),
            resize_kind(value.0.typ.spec_width(), l as u32),
        ),
        _ => value,
    }
}

/// Builds a bit vector of `length` bits from `value`.
pub fn create_bits(value: X86NodeRef, length: X86NodeRef) -> (out: X86NodeRef)
    requires
        create_bits_defined(value, length),
    ensures
        out == create_bits_node(value, length),
{
    if let NodeKind::Constant { value: l, .. } = length.kind() {
        let l = *l as u32;
        let target = resize_type(value.typ(), l);
        let w = value.typ().width();
        let kind = if w < l {
            CastOperationKind::ZeroExtend
        } else if w == l {
            CastOperationKind::Reinterpret
        } else {
            CastOperationKind::Truncate
        };
        return cast(value, target, kind);
    }
    value
}

// ---------------------------------------------------------------- size

/// The number of bits of `value`, where it is known.
pub open spec fn size_bits(value: X86NodeRef) -> Option<u64> {
    match value.0.typ {
        Type::Unsigned(w) => Some(w as u64),
        Type::Signed(w) => Some(w as u64),
        Type::Floating(w) => Some(w as u64),
        Type::Bits => match value.0.kind {
            NodeKind::Constant { width, .. } => Some(width as u64),
            NodeKind::Cast { value: inner, kind: CastOperationKind::ZeroExtend } => match inner.0.typ {
                Type::Unsigned(w) => Some(w as u64),
                _ => None,
            },
            NodeKind::ReadStackVariable { .. } => Some(64),
            _ => None,
        },
        Type::Int => Some(64),
        _ => None,
    }
}

/// Builds the number of bits of `value` as a 16-bit constant.
pub fn size_of(value: X86NodeRef) -> (out: X86NodeRef)
    requires
        size_bits(value) is Some,
    ensures
        out == constant_node(size_bits(value).unwrap(), Type::Unsigned(16)),
{
    let bits: u64 = match value.typ() {
        Type::Unsigned(w) => w as u64,
        Type::Signed(w) => w as u64,
        Type::Floating(w) => w as u64,
        Type::Bits => match value.kind() {
            NodeKind::Constant { width, .. } => *width as u64,
            NodeKind::Cast { value: inner, kind: CastOperationKind::ZeroExtend } => match inner.typ() {
                Type::Unsigned(w) => w as u64,
                _ => vstd::pervasive::unreached(),
            },
            NodeKind::ReadStackVariable { .. } => 64,
            _ => vstd::pervasive::unreached(),
        },
        Type::Int => 64,
        _ => vstd::pervasive::unreached(),
    };
    constant(bits, Type::Unsigned(16))
}

// ---------------------------------------------------------------- checks

/// Decides [`bit_insert_defined`].
pub fn is_bit_insert_defined(
    target: &X86NodeRef,
    source: &X86NodeRef,
    start: &X86NodeRef,
    length: &X86NodeRef,
) -> (ok: bool)
    ensures
        ok == bit_insert_defined(*target, *source, *start, *length),
{
    if let (
        NodeKind::Constant { width: tw, .. },
        NodeKind::Constant { value: s, .. },
        NodeKind::Constant { value: st, .. },
        NodeKind::Constant { value: l, .. },
    ) = (target.kind(), source.kind(), start.kind(), length.kind()) {
        if *tw <= 64 {
            return (*st < 64 || *s == 0) && *l <= u32::MAX as u64 && *tw != 0;
        }
    }
    match (start.kind(), length.kind()) {
        (NodeKind::Constant { value: st, .. }, NodeKind::Constant { value: l, .. }) => {
            if *st != 0 {
                return true;
            }
            let sw = source.typ().width();
            if *l == 0 || sw == 0 {
                return false;
            }
            let same = Width::from_uncanonicalized(*l).unwrap() == Width::from_uncanonicalized(
                sw as u64,
            ).unwrap();
            !same || target.typ().width() != 0
        },
        _ => true,
    }
}

/// Decides [`bit_extract_defined`].
pub fn is_bit_extract_defined(value: &X86NodeRef, start: &X86NodeRef, length: &X86NodeRef) -> (ok: bool)
    ensures
        ok == bit_extract_defined(*value, *start, *length),
    decreases *value,
{
    match (value.kind(), start.kind(), length.kind()) {
        (
            NodeKind::Constant { .. },
            NodeKind::Constant { value: s, .. },
            NodeKind::Constant { value: l, .. },
        ) => *s < 64 && *l <= u32::MAX as u64 && *l != 0,
        (
            NodeKind::BitInsert {
                target: t,
                source: src,
                start: inserted_start,
                length: inserted_length,
            },
            NodeKind::Constant { value: es, .. },
            NodeKind::Constant { value: el, .. },
        ) => {
            let (si, li) = match (inserted_start.kind(), inserted_length.kind()) {
                (NodeKind::Constant { value: si, .. }, NodeKind::Constant { value: li, .. }) => (*si, *li),
                _ => return false,
            };
            let es = *es;
            let el = *el;
            if es == si && el == li {
                return true;
            }
            if es == 0 && el == si {
                return el <= u32::MAX as u64 && is_cast_defined(t, Type::Unsigned(el as u32), CastOperationKind::Truncate);
            }
            let sum = match es.checked_add(el) {
                Some(x) => x,
                None => return false,
            };
            if sum < 1 {
                return false;
            }
            let inserted_end = match si.checked_add(li) {
                Some(x) => x,
                None => return false,
            };
            let end = sum - 1;
            let start_below = es < si;
            let end_below = end < si;
            let start_inserted = si <= es && es < inserted_end;
            let end_inserted = si <= end && end < inserted_end;
            if start_below && end_below {
                let a = constant(es, Type::Signed(64));
                let b = constant(el, Type::Signed(64));
                return is_bit_extract_defined(t, &a, &b);
            }
            if start_inserted && end_inserted {
                let a = constant(es - si, Type::Signed(64));
                let b = constant(el, Type::Signed(64));
                return is_bit_extract_defined(src, &a, &b);
            }
            if start_below && end_inserted {
                let below_length = si - es;
                let inserted_part = el - below_length;
                if el > u32::MAX as u64 {
                    return false;
                }
                let s_low = constant(es, Type::Signed(64));
                let l_low = constant(below_length, Type::Signed(64));
                if !is_bit_extract_defined(t, &s_low, &l_low) {
                    return false;
                }
                let s_high = constant(0, Type::Signed(64));
                let l_high = constant(inserted_part, Type::Signed(64));
                if !is_bit_extract_defined(src, &s_high, &l_high) {
                    return false;
                }
                let low = bit_extract(t.dup(), s_low, l_low);
                let high = bit_extract(src.dup(), s_high, l_high);
                if !is_cast_defined(&low, Type::Unsigned(el as u32), CastOperationKind::ZeroExtend) {
                    return false;
                }
                let widened = cast(low, Type::Unsigned(el as u32), CastOperationKind::ZeroExtend);
                let at = constant(below_length, Type::Signed(64));
                let len = constant(inserted_part, Type::Signed(64));
                return is_bit_insert_defined(&widened, &high, &at, &len);
            }
            false
        },
        (
            NodeKind::BinaryOperation(BinaryOperationKind::Multiply(..)),
            NodeKind::Constant { value: 64, .. },
            NodeKind::Constant { value: 64, .. },
        ) => true,
        (_, NodeKind::Constant { value: s, .. }, NodeKind::Constant { value: l, .. }) => {
            let s = *s;
            let l = *l;
            let is_unsigned_cast = match (value.kind(), value.typ()) {
                (NodeKind::Cast { .. }, Type::Unsigned(_)) => true,
                _ => false,
            };
            if is_unsigned_cast && s.checked_add(l).is_none() {
                return false;
            }
            let mut narrow_to_pre = false;
            if let (NodeKind::Cast { value: pre, kind: CastOperationKind::ZeroExtend }, Type::Unsigned(_)) = (value.kind(), value.typ()) {
                narrow_to_pre = pre.typ().width() as u64 >= s + l;
            }
            let v = if narrow_to_pre {
                match value.kind() {
                    NodeKind::Cast { value: pre, .. } => pre.dup(),
                    _ => vstd::pervasive::unreached(),
                }
            } else {
                value.dup()
            };
            assert(v == extract_source(*value, s, l));
            if let NodeKind::GuestRegister { offset } = v.kind() {
                if l == 8 || l == 16 || l == 32 || l == 64 || l == 128 {
                    let unsigned = match value.typ() {
                        Type::Unsigned(_) => true,
                        _ => false,
                    };
                    return unsigned && s % 8 == 0 && offset.checked_add(s / 8).is_some();
                }
            }
            if l > u32::MAX as u64 {
                return false;
            }
            if !is_shift_defined(&v, start, ShiftOperationKind::LogicalShiftRight) {
                return false;
            }
            let shifted = shift(v, start.dup(), ShiftOperationKind::LogicalShiftRight);
            if !is_cast_defined(&shifted, Type::Unsigned(l as u32), CastOperationKind::Truncate) {
                return false;
            }
            let narrowed = cast(shifted, Type::Unsigned(l as u32), CastOperationKind::Truncate);
            if narrowed.typ().width() == 0 {
                return false;
            }
            let m = constant(mask(l as u32), narrowed.typ());
            is_and_defined(&narrowed, &m)
        },
        (_, _, NodeKind::Constant { value: l, .. }) => *l <= u32::MAX as u64,
        _ => true,
    }
}

/// Bit `i` of `(value >> start) & mask(length)` is bit `start + i` of
/// `value` below `length` and zero from `length` on.
proof fn lemma_extract_bits(value: u64, start: u64, length: u32, m: u64, i: u64)
    requires
        start < 64,
        i < 64,
        length < 64 ==> m == ((1u64 << length) - 1u64) as u64,
        length >= 64 ==> m == 0xffff_ffff_ffff_ffffu64,
    ensures
        ((((value >> start) & m) >> i) & 1u64 == 1u64) == (i < length && start + i < 64 && (value >> (start + i))
            & 1u64 == 1u64),
{
    if length < 64 {
        assert(((((value >> start) & m) >> i) & 1u64 == 1u64) == (i < length && start + i < 64 && (value >> (start
            + i)) & 1u64 == 1u64)) by (bit_vector)
            requires
                start < 64,
                i < 64,
                length < 64,
                m == ((1u64 << length) - 1u64) as u64,
        ;
    } else {
        assert(((((value >> start) & m) >> i) & 1u64 == 1u64) == (i < 64 && start + i < 64 && (value >> (start + i))
            & 1u64 == 1u64)) by (bit_vector)
            requires
                start < 64,
                i < 64,
                m == 0xffff_ffff_ffff_ffffu64,
        ;
    }
}

/// Extracting `length` bits from bit `start` of a constant gives a
/// constant of `length` bits whose bit `i` is bit `start + i` of the value
/// for each `i` below `length` (and below the value's 64 bits), every
/// higher bit being zero.
pub proof fn law_extract_constant_bits(value: X86NodeRef, start: X86NodeRef, length: X86NodeRef)
    requires
        value.0.kind is Constant,
        start.0.kind is Constant,
        length.0.kind is Constant,
        bit_extract_defined(value, start, length),
    ensures
        ({
            let out = bit_extract_node(value, start, length);
            let v = value.const_value().unwrap();
            let s = start.const_value().unwrap();
            let l = length.const_value().unwrap();
            &&& out.0.typ == Type::Unsigned(l as u32)
            &&& out.const_value() is Some
            &&& forall|i: u64|
                i < 64 ==> ((#[trigger] (out.const_value().unwrap() >> i)) & 1u64 == 1u64) == (i < l && s + i < 64 && (v
                    >> (s + i)) & 1u64 == 1u64)
        }),
{
    let v = value.const_value().unwrap();
    let s = start.const_value().unwrap();
    let l = length.const_value().unwrap();
    let out = bit_extract_node(value, start, length);
    let m = mask_spec(l as u32);
    assert(out.const_value().unwrap() == (v >> s) & m);
    assert forall|i: u64| i < 64 implies ((#[trigger] (out.const_value().unwrap() >> i)) & 1u64 == 1u64) == (i < l && s
        + i < 64 && (v >> (s + i)) & 1u64 == 1u64) by {
        lemma_extract_bits(v, s, l as u32, m, i);
    }
}

/// Extracting a whole register-sized field at a byte boundary from an
/// unsigned guest register read reads the register file directly: the
/// result is an unsigned read of `length` bits at the byte that holds bit
/// `start` of the register, `start / 8` bytes after its offset.
pub proof fn law_extract_register_byte(value: X86NodeRef, start: X86NodeRef, length: X86NodeRef)
    requires
        value.0.kind is GuestRegister,
        value.0.typ is Unsigned,
        start.0.kind is Constant,
        length.0.kind is Constant,
        is_register_size(length.const_value().unwrap()),
        bit_extract_defined(value, start, length),
    ensures
        ({
            let out = bit_extract_node(value, start, length);
            let s = start.const_value().unwrap();
            &&& out.0.kind is GuestRegister
            &&& out.0.typ == Type::Unsigned(length.const_value().unwrap() as u32)
            &&& (out.0.kind->offset - value.0.kind->offset) * 8 == s
        }),
{
}

} // verus!
