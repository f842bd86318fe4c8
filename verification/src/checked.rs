//! Node builders that refuse, rather than require away, the operands on
//! which building is not defined; the instruction selector builds its
//! helper expressions through them.
use vstd::prelude::*;
use crate::emitter::EmitError;
use crate::extract::{bit_extract_defined, bit_insert_defined, bit_extract, bit_extract_node, bit_insert, bit_insert_node, is_bit_extract_defined, is_bit_insert_defined};
use crate::fold::{binary_defined, binary_node, binary_operation, constant, constant_node, is_binary_defined};
use crate::ir::{BinaryOperationKind, CastOperationKind, ShiftOperationKind, Type, UnaryOperationKind, X86NodeRef};
use crate::unary::{cast_defined, shift_defined, unary_defined, cast, cast_node, is_cast_defined, is_shift_defined, is_unary_defined, shift, shift_node, unary_node, unary_operation};

verus! {

/// `f` applied to the value of `o`, where it has one.
pub open spec fn bind<A, B>(o: Option<A>, f: spec_fn(A) -> Option<B>) -> Option<B> {
    match o {
        Some(a) => f(a),
        None => None,
    }
}

/// The node, or the error every builder here refuses with.
pub open spec fn built<A>(o: Option<A>) -> Result<A, EmitError> {
    match o {
        Some(a) => Ok(a),
        None => Err(EmitError::Unsupported),
    }
}

/// The constant node, where its type has a width.
pub open spec fn checked_constant(value: u64, typ: Type) -> Option<X86NodeRef> {
    if typ.spec_width() != 0 { Some(constant_node(value, typ)) } else { None }
}

/// The node of a two-operand operation, where it is defined.
pub open spec fn checked_binary(op: BinaryOperationKind) -> Option<X86NodeRef> {
    if binary_defined(op) { Some(binary_node(op)) } else { None }
}

/// The node of a one-operand operation, where it is defined.
pub open spec fn checked_unary(op: UnaryOperationKind) -> Option<X86NodeRef> {
    if unary_defined(op) { Some(unary_node(op)) } else { None }
}

/// The node of a cast, where it is defined.
pub open spec fn checked_cast(value: X86NodeRef, target: Type, kind: CastOperationKind) -> Option<X86NodeRef> {
    if cast_defined(value, target, kind) { Some(cast_node(value, target, kind)) } else { None }
}

/// The node of a shift, where it is defined.
pub open spec fn checked_shift(value: X86NodeRef, amount: X86NodeRef, kind: ShiftOperationKind) -> Option<X86NodeRef> {
    if shift_defined(value, amount, kind) { Some(shift_node(value, amount, kind)) } else { None }
}

/// The node of an extraction, where it is defined.
pub open spec fn checked_bit_extract(value: X86NodeRef, start: X86NodeRef, length: X86NodeRef) -> Option<X86NodeRef> {
    if bit_extract_defined(value, start, length) { Some(bit_extract_node(value, start, length)) } else { None }
}

/// The node of an insertion, where it is defined.
pub open spec fn checked_bit_insert(target: X86NodeRef, source: X86NodeRef, start: X86NodeRef, length: X86NodeRef) -> Option<
    X86NodeRef,
> {
    if bit_insert_defined(target, source, start, length) {
        Some(bit_insert_node(target, source, start, length))
    } else {
        None
    }
}

/// A constant, where its type has a width.
pub fn try_constant(value: u64, typ: Type) -> (r: Result<X86NodeRef, EmitError>)
    ensures
        typ.spec_width() != 0 <==> r is Ok,
        r == built(checked_constant(value, typ)),
        r matches Ok(n) ==> n == constant_node(value, typ),
{
    if typ.width() == 0 {
        return Err(EmitError::Unsupported);
    }
    Ok(constant(value, typ))
}

/// A two-operand operation, where building it is defined.
pub fn try_binary(op: BinaryOperationKind) -> (r: Result<X86NodeRef, EmitError>)
    ensures
        r is Ok <==> binary_defined(op),
        r == built(checked_binary(op)),
        r matches Ok(n) ==> n == binary_node(op),
{
    if !is_binary_defined(&op) {
        return Err(EmitError::Unsupported);
    }
    Ok(binary_operation(op))
}

/// A one-operand operation, where building it is defined.
pub fn try_unary(op: UnaryOperationKind) -> (r: Result<X86NodeRef, EmitError>)
    ensures
        r is Ok <==> unary_defined(op),
        r == built(checked_unary(op)),
        r matches Ok(n) ==> n == unary_node(op),
{
    if !is_unary_defined(&op) {
        return Err(EmitError::Unsupported);
    }
    Ok(unary_operation(op))
}

/// A cast, where building it is defined.
pub fn try_cast(value: X86NodeRef, target: Type, kind: CastOperationKind) -> (r: Result<X86NodeRef, EmitError>)
    ensures
        r is Ok <==> cast_defined(value, target, kind),
        r == built(checked_cast(value, target, kind)),
        r matches Ok(n) ==> n == cast_node(value, target, kind),
{
    if !is_cast_defined(&value, target, kind) {
        return Err(EmitError::Unsupported);
    }
    Ok(cast(value, target, kind))
}

/// A shift, where building it is defined.
pub fn try_shift(value: X86NodeRef, amount: X86NodeRef, kind: ShiftOperationKind) -> (r: Result<X86NodeRef, EmitError>)
    ensures
        r is Ok <==> shift_defined(value, amount, kind),
        r == built(checked_shift(value, amount, kind)),
        r matches Ok(n) ==> n == shift_node(value, amount, kind),
{
    if !is_shift_defined(&value, &amount, kind) {
        return Err(EmitError::Unsupported);
    }
    Ok(shift(value, amount, kind))
}

/// An extraction, where building it is defined.
pub fn try_bit_extract(value: X86NodeRef, start: X86NodeRef, length: X86NodeRef) -> (r: Result<X86NodeRef, EmitError>)
    ensures
        r is Ok <==> bit_extract_defined(value, start, length),
        r == built(checked_bit_extract(value, start, length)),
        r matches Ok(n) ==> n == bit_extract_node(value, start, length),
{
    if !is_bit_extract_defined(&value, &start, &length) {
        return Err(EmitError::Unsupported);
    }
    Ok(bit_extract(value, start, length))
}

/// An insertion, where building it is defined.
pub fn try_bit_insert(target: X86NodeRef, source: X86NodeRef, start: X86NodeRef, length: X86NodeRef) -> (r:
    Result<X86NodeRef, EmitError>)
    ensures
        r is Ok <==> bit_insert_defined(target, source, start, length),
        r == built(checked_bit_insert(target, source, start, length)),
        r matches Ok(n) ==> n == bit_insert_node(target, source, start, length),
{
    if !is_bit_insert_defined(&target, &source, &start, &length) {
        return Err(EmitError::Unsupported);
    }
    Ok(bit_insert(target, source, start, length))
}

} // verus!
