//! The expression graph the x86 emitter builds from guest semantics before
//! lowering it to instructions.
use vstd::prelude::*;
use crate::encoder::Operand;

verus! {

/// The type of a value of the expression graph.
#[derive(Debug, Clone, Copy, PartialEq, Eq, Structural, Hash)]
pub enum Type {
    Unsigned(u32),
    Signed(u32),
    Floating(u32),
    Bits,
    Int,
    Tuple,
    Real,
}

impl Type {
    /// The number of bits of a value of the type; bit vectors and integers
    /// are held in 64 bits, tuples and rationals have no width of their own.
    pub open spec fn spec_width(self) -> u32 {
        match self {
            Type::Unsigned(w) => w,
            Type::Signed(w) => w,
            Type::Floating(w) => w,
            Type::Bits => 64,
            Type::Int => 64,
            Type::Tuple => 0,
            Type::Real => 0,
        }
    }

    /// The number of bits of a value of the type.
    pub fn width(&self) -> (r: u32)
        ensures
            r == self.spec_width(),
    {
        match self {
            Type::Unsigned(w) => *w,
            Type::Signed(w) => *w,
            Type::Floating(w) => *w,
            Type::Bits => 64,
            Type::Int => 64,
            Type::Tuple => 0,
            Type::Real => 0,
        }
    }
}

/// A node of the graph, owned by the node that refers to it.
#[derive(Debug)]
pub struct X86NodeRef(pub Box<X86Node>);

/// A node of the graph: a typed value.
#[derive(Debug)]
pub struct X86Node {
    pub typ: Type,
    pub kind: NodeKind,
}

/// What a node computes.
#[derive(Debug)]
pub enum NodeKind {
    Constant { value: u64, width: u32 },
    Operand(Operand),
    FunctionPointer(u64),
    GuestRegister { offset: u64 },
    UnaryOperation(UnaryOperationKind),
    BinaryOperation(BinaryOperationKind),
    TernaryOperation(TernaryOperationKind),
    Cast { value: X86NodeRef, kind: CastOperationKind },
    Shift { value: X86NodeRef, amount: X86NodeRef, kind: ShiftOperationKind },
    ReadStackVariable { id: usize, width: u32 },
    BitExtract { value: X86NodeRef, start: X86NodeRef, length: X86NodeRef },
    BitInsert { target: X86NodeRef, source: X86NodeRef, start: X86NodeRef, length: X86NodeRef },
    BitReplicate { pattern: X86NodeRef, count: X86NodeRef },
    GetFlags { operation: X86NodeRef },
    Real { numerator: X86NodeRef, denominator: X86NodeRef },
    Tuple(NodeList),
    Select { condition: X86NodeRef, true_value: X86NodeRef, false_value: X86NodeRef },
    CallReturnValue,
}

/// The elements of a tuple node, first element first.
#[derive(Debug)]
pub enum NodeList {
    Nil,
    Cons(X86NodeRef, Box<NodeList>),
}

impl NodeList {
    /// The elements in order.
    pub open spec fn elems(self) -> Seq<X86NodeRef>
        decreases self,
    {
        match self {
            NodeList::Nil => seq![],
            NodeList::Cons(head, tail) => seq![head] + tail.elems(),
        }
    }

    /// A copy of the list.
    pub fn dup(&self) -> (r: NodeList)
        ensures
            r == *self,
        decreases *self,
    {
        match self {
            NodeList::Nil => NodeList::Nil,
            NodeList::Cons(head, tail) => NodeList::Cons(head.dup(), Box::new(tail.dup())),
        }
    }

    /// The list of the elements of a vector, in order.
    pub fn from_vec(values: Vec<X86NodeRef>) -> (r: NodeList)
        ensures
            r.elems() == values@,
    {
        let mut values = values;
        let mut list = NodeList::Nil;
        let ghost orig = values@;
        while values.len() > 0
            invariant
                orig == values@ + list.elems(),
            decreases values.len(),
        {
            let ghost before = values@;
            let ghost old_list = list.elems();
            let last = values.pop().unwrap();
            proof {
                assert(before =~= values@.push(last));
            }
            list = NodeList::Cons(last, Box::new(list));
            proof {
                assert(list.elems() =~= seq![last] + old_list);
                assert(orig =~= values@ + list.elems());
            }
        }
        proof {
            assert(orig =~= list.elems());
        }
        list
    }

    /// The element at `index`.
    pub fn get(&self, index: usize) -> (r: &X86NodeRef)
        requires
            index < self.elems().len(),
        ensures
            *r == self.elems()[index as int],
        decreases *self,
    {
        match self {
            NodeList::Nil => vstd::pervasive::unreached(),
            NodeList::Cons(head, tail) => {
                if index == 0 {
                    head
                } else {
                    tail.get(index - 1)
                }
            },
        }
    }
}

/// Operations on two values.
#[derive(Debug)]
pub enum BinaryOperationKind {
    Add(X86NodeRef, X86NodeRef),
    Sub(X86NodeRef, X86NodeRef),
    Multiply(X86NodeRef, X86NodeRef),
    Divide(X86NodeRef, X86NodeRef),
    Modulo(X86NodeRef, X86NodeRef),
    And(X86NodeRef, X86NodeRef),
    Or(X86NodeRef, X86NodeRef),
    Xor(X86NodeRef, X86NodeRef),
    PowI(X86NodeRef, X86NodeRef),
    CompareEqual(X86NodeRef, X86NodeRef),
    CompareNotEqual(X86NodeRef, X86NodeRef),
    CompareLessThan(X86NodeRef, X86NodeRef),
    CompareLessThanOrEqual(X86NodeRef, X86NodeRef),
    CompareGreaterThan(X86NodeRef, X86NodeRef),
    CompareGreaterThanOrEqual(X86NodeRef, X86NodeRef),
}

/// Operations on one value.
#[derive(Debug)]
pub enum UnaryOperationKind {
    Not(X86NodeRef),
    Negate(X86NodeRef),
    Complement(X86NodeRef),
    Power2(X86NodeRef),
    Absolute(X86NodeRef),
    Ceil(X86NodeRef),
    Floor(X86NodeRef),
    SquareRoot(X86NodeRef),
}

/// Operations on three values.
#[derive(Debug)]
pub enum TernaryOperationKind {
    AddWithCarry(X86NodeRef, X86NodeRef, X86NodeRef),
}

/// How a value changes type.
#[derive(Debug, Clone, Copy, PartialEq, Eq, Structural, Hash)]
pub enum CastOperationKind {
    ZeroExtend,
    SignExtend,
    Truncate,
    Reinterpret,
    Convert,
    Broadcast,
}

/// The kinds of shift.
#[derive(Debug, Clone, Copy, PartialEq, Eq, Structural, Hash)]
pub enum ShiftOperationKind {
    LogicalShiftLeft,
    LogicalShiftRight,
    ArithmeticShiftRight,
    RotateRight,
    RotateLeft,
}

impl Clone for X86NodeRef {
    fn clone(&self) -> (r: X86NodeRef)
        ensures
            r == *self,
    {
        self.dup()
    }
}

impl X86NodeRef {
    /// A copy of the node and of everything below it.
    pub fn dup(&self) -> (r: X86NodeRef)
        ensures
            r == *self,
        decreases *self,
    {
        X86NodeRef(Box::new(X86Node { typ: self.0.typ, kind: dup_kind(&self.0.kind) }))
    }

    /// What the node computes.
    pub fn kind(&self) -> (r: &NodeKind)
        ensures
            *r == self.0.kind,
    {
        &self.0.kind
    }

    /// The node's type.
    pub fn typ(&self) -> (r: Type)
        ensures
            r == self.0.typ,
    {
        self.0.typ
    }

    /// The value of a constant node.
    pub open spec fn const_value(self) -> Option<u64> {
        match self.0.kind {
            NodeKind::Constant { value, .. } => Some(value),
            _ => None,
        }
    }

    /// The width recorded in a constant node.
    pub open spec fn const_width(self) -> u32 {
        match self.0.kind {
            NodeKind::Constant { width, .. } => width,
            _ => 0,
        }
    }

    /// Whether the node is a constant.
    pub open spec fn is_const(self) -> bool {
        self.0.kind is Constant
    }

    /// Whether the node is a rational.
    pub open spec fn is_real(self) -> bool {
        self.0.kind is Real
    }
}

impl BinaryOperationKind {
    /// The operands of the operation.
    pub open spec fn spec_children(self) -> (X86NodeRef, X86NodeRef) {
        match self {
            BinaryOperationKind::Add(l, r) => (l, r),
            BinaryOperationKind::Sub(l, r) => (l, r),
            BinaryOperationKind::Multiply(l, r) => (l, r),
            BinaryOperationKind::Divide(l, r) => (l, r),
            BinaryOperationKind::Modulo(l, r) => (l, r),
            BinaryOperationKind::And(l, r) => (l, r),
            BinaryOperationKind::Or(l, r) => (l, r),
            BinaryOperationKind::Xor(l, r) => (l, r),
            BinaryOperationKind::PowI(l, r) => (l, r),
            BinaryOperationKind::CompareEqual(l, r) => (l, r),
            BinaryOperationKind::CompareNotEqual(l, r) => (l, r),
            BinaryOperationKind::CompareLessThan(l, r) => (l, r),
            BinaryOperationKind::CompareLessThanOrEqual(l, r) => (l, r),
            BinaryOperationKind::CompareGreaterThan(l, r) => (l, r),
            BinaryOperationKind::CompareGreaterThanOrEqual(l, r) => (l, r),
        }
    }

    /// Whether two operations are the same operation, whatever their
    /// operands.
    pub open spec fn same_kind(self, other: BinaryOperationKind) -> bool {
        match (self, other) {
            (BinaryOperationKind::Add(..), BinaryOperationKind::Add(..)) => true,
            (BinaryOperationKind::Sub(..), BinaryOperationKind::Sub(..)) => true,
            (BinaryOperationKind::Multiply(..), BinaryOperationKind::Multiply(..)) => true,
            (BinaryOperationKind::Divide(..), BinaryOperationKind::Divide(..)) => true,
            (BinaryOperationKind::Modulo(..), BinaryOperationKind::Modulo(..)) => true,
            (BinaryOperationKind::And(..), BinaryOperationKind::And(..)) => true,
            (BinaryOperationKind::Or(..), BinaryOperationKind::Or(..)) => true,
            (BinaryOperationKind::Xor(..), BinaryOperationKind::Xor(..)) => true,
            (BinaryOperationKind::PowI(..), BinaryOperationKind::PowI(..)) => true,
            (BinaryOperationKind::CompareEqual(..), BinaryOperationKind::CompareEqual(..)) => true,
            (
                BinaryOperationKind::CompareNotEqual(..),
                BinaryOperationKind::CompareNotEqual(..),
            ) => true,
            (
                BinaryOperationKind::CompareLessThan(..),
                BinaryOperationKind::CompareLessThan(..),
            ) => true,
            (
                BinaryOperationKind::CompareLessThanOrEqual(..),
                BinaryOperationKind::CompareLessThanOrEqual(..),
            ) => true,
            (
                BinaryOperationKind::CompareGreaterThan(..),
                BinaryOperationKind::CompareGreaterThan(..),
            ) => true,
            (
                BinaryOperationKind::CompareGreaterThanOrEqual(..),
                BinaryOperationKind::CompareGreaterThanOrEqual(..),
            ) => true,
            _ => false,
        }
    }

    /// Whether the operation is a comparison.
    pub open spec fn is_compare(self) -> bool {
        self is CompareEqual || self is CompareNotEqual || self is CompareLessThan
            || self is CompareLessThanOrEqual || self is CompareGreaterThan
            || self is CompareGreaterThanOrEqual
    }

    /// The operands of the operation.
    pub fn children(&self) -> (r: (&X86NodeRef, &X86NodeRef))
        ensures
            (*r.0, *r.1) == self.spec_children(),
    {
        match self {
            BinaryOperationKind::Add(left, right)
            | BinaryOperationKind::Sub(left, right)
            | BinaryOperationKind::Multiply(left, right)
            | BinaryOperationKind::Divide(left, right)
            | BinaryOperationKind::Modulo(left, right)
            | BinaryOperationKind::And(left, right)
            | BinaryOperationKind::Or(left, right)
            | BinaryOperationKind::Xor(left, right)
            | BinaryOperationKind::PowI(left, right)
            | BinaryOperationKind::CompareEqual(left, right)
            | BinaryOperationKind::CompareNotEqual(left, right)
            | BinaryOperationKind::CompareLessThan(left, right)
            | BinaryOperationKind::CompareLessThanOrEqual(left, right)
            | BinaryOperationKind::CompareGreaterThan(left, right)
            | BinaryOperationKind::CompareGreaterThanOrEqual(left, right) => (left, right),
        }
    }

    /// The same operation as `self` on the operands `left` and `right`.
    pub open spec fn with_children(self, left: X86NodeRef, right: X86NodeRef) -> BinaryOperationKind {
        match self {
            BinaryOperationKind::Add(..) => BinaryOperationKind::Add(left, right),
            BinaryOperationKind::Sub(..) => BinaryOperationKind::Sub(left, right),
            BinaryOperationKind::Multiply(..) => BinaryOperationKind::Multiply(left, right),
            BinaryOperationKind::Divide(..) => BinaryOperationKind::Divide(left, right),
            BinaryOperationKind::Modulo(..) => BinaryOperationKind::Modulo(left, right),
            BinaryOperationKind::And(..) => BinaryOperationKind::And(left, right),
            BinaryOperationKind::Or(..) => BinaryOperationKind::Or(left, right),
            BinaryOperationKind::Xor(..) => BinaryOperationKind::Xor(left, right),
            BinaryOperationKind::PowI(..) => BinaryOperationKind::PowI(left, right),
            BinaryOperationKind::CompareEqual(..) => BinaryOperationKind::CompareEqual(left, right),
            BinaryOperationKind::CompareNotEqual(..) => BinaryOperationKind::CompareNotEqual(
                left,
                right,
            ),
            BinaryOperationKind::CompareLessThan(..) => BinaryOperationKind::CompareLessThan(
                left,
                right,
            ),
            BinaryOperationKind::CompareLessThanOrEqual(
                ..,
            ) => BinaryOperationKind::CompareLessThanOrEqual(left, right),
            BinaryOperationKind::CompareGreaterThan(..) => BinaryOperationKind::CompareGreaterThan(
                left,
                right,
            ),
            BinaryOperationKind::CompareGreaterThanOrEqual(
                ..,
            ) => BinaryOperationKind::CompareGreaterThanOrEqual(left, right),
        }
    }

    /// The same operation as `kind` on new operands.
    pub fn new_with_kind(kind: &Self, left: X86NodeRef, right: X86NodeRef) -> (r: Self)
        ensures
            r == kind.with_children(left, right),
            r.same_kind(*kind),
            r.spec_children() == (left, right),
    {
        match kind {
            BinaryOperationKind::Add(_, _) => BinaryOperationKind::Add(left, right),
            BinaryOperationKind::Sub(_, _) => BinaryOperationKind::Sub(left, right),
            BinaryOperationKind::Multiply(_, _) => BinaryOperationKind::Multiply(left, right),
            BinaryOperationKind::Divide(_, _) => BinaryOperationKind::Divide(left, right),
            BinaryOperationKind::Modulo(_, _) => BinaryOperationKind::Modulo(left, right),
            BinaryOperationKind::And(_, _) => BinaryOperationKind::And(left, right),
            BinaryOperationKind::Or(_, _) => BinaryOperationKind::Or(left, right),
            BinaryOperationKind::Xor(_, _) => BinaryOperationKind::Xor(left, right),
            BinaryOperationKind::PowI(_, _) => BinaryOperationKind::PowI(left, right),
            BinaryOperationKind::CompareEqual(_, _) => BinaryOperationKind::CompareEqual(
                left,
                right,
            ),
            BinaryOperationKind::CompareNotEqual(_, _) => BinaryOperationKind::CompareNotEqual(
                left,
                right,
            ),
            BinaryOperationKind::CompareLessThan(_, _) => BinaryOperationKind::CompareLessThan(
                left,
                right,
            ),
            BinaryOperationKind::CompareLessThanOrEqual(
                _,
                _,
            ) => BinaryOperationKind::CompareLessThanOrEqual(left, right),
            BinaryOperationKind::CompareGreaterThan(
                _,
                _,
            ) => BinaryOperationKind::CompareGreaterThan(left, right),
            BinaryOperationKind::CompareGreaterThanOrEqual(
                _,
                _,
            ) => BinaryOperationKind::CompareGreaterThanOrEqual(left, right),
        }
    }
}

fn dup_kind(k: &NodeKind) -> (r: NodeKind)
    ensures
        r == *k,
    decreases *k,
{
    match k {
        NodeKind::Constant { value, width } => NodeKind::Constant { value: *value, width: *width },
        NodeKind::Operand(o) => NodeKind::Operand(*o),
        NodeKind::FunctionPointer(f) => NodeKind::FunctionPointer(*f),
        NodeKind::GuestRegister { offset } => NodeKind::GuestRegister { offset: *offset },
        NodeKind::UnaryOperation(u) => NodeKind::UnaryOperation(match u {
            UnaryOperationKind::Not(a) => UnaryOperationKind::Not(a.dup()),
            UnaryOperationKind::Negate(a) => UnaryOperationKind::Negate(a.dup()),
            UnaryOperationKind::Complement(a) => UnaryOperationKind::Complement(a.dup()),
            UnaryOperationKind::Power2(a) => UnaryOperationKind::Power2(a.dup()),
            UnaryOperationKind::Absolute(a) => UnaryOperationKind::Absolute(a.dup()),
            UnaryOperationKind::Ceil(a) => UnaryOperationKind::Ceil(a.dup()),
            UnaryOperationKind::Floor(a) => UnaryOperationKind::Floor(a.dup()),
            UnaryOperationKind::SquareRoot(a) => UnaryOperationKind::SquareRoot(a.dup()),
        }),
        NodeKind::BinaryOperation(b) => NodeKind::BinaryOperation(match b {
            BinaryOperationKind::Add(l, r) => BinaryOperationKind::Add(l.dup(), r.dup()),
            BinaryOperationKind::Sub(l, r) => BinaryOperationKind::Sub(l.dup(), r.dup()),
            BinaryOperationKind::Multiply(l, r) => BinaryOperationKind::Multiply(l.dup(), r.dup()),
            BinaryOperationKind::Divide(l, r) => BinaryOperationKind::Divide(l.dup(), r.dup()),
            BinaryOperationKind::Modulo(l, r) => BinaryOperationKind::Modulo(l.dup(), r.dup()),
            BinaryOperationKind::And(l, r) => BinaryOperationKind::And(l.dup(), r.dup()),
            BinaryOperationKind::Or(l, r) => BinaryOperationKind::Or(l.dup(), r.dup()),
            BinaryOperationKind::Xor(l, r) => BinaryOperationKind::Xor(l.dup(), r.dup()),
            BinaryOperationKind::PowI(l, r) => BinaryOperationKind::PowI(l.dup(), r.dup()),
            BinaryOperationKind::CompareEqual(l, r) => BinaryOperationKind::CompareEqual(l.dup(), r.dup()),
            BinaryOperationKind::CompareNotEqual(l, r) => BinaryOperationKind::CompareNotEqual(l.dup(), r.dup()),
            BinaryOperationKind::CompareLessThan(l, r) => BinaryOperationKind::CompareLessThan(l.dup(), r.dup()),
            BinaryOperationKind::CompareLessThanOrEqual(l, r) => BinaryOperationKind::CompareLessThanOrEqual(l.dup(), r.dup()),
            BinaryOperationKind::CompareGreaterThan(l, r) => BinaryOperationKind::CompareGreaterThan(l.dup(), r.dup()),
            BinaryOperationKind::CompareGreaterThanOrEqual(l, r) => BinaryOperationKind::CompareGreaterThanOrEqual(l.dup(), r.dup()),
        }),
        NodeKind::TernaryOperation(TernaryOperationKind::AddWithCarry(a, b, c)) => NodeKind::TernaryOperation(
            TernaryOperationKind::AddWithCarry(a.dup(), b.dup(), c.dup()),
        ),
        NodeKind::Cast { value, kind } => NodeKind::Cast { value: value.dup(), kind: *kind },
        NodeKind::Shift { value, amount, kind } => NodeKind::Shift { value: value.dup(), amount: amount.dup(), kind: *kind },
        NodeKind::ReadStackVariable { id, width } => NodeKind::ReadStackVariable { id: *id, width: *width },
        NodeKind::BitExtract { value, start, length } => NodeKind::BitExtract { value: value.dup(), start: start.dup(), length: length.dup() },
        NodeKind::BitInsert { target, source, start, length } => NodeKind::BitInsert {
            target: target.dup(),
            source: source.dup(),
            start: start.dup(),
            length: length.dup(),
        },
        NodeKind::BitReplicate { pattern, count } => NodeKind::BitReplicate { pattern: pattern.dup(), count: count.dup() },
        NodeKind::GetFlags { operation } => NodeKind::GetFlags { operation: operation.dup() },
        NodeKind::Real { numerator, denominator } => NodeKind::Real { numerator: numerator.dup(), denominator: denominator.dup() },
        NodeKind::Tuple(values) => NodeKind::Tuple(values.dup()),
        NodeKind::Select { condition, true_value, false_value } => NodeKind::Select {
            condition: condition.dup(),
            true_value: true_value.dup(),
            false_value: false_value.dup(),
        },
        NodeKind::CallReturnValue => NodeKind::CallReturnValue,
    }
}

/// A new node of the given type and kind.
pub fn mk_node(typ: Type, kind: NodeKind) -> (r: X86NodeRef)
    ensures
        r.0.typ == typ,
        r.0.kind == kind,
{
    X86NodeRef(Box::new(X86Node { typ, kind }))
}


/// Whether two nodes are the same, field by field and child by child.
pub fn node_eq(a: &X86NodeRef, b: &X86NodeRef) -> (r: bool)
    ensures
        r == (*a == *b),
    decreases *a,
{
    if a.0.typ != b.0.typ {
        return false;
    }
    kind_eq(&a.0.kind, &b.0.kind)
}

fn list_eq(a: &NodeList, b: &NodeList) -> (r: bool)
    ensures
        r == (*a == *b),
    decreases *a,
{
    match (a, b) {
        (NodeList::Nil, NodeList::Nil) => true,
        (NodeList::Cons(x, xs), NodeList::Cons(y, ys)) => node_eq(x, y) && list_eq(xs, ys),
        _ => false,
    }
}

fn binary_eq(a: &BinaryOperationKind, b: &BinaryOperationKind) -> (r: bool)
    ensures
        r == (*a == *b),
    decreases *a,
{
    match (a, b) {
        (BinaryOperationKind::Add(l1, r1), BinaryOperationKind::Add(l2, r2)) => node_eq(l1, l2) && node_eq(r1, r2),
        (BinaryOperationKind::Sub(l1, r1), BinaryOperationKind::Sub(l2, r2)) => node_eq(l1, l2) && node_eq(r1, r2),
        (BinaryOperationKind::Multiply(l1, r1), BinaryOperationKind::Multiply(l2, r2)) => node_eq(l1, l2) && node_eq(r1, r2),
        (BinaryOperationKind::Divide(l1, r1), BinaryOperationKind::Divide(l2, r2)) => node_eq(l1, l2) && node_eq(r1, r2),
        (BinaryOperationKind::Modulo(l1, r1), BinaryOperationKind::Modulo(l2, r2)) => node_eq(l1, l2) && node_eq(r1, r2),
        (BinaryOperationKind::And(l1, r1), BinaryOperationKind::And(l2, r2)) => node_eq(l1, l2) && node_eq(r1, r2),
        (BinaryOperationKind::Or(l1, r1), BinaryOperationKind::Or(l2, r2)) => node_eq(l1, l2) && node_eq(r1, r2),
        (BinaryOperationKind::Xor(l1, r1), BinaryOperationKind::Xor(l2, r2)) => node_eq(l1, l2) && node_eq(r1, r2),
        (BinaryOperationKind::PowI(l1, r1), BinaryOperationKind::PowI(l2, r2)) => node_eq(l1, l2) && node_eq(r1, r2),
        (BinaryOperationKind::CompareEqual(l1, r1), BinaryOperationKind::CompareEqual(l2, r2)) => node_eq(l1, l2) && node_eq(r1, r2),
        (BinaryOperationKind::CompareNotEqual(l1, r1), BinaryOperationKind::CompareNotEqual(l2, r2)) => node_eq(l1, l2) && node_eq(r1, r2),
        (BinaryOperationKind::CompareLessThan(l1, r1), BinaryOperationKind::CompareLessThan(l2, r2)) => node_eq(l1, l2) && node_eq(r1, r2),
        (BinaryOperationKind::CompareLessThanOrEqual(l1, r1), BinaryOperationKind::CompareLessThanOrEqual(l2, r2)) => node_eq(l1, l2) && node_eq(r1, r2),
        (BinaryOperationKind::CompareGreaterThan(l1, r1), BinaryOperationKind::CompareGreaterThan(l2, r2)) => node_eq(l1, l2) && node_eq(r1, r2),
        (BinaryOperationKind::CompareGreaterThanOrEqual(l1, r1), BinaryOperationKind::CompareGreaterThanOrEqual(l2, r2)) => node_eq(l1, l2) && node_eq(r1, r2),
        _ => false,
    }
}

fn unary_eq(a: &UnaryOperationKind, b: &UnaryOperationKind) -> (r: bool)
    ensures
        r == (*a == *b),
    decreases *a,
{
    match (a, b) {
        (UnaryOperationKind::Not(x), UnaryOperationKind::Not(y)) => node_eq(x, y),
        (UnaryOperationKind::Negate(x), UnaryOperationKind::Negate(y)) => node_eq(x, y),
        (UnaryOperationKind::Complement(x), UnaryOperationKind::Complement(y)) => node_eq(x, y),
        (UnaryOperationKind::Power2(x), UnaryOperationKind::Power2(y)) => node_eq(x, y),
        (UnaryOperationKind::Absolute(x), UnaryOperationKind::Absolute(y)) => node_eq(x, y),
        (UnaryOperationKind::Ceil(x), UnaryOperationKind::Ceil(y)) => node_eq(x, y),
        (UnaryOperationKind::Floor(x), UnaryOperationKind::Floor(y)) => node_eq(x, y),
        (UnaryOperationKind::SquareRoot(x), UnaryOperationKind::SquareRoot(y)) => node_eq(x, y),
        _ => false,
    }
}

fn kind_eq(a: &NodeKind, b: &NodeKind) -> (r: bool)
    ensures
        r == (*a == *b),
    decreases *a,
{
    match (a, b) {
        (NodeKind::Constant { value: v1, width: w1 }, NodeKind::Constant { value: v2, width: w2 }) => v1 == v2 && w1 == w2,
        (NodeKind::Operand(x), NodeKind::Operand(y)) => x == y,
        (NodeKind::FunctionPointer(x), NodeKind::FunctionPointer(y)) => x == y,
        (NodeKind::GuestRegister { offset: x }, NodeKind::GuestRegister { offset: y }) => x == y,
        (NodeKind::UnaryOperation(x), NodeKind::UnaryOperation(y)) => unary_eq(x, y),
        (NodeKind::BinaryOperation(x), NodeKind::BinaryOperation(y)) => binary_eq(x, y),
        (
            NodeKind::TernaryOperation(TernaryOperationKind::AddWithCarry(a1, b1, c1)),
            NodeKind::TernaryOperation(TernaryOperationKind::AddWithCarry(a2, b2, c2)),
        ) => node_eq(a1, a2) && node_eq(b1, b2) && node_eq(c1, c2),
        (NodeKind::Cast { value: v1, kind: k1 }, NodeKind::Cast { value: v2, kind: k2 }) => *k1 == *k2 && node_eq(v1, v2),
        (
            NodeKind::Shift { value: v1, amount: a1, kind: k1 },
            NodeKind::Shift { value: v2, amount: a2, kind: k2 },
        ) => *k1 == *k2 && node_eq(v1, v2) && node_eq(a1, a2),
        (
            NodeKind::ReadStackVariable { id: i1, width: w1 },
            NodeKind::ReadStackVariable { id: i2, width: w2 },
        ) => i1 == i2 && w1 == w2,
        (
            NodeKind::BitExtract { value: v1, start: s1, length: l1 },
            NodeKind::BitExtract { value: v2, start: s2, length: l2 },
        ) => node_eq(v1, v2) && node_eq(s1, s2) && node_eq(l1, l2),
        (
            NodeKind::BitInsert { target: t1, source: o1, start: s1, length: l1 },
            NodeKind::BitInsert { target: t2, source: o2, start: s2, length: l2 },
        ) => node_eq(t1, t2) && node_eq(o1, o2) && node_eq(s1, s2) && node_eq(l1, l2),
        (
            NodeKind::BitReplicate { pattern: p1, count: c1 },
            NodeKind::BitReplicate { pattern: p2, count: c2 },
        ) => node_eq(p1, p2) && node_eq(c1, c2),
        (NodeKind::GetFlags { operation: x }, NodeKind::GetFlags { operation: y }) => node_eq(x, y),
        (
            NodeKind::Real { numerator: n1, denominator: d1 },
            NodeKind::Real { numerator: n2, denominator: d2 },
        ) => node_eq(n1, n2) && node_eq(d1, d2),
        (NodeKind::Tuple(x), NodeKind::Tuple(y)) => list_eq(x, y),
        (
            NodeKind::Select { condition: c1, true_value: t1, false_value: f1 },
            NodeKind::Select { condition: c2, true_value: t2, false_value: f2 },
        ) => node_eq(c1, c2) && node_eq(t1, t2) && node_eq(f1, f2),
        (NodeKind::CallReturnValue, NodeKind::CallReturnValue) => true,
        _ => false,
    }
}

} // verus!
