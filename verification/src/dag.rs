//! A graph of guest semantics in which every node is numbered and refers
//! to its operands by number.
use vstd::prelude::*;

verus! {

/// Numbers nodes as they are made.
pub struct Dag {
    next_id: usize,
}

/// A node of the graph.
#[derive(Debug, PartialEq, Eq)]
pub struct DagNode {
    pub id: usize,
    pub kind: DagNodeKind,
}

/// A block of the graph.
#[derive(Debug, Clone, Copy, PartialEq, Eq, Structural)]
pub struct DagBlock {
    pub id: usize,
}

/// Operations on one value.
#[derive(Debug, Clone, Copy, PartialEq, Eq, Structural)]
pub enum DagUnOpKind {
    Not,
}

/// Operations on two values.
#[derive(Debug, Clone, Copy, PartialEq, Eq, Structural)]
pub enum DagBinOpKind {
    Add,
}

/// Operations on three values.
#[derive(Debug, Clone, Copy, PartialEq, Eq, Structural)]
pub enum DagTernOpKind {
    Select,
}

/// How a value changes type.
#[derive(Debug, Clone, Copy, PartialEq, Eq, Structural)]
pub enum DagCastKind {
    ZeroExtend,
}

/// The kinds of shift.
#[derive(Debug, Clone, Copy, PartialEq, Eq, Structural)]
pub enum DagShiftKind {
    Left,
    Right,
    ArithmeticRight,
}

/// What a node computes; operands are node numbers.
#[derive(Debug, PartialEq, Eq)]
pub enum DagNodeKind {
    Constant(u64),
    FunctionPointer(u64),
    CreateBits { value: usize, length: usize },
    SizeOf { value: usize },
    CreateTuple { values: Vec<usize> },
    AccessTuple { tuple: usize, index: usize },
    UnOp { kind: DagUnOpKind, value: usize },
    BinOp { kind: DagBinOpKind, lhs: usize, rhs: usize },
    TernOp { kind: DagTernOpKind, a: usize, b: usize, c: usize },
    Cast { kind: DagCastKind, value: usize },
    BitsCast { kind: DagCastKind, length: usize, value: usize },
    Shift { kind: DagShiftKind, value: usize, amount: usize },
    BitExtract { value: usize, offset: usize, length: usize },
    BitInsert { original: usize, value: usize, offset: usize, length: usize },
    BitReplicate { pattern: usize, count: usize },
    Select { condition: usize, true_value: usize, false_value: usize },
    GetFlags { expression: usize },
    ReadRegister { offset: usize },
    ReadMemory { offset: usize },
    ReadVariable { id: usize },
    Call { func: usize },
}

/// The number after `id`, wrapping around at the end of `usize`.
pub open spec fn following_id(id: usize) -> usize {
    if id == usize::MAX {
        0
    } else {
        (id + 1) as usize
    }
}

impl Dag {
    /// The number the next node gets.
    pub closed spec fn spec_next_id(&self) -> usize {
        self.next_id
    }

    /// A graph whose first node is numbered zero.
    pub fn new() -> (r: Dag)
        ensures
            r.spec_next_id() == 0,
    {
        Dag { next_id: 0 }
    }

    /// Hands out the next node number.
    pub fn get_next_id(&mut self) -> (r: usize)
        ensures
            r == old(self).spec_next_id(),
            final(self).spec_next_id() == following_id(old(self).spec_next_id()),
    {
        let id = self.next_id;
        self.next_id = if id == usize::MAX {
            0
        } else {
            id + 1
        };
        id
    }

    fn new_node(&mut self, kind: DagNodeKind) -> (r: DagNode)
        ensures
            r.id == old(self).spec_next_id(),
            r.kind == kind,
            final(self).spec_next_id() == following_id(old(self).spec_next_id()),
    {
        let id = self.get_next_id();
        DagNode { id, kind }
    }

    /// A constant node.
    pub fn constant(&mut self, value: u64) -> (r: DagNode)
        ensures
            r.id == old(self).spec_next_id(),
            r.kind == DagNodeKind::Constant(value),
            final(self).spec_next_id() == following_id(old(self).spec_next_id()),
    {
        self.new_node(DagNodeKind::Constant(value))
    }

    /// A node of the address of a host function.
    pub fn function_ptr(&mut self, value: u64) -> (r: DagNode)
        ensures
            r.id == old(self).spec_next_id(),
            r.kind == DagNodeKind::FunctionPointer(value),
            final(self).spec_next_id() == following_id(old(self).spec_next_id()),
    {
        self.new_node(DagNodeKind::FunctionPointer(value))
    }

    /// A node of `value` as a bit vector of `length` bits.
    pub fn create_bits(&mut self, value: &DagNode, length: &DagNode) -> (r: DagNode)
        ensures
            r.id == old(self).spec_next_id(),
            r.kind == (DagNodeKind::CreateBits { value: value.id, length: length.id }),
            final(self).spec_next_id() == following_id(old(self).spec_next_id()),
    {
        self.new_node(DagNodeKind::CreateBits { value: value.id, length: length.id })
    }

    /// A node of the width of `value`.
    pub fn size_of(&mut self, value: &DagNode) -> (r: DagNode)
        ensures
            r.id == old(self).spec_next_id(),
            r.kind == (DagNodeKind::SizeOf { value: value.id }),
            final(self).spec_next_id() == following_id(old(self).spec_next_id()),
    {
        self.new_node(DagNodeKind::SizeOf { value: value.id })
    }

    /// A tuple node of `values`, in order.
    pub fn create_tuple(&mut self, values: &Vec<DagNode>) -> (r: DagNode)
        ensures
            r.id == old(self).spec_next_id(),
            r.kind matches DagNodeKind::CreateTuple { values: ids } && ids@.len() == values@.len() && forall|i: int|
                0 <= i < values@.len() ==> #[trigger] ids@[i] == values@[i].id,
            final(self).spec_next_id() == following_id(old(self).spec_next_id()),
    {
        let mut ids: Vec<usize> = Vec::new();
        let mut i: usize = 0;
        while i < values.len()
            invariant
                i <= values@.len(),
                ids@.len() == i,
                forall|j: int| 0 <= j < i ==> #[trigger] ids@[j] == values@[j].id,
            decreases values@.len() - i,
        {
            ids.push(values[i].id);
            i = i + 1;
        }
        self.new_node(DagNodeKind::CreateTuple { values: ids })
    }

    /// A node of the element at `index` of `tuple`.
    pub fn access_tuple(&mut self, tuple: &DagNode, index: usize) -> (r: DagNode)
        ensures
            r.id == old(self).spec_next_id(),
            r.kind == (DagNodeKind::AccessTuple { tuple: tuple.id, index }),
            final(self).spec_next_id() == following_id(old(self).spec_next_id()),
    {
        self.new_node(DagNodeKind::AccessTuple { tuple: tuple.id, index })
    }
}

} // verus!
