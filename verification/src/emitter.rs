//! The x86 emitter: builds expression nodes (folding what it can) and
//! selects instructions for them into the current block of a translation.
use vstd::prelude::*;
use crate::context::{X86TranslationContext, valid_ref};
use crate::encoder::{BlockRef, Instruction, Operand, OperandKind};
use crate::ir::{
    BinaryOperationKind, CastOperationKind, NodeKind, ShiftOperationKind, TernaryOperationKind, Type,
    UnaryOperationKind, X86Node, X86NodeRef, mk_node, node_eq,
};
use crate::encoder::{MemoryScale, Opcode};
use crate::checked::{
    bind, built, checked_binary, checked_bit_extract, checked_bit_insert, checked_cast, checked_constant, checked_shift,
    checked_unary, try_binary, try_bit_extract, try_bit_insert, try_cast, try_constant, try_shift, try_unary,
};
use crate::registers::{PhysicalRegister, Register, RegisterClass};
use crate::width::{Width, WidthError};

verus! {

/// Why the emitter could not select instructions for a node.
#[derive(Debug, Clone, Copy, PartialEq, Eq, Structural)]
pub enum EmitError {
    /// A width of a node is not an operand width.
    Width(WidthError),
    /// An instruction could not be formed from its operands.
    Instruction(crate::encoder::Error),
    /// The node or the combination of operands has no instructions.
    Unsupported,
    /// An offset does not fit in a 32-bit displacement.
    Displacement,
    /// The operands of an operation differ in width.
    WidthMismatch,
}

/// Errors of the x86 emitter.
#[derive(Debug, Clone, Copy, PartialEq, Eq, Structural)]
pub enum X86Error {
    /// Left and right types do not match in binary operation
    BinaryOperationTypeMismatch,
    /// Register allocation failed
    RegisterAllocation,
}

/// The reason a block raises the panic interrupt, as the vector it raises.
#[derive(Debug, Clone, Copy, PartialEq, Eq, Structural)]
pub enum PanicReason {
    UndefinedTerminator,
    DefaultTerminator,
    ConstantAssertFailed,
    PanicBlock,
    Match,
}

impl PanicReason {
    /// The vector raised for the reason.
    pub open spec fn spec_vector(self) -> u64 {
        match self {
            PanicReason::UndefinedTerminator => 0x50,
            PanicReason::DefaultTerminator => 0x51,
            PanicReason::ConstantAssertFailed => 0x52,
            PanicReason::PanicBlock => 0x53,
            PanicReason::Match => 0x54,
        }
    }

    /// The vector raised for the reason.
    pub fn vector(&self) -> (r: u64)
        ensures
            r == self.spec_vector(),
    {
        match self {
            PanicReason::UndefinedTerminator => 0x50,
            PanicReason::DefaultTerminator => 0x51,
            PanicReason::ConstantAssertFailed => 0x52,
            PanicReason::PanicBlock => 0x53,
            PanicReason::Match => 0x54,
        }
    }
}

/// Emits instructions into the blocks of a translation context.
pub struct X86Emitter {
    ctx: X86TranslationContext,
    current_block: BlockRef,
    current_block_operands: Vec<(X86NodeRef, Operand)>,
    panic_block: BlockRef,
    next_vreg: usize,
    need_tlb_invalidate: bool,
    sets_flags: Vec<(X86NodeRef, usize)>,
}

impl X86Emitter {
    /// The context being emitted into.
    pub closed spec fn context(&self) -> X86TranslationContext {
        self.ctx
    }

    /// The block instructions go into.
    pub closed spec fn current(&self) -> BlockRef {
        self.current_block
    }

    /// The number of virtual registers handed out so far.
    pub closed spec fn vregs(&self) -> nat {
        self.next_vreg as nat
    }

    /// The operands already computed for nodes in the current block.
    pub closed spec fn cache(&self) -> Seq<(X86NodeRef, Operand)> {
        self.current_block_operands@
    }

    /// The operations whose flags are kept, with the variable each keeps
    /// them in.
    pub closed spec fn flag_records(&self) -> Seq<(X86NodeRef, usize)> {
        self.sets_flags@
    }

    /// Whether leaving the translation asks for the TLB to be invalidated.
    pub closed spec fn tlb_invalidate(&self) -> bool {
        self.need_tlb_invalidate
    }

    /// The emitter's blocks are those of a consistent context.
    pub closed spec fn wf(&self) -> bool {
        &&& self.ctx.wf()
        &&& valid_ref(self.ctx.blocks(), self.current_block)
        &&& self.panic_block == self.ctx.panic_ref()
    }

    /// The instructions of the current block.
    pub open spec fn instrs(&self) -> Seq<Instruction> {
        self.context().blocks()[self.current().0 as int].instrs()
    }

    /// Whether `new` is `old` with instructions appended to the current
    /// block, possibly more virtual registers handed out and possibly more
    /// operands cached, and nothing else changed.
    pub open spec fn grows(old: &X86Emitter, new: &X86Emitter) -> bool {
        &&& Self::extends(old, new)
        &&& new.tlb_invalidate() == old.tlb_invalidate()
    }

    /// [`X86Emitter::grows`], where the TLB flag may also have changed.
    pub open spec fn extends(old: &X86Emitter, new: &X86Emitter) -> bool {
        &&& new.wf()
        &&& new.current() == old.current()
        &&& new.context().blocks().len() == old.context().blocks().len()
        &&& forall|b: int|
            0 <= b < new.context().blocks().len() && b != old.current().0 ==> #[trigger] new.context().blocks()[b]
                == old.context().blocks()[b]
        &&& new.instrs().len() >= old.instrs().len()
        &&& new.instrs().take(old.instrs().len() as int) == old.instrs()
        &&& new.context().blocks()[new.current().0 as int].nexts() == old.context().blocks()[old.current().0 as int].nexts()
        &&& new.context().initial() == old.context().initial()
        &&& new.context().panic_ref() == old.context().panic_ref()
        &&& new.context().offsets() == old.context().offsets()
        &&& new.context().spec_callbacks() == old.context().spec_callbacks()
        &&& new.context().spec_memory_mask() == old.context().spec_memory_mask()
        &&& new.vregs() >= old.vregs()
    }

    /// An emitter into the initial block of `ctx`.
    pub fn new(ctx: X86TranslationContext) -> (r: X86Emitter)
        requires
            ctx.wf(),
        ensures
            r.wf(),
            r.context() == ctx,
            r.current() == ctx.initial(),
            r.vregs() == 0,
            r.cache().len() == 0,
            !r.tlb_invalidate(),
    {
        let current_block = ctx.initial_block();
        let panic_block = ctx.panic_block();
        X86Emitter {
            ctx,
            current_block,
            current_block_operands: Vec::new(),
            panic_block,
            next_vreg: 0,
            need_tlb_invalidate: false,
            sets_flags: Vec::new(),
        }
    }

    /// The context being emitted into.
    pub fn ctx(&self) -> (r: &X86TranslationContext)
        ensures
            *r == self.context(),
    {
        &self.ctx
    }

    /// The context, to be changed in place; the current block, the cached
    /// operands and the counters stay as they are.
    pub fn ctx_mut(&mut self) -> (r: &mut X86TranslationContext)
        ensures
            *r == old(self).context(),
            final(self).context() == *final(r),
            final(self).current() == old(self).current(),
            final(self).vregs() == old(self).vregs(),
            final(self).cache() == old(self).cache(),
            final(self).tlb_invalidate() == old(self).tlb_invalidate(),
    {
        &mut self.ctx
    }

    /// The context, once emitting is done.
    pub fn into_ctx(self) -> (r: X86TranslationContext)
        ensures
            r == self.context(),
    {
        self.ctx
    }

    /// Adds an empty block to the context and returns its reference.
    pub fn create_block(&mut self) -> (r: BlockRef)
        requires
            old(self).wf(),
            old(self).context().blocks().len() < usize::MAX,
        ensures
            final(self).wf(),
            r.0 == old(self).context().blocks().len(),
            final(self).context().blocks().len() == old(self).context().blocks().len() + 1,
            final(self).context().blocks().take(old(self).context().blocks().len() as int) == old(self).context().blocks(),
            final(self).context().blocks()[r.0 as int].instrs().len() == 0,
            final(self).current() == old(self).current(),
            final(self).vregs() == old(self).vregs(),
            final(self).tlb_invalidate() == old(self).tlb_invalidate(),
            final(self).context().offsets() == old(self).context().offsets(),
            final(self).context().panic_ref() == old(self).context().panic_ref(),
            final(self).context().spec_callbacks() == old(self).context().spec_callbacks(),
            final(self).context().spec_memory_mask() == old(self).context().spec_memory_mask(),
            final(self).context().initial() == old(self).context().initial(),
    {
        self.ctx.create_block()
    }

    /// Wraps a node.
    pub fn node(&self, node: X86Node) -> (r: X86NodeRef)
        ensures
            *r.0 == node,
    {
        X86NodeRef(Box::new(node))
    }

    /// A fresh virtual register number.
    pub fn next_vreg(&mut self) -> (r: usize)
        requires
            old(self).vregs() < usize::MAX,
        ensures
            r == old(self).vregs(),
            final(self).vregs() == old(self).vregs() + 1,
            final(self).context() == old(self).context(),
            final(self).current() == old(self).current(),
            final(self).cache() == old(self).cache(),
            final(self).tlb_invalidate() == old(self).tlb_invalidate(),
            final(self).wf() == old(self).wf(),
            final(self).flag_records() == old(self).flag_records(),
    {
        let vreg = self.next_vreg;
        self.next_vreg = self.next_vreg + 1;
        vreg
    }

    /// Appends an instruction to the current block.
    pub fn push_instruction(&mut self, instr: Instruction)
        requires
            old(self).wf(),
        ensures
            Self::grows(old(self), final(self)),
            final(self).instrs() == old(self).instrs().push(instr),
            final(self).vregs() == old(self).vregs(),
            final(self).cache() == old(self).cache(),
            final(self).tlb_invalidate() == old(self).tlb_invalidate(),
            final(self).flag_records() == old(self).flag_records(),
    {
        let block = self.current_block;
        self.ctx.append_to(block, instr);
        proof {
            assert(self.instrs().take(old(self).instrs().len() as int) =~= old(self).instrs());
        }
    }

    /// Adds a block control can go to after the current block; a block has
    /// at most two.
    pub fn push_target(&mut self, target: BlockRef)
        requires
            old(self).wf(),
            valid_ref(old(self).context().blocks(), target),
            old(self).context().blocks()[old(self).current().0 as int].nexts().len() < 2,
        ensures
            final(self).wf(),
            final(self).current() == old(self).current(),
            final(self).context().blocks()[final(self).current().0 as int].nexts() == old(self).context().blocks()[old(self).current().0 as int].nexts().push(target),
            final(self).instrs() == old(self).instrs(),
            final(self).context().blocks().len() == old(self).context().blocks().len(),
            forall|b: int|
                0 <= b < final(self).context().blocks().len() && b != old(self).current().0 ==> #[trigger] final(self).context().blocks()[b]
                    == old(self).context().blocks()[b],
            final(self).vregs() == old(self).vregs(),
            final(self).tlb_invalidate() == old(self).tlb_invalidate(),
            final(self).cache() == old(self).cache(),
            final(self).context().offsets() == old(self).context().offsets(),
            final(self).context().initial() == old(self).context().initial(),
            final(self).context().panic_ref() == old(self).context().panic_ref(),
            final(self).context().spec_callbacks() == old(self).context().spec_callbacks(),
            final(self).context().spec_memory_mask() == old(self).context().spec_memory_mask(),
    {
        let block = self.current_block;
        self.ctx.push_next_to(block, target);
    }

    /// Makes `block` the block instructions go into, forgetting the
    /// operands computed in the previous one.
    pub fn set_current_block(&mut self, block: BlockRef)
        requires
            old(self).wf(),
            valid_ref(old(self).context().blocks(), block),
        ensures
            final(self).wf(),
            final(self).current() == block,
            final(self).cache().len() == 0,
            final(self).context() == old(self).context(),
            final(self).vregs() == old(self).vregs(),
            final(self).tlb_invalidate() == old(self).tlb_invalidate(),
    {
        self.current_block = block;
        self.current_block_operands = Vec::new();
    }

    /// The block instructions go into.
    pub fn get_current_block(&self) -> (r: BlockRef)
        ensures
            r == self.current(),
    {
        self.current_block
    }

    /// Ends the current block with a jump to `target`.
    pub fn jump(&mut self, target: BlockRef)
        requires
            old(self).wf(),
            valid_ref(old(self).context().blocks(), target),
            old(self).context().blocks()[old(self).current().0 as int].nexts().len() < 2,
        ensures
            final(self).wf(),
            final(self).current() == old(self).current(),
            final(self).instrs() == old(self).instrs().push(Instruction(crate::encoder::Opcode::JMP(Operand { kind: OperandKind::Target(target), width_in_bits: Width::_64 }))),
            final(self).context().blocks()[final(self).current().0 as int].nexts() == old(self).context().blocks()[old(self).current().0 as int].nexts().push(target),
            final(self).vregs() == old(self).vregs(),
    {
        self.push_instruction(Instruction::jmp(target));
        self.push_target(target);
    }

    /// Ends the current block by raising the interrupt of `reason`.
    pub fn panic(&mut self, reason: PanicReason)
        requires
            old(self).wf(),
        ensures
            Self::grows(old(self), final(self)),
            final(self).instrs() == old(self).instrs().push(
                Instruction(crate::encoder::Opcode::INT(Operand { kind: OperandKind::Immediate(reason.spec_vector()), width_in_bits: Width::_8 })),
            ),
    {
        let n = Operand::imm(Width::_8, reason.vector());
        self.push_instruction(Instruction::interrupt(n));
    }

    /// Marks the translation as needing the TLB invalidated when it is
    /// left.
    pub fn set_need_tlb_invalidate(&mut self)
        ensures
            final(self).tlb_invalidate(),
            final(self).context() == old(self).context(),
            final(self).current() == old(self).current(),
            final(self).vregs() == old(self).vregs(),
            final(self).wf() == old(self).wf(),
    {
        self.need_tlb_invalidate = true;
    }

    /// Whether leaving the translation asks for the TLB to be invalidated.
    pub fn need_tlb_invalidate(&self) -> (r: bool)
        ensures
            r == self.tlb_invalidate(),
    {
        self.need_tlb_invalidate
    }
}

/// The depth to which nodes are lowered; deeper nodes are refused.
pub const LOWERING_DEPTH: u32 = 0xffff_ffff;

/// The operand remembered first for `node` among `cache`, if any.
pub open spec fn cache_lookup(cache: Seq<(X86NodeRef, Operand)>, node: X86NodeRef) -> Option<Operand>
    decreases cache.len(),
{
    if cache.len() == 0 {
        None
    } else {
        match cache_lookup(cache.drop_last(), node) {
            Some(op) => Some(op),
            None => if cache.last().0 == node {
                Some(cache.last().1)
            } else {
                None
            },
        }
    }
}

/// Looking up a node whose first entry is at `i` gives that entry's
/// operand; a node with no entry is not found.
pub proof fn lemma_cache_lookup_first(cache: Seq<(X86NodeRef, Operand)>, node: X86NodeRef, i: int)
    requires
        0 <= i <= cache.len(),
        forall|j: int| 0 <= j < i ==> (#[trigger] cache[j]).0 != node,
        i < cache.len() ==> cache[i].0 == node,
    ensures
        i < cache.len() ==> cache_lookup(cache, node) == Some(cache[i].1),
        i == cache.len() ==> cache_lookup(cache, node) is None,
    decreases cache.len(),
{
    if cache.len() > 0 {
        let front = cache.drop_last();
        if i < cache.len() - 1 {
            lemma_cache_lookup_first(front, node, i);
        } else {
            assert forall|j: int| 0 <= j < front.len() implies (#[trigger] front[j]).0 != node by {
                assert(front[j] == cache[j]);
            }
            lemma_cache_lookup_first(front, node, front.len() as int);
        }
    }
}

/// Memoisation: after the operand of a node that had none is remembered,
/// looking the node up gives that operand.
pub proof fn lemma_lookup_remembered(cache: Seq<(X86NodeRef, Operand)>, node: X86NodeRef, op: Operand)
    requires
        cache_lookup(cache, node) is None,
    ensures
        cache_lookup(cache.push((node, op)), node) == Some(op),
{
    assert(cache.push((node, op)).drop_last() =~= cache);
}

/// Whether the operand lowered earlier in the current block for `node` is a
/// general-purpose register of width `w`.
pub open spec fn lowered_to_register(e: &X86Emitter, node: X86NodeRef, w: Width) -> bool {
    &&& cache_lookup(e.cache(), node) matches Some(op) && op.width_in_bits == w && (op.kind matches OperandKind::Register(
        reg,
    ) && reg.spec_class() == Some(RegisterClass::General))
    &&& w != Width::_128
}

/// The current block of a consistent emitter is one of its context's
/// blocks, and the panic block is the context's.
pub proof fn lemma_current_valid(e: &X86Emitter)
    requires
        e.wf(),
    ensures
        valid_ref(e.context().blocks(), e.current()),
        e.context().wf(),
{
}

/// Growth of an emitter is reflexive.
pub proof fn lemma_grows_refl(e: &X86Emitter)
    requires
        e.wf(),
    ensures
        X86Emitter::grows(e, e),
{
    assert(e.instrs().take(e.instrs().len() as int) =~= e.instrs());
}

/// Growth of an emitter is transitive.
pub broadcast proof fn lemma_grows_trans(a: &X86Emitter, b: &X86Emitter, c: &X86Emitter)
    requires
        #[trigger] X86Emitter::grows(a, b),
        #[trigger] X86Emitter::grows(b, c),
    ensures
        X86Emitter::grows(a, c),
{
    assert(c.instrs().take(a.instrs().len() as int) =~= c.instrs().take(b.instrs().len() as int).take(
        a.instrs().len() as int,
    ));
    assert forall|x: int|
        0 <= x < c.context().blocks().len() && x != a.current().0 implies #[trigger] c.context().blocks()[x]
            == a.context().blocks()[x] by {
        assert(b.context().blocks()[x] == a.context().blocks()[x]);
    }
}

impl X86Emitter {
    /// A fresh virtual register of the given width.
    pub(crate) fn fresh(&mut self, width: Width) -> (r: Result<Operand, EmitError>)
        requires
            old(self).wf(),
        ensures
            Self::grows(old(self), final(self)),
            final(self).instrs() == old(self).instrs(),
            final(self).cache() == old(self).cache(),
            r matches Ok(op) ==> op == Operand::spec_vreg(width, old(self).vregs() as usize)
                && final(self).vregs() == old(self).vregs() + 1,
            r is Ok <==> old(self).vregs() < usize::MAX,
            r is Err ==> final(self).vregs() == old(self).vregs(),
            final(self).flag_records() == old(self).flag_records(),
    {
        proof {
            lemma_grows_refl(&*self);
        }
        if self.next_vreg == usize::MAX {
            return Err(EmitError::Unsupported);
        }
        let index = self.next_vreg();
        Ok(Operand::vreg(width, index))
    }

    /// The number of a fresh virtual register.
    pub(crate) fn fresh_index(&mut self) -> (r: Result<usize, EmitError>)
        requires
            old(self).wf(),
        ensures
            Self::grows(old(self), final(self)),
            final(self).instrs() == old(self).instrs(),
            final(self).cache() == old(self).cache(),
            r matches Ok(i) ==> i == old(self).vregs() && final(self).vregs() == old(self).vregs() + 1,
            r is Ok <==> old(self).vregs() < usize::MAX,
            r is Err ==> final(self).vregs() == old(self).vregs(),
            final(self).flag_records() == old(self).flag_records(),
    {
        proof {
            lemma_grows_refl(&*self);
        }
        if self.next_vreg == usize::MAX {
            return Err(EmitError::Unsupported);
        }
        Ok(self.next_vreg())
    }

    /// Appends `mov src, dst`, where the two form a move.
    pub(crate) fn emit_mov(&mut self, src: Operand, dst: Operand) -> (r: Result<(), EmitError>)
        requires
            old(self).wf(),
        ensures
            Self::grows(old(self), final(self)),
            final(self).vregs() == old(self).vregs(),
            final(self).cache() == old(self).cache(),
            r is Ok <==> crate::encoder::mov_spec(src, dst) is Ok,
            r is Ok ==> final(self).instrs() == old(self).instrs().push(Instruction(Opcode::MOV(src, dst))),
            r is Err ==> final(self).instrs() == old(self).instrs(),
            final(self).flag_records() == old(self).flag_records(),
    {
        proof {
            lemma_grows_refl(&*self);
        }
        match Instruction::mov(src, dst) {
            Ok(i) => {
                self.push_instruction(i);
                Ok(())
            },
            Err(e) => Err(EmitError::Instruction(e)),
        }
    }

    /// Appends `movzx src, dst`, where the two form a zero extension.
    pub(crate) fn emit_movzx(&mut self, src: Operand, dst: Operand) -> (r: Result<(), EmitError>)
        requires
            old(self).wf(),
        ensures
            Self::grows(old(self), final(self)),
            final(self).vregs() == old(self).vregs(),
            final(self).cache() == old(self).cache(),
            r is Ok <==> crate::encoder::movzx_spec(src, dst) is Ok,
            r is Ok ==> final(self).instrs() == old(self).instrs().push(Instruction(Opcode::MOVZX(src, dst))),
            r is Err ==> final(self).instrs() == old(self).instrs(),
            final(self).flag_records() == old(self).flag_records(),
    {
        proof {
            lemma_grows_refl(&*self);
        }
        match Instruction::movzx(src, dst) {
            Ok(i) => {
                self.push_instruction(i);
                Ok(())
            },
            Err(e) => Err(EmitError::Instruction(e)),
        }
    }

    /// Appends `test op0, op1`, unless both are immediates.
    pub(crate) fn emit_test(&mut self, op0: Operand, op1: Operand) -> (r: Result<(), EmitError>)
        requires
            old(self).wf(),
        ensures
            Self::grows(old(self), final(self)),
            final(self).vregs() == old(self).vregs(),
            final(self).cache() == old(self).cache(),
            r is Err <==> op0.is_immediate() && op1.is_immediate(),
            r is Ok ==> final(self).instrs() == old(self).instrs().push(Instruction(Opcode::TEST(op0, op1))),
            r is Err ==> final(self).instrs() == old(self).instrs(),
    {
        proof {
            lemma_grows_refl(&*self);
        }
        match Instruction::test(op0, op1) {
            Ok(i) => {
                self.push_instruction(i);
                Ok(())
            },
            Err(e) => Err(EmitError::Instruction(e)),
        }
    }

    /// Appends an instruction, keeping track of growth.
    pub(crate) fn emit(&mut self, instr: Instruction)
        requires
            old(self).wf(),
        ensures
            Self::grows(old(self), final(self)),
            final(self).instrs() == old(self).instrs().push(instr),
            final(self).vregs() == old(self).vregs(),
            final(self).cache() == old(self).cache(),
            final(self).flag_records() == old(self).flag_records(),
    {
        self.push_instruction(instr);
    }

    /// The operand already computed for `node` in the current block.
    fn cached(&self, node: &X86NodeRef) -> (r: Option<Operand>)
        ensures
            r matches Some(op) ==> exists|i: int| 0 <= i < self.cache().len() && self.cache()[i] == (*node, op),
            r is None ==> forall|i: int| 0 <= i < self.cache().len() ==> (#[trigger] self.cache()[i]).0 != *node,
            r == cache_lookup(self.cache(), *node),
    {
        let mut i: usize = 0;
        while i < self.current_block_operands.len()
            invariant
                i <= self.current_block_operands@.len(),
                forall|j: int| 0 <= j < i ==> (#[trigger] self.current_block_operands@[j]).0 != *node,
            decreases self.current_block_operands.len() - i,
        {
            if node_eq(&self.current_block_operands[i].0, node) {
                proof {
                    lemma_cache_lookup_first(self.cache(), *node, i as int);
                }
                return Some(self.current_block_operands[i].1);
            }
            i = i + 1;
        }
        proof {
            lemma_cache_lookup_first(self.cache(), *node, i as int);
        }
        None
    }

    /// Whether an operand was computed for `node` in the current block.
    pub open spec fn is_cached(&self, node: X86NodeRef) -> bool {
        exists|i: int| 0 <= i < self.cache().len() && self.cache()[i].0 == node
    }

    /// Whether the flags `node` sets are kept in a variable: nodes are told
    /// apart by what they compute, so a node equal to one whose flags were
    /// kept finds them too.
    pub closed spec fn flags_set(&self, node: X86NodeRef) -> bool {
        exists|i: int| 0 <= i < self.sets_flags@.len() && self.sets_flags@[i].0 == node
    }

    /// The variable that holds the flags an operation set, if it set any.
    pub(crate) fn flags_variable(&self, node: &X86NodeRef) -> (r: Option<usize>)
        ensures
            r is Some <==> self.flags_set(*node),
    {
        let mut i: usize = 0;
        while i < self.sets_flags.len()
            invariant
                i <= self.sets_flags@.len(),
                forall|j: int| 0 <= j < i ==> (#[trigger] self.sets_flags@[j]).0 != *node,
            decreases self.sets_flags.len() - i,
        {
            if node_eq(&self.sets_flags[i].0, node) {
                return Some(self.sets_flags[i].1);
            }
            i = i + 1;
        }
        None
    }

    /// A fresh variable of the context, where the register file has room
    /// for one.
    pub(crate) fn allocate_variable(&mut self) -> (r: Result<usize, EmitError>)
        requires
            old(self).wf(),
        ensures
            Self::grows(old(self), final(self)),
            final(self).instrs() == old(self).instrs(),
            final(self).vregs() == old(self).vregs(),
            final(self).cache() == old(self).cache(),
            r is Ok <==> old(self).context().variables() < old(self).context().variable_capacity(),
            r matches Ok(id) ==> id == old(self).context().variables(),
    {
        proof {
            lemma_grows_refl(&*self);
        }
        if !self.ctx.has_variable_room() {
            return Err(EmitError::Unsupported);
        }
        Ok(self.ctx.allocate_variable_id())
    }

    /// Records that the flags `node` sets are kept in variable `id`.
    pub(crate) fn record_flags(&mut self, node: &X86NodeRef, id: usize)
        requires
            old(self).wf(),
        ensures
            Self::grows(old(self), final(self)),
            final(self).instrs() == old(self).instrs(),
            final(self).vregs() == old(self).vregs(),
            final(self).cache() == old(self).cache(),
            final(self).flags_set(*node),
    {
        proof {
            lemma_grows_refl(&*self);
        }
        self.sets_flags.push((node.dup(), id));
        proof {
            assert(self.sets_flags@[self.sets_flags@.len() - 1].0 == *node);
        }
    }

    /// Remembers the operand computed for `node` in the current block.
    fn remember(&mut self, node: &X86NodeRef, op: Operand)
        requires
            old(self).wf(),
        ensures
            Self::grows(old(self), final(self)),
            final(self).instrs() == old(self).instrs(),
            final(self).vregs() == old(self).vregs(),
            final(self).cache() == old(self).cache().push((*node, op)),
            final(self).flag_records() == old(self).flag_records(),
    {
        proof {
            lemma_grows_refl(&*self);
        }
        self.current_block_operands.push((node.dup(), op));
    }
}

/// The width a node's type rounds up to.
pub(crate) fn width_of(typ: Type) -> (r: Result<Width, EmitError>)
    ensures
        typ.spec_width() == 0 ==> r == Err::<Width, EmitError>(EmitError::Width(WidthError::Zero)),
        typ.spec_width() != 0 ==> r == Ok::<Width, EmitError>(Width::canonical(typ.spec_width() as u64)),
{
    match Width::from_uncanonicalized(typ.width() as u64) {
        Ok(w) => Ok(w),
        Err(e) => Err(EmitError::Width(e)),
    }
}

/// A number of bits as a width.
fn width_of_bits(bits: u64) -> (r: Result<Width, EmitError>)
    ensures
        bits == 0 ==> r == Err::<Width, EmitError>(EmitError::Width(WidthError::Zero)),
        bits != 0 ==> r == Ok::<Width, EmitError>(Width::canonical(bits)),
{
    match Width::from_uncanonicalized(bits) {
        Ok(w) => Ok(w),
        Err(e) => Err(EmitError::Width(e)),
    }
}

/// An offset into the register file as a displacement.
pub(crate) fn displacement(offset: u64) -> (r: Result<i32, EmitError>)
    ensures
        r matches Ok(d) ==> d as int == offset,
        r is Ok <==> offset <= 0x7fff_ffff,
{
    if offset <= 0x7fff_ffff {
        Ok(offset as i32)
    } else {
        Err(EmitError::Displacement)
    }
}

/// Whether the type is unsigned.
fn is_unsigned(typ: Type) -> (r: bool)
    ensures
        r == typ is Unsigned,
{
    match typ {
        Type::Unsigned(_) => true,
        _ => false,
    }
}

/// Whether the type is signed.
fn is_signed(typ: Type) -> (r: bool)
    ensures
        r == typ is Signed,
{
    match typ {
        Type::Signed(_) => true,
        _ => false,
    }
}

/// Whether the operand is an immediate.
pub(crate) fn is_immediate(op: &Operand) -> (r: bool)
    ensures
        r == op.kind is Immediate,
{
    match op.kind {
        OperandKind::Immediate(_) => true,
        _ => false,
    }
}

/// Whether the type is one of the 64-bit integer types or the integer
/// type.
fn is_word_type(typ: Type) -> (r: bool)
    ensures
        r == is_word(typ),
{
    match typ {
        Type::Signed(64) | Type::Unsigned(64) | Type::Int => true,
        _ => false,
    }
}

impl X86Emitter {
    /// The operand for `node`, with constants and function pointers moved
    /// into a fresh register first.
    pub fn to_operand_reg_promote(&mut self, node: &X86NodeRef) -> (r: Result<Operand, EmitError>)
        requires
            old(self).wf(),
        ensures
            Self::grows(old(self), final(self)),
            (node.0.kind is Constant || node.0.kind is FunctionPointer) ==> (r matches Ok(dst) ==> dst.kind is Register
                && final(self).instrs().len() > old(self).instrs().len() && (final(self).instrs().last().0 matches Opcode::MOV(
                _,
                d,
            ) && d == dst)),
            !(node.0.kind is Constant || node.0.kind is FunctionPointer) && !old(self).is_cached(*node) && !old(
                self,
            ).flags_set(*node) ==> (r matches Ok(dst) ==> lowered_as(old(self).instrs(), final(self).instrs(), node.0.kind, dst)),
            node.0.kind is Constant && !old(self).is_cached(*node) && !old(self).flags_set(*node)
                && node.0.typ.spec_width() != 0 && node.const_width() != 0 && node.const_width() <= 64 && (
            node.const_width() <= 32 || node.const_value().unwrap() <= 0x7fff_ffff) ==> ({
                let reg = Operand::spec_vreg(Width::canonical(node.0.typ.spec_width() as u64), old(self).vregs() as usize);
                let imm = Operand {
                    kind: OperandKind::Immediate(node.const_value().unwrap()),
                    width_in_bits: Width::canonical(node.const_width() as u64),
                };
                &&& old(self).vregs() < usize::MAX && crate::encoder::mov_spec(imm, reg) is Ok ==> r is Ok
                &&& r matches Ok(x) ==> x == reg && final(self).instrs() == old(self).instrs().push(
                    Instruction(Opcode::MOV(imm, reg)),
                ) && final(self).vregs() == old(self).vregs() + 1
            }),
            !(node.0.kind is Constant || node.0.kind is FunctionPointer) && (cache_lookup(old(self).cache(), *node) matches Some(
                op,
            ) && !(op.kind is Immediate)) ==> r == Ok::<Operand, EmitError>(cache_lookup(old(self).cache(), *node)->Some_0)
                && *final(self) == *old(self),
            (node.0.kind matches NodeKind::FunctionPointer(target) && target <= 0x7fff_ffff) && !old(self).is_cached(
                *node,
            ) && !old(self).flags_set(*node) && node.0.typ.spec_width() == 64 ==> ({
                let reg = Operand::spec_vreg(Width::_64, old(self).vregs() as usize);
                let imm = Operand {
                    kind: OperandKind::Immediate(node.0.kind->FunctionPointer_0),
                    width_in_bits: Width::_64,
                };
                &&& old(self).vregs() < usize::MAX ==> r is Ok
                &&& r matches Ok(x) ==> x == reg && final(self).instrs() == old(self).instrs().push(
                    Instruction(Opcode::MOV(imm, reg)),
                ) && final(self).vregs() == old(self).vregs() + 1
            }),
            !old(self).is_cached(*node) && !old(self).flags_set(*node) && large_immediate(*node) && node.0.typ.spec_width()
                == 64 && old(self).vregs() + 3 <= usize::MAX ==> ({
                let reg = Operand::spec_vreg(Width::_64, old(self).vregs() as usize);
                &&& r == Ok::<Operand, EmitError>(reg)
                &&& final(self).instrs() == old(self).instrs() + wide_immediate_seq(immediate_value(*node), old(self).vregs() + 1)
                    + seq![Instruction(Opcode::MOV(Operand::spec_vreg(Width::_64, (old(self).vregs() + 2) as usize), reg))]
                &&& final(self).vregs() == old(self).vregs() + 3
            }),
    {
        self.reg_promote_at(node, LOWERING_DEPTH)
    }

    /// The operand holding the value of `node`, after appending to the
    /// current block the instructions that compute it (see
    /// [`X86Emitter::to_operand_at`]).
    pub fn to_operand(&mut self, node: &X86NodeRef) -> (r: Result<Operand, EmitError>)
        requires
            old(self).wf(),
        ensures
            Self::grows(old(self), final(self)),
            !old(self).is_cached(*node) && !old(self).flags_set(*node) && node.0.kind is Constant
                && node.const_width() != 0 && node.const_width() <= 64 && (node.const_width() <= 32
                || node.const_value().unwrap() <= 0x7fff_ffff) ==> r == Ok::<Operand, EmitError>(
                Operand {
                    kind: OperandKind::Immediate(node.const_value().unwrap()),
                    width_in_bits: Width::canonical(node.const_width() as u64),
                },
            ) && final(self).instrs() == old(self).instrs(),
            !old(self).is_cached(*node) && !old(self).flags_set(*node) ==> (node.0.kind matches NodeKind::GuestRegister {
                offset,
            } ==> {
                &&& (node.0.typ.spec_width() == 0 || offset > 0x7fff_ffff) ==> r is Err
                &&& (node.0.typ.spec_width() != 0 && offset <= 0x7fff_ffff && old(self).vregs() < usize::MAX) ==> r is Ok
                &&& r matches Ok(op) ==> op == Operand::spec_vreg(
                    Width::canonical(node.0.typ.spec_width() as u64),
                    old(self).vregs() as usize,
                ) && final(self).instrs() == old(self).instrs().push(
                    Instruction(
                        Opcode::MOV(
                            Operand::spec_mem_base_displ(op.width_in_bits, Register::Physical(PhysicalRegister::RBP), offset as i32),
                            op,
                        ),
                    ),
                ) && final(self).cache() == old(self).cache().push((*node, op)) && final(self).vregs() == old(self).vregs() + 1
                    && final(self).flag_records() == old(self).flag_records()
            }),
            !old(self).is_cached(*node) && !old(self).flags_set(*node) ==> (r matches Ok(dst) ==> lowered_as(
                old(self).instrs(),
                final(self).instrs(),
                node.0.kind,
                dst,
            )),
            !old(self).is_cached(*node) && !old(self).flags_set(*node) && (node.0.kind matches NodeKind::BinaryOperation(
                kind,
            ) && reads_selectable(old(self), kind)) ==> ({
                let (seq, dst) = alu_on_reads(node.0.kind->BinaryOperation_0, node.0.kind->BinaryOperation_0.spec_children().0,
                    node.0.kind->BinaryOperation_0.spec_children().1, old(self).vregs());
                r == Ok::<Operand, EmitError>(dst) && final(self).instrs() == old(self).instrs() + seq
            }),
            (cache_lookup(old(self).cache(), *node) matches Some(op) && !(op.kind is Immediate)) ==> r == Ok::<
                Operand,
                EmitError,
            >(cache_lookup(old(self).cache(), *node)->Some_0) && *final(self) == *old(self),
            !old(self).is_cached(*node) && !old(self).flags_set(*node) && node.0.kind is Constant && 64
                < node.const_width() <= 128 && old(self).vregs() + 2 <= usize::MAX ==> r == Ok::<Operand, EmitError>(
                Operand::spec_vreg(Width::_128, (old(self).vregs() + 1) as usize),
            ) && final(self).instrs() == old(self).instrs() + seq![
                Instruction(
                    Opcode::MOV(
                        Operand { kind: OperandKind::Immediate(node.const_value().unwrap()), width_in_bits: Width::_64 },
                        Operand::spec_vreg(Width::_64, old(self).vregs() as usize),
                    ),
                ),
                Instruction(
                    Opcode::MOVQ(
                        Operand::spec_vreg(Width::_64, old(self).vregs() as usize),
                        Operand::spec_vreg_class(RegisterClass::Xmm, Width::_64, (old(self).vregs() + 1) as usize),
                    ),
                ),
            ],
            !old(self).is_cached(*node) && !old(self).flags_set(*node) && (node.0.kind matches NodeKind::UnaryOperation(
                kind,
            ) && unary_read_selectable(old(self), kind)) ==> ({
                let (seq, dst) = unary_on_read(node.0.kind->UnaryOperation_0, old(self).vregs());
                r == Ok::<Operand, EmitError>(dst) && final(self).instrs() == old(self).instrs() + seq
            }),
            !old(self).is_cached(*node) && !old(self).flags_set(*node) && large_immediate(*node) && old(self).vregs() + 2
                <= usize::MAX ==> r == Ok::<Operand, EmitError>(Operand::spec_vreg(Width::_64, (old(self).vregs() + 1) as usize))
                && final(self).instrs() == old(self).instrs() + wide_immediate_seq(immediate_value(*node), old(self).vregs())
                && final(self).vregs() == old(self).vregs() + 2,
            !old(self).is_cached(*node) && !old(self).flags_set(*node) && (node.0.kind matches NodeKind::Select {
                condition,
                true_value,
                false_value,
            } && select_selectable(old(self), condition, true_value, false_value)) ==> ({
                let (seq, dst) = select_on_reads(
                    node.0.kind->condition,
                    node.0.kind->true_value,
                    node.0.kind->false_value,
                    old(self).vregs(),
                );
                r == Ok::<Operand, EmitError>(dst) && final(self).instrs() == old(self).instrs() + seq
            }),
    {
        self.to_operand_at(node, LOWERING_DEPTH)
    }

    fn reg_promote_at(&mut self, node: &X86NodeRef, depth: u32) -> (r: Result<Operand, EmitError>)
        requires
            old(self).wf(),
        ensures
            Self::grows(old(self), final(self)),
            (node.0.kind is Constant || node.0.kind is FunctionPointer) ==> (r matches Ok(dst) ==> dst.kind is Register
                && final(self).instrs().len() > old(self).instrs().len() && (final(self).instrs().last().0 matches Opcode::MOV(
                _,
                d,
            ) && d == dst)),
            depth > 0 && !(node.0.kind is Constant || node.0.kind is FunctionPointer) && !old(self).is_cached(*node) && !old(
                self,
            ).flags_set(*node) ==> (r matches Ok(dst) ==> lowered_as(old(self).instrs(), final(self).instrs(), node.0.kind, dst)),
            depth > 0 && node.0.kind is Constant && !old(self).is_cached(*node) && !old(self).flags_set(*node)
                && node.0.typ.spec_width() != 0 && node.const_width() != 0 && node.const_width() <= 64 && (
            node.const_width() <= 32 || node.const_value().unwrap() <= 0x7fff_ffff) ==> ({
                let reg = Operand::spec_vreg(Width::canonical(node.0.typ.spec_width() as u64), old(self).vregs() as usize);
                let imm = Operand {
                    kind: OperandKind::Immediate(node.const_value().unwrap()),
                    width_in_bits: Width::canonical(node.const_width() as u64),
                };
                &&& old(self).vregs() < usize::MAX && crate::encoder::mov_spec(imm, reg) is Ok ==> r is Ok
                &&& r matches Ok(x) ==> x == reg && final(self).instrs() == old(self).instrs().push(
                    Instruction(Opcode::MOV(imm, reg)),
                ) && final(self).vregs() == old(self).vregs() + 1
            }),
            !(node.0.kind is Constant || node.0.kind is FunctionPointer) && (cache_lookup(old(self).cache(), *node) matches Some(
                op,
            ) && !(op.kind is Immediate)) ==> r == Ok::<Operand, EmitError>(cache_lookup(old(self).cache(), *node)->Some_0)
                && *final(self) == *old(self),
            depth > 0 && (node.0.kind matches NodeKind::FunctionPointer(target) && target <= 0x7fff_ffff) && !old(self).is_cached(
                *node,
            ) && !old(self).flags_set(*node) && node.0.typ.spec_width() == 64 ==> ({
                let reg = Operand::spec_vreg(Width::_64, old(self).vregs() as usize);
                let imm = Operand {
                    kind: OperandKind::Immediate(node.0.kind->FunctionPointer_0),
                    width_in_bits: Width::_64,
                };
                &&& old(self).vregs() < usize::MAX ==> r is Ok
                &&& r matches Ok(x) ==> x == reg && final(self).instrs() == old(self).instrs().push(
                    Instruction(Opcode::MOV(imm, reg)),
                ) && final(self).vregs() == old(self).vregs() + 1
            }),
            depth > 0 && !old(self).is_cached(*node) && !old(self).flags_set(*node) && large_immediate(*node) && node.0.typ.spec_width()
                == 64 && old(self).vregs() + 3 <= usize::MAX ==> ({
                let reg = Operand::spec_vreg(Width::_64, old(self).vregs() as usize);
                &&& r == Ok::<Operand, EmitError>(reg)
                &&& final(self).instrs() == old(self).instrs() + wide_immediate_seq(immediate_value(*node), old(self).vregs() + 1)
                    + seq![Instruction(Opcode::MOV(Operand::spec_vreg(Width::_64, (old(self).vregs() + 2) as usize), reg))]
                &&& final(self).vregs() == old(self).vregs() + 3
            }),
            depth > 0 && !old(self).is_cached(*node) && !old(self).flags_set(*node) ==> (node.0.kind matches NodeKind::GuestRegister {
                offset,
            } ==> {
                &&& (node.0.typ.spec_width() == 0 || offset > 0x7fff_ffff) ==> r is Err
                &&& (node.0.typ.spec_width() != 0 && offset <= 0x7fff_ffff && old(self).vregs() < usize::MAX) ==> r is Ok
                &&& r matches Ok(op) ==> op == Operand::spec_vreg(
                    Width::canonical(node.0.typ.spec_width() as u64),
                    old(self).vregs() as usize,
                ) && final(self).instrs() == old(self).instrs().push(
                    Instruction(
                        Opcode::MOV(
                            Operand::spec_mem_base_displ(op.width_in_bits, Register::Physical(PhysicalRegister::RBP), offset as i32),
                            op,
                        ),
                    ),
                ) && final(self).cache() == old(self).cache().push((*node, op)) && final(self).vregs() == old(self).vregs() + 1
                    && final(self).flag_records() == old(self).flag_records()
            }),
        decreases depth, 4u32,
    {
        broadcast use lemma_grows_trans;
        proof {
            lemma_grows_refl(&*self);
        }
        match node.kind() {
            NodeKind::Constant { .. } | NodeKind::FunctionPointer(_) => {
                let width = match width_of(node.typ()) {
                    Ok(w) => w,
                    Err(e) => return Err(e),
                };
                let value_reg = match self.fresh(width) {
                    Ok(o) => o,
                    Err(e) => return Err(e),
                };
                let value_imm = match self.to_operand_at(node, depth) {
                    Ok(o) => o,
                    Err(e) => return Err(e),
                };
                match self.emit_mov(value_imm, value_reg) {
                    Ok(()) => Ok(value_reg),
                    Err(e) => Err(e),
                }
            },
            _ => self.to_operand_at(node, depth),
        }
    }

    /// The operand for `node` (see [`X86Emitter::to_operand_inner_at`]);
    /// an immediate wider than 64 bits has its low 64 bits moved into a
    /// fresh register and from there, zero-extended, into a fresh XMM
    /// register, and a 64-bit immediate above `i32::MAX` is built in a
    /// fresh register from its two halves.
    pub fn to_operand_at(&mut self, node: &X86NodeRef, depth: u32) -> (r: Result<Operand, EmitError>)
        requires
            old(self).wf(),
        ensures
            Self::grows(old(self), final(self)),
            depth > 0 && !old(self).is_cached(*node) && !old(self).flags_set(*node) && node.0.kind is Constant
                && node.const_width() != 0 && node.const_width() <= 64 && (node.const_width() <= 32
                || node.const_value().unwrap() <= 0x7fff_ffff) ==> r == Ok::<Operand, EmitError>(
                Operand {
                    kind: OperandKind::Immediate(node.const_value().unwrap()),
                    width_in_bits: Width::canonical(node.const_width() as u64),
                },
            ) && final(self).instrs() == old(self).instrs() && final(self).vregs() == old(self).vregs(),
            depth > 0 && !old(self).is_cached(*node) && !old(self).flags_set(*node) ==> (node.0.kind matches NodeKind::GuestRegister {
                offset,
            } ==> {
                &&& (node.0.typ.spec_width() == 0 || offset > 0x7fff_ffff) ==> r is Err
                &&& (node.0.typ.spec_width() != 0 && offset <= 0x7fff_ffff && old(self).vregs() < usize::MAX) ==> r is Ok
                &&& r matches Ok(op) ==> op == Operand::spec_vreg(
                    Width::canonical(node.0.typ.spec_width() as u64),
                    old(self).vregs() as usize,
                ) && final(self).instrs() == old(self).instrs().push(
                    Instruction(
                        Opcode::MOV(
                            Operand::spec_mem_base_displ(op.width_in_bits, Register::Physical(PhysicalRegister::RBP), offset as i32),
                            op,
                        ),
                    ),
                ) && final(self).cache() == old(self).cache().push((*node, op)) && final(self).vregs() == old(self).vregs() + 1
                    && final(self).flag_records() == old(self).flag_records()
            }),
            depth > 0 && !old(self).is_cached(*node) && !old(self).flags_set(*node) ==> (r matches Ok(dst) ==> lowered_as(
                old(self).instrs(),
                final(self).instrs(),
                node.0.kind,
                dst,
            )),
            depth > 1 && !old(self).is_cached(*node) && !old(self).flags_set(*node) && (node.0.kind matches NodeKind::BinaryOperation(
                kind,
            ) && reads_selectable(old(self), kind)) ==> ({
                let (seq, dst) = alu_on_reads(node.0.kind->BinaryOperation_0, node.0.kind->BinaryOperation_0.spec_children().0,
                    node.0.kind->BinaryOperation_0.spec_children().1, old(self).vregs());
                r == Ok::<Operand, EmitError>(dst) && final(self).instrs() == old(self).instrs() + seq
            }),
            (cache_lookup(old(self).cache(), *node) matches Some(op) && !(op.kind is Immediate)) ==> r == Ok::<
                Operand,
                EmitError,
            >(cache_lookup(old(self).cache(), *node)->Some_0) && *final(self) == *old(self),
            depth > 0 && !old(self).is_cached(*node) && !old(self).flags_set(*node) && node.0.kind is Constant && 64
                < node.const_width() <= 128 && old(self).vregs() + 2 <= usize::MAX ==> r == Ok::<Operand, EmitError>(
                Operand::spec_vreg(Width::_128, (old(self).vregs() + 1) as usize),
            ) && final(self).instrs() == old(self).instrs() + seq![
                Instruction(
                    Opcode::MOV(
                        Operand { kind: OperandKind::Immediate(node.const_value().unwrap()), width_in_bits: Width::_64 },
                        Operand::spec_vreg(Width::_64, old(self).vregs() as usize),
                    ),
                ),
                Instruction(
                    Opcode::MOVQ(
                        Operand::spec_vreg(Width::_64, old(self).vregs() as usize),
                        Operand::spec_vreg_class(RegisterClass::Xmm, Width::_64, (old(self).vregs() + 1) as usize),
                    ),
                ),
            ],
            depth > 0 && !old(self).is_cached(*node) && !old(self).flags_set(*node) && (node.0.kind matches NodeKind::FunctionPointer(
                target,
            ) && target <= 0x7fff_ffff) ==> r == Ok::<Operand, EmitError>(
                Operand { kind: OperandKind::Immediate(node.0.kind->FunctionPointer_0), width_in_bits: Width::_64 },
            ) && final(self).instrs() == old(self).instrs() && final(self).vregs() == old(self).vregs(),
            depth > 1 && !old(self).is_cached(*node) && !old(self).flags_set(*node) && (node.0.kind matches NodeKind::UnaryOperation(
                kind,
            ) && unary_read_selectable(old(self), kind)) ==> ({
                let (seq, dst) = unary_on_read(node.0.kind->UnaryOperation_0, old(self).vregs());
                r == Ok::<Operand, EmitError>(dst) && final(self).instrs() == old(self).instrs() + seq
            }),
            depth > 0 && !old(self).is_cached(*node) && !old(self).flags_set(*node) && large_immediate(*node) && old(self).vregs() + 2
                <= usize::MAX ==> r == Ok::<Operand, EmitError>(Operand::spec_vreg(Width::_64, (old(self).vregs() + 1) as usize))
                && final(self).instrs() == old(self).instrs() + wide_immediate_seq(immediate_value(*node), old(self).vregs())
                && final(self).vregs() == old(self).vregs() + 2,
            depth > 1 && !old(self).is_cached(*node) && !old(self).flags_set(*node) && (node.0.kind matches NodeKind::Select {
                condition,
                true_value,
                false_value,
            } && select_selectable(old(self), condition, true_value, false_value)) ==> ({
                let (seq, dst) = select_on_reads(
                    node.0.kind->condition,
                    node.0.kind->true_value,
                    node.0.kind->false_value,
                    old(self).vregs(),
                );
                r == Ok::<Operand, EmitError>(dst) && final(self).instrs() == old(self).instrs() + seq
            }),
        decreases depth, 3u32,
    {
        broadcast use lemma_grows_trans;
        proof {
            lemma_grows_refl(&*self);
        }
        let op = match self.to_operand_inner_at(node, depth) {
            Ok(o) => o,
            Err(e) => return Err(e),
        };
        if let OperandKind::Immediate(value) = op.kind {
            if Width::_64.narrower_than(&op.width()) {
                let truncated = Operand::imm(Width::_64, value);
                let tmp = match self.fresh(Width::_64) {
                    Ok(o) => o,
                    Err(e) => return Err(e),
                };
                let full = match self.fresh_index() {
                    Ok(i) => i,
                    Err(e) => return Err(e),
                };
                match self.emit_mov(truncated, tmp) {
                    Ok(()) => {},
                    Err(e) => return Err(e),
                }
                let low = Operand::vreg_xmm(Width::_64, full);
                match Instruction::movq(tmp, low) {
                    Ok(i) => self.emit(i),
                    Err(e) => return Err(EmitError::Instruction(e)),
                }
                return Ok(Operand::vreg(op.width(), full));
            } else if value > 0x7fff_ffff && Width::_32.narrower_than(&op.width()) {
                let low_half = Operand::imm(Width::_64, value & 0x0000_0000_ffff_ffff);
                let low_half_reg = match self.fresh(op.width()) {
                    Ok(o) => o,
                    Err(e) => return Err(e),
                };
                match self.emit_mov(low_half, low_half_reg) {
                    Ok(()) => {},
                    Err(e) => return Err(e),
                }
                let high_half = Operand::imm(Width::_64, (value & 0xffff_ffff_0000_0000) >> 32);
                let high_half_reg = match self.fresh(op.width()) {
                    Ok(o) => o,
                    Err(e) => return Err(e),
                };
                match self.emit_mov(high_half, high_half_reg) {
                    Ok(()) => {},
                    Err(e) => return Err(e),
                }
                self.emit(Instruction::shl(Operand::imm(Width::_16, 32), high_half_reg));
                self.emit(Instruction::or(low_half_reg, high_half_reg));
                return Ok(high_half_reg);
            }
        }
        Ok(op)
    }

    /// The operand for `node` before immediates are fixed up: the operand
    /// computed for it earlier in the current block if there is one; for a
    /// constant, the immediate of its width; for a function pointer, a
    /// 64-bit immediate; for a call's result, `rax`; for the rest, a fresh
    /// register the appended instructions compute the value into. Deeper
    /// than `depth` nodes are refused.
    pub fn to_operand_inner_at(&mut self, node: &X86NodeRef, depth: u32) -> (r: Result<Operand, EmitError>)
        requires
            old(self).wf(),
        ensures
            Self::grows(old(self), final(self)),
            old(self).is_cached(*node) ==> r is Ok,
            cache_lookup(old(self).cache(), *node) matches Some(op) ==> r == Ok::<Operand, EmitError>(op)
                && *final(self) == *old(self),
            depth > 0 && !old(self).is_cached(*node) && !old(self).flags_set(*node) && (node.0.kind is Constant
                || node.0.kind is FunctionPointer || node.0.kind is CallReturnValue || node.0.kind is Operand)
                ==> (r matches Ok(op) ==> final(self).cache() == old(self).cache().push((*node, op))
                && final(self).vregs() == old(self).vregs()),
            depth > 0 && !old(self).is_cached(*node) && !old(self).flags_set(*node) && (node.0.kind is GuestRegister
                || node.0.kind is ReadStackVariable) ==> (r matches Ok(op) ==> final(self).cache() == old(
                self,
            ).cache().push((*node, op)) && final(self).vregs() == old(self).vregs() + 1 && final(self).flag_records()
                == old(self).flag_records()),
            depth > 0 && !old(self).is_cached(*node) && !old(self).flags_set(*node) && node.0.kind is Constant
                && node.const_width() != 0 ==> r == Ok::<Operand, EmitError>(
                Operand {
                    kind: OperandKind::Immediate(node.const_value().unwrap()),
                    width_in_bits: Width::canonical(node.const_width() as u64),
                },
            ) && final(self).instrs() == old(self).instrs(),
            depth > 0 && !old(self).is_cached(*node) && !old(self).flags_set(*node) && node.0.kind is CallReturnValue
                ==> r == Ok::<Operand, EmitError>(Operand::spec_preg(Width::_64, PhysicalRegister::RAX)),
            old(self).is_cached(*node) ==> final(self).instrs() == old(self).instrs() && (r matches Ok(op) && exists|i: int|
                0 <= i < old(self).cache().len() && old(self).cache()[i] == (*node, op)),
            depth > 0 && !old(self).is_cached(*node) && !old(self).flags_set(*node) ==> {
                match node.0.kind {
                    NodeKind::FunctionPointer(target) => r == Ok::<Operand, EmitError>(
                        Operand { kind: OperandKind::Immediate(target), width_in_bits: Width::_64 },
                    ) && final(self).instrs() == old(self).instrs(),
                    NodeKind::Operand(op) => r == Ok::<Operand, EmitError>(op) && final(self).instrs() == old(self).instrs(),
                    NodeKind::GuestRegister { offset } => {
                        &&& (node.0.typ.spec_width() == 0 || offset > 0x7fff_ffff) ==> r is Err
                        &&& (node.0.typ.spec_width() != 0 && offset <= 0x7fff_ffff && old(self).vregs() < usize::MAX) ==> r is Ok
                        &&& r matches Ok(op) ==> op == Operand::spec_vreg(
                            Width::canonical(node.0.typ.spec_width() as u64),
                            old(self).vregs() as usize,
                        ) && final(self).instrs() == old(self).instrs().push(
                            Instruction(
                                Opcode::MOV(
                                    Operand::spec_mem_base_displ(
                                        op.width_in_bits,
                                        Register::Physical(PhysicalRegister::RBP),
                                        offset as i32,
                                    ),
                                    op,
                                ),
                            ),
                        )
                    },
                    NodeKind::ReadStackVariable { id, width } => {
                        &&& width == 0 ==> r is Err
                        &&& r matches Ok(op) ==> op == Operand::spec_vreg(Width::canonical(width as u64), old(self).vregs() as usize)
                            && final(self).instrs() == old(self).instrs().push(
                            Instruction(
                                Opcode::MOV(
                                    Operand { kind: OperandKind::Register(Register::Global(id)), width_in_bits: op.width_in_bits },
                                    op,
                                ),
                            ),
                        )
                    },
                    NodeKind::GetFlags { .. } => r is Err,
                    NodeKind::Tuple(_) => r is Err,
                    NodeKind::Real { .. } => r is Err,
                    _ => true,
                }
            },
            depth > 0 && !old(self).is_cached(*node) && !old(self).flags_set(*node) ==> (r matches Ok(dst) ==> lowered_as(
                old(self).instrs(),
                final(self).instrs(),
                node.0.kind,
                dst,
            )),
            depth > 0 && !old(self).is_cached(*node) && !old(self).flags_set(*node) && (node.0.kind matches NodeKind::UnaryOperation(op) && op is Negate) ==> (r matches Ok(dst) ==> final(self).instrs().len() > old(self).instrs().len() && final(self).instrs().last() == Instruction(Opcode::NEG(dst))),
            depth > 1 && !old(self).is_cached(*node) && !old(self).flags_set(*node) && (node.0.kind matches NodeKind::BinaryOperation(
                kind,
            ) && reads_selectable(old(self), kind)) ==> ({
                let (seq, dst) = alu_on_reads(node.0.kind->BinaryOperation_0, node.0.kind->BinaryOperation_0.spec_children().0,
                    node.0.kind->BinaryOperation_0.spec_children().1, old(self).vregs());
                r == Ok::<Operand, EmitError>(dst) && final(self).instrs() == old(self).instrs() + seq
            }),
            depth > 1 && !old(self).is_cached(*node) && !old(self).flags_set(*node) && (node.0.kind matches NodeKind::UnaryOperation(
                kind,
            ) && unary_read_selectable(old(self), kind)) ==> ({
                let (seq, dst) = unary_on_read(node.0.kind->UnaryOperation_0, old(self).vregs());
                r == Ok::<Operand, EmitError>(dst) && final(self).instrs() == old(self).instrs() + seq
            }),
            depth > 1 && !old(self).is_cached(*node) && !old(self).flags_set(*node) && (node.0.kind matches NodeKind::Select {
                condition,
                true_value,
                false_value,
            } && select_selectable(old(self), condition, true_value, false_value)) ==> ({
                let (seq, dst) = select_on_reads(
                    node.0.kind->condition,
                    node.0.kind->true_value,
                    node.0.kind->false_value,
                    old(self).vregs(),
                );
                r == Ok::<Operand, EmitError>(dst) && final(self).instrs() == old(self).instrs() + seq
            }),
        decreases depth, 2u32,
    {
        broadcast use lemma_grows_trans;
        proof {
            lemma_grows_refl(&*self);
        }
        if let Some(op) = self.cached(node) {
            return Ok(op);
        }
        if depth == 0 {
            return Err(EmitError::Unsupported);
        }
        if let Some(id) = self.flags_variable(node) {
            let read = crate::unary::read_stack_variable(id, node.typ());
            return self.to_operand_at(&read, depth - 1);
        }
        let op = match node.kind() {
            NodeKind::Constant { value, width } => {
                let w = match width_of_bits(*width as u64) {
                    Ok(w) => w,
                    Err(e) => return Err(e),
                };
                Operand::imm(w, *value)
            },
            NodeKind::FunctionPointer(target) => Operand::imm(Width::_64, *target),
            NodeKind::CallReturnValue => Operand::preg(Width::_64, PhysicalRegister::RAX),
            NodeKind::Operand(op) => *op,
            NodeKind::GuestRegister { offset } => {
                let width = match width_of(node.typ()) {
                    Ok(w) => w,
                    Err(e) => return Err(e),
                };
                let dst = match self.fresh(width) {
                    Ok(o) => o,
                    Err(e) => return Err(e),
                };
                let displ = match displacement(*offset) {
                    Ok(d) => d,
                    Err(e) => return Err(e),
                };
                let src = Operand::mem_base_displ(width, Register::Physical(PhysicalRegister::RBP), displ);
                match self.emit_mov(src, dst) {
                    Ok(()) => {},
                    Err(e) => return Err(e),
                }
                dst
            },
            NodeKind::ReadStackVariable { id, width } => {
                let w = match width_of_bits(*width as u64) {
                    Ok(w) => w,
                    Err(e) => return Err(e),
                };
                let dst = match self.fresh(w) {
                    Ok(o) => o,
                    Err(e) => return Err(e),
                };
                match self.emit_mov(Operand::greg(w, *id), dst) {
                    Ok(()) => {},
                    Err(e) => return Err(e),
                }
                dst
            },
            NodeKind::BinaryOperation(kind) => match self.binary_operation_to_operand(kind, depth) {
                Ok(o) => o,
                Err(e) => return Err(e),
            },
            NodeKind::UnaryOperation(kind) => match self.unary_operation_to_operand(kind, depth) {
                Ok(o) => o,
                Err(e) => return Err(e),
            },
            NodeKind::TernaryOperation(TernaryOperationKind::AddWithCarry(a, b, carry)) => {
                match self.add_with_carry_to_operand(node, a, b, carry, depth) {
                    Ok(o) => o,
                    Err(e) => return Err(e),
                }
            },
            NodeKind::BitExtract { value, start, length } => {
                if let (
                    NodeKind::BinaryOperation(BinaryOperationKind::Multiply(left, right)),
                    NodeKind::Constant { value: 64, .. },
                    NodeKind::Constant { value: 64, .. },
                ) = (value.kind(), start.kind(), length.kind()) {
                    return self.extract_product_high(left, right, depth);
                }
                match self.bit_extract_to_operand(value, start, length, depth) {
                    Ok(o) => o,
                    Err(e) => return Err(e),
                }
            },
            NodeKind::Cast { value, kind } => match self.cast_to_operand(node.typ(), value, *kind, depth) {
                Ok(o) => o,
                Err(e) => return Err(e),
            },
            NodeKind::Shift { value, amount, kind } => {
                if let (
                    NodeKind::BinaryOperation(BinaryOperationKind::Multiply(a, b)),
                    NodeKind::Constant { value: 64, .. },
                    ShiftOperationKind::LogicalShiftRight,
                ) = (value.kind(), amount.kind(), *kind) {
                    return self.shift_product_high(a, b, depth);
                }
                match self.shift_to_operand(value, amount, *kind, depth) {
                    Ok(o) => o,
                    Err(e) => return Err(e),
                }
            },
            NodeKind::BitInsert { target, source, start, length } => {
                match self.bit_insert_to_operand(target, source, start, length, depth) {
                    Ok(o) => o,
                    Err(e) => return Err(e),
                }
            },
            NodeKind::BitReplicate { pattern, count } => {
                match self.bit_replicate_to_operand(pattern, count, depth) {
                    Ok(o) => o,
                    Err(e) => return Err(e),
                }
            },
            NodeKind::Select { condition, true_value, false_value } => {
                match self.select_to_operand(condition, true_value, false_value, depth) {
                    Ok(o) => o,
                    Err(e) => return Err(e),
                }
            },
            NodeKind::GetFlags { .. } | NodeKind::Tuple(_) | NodeKind::Real { .. } => {
                return Err(EmitError::Unsupported);
            },
        };
        self.remember(node, op);
        Ok(op)
    }
}

/// Whether a node is a 64-bit immediate above `i32::MAX`: a function
/// pointer, or a constant of 33 to 64 bits.
pub open spec fn large_immediate(node: X86NodeRef) -> bool {
    match node.0.kind {
        NodeKind::FunctionPointer(target) => target > 0x7fff_ffff,
        NodeKind::Constant { value, width } => 32 < width <= 64 && value > 0x7fff_ffff,
        _ => false,
    }
}

/// The value of a constant or the address of a function pointer.
pub open spec fn immediate_value(node: X86NodeRef) -> u64 {
    match node.0.kind {
        NodeKind::FunctionPointer(target) => target,
        NodeKind::Constant { value, .. } => value,
        _ => 0,
    }
}

/// How a 64-bit immediate above `i32::MAX` is built, in fresh registers
/// numbered from `v`: its low half moved into the first, its high half into
/// the second, which is shifted up by 32 bits and or-ed with the first.
pub open spec fn wide_immediate_seq(value: u64, v: nat) -> Seq<Instruction> {
    let low = Operand::spec_vreg(Width::_64, v as usize);
    let high = Operand::spec_vreg(Width::_64, (v + 1) as usize);
    seq![
        Instruction(Opcode::MOV(Operand { kind: OperandKind::Immediate(value & 0x0000_0000_ffff_ffff), width_in_bits: Width::_64 }, low)),
        Instruction(Opcode::MOV(Operand { kind: OperandKind::Immediate((value & 0xffff_ffff_0000_0000) >> 32u64), width_in_bits: Width::_64 }, high)),
        Instruction(Opcode::SHL(Operand { kind: OperandKind::Immediate(32), width_in_bits: Width::_16 }, high)),
        Instruction(Opcode::OR(low, high)),
    ]
}

/// Whether a node reads a guest register of at most 64 bits at an offset a
/// displacement reaches.
pub open spec fn guest_read(node: X86NodeRef) -> bool {
    &&& node.0.kind matches NodeKind::GuestRegister { offset } && offset <= 0x7fff_ffff
    &&& 1 <= node.0.typ.spec_width() <= 64
}

/// Whether the types of two operands are ones an operation is selected
/// for without refusal: both unsigned; a bit vector and an unsigned value
/// of the same width; both signed, the left not wider and, where narrower,
/// of a smaller width; or both 64-bit integer types.
pub open spec fn types_selectable(lt: Type, rt: Type) -> bool {
    let lw = lt.spec_width();
    let rw = rt.spec_width();
    ||| lt is Unsigned && rt is Unsigned
    ||| ((lt == Type::Bits && rt is Unsigned) || (lt is Unsigned && rt == Type::Bits)) && Width::canonical(lw as u64)
        == Width::canonical(rw as u64)
    ||| lt is Signed && rt is Signed && (lw == rw || (lw < rw && Width::canonical(lw as u64) != Width::canonical(
        rw as u64,
    )))
    ||| is_word(lt) && is_word(rt)
}

/// Whether the type is one of the 64-bit integer types or the integer type.
pub open spec fn is_word(t: Type) -> bool {
    t == Type::Signed(64) || t == Type::Unsigned(64) || t == Type::Int
}

/// The width of a node's value.
pub open spec fn node_width(node: X86NodeRef) -> Width {
    Width::canonical(node.0.typ.spec_width() as u64)
}

/// The load of a guest register read into the virtual register numbered
/// `v`.
pub open spec fn guest_load(node: X86NodeRef, v: nat) -> Instruction {
    match node.0.kind {
        NodeKind::GuestRegister { offset } => Instruction(
            Opcode::MOV(
                Operand::spec_mem_base_displ(node_width(node), Register::Physical(PhysicalRegister::RBP), offset as i32),
                Operand::spec_vreg(node_width(node), v as usize),
            ),
        ),
        _ => Instruction(Opcode::DEAD),
    }
}

/// The operands an operation on two guest register reads is applied to,
/// with fresh virtual registers numbered from `v`: both reads and, where
/// the widths differ, the narrower value widened (sign-extended for signed
/// values, else zero-extended) into a fresh register. Gives the
/// instructions, the (widened) left and right operands, and the number of
/// fresh registers taken.
pub open spec fn alu_prepared(l: X86NodeRef, r: X86NodeRef, v: nat) -> (Seq<Instruction>, Operand, Operand, nat) {
    let wl = node_width(l);
    let wr = node_width(r);
    let lv = Operand::spec_vreg(wl, v as usize);
    let rv = Operand::spec_vreg(wr, (v + 1) as usize);
    let loads = seq![guest_load(l, v), guest_load(r, v + 1)];
    if l.0.typ is Signed && r.0.typ is Signed && l.0.typ.spec_width() < r.0.typ.spec_width() {
        let t = Operand::spec_vreg(wr, (v + 2) as usize);
        (loads.push(Instruction(Opcode::MOVSX(lv, t))), t, rv, 3)
    } else if wl == wr {
        (loads, lv, rv, 2)
    } else if wl.bits() < wr.bits() {
        let t = Operand::spec_vreg(wr, (v + 2) as usize);
        (loads.push(Instruction(Opcode::MOVZX(lv, t))), t, rv, 3)
    } else {
        let t = Operand::spec_vreg(wl, (v + 2) as usize);
        (loads.push(Instruction(Opcode::MOVZX(rv, t))), lv, t, 3)
    }
}

/// What an operation on two guest register reads is selected as: the
/// operands of [`alu_prepared`], the (widened) left one moved into a fresh
/// result register and the operation applied to the result with the
/// (widened) right one. Gives the instructions and the result.
pub open spec fn alu_on_reads(kind: BinaryOperationKind, l: X86NodeRef, r: X86NodeRef, v: nat) -> (Seq<Instruction>, Operand) {
    let (p, a, b, k) = alu_prepared(l, r, v);
    let dst = Operand::spec_vreg(a.width_in_bits, (v + k) as usize);
    (p + seq![Instruction(Opcode::MOV(a, dst)), alu_instruction(kind, b, dst)], dst)
}

/// Whether `l` and `r` are two different guest register reads of types an
/// operation is selected for, that the emitter has neither lowered nor
/// kept flags for, with room for the fresh registers an operation takes.
pub open spec fn pair_selectable(e: &X86Emitter, l: X86NodeRef, r: X86NodeRef) -> bool {
    &&& guest_read(l) && guest_read(r) && l != r && types_selectable(l.0.typ, r.0.typ)
    &&& !e.is_cached(l) && !e.is_cached(r) && !e.flags_set(l) && !e.flags_set(r)
    &&& e.vregs() + 4 <= usize::MAX
}

/// Whether an operation is one selected as a move and a two-operand
/// instruction on a pair of reads as [`pair_selectable`] says.
pub open spec fn reads_selectable(e: &X86Emitter, kind: BinaryOperationKind) -> bool {
    is_alu(kind) && pair_selectable(e, kind.spec_children().0, kind.spec_children().1)
}

/// Whether a selection between `t` and `f` on `c` is of three different
/// guest register reads the emitter has neither lowered nor kept flags
/// for, the two values of one width, with room for the fresh registers it
/// takes.
pub open spec fn select_selectable(e: &X86Emitter, c: X86NodeRef, t: X86NodeRef, f: X86NodeRef) -> bool {
    &&& guest_read(c) && guest_read(t) && guest_read(f)
    &&& c != t && c != f && t != f
    &&& !e.is_cached(c) && !e.is_cached(t) && !e.is_cached(f)
    &&& !e.flags_set(c) && !e.flags_set(t) && !e.flags_set(f)
    &&& node_width(t) == node_width(f)
    &&& e.vregs() + 4 <= usize::MAX
}

/// What a selection between guest register reads `t` and `f` on `c` is
/// selected as, with fresh virtual registers numbered from `v`: the result
/// register, the reads of the condition, the true value and the false
/// value, the false value moved into the result, the condition tested,
/// and the true value moved into the result where the condition is not
/// zero. Gives the instructions and the result.
pub open spec fn select_on_reads(c: X86NodeRef, t: X86NodeRef, f: X86NodeRef, v: nat) -> (Seq<Instruction>, Operand) {
    let dst = Operand::spec_vreg(node_width(t), v as usize);
    let cv = Operand::spec_vreg(node_width(c), (v + 1) as usize);
    let tv = Operand::spec_vreg(node_width(t), (v + 2) as usize);
    let fv = Operand::spec_vreg(node_width(f), (v + 3) as usize);
    (
        seq![
            guest_load(c, v + 1),
            guest_load(t, v + 2),
            guest_load(f, v + 3),
            Instruction(Opcode::MOV(fv, dst)),
            Instruction(Opcode::TEST(cv, cv)),
            Instruction(Opcode::CMOVNE(tv, dst)),
        ],
        dst,
    )
}

/// A selection of guest register reads computes `c ? t : f`: the result
/// is first given the register the false value was read into, and then,
/// under the test of the register the condition was read into, the
/// register the true value was read into; the condition, true value and
/// false value are read from their own offsets.
pub proof fn law_select_reads(c: X86NodeRef, t: X86NodeRef, f: X86NodeRef, v: nat)
    requires
        guest_read(c),
        guest_read(t),
        guest_read(f),
        node_width(t) == node_width(f),
        v + 4 <= usize::MAX,
    ensures
        ({
            let (seq, dst) = select_on_reads(c, t, f, v);
            exists|cv: Operand, tv: Operand, fv: Operand|
                #![trigger guest_load_into(c, cv), guest_load_into(t, tv), guest_load_into(f, fv)]
            {
                &&& seq[0] == guest_load_into(c, cv) && seq[1] == guest_load_into(t, tv) && seq[2]
                    == guest_load_into(f, fv)
                &&& seq[3] == Instruction(Opcode::MOV(fv, dst))
                &&& seq[4] == Instruction(Opcode::TEST(cv, cv))
                &&& seq[5] == Instruction(Opcode::CMOVNE(tv, dst))
                &&& cv != dst && tv != dst && fv != dst && tv != fv && cv != tv && cv != fv
            }
        }),
{
    let (seq, dst) = select_on_reads(c, t, f, v);
    let cv = Operand::spec_vreg(node_width(c), (v + 1) as usize);
    let tv = Operand::spec_vreg(node_width(t), (v + 2) as usize);
    let fv = Operand::spec_vreg(node_width(f), (v + 3) as usize);
    assert(seq[0] == guest_load_into(c, cv) && seq[1] == guest_load_into(t, tv) && seq[2] == guest_load_into(f, fv));
    assert(seq[3] == Instruction(Opcode::MOV(fv, dst)) && seq[4] == Instruction(Opcode::TEST(cv, cv)) && seq[5]
        == Instruction(Opcode::CMOVNE(tv, dst)));
    assert(cv != dst && tv != dst && fv != dst && tv != fv && cv != tv && cv != fv);
}

/// The load of guest register read `node` into `op`.
pub open spec fn guest_load_into(node: X86NodeRef, op: Operand) -> Instruction {
    match node.0.kind {
        NodeKind::GuestRegister { offset } => Instruction(
            Opcode::MOV(
                Operand::spec_mem_base_displ(op.width_in_bits, Register::Physical(PhysicalRegister::RBP), offset as i32),
                op,
            ),
        ),
        _ => Instruction(Opcode::DEAD),
    }
}

/// Whether an operation is a complement or a negation of a guest register
/// read the emitter has neither lowered nor kept flags for, with
/// room for the fresh registers it takes.
pub open spec fn unary_read_selectable(e: &X86Emitter, kind: UnaryOperationKind) -> bool {
    match kind {
        UnaryOperationKind::Complement(x) | UnaryOperationKind::Negate(x) => guest_read(x) && !e.is_cached(x)
            && !e.flags_set(x) && e.vregs() + 2 <= usize::MAX,
        _ => false,
    }
}

/// What a complement or a negation of a guest register read is selected
/// as, with fresh virtual registers numbered from `v`: a
/// complement reads the register into a second fresh register, moves it
/// into the first and complements that; a negation reads the register and
/// negates it in place. Gives the instructions and the result.
pub open spec fn unary_on_read(kind: UnaryOperationKind, v: nat) -> (Seq<Instruction>, Operand) {
    match kind {
        UnaryOperationKind::Complement(x) => {
            let dst = Operand::spec_vreg(node_width(x), v as usize);
            let src = Operand::spec_vreg(node_width(x), (v + 1) as usize);
            (seq![guest_load(x, v + 1), Instruction(Opcode::MOV(src, dst)), Instruction(Opcode::NOT(dst))], dst)
        },
        UnaryOperationKind::Negate(x) => {
            let reg = Operand::spec_vreg(node_width(x), v as usize);
            (seq![guest_load(x, v), Instruction(Opcode::NEG(reg))], reg)
        },
        _ => (seq![], Operand::spec_vreg(Width::_64, v as usize)),
    }
}

/// Whether the operation is one of those selected as a move and one
/// two-operand instruction: addition, subtraction, or, exclusive or,
/// multiplication, and.
pub open spec fn is_alu(kind: BinaryOperationKind) -> bool {
    kind is Add || kind is Sub || kind is Or || kind is Xor || kind is Multiply || kind is And
}

/// The two-operand instruction an operation is selected as.
pub open spec fn alu_instruction(kind: BinaryOperationKind, src: Operand, dst: Operand) -> Instruction {
    match kind {
        BinaryOperationKind::Add(..) => Instruction(Opcode::ADD(src, dst)),
        BinaryOperationKind::Sub(..) => Instruction(Opcode::SUB(src, dst)),
        BinaryOperationKind::Or(..) => Instruction(Opcode::OR(src, dst)),
        BinaryOperationKind::Xor(..) => Instruction(Opcode::XOR(src, dst)),
        BinaryOperationKind::Multiply(..) => Instruction(Opcode::IMUL(src, dst)),
        _ => Instruction(Opcode::AND(src, dst)),
    }
}

/// Whether `after` is `before` with instructions appended, the last two
/// of which move some operand into `dst` and apply the operation's
/// two-operand instruction to `dst` with an operand of `dst`'s width.
pub open spec fn ends_with_alu(before: Seq<Instruction>, after: Seq<Instruction>, kind: BinaryOperationKind, dst: Operand) -> bool {
    &&& after.len() >= before.len() + 2
    &&& after[after.len() - 2].0 matches Opcode::MOV(_, d) && d == dst
    &&& exists|right: Operand|
        #![trigger alu_instruction(kind, right, dst)]
        after[after.len() - 1] == alu_instruction(kind, right, dst) && right.width_in_bits == dst.width_in_bits
}

/// Whether a comparison of operands of these types is an unsigned one.
pub open spec fn compare_is_unsigned(lt: Type, rt: Type) -> bool {
    (lt is Unsigned || lt == Type::Bits || lt == Type::Int) && (rt is Unsigned || rt == Type::Bits)
}

/// The `set` a comparison of this kind is selected as, into `dst`: the
/// signed or unsigned condition, turned round where the operands were
/// swapped because the right one is an immediate; `None` for an operation
/// that is no comparison.
pub open spec fn set_for_compare(kind: BinaryOperationKind, signed: bool, swapped: bool, dst: Operand) -> Option<Opcode> {
    match kind {
        BinaryOperationKind::CompareEqual(..) => Some(Opcode::SETE(dst)),
        BinaryOperationKind::CompareNotEqual(..) => Some(Opcode::SETNE(dst)),
        BinaryOperationKind::CompareLessThan(..) => Some(
            if signed {
                if swapped { Opcode::SETGE(dst) } else { Opcode::SETL(dst) }
            } else {
                if swapped { Opcode::SETAE(dst) } else { Opcode::SETB(dst) }
            },
        ),
        BinaryOperationKind::CompareLessThanOrEqual(..) => Some(
            if signed {
                if swapped { Opcode::SETG(dst) } else { Opcode::SETLE(dst) }
            } else {
                if swapped { Opcode::SETA(dst) } else { Opcode::SETBE(dst) }
            },
        ),
        BinaryOperationKind::CompareGreaterThan(..) => Some(
            if signed {
                if swapped { Opcode::SETLE(dst) } else { Opcode::SETG(dst) }
            } else {
                if swapped { Opcode::SETBE(dst) } else { Opcode::SETA(dst) }
            },
        ),
        BinaryOperationKind::CompareGreaterThanOrEqual(..) => Some(
            if signed {
                if swapped { Opcode::SETL(dst) } else { Opcode::SETGE(dst) }
            } else {
                if swapped { Opcode::SETB(dst) } else { Opcode::SETAE(dst) }
            },
        ),
        _ => None,
    }
}

/// Whether `after` is `before` with instructions appended, the last two
/// of which compare two operands and set the byte register `dst` by the
/// comparison's condition (see [`set_for_compare`]).
pub open spec fn compare_lowered(
    before: Seq<Instruction>,
    after: Seq<Instruction>,
    kind: BinaryOperationKind,
    signed: bool,
    dst: Operand,
) -> bool {
    &&& dst.kind is Register
    &&& dst.width_in_bits == Width::_8
    &&& after.len() >= before.len() + 2
    &&& after[after.len() - 2].0 is CMP
    &&& exists|swapped: bool|
        #![trigger set_for_compare(kind, signed, swapped, dst)]
        set_for_compare(kind, signed, swapped, dst) == Some(after.last().0)
}

/// Whether `after` is `before` with instructions appended, the last of
/// which moves the host register `from`, at `dst`'s width, into the register
/// `dst`: how the result of a division is taken out of `rax` or `rdx`.
pub open spec fn moved_from(before: Seq<Instruction>, after: Seq<Instruction>, from: PhysicalRegister, dst: Operand) -> bool {
    &&& dst.kind is Register
    &&& after.len() > before.len()
    &&& after.last() == Instruction(Opcode::MOV(Operand::spec_preg(dst.width_in_bits, from), dst))
}

/// Whether `after` is `before` with instructions appended that end the way
/// a one-operand operation of this kind is selected, writing to `dst`:
/// complement as a move into `dst` and `not`; logical not as a
/// comparison, `sete` into `dst` and an `and` with one; rounding of a
/// quotient as a division whose quotient is moved out of `rax`.
pub open spec fn unary_lowered(before: Seq<Instruction>, after: Seq<Instruction>, kind: UnaryOperationKind, dst: Operand) -> bool {
    match kind {
        UnaryOperationKind::Complement(_) => {
            &&& dst.kind is Register
            &&& after.len() >= before.len() + 2
            &&& after[after.len() - 2].0 matches Opcode::MOV(_, d) && d == dst
            &&& after.last() == Instruction(Opcode::NOT(dst))
        },
        UnaryOperationKind::Not(_) => {
            &&& dst.kind is Register
            &&& after.len() >= before.len() + 3
            &&& after[after.len() - 3].0 is CMP
            &&& after[after.len() - 2] == Instruction(Opcode::SETE(dst))
            &&& after.last() == Instruction(
                Opcode::AND(Operand { kind: OperandKind::Immediate(1), width_in_bits: dst.width_in_bits }, dst),
            )
        },
        UnaryOperationKind::Ceil(_) => moved_from(before, after, PhysicalRegister::RAX, dst),
        UnaryOperationKind::Floor(_) => moved_from(before, after, PhysicalRegister::RAX, dst),
        _ => true,
    }
}

/// Whether `after` is `before` with instructions appended, the last of
/// which shifts `dst` left (logically) or right (arithmetically), as the
/// kind says.
pub open spec fn shift_lowered(before: Seq<Instruction>, after: Seq<Instruction>, kind: ShiftOperationKind, dst: Operand) -> bool {
    match kind {
        ShiftOperationKind::LogicalShiftLeft => {
            &&& dst.kind is Register
            &&& after.len() > before.len()
            &&& after.last().0 matches Opcode::SHL(_, d) && d == dst
        },
        ShiftOperationKind::ArithmeticShiftRight => {
            &&& dst.kind is Register
            &&& after.len() > before.len()
            &&& after.last().0 matches Opcode::SAR(_, d) && d == dst
        },
        _ => true,
    }
}

/// Whether `i` moves, zero-extends or sign-extends a value into `dst`.
pub open spec fn moves_into(i: Instruction, dst: Operand) -> bool {
    match i.0 {
        Opcode::MOV(_, d) => d == dst,
        Opcode::MOVZX(_, d) => d == dst,
        Opcode::MOVSX(_, d) => d == dst,
        _ => false,
    }
}

/// Whether `after` is `before` with instructions appended, the last of
/// which moves a value into the register `dst`.
pub open spec fn cast_lowered(before: Seq<Instruction>, after: Seq<Instruction>, dst: Operand) -> bool {
    &&& dst.kind is Register
    &&& after.len() > before.len()
    &&& moves_into(after.last(), dst)
}

/// Whether `after` is `before` with instructions appended, the last three
/// of which move the false value into the register `dst`, test the
/// condition and move the true value over `dst` where it is not zero.
pub open spec fn select_lowered(before: Seq<Instruction>, after: Seq<Instruction>, dst: Operand) -> bool {
    &&& dst.kind is Register
    &&& after.len() >= before.len() + 3
    &&& after[after.len() - 3].0 matches Opcode::MOV(_, d) && d == dst
    &&& after[after.len() - 2].0 matches Opcode::TEST(c, c2) && c == c2
    &&& after.last().0 matches Opcode::CMOVNE(_, d) && d == dst
}

/// Whether `after` is `before` with instructions appended, the last of
/// which extracts a bit field into the 64-bit register `dst` with
/// `bextr`.
pub open spec fn extract_lowered(before: Seq<Instruction>, after: Seq<Instruction>, dst: Operand) -> bool {
    &&& dst.kind is Register
    &&& dst.width_in_bits == Width::_64
    &&& after.len() > before.len()
    &&& after.last().0 matches Opcode::BEXTR(_, _, d) && d == dst
}

/// Whether an extraction takes the high 64 bits of a product, which is
/// selected as a multiplication into `rdx`.
pub open spec fn is_product_high(value: X86NodeRef, start: X86NodeRef, length: X86NodeRef) -> bool {
    &&& value.0.kind matches NodeKind::BinaryOperation(op) && op is Multiply
    &&& start.0.kind matches NodeKind::Constant { value: v, .. } && v == 64
    &&& length.0.kind matches NodeKind::Constant { value: l, .. } && l == 64
}

/// What the instructions appended for a node of this kind end with, where
/// the selection depends on the kind alone (see [`ends_with_alu`],
/// [`unary_lowered`], [`shift_lowered`], [`cast_lowered`]); nothing is
/// said of the other kinds.
pub open spec fn lowered_as(before: Seq<Instruction>, after: Seq<Instruction>, kind: NodeKind, dst: Operand) -> bool {
    match kind {
        NodeKind::BinaryOperation(op) => {
            &&& is_alu(op) ==> dst.kind is Register && ends_with_alu(before, after, op, dst)
            &&& op is Divide ==> moved_from(before, after, PhysicalRegister::RAX, dst)
            &&& op is Modulo ==> moved_from(before, after, PhysicalRegister::RDX, dst)
            &&& op.is_compare() ==> compare_lowered(
                before,
                after,
                op,
                !compare_is_unsigned(op.spec_children().0.0.typ, op.spec_children().1.0.typ),
                dst,
            )
        },
        NodeKind::UnaryOperation(op) => unary_lowered(before, after, op, dst),
        NodeKind::Shift { kind, .. } => shift_lowered(before, after, kind, dst),
        NodeKind::Cast { .. } => cast_lowered(before, after, dst),
        NodeKind::Select { .. } => select_lowered(before, after, dst),
        NodeKind::BitExtract { value, start, length } => value.0.typ.spec_width() <= 64 && !is_product_high(value, start, length)
            ==> extract_lowered(before, after, dst),
        _ => true,
    }
}

/// How an operand's width compares with another's.
#[derive(Debug, Clone, Copy, PartialEq, Eq, Structural)]
enum WidthOrder {
    Narrower,
    Same,
    Wider,
}

fn compare_widths(a: Width, b: Width) -> (r: WidthOrder)
    ensures
        r == WidthOrder::Narrower <==> a.bits() < b.bits(),
        r == WidthOrder::Same <==> a == b,
        r == WidthOrder::Wider <==> a.bits() > b.bits(),
{
    if a.narrower_than(&b) {
        WidthOrder::Narrower
    } else if b.narrower_than(&a) {
        WidthOrder::Wider
    } else {
        WidthOrder::Same
    }
}

impl X86Emitter {
    /// The high 64 bits of a product, read out of `rdx` after a one-operand
    /// multiplication (signed where either factor is).
    fn extract_product_high(&mut self, left: &X86NodeRef, right: &X86NodeRef, depth: u32) -> (r: Result<Operand, EmitError>)
        requires
            old(self).wf(),
            depth > 0,
        ensures
            Self::grows(old(self), final(self)),
        decreases depth, 1u32,
    {
        broadcast use lemma_grows_trans;
        proof {
            lemma_grows_refl(&*self);
        }
        let signed = is_signed(left.typ()) || is_signed(right.typ());
        let hi = Operand::preg(Width::_64, PhysicalRegister::RDX);
        let lo = Operand::preg(Width::_64, PhysicalRegister::RAX);
        let zero = Operand::imm(Width::_64, 0);
        let left = match self.to_operand_at(left, depth - 1) {
            Ok(o) => o,
            Err(e) => return Err(e),
        };
        let right = match self.to_operand_at(right, depth - 1) {
            Ok(o) => o,
            Err(e) => return Err(e),
        };
        match self.emit_mov(zero, hi) {
            Ok(()) => {},
            Err(e) => return Err(e),
        }
        match self.emit_mov(left, lo) {
            Ok(()) => {},
            Err(e) => return Err(e),
        }
        if signed {
            self.emit(Instruction::imul1(right, lo, hi));
        } else {
            self.emit(Instruction::mul(right, lo, hi));
        }
        let result = match self.fresh(Width::_64) {
            Ok(o) => o,
            Err(e) => return Err(e),
        };
        match self.emit_mov(hi, result) {
            Ok(()) => Ok(result),
            Err(e) => Err(e),
        }
    }

    /// The high 64 bits of an unsigned product shifted down, read out of
    /// `rdx`.
    fn shift_product_high(&mut self, a: &X86NodeRef, b: &X86NodeRef, depth: u32) -> (r: Result<Operand, EmitError>)
        requires
            old(self).wf(),
            depth > 0,
        ensures
            Self::grows(old(self), final(self)),
        decreases depth, 1u32,
    {
        broadcast use lemma_grows_trans;
        proof {
            lemma_grows_refl(&*self);
        }
        let dst_hi = Operand::preg(Width::_64, PhysicalRegister::RDX);
        let dst_lo = Operand::preg(Width::_64, PhysicalRegister::RAX);
        let src = match self.fresh(Width::_64) {
            Ok(o) => o,
            Err(e) => return Err(e),
        };
        let a = match self.to_operand_at(a, depth - 1) {
            Ok(o) => o,
            Err(e) => return Err(e),
        };
        let b = match self.to_operand_at(b, depth - 1) {
            Ok(o) => o,
            Err(e) => return Err(e),
        };
        match self.emit_mov(a, src) {
            Ok(()) => {},
            Err(e) => return Err(e),
        }
        match self.emit_mov(b, dst_lo) {
            Ok(()) => {},
            Err(e) => return Err(e),
        }
        self.emit(Instruction::mul(src, dst_lo, dst_hi));
        Ok(dst_hi)
    }

    /// An add with carry: `b` is moved to a fresh register, `a` and the
    /// carry are added in, and where the node's flags are kept the four
    /// flags are stored to the guest's flag registers.
    fn add_with_carry_to_operand(
        &mut self,
        node: &X86NodeRef,
        a: &X86NodeRef,
        b: &X86NodeRef,
        carry: &X86NodeRef,
        depth: u32,
    ) -> (r: Result<Operand, EmitError>)
        requires
            old(self).wf(),
            depth > 0,
        ensures
            Self::grows(old(self), final(self)),
        decreases depth, 1u32,
    {
        broadcast use lemma_grows_trans;
        proof {
            lemma_grows_refl(&*self);
        }
        let a_width = match width_of(a.typ()) {
            Ok(w) => w,
            Err(e) => return Err(e),
        };
        let b_width = match width_of(b.typ()) {
            Ok(w) => w,
            Err(e) => return Err(e),
        };
        if a_width != b_width || carry.typ().width() != 1 {
            return Err(EmitError::WidthMismatch);
        }
        let dst = match self.fresh(a_width) {
            Ok(o) => o,
            Err(e) => return Err(e),
        };
        let a = match self.to_operand_at(a, depth - 1) {
            Ok(o) => o,
            Err(e) => return Err(e),
        };
        let b = match self.to_operand_at(b, depth - 1) {
            Ok(o) => o,
            Err(e) => return Err(e),
        };
        let carry = match self.to_operand_at(carry, depth - 1) {
            Ok(o) => o,
            Err(e) => return Err(e),
        };
        match self.emit_mov(b, dst) {
            Ok(()) => {},
            Err(e) => return Err(e),
        }
        self.emit(Instruction::adc(a, dst, carry));
        if self.flags_variable(node).is_some() {
            let layout = self.ctx.register_layout();
            let rbp = Register::Physical(PhysicalRegister::RBP);
            let n = match displacement(layout.n) {
                Ok(d) => d,
                Err(e) => return Err(e),
            };
            self.emit(Instruction::sets(Operand::mem_base_displ(Width::_8, rbp, n)));
            let z = match displacement(layout.z) {
                Ok(d) => d,
                Err(e) => return Err(e),
            };
            self.emit(Instruction::sete(Operand::mem_base_displ(Width::_8, rbp, z)));
            let c = match displacement(layout.c) {
                Ok(d) => d,
                Err(e) => return Err(e),
            };
            self.emit(Instruction::setc(Operand::mem_base_displ(Width::_8, rbp, c)));
            let v = match displacement(layout.v) {
                Ok(d) => d,
                Err(e) => return Err(e),
            };
            self.emit(Instruction::seto(Operand::mem_base_displ(Width::_8, rbp, v)));
        }
        Ok(dst)
    }

    /// A cast: the value's operand is moved, zero-extended, sign-extended or
    /// narrowed into a fresh register of the node's width.
    fn cast_to_operand(&mut self, typ: Type, value: &X86NodeRef, kind: CastOperationKind, depth: u32) -> (r: Result<
        Operand,
        EmitError,
    >)
        requires
            old(self).wf(),
            depth > 0,
        ensures
            Self::grows(old(self), final(self)),
            r matches Ok(dst) ==> cast_lowered(old(self).instrs(), final(self).instrs(), dst),
        decreases depth, 1u32,
    {
        broadcast use lemma_grows_trans;
        proof {
            lemma_grows_refl(&*self);
        }
        let target_width = match width_of(typ) {
            Ok(w) => w,
            Err(e) => return Err(e),
        };
        let dst = match self.fresh(target_width) {
            Ok(o) => o,
            Err(e) => return Err(e),
        };
        let src = match self.to_operand_at(value, depth - 1) {
            Ok(o) => o,
            Err(e) => return Err(e),
        };
        if src.width() == dst.width() {
            return match self.emit_mov(src, dst) {
                Ok(()) => Ok(dst),
                Err(e) => Err(e),
            };
        }
        let order = compare_widths(src.width(), dst.width());
        let narrowed = {
            let mut narrowed = src;
            if !(Width::_64.narrower_than(&src.width()) && dst.width().narrower_than(&Width::_128)) {
                narrowed.set_width(dst.width());
            }
            narrowed
        };
        let result = match (kind, order) {
            (CastOperationKind::ZeroExtend, WidthOrder::Narrower) => self.emit_movzx(src, dst),
            (CastOperationKind::ZeroExtend, _) => self.emit_mov(src, dst),
            (CastOperationKind::SignExtend, WidthOrder::Same) => self.emit_mov(src, dst),
            (CastOperationKind::SignExtend, WidthOrder::Narrower) => {
                self.emit(Instruction::movsx(src, dst));
                Ok(())
            },
            (CastOperationKind::Truncate, WidthOrder::Wider) => self.emit_mov(narrowed, dst),
            (CastOperationKind::Reinterpret, WidthOrder::Same) => self.emit_mov(src, dst),
            (CastOperationKind::Reinterpret, WidthOrder::Narrower) => self.emit_movzx(src, dst),
            (CastOperationKind::Reinterpret, WidthOrder::Wider) => self.emit_mov(narrowed, dst),
            _ => Err(EmitError::Unsupported),
        };
        match result {
            Ok(()) => Ok(dst),
            Err(e) => Err(e),
        }
    }

    /// A 128-bit logical right shift: the two halves are shifted with
    /// `shrd` and `shr` and joined again.
    fn shift_right_128(&mut self, value: Operand, amount: Operand) -> (r: Result<Operand, EmitError>)
        requires
            old(self).wf(),
        ensures
            Self::grows(old(self), final(self)),
    {
        broadcast use lemma_grows_trans;
        proof {
            lemma_grows_refl(&*self);
        }
        let low_half = match self.fresh(Width::_64) {
            Ok(o) => o,
            Err(e) => return Err(e),
        };
        match self.emit_mov(value, low_half) {
            Ok(()) => {},
            Err(e) => return Err(e),
        }
        let one = Operand::imm(Width::_8, 1);
        let high_half = match self.fresh(Width::_64) {
            Ok(o) => o,
            Err(e) => return Err(e),
        };
        self.emit(Instruction::pextr(one, value, high_half));
        let amount = if let OperandKind::Register(_) = amount.kind {
            let cl = Operand::preg(Width::_8, PhysicalRegister::RCX);
            match self.emit_mov(amount, cl) {
                Ok(()) => {},
                Err(e) => return Err(e),
            }
            cl
        } else {
            amount
        };
        self.emit(Instruction::shrd(amount, high_half, low_half));
        self.emit(Instruction::shr(amount, high_half));
        let result = match self.fresh(Width::_128) {
            Ok(o) => o,
            Err(e) => return Err(e),
        };
        match self.emit_movzx(low_half, result) {
            Ok(()) => {},
            Err(e) => return Err(e),
        }
        self.emit(Instruction::pinsr(one, high_half, result));
        Ok(result)
    }

    /// A shift: the value is moved to a fresh register (a register amount
    /// going through `cl`) and shifted there; 128-bit values only shift
    /// right.
    fn shift_to_operand(&mut self, value: &X86NodeRef, amount: &X86NodeRef, kind: ShiftOperationKind, depth: u32) -> (r:
        Result<Operand, EmitError>)
        requires
            old(self).wf(),
            depth > 0,
        ensures
            Self::grows(old(self), final(self)),
            r matches Ok(dst) ==> shift_lowered(old(self).instrs(), final(self).instrs(), kind, dst),
        decreases depth, 1u32,
    {
        broadcast use lemma_grows_trans;
        proof {
            lemma_grows_refl(&*self);
        }
        let mut amount_op = match self.to_operand_at(amount, depth - 1) {
            Ok(o) => o,
            Err(e) => return Err(e),
        };
        let value_op = match self.to_operand_at(value, depth - 1) {
            Ok(o) => o,
            Err(e) => return Err(e),
        };
        if value_op.width() == Width::_128 {
            return match kind {
                ShiftOperationKind::LogicalShiftRight => self.shift_right_128(value_op, amount_op),
                _ => Err(EmitError::Unsupported),
            };
        }
        let dst = match self.fresh(value_op.width()) {
            Ok(o) => o,
            Err(e) => return Err(e),
        };
        match self.emit_mov(value_op, dst) {
            Ok(()) => {},
            Err(e) => return Err(e),
        }
        if let OperandKind::Register(_) = amount_op.kind {
            amount_op.set_width(Width::_8);
            let amount_dst = Operand::preg(Width::_8, PhysicalRegister::RCX);
            match self.emit_mov(amount_op, amount_dst) {
                Ok(()) => {},
                Err(e) => return Err(e),
            }
            amount_op = amount_dst;
        }
        match kind {
            ShiftOperationKind::LogicalShiftLeft => self.emit(Instruction::shl(amount_op, dst)),
            ShiftOperationKind::LogicalShiftRight => self.emit(Instruction::shr(amount_op, dst)),
            ShiftOperationKind::ArithmeticShiftRight => self.emit(Instruction::sar(amount_op, dst)),
            _ => return Err(EmitError::Unsupported),
        }
        Ok(dst)
    }
}

/// The signed 64-bit constant node of `value`.
pub open spec fn s64(value: u64) -> X86NodeRef {
    crate::fold::constant_node(value, Type::Signed(64))
}

/// The node `((1 << length) - 1) << start` in a `width`-bit unsigned type,
/// where every step is defined.
pub open spec fn mask_expr(start: X86NodeRef, length: X86NodeRef, width: u32) -> Option<X86NodeRef> {
    bind(
        checked_constant(1, Type::Unsigned(width)),
        |one: X86NodeRef|
            bind(
                checked_shift(one, length, ShiftOperationKind::LogicalShiftLeft),
                |shifted: X86NodeRef|
                    bind(
                        checked_binary(BinaryOperationKind::Sub(shifted, one)),
                        |mask: X86NodeRef| checked_shift(mask, start, ShiftOperationKind::LogicalShiftLeft),
                    ),
            ),
    )
}

/// The node inserting `length` bits of `source` into `target` (of at most
/// 64 bits) at `start`: the target with the bits of the mask cleared, or-ed
/// with the zero-extended source shifted into place and masked; where every
/// step is defined.
pub open spec fn insert64_expr(target: X86NodeRef, source: X86NodeRef, start: X86NodeRef, length: X86NodeRef) -> Option<
    X86NodeRef,
> {
    let typ = target.0.typ;
    bind(
        mask_expr(start, length, typ.spec_width()),
        |mask: X86NodeRef|
            bind(
                checked_unary(UnaryOperationKind::Complement(mask)),
                |inverted: X86NodeRef|
                    bind(
                        checked_binary(BinaryOperationKind::And(target, inverted)),
                        |cleared: X86NodeRef|
                            bind(
                                checked_cast(source, typ, CastOperationKind::ZeroExtend),
                                |cast_source: X86NodeRef|
                                    bind(
                                        checked_shift(cast_source, start, ShiftOperationKind::LogicalShiftLeft),
                                        |shifted: X86NodeRef|
                                            bind(
                                                checked_binary(BinaryOperationKind::And(shifted, mask)),
                                                |masked: X86NodeRef| checked_binary(BinaryOperationKind::Or(cleared, masked)),
                                            ),
                                    ),
                            ),
                    ),
            ),
    )
}

/// The split of a bit range of a 128-bit value into its parts in the low
/// and the high 64 bits, as nodes `(low_start, low_length, high_start,
/// high_length)`: the low part starts at `start` (or 0 from bit 64 on) and
/// runs up to bit 64 at most; the high part starts at `start - 64` (or 0)
/// and holds the rest; where every step is defined.
pub open spec fn split_expr(start: X86NodeRef, length: X86NodeRef) -> Option<(X86NodeRef, X86NodeRef, X86NodeRef, X86NodeRef)> {
    bind(
        checked_binary(BinaryOperationKind::CompareGreaterThanOrEqual(start, s64(64))),
        |in_high: X86NodeRef|
            bind(
                checked_binary(BinaryOperationKind::Add(start, length)),
                |end: X86NodeRef|
                    bind(
                        checked_binary(BinaryOperationKind::CompareGreaterThanOrEqual(end, s64(64))),
                        |end_in_high: X86NodeRef|
                            bind(
                                checked_binary(
                                    BinaryOperationKind::Sub(crate::unary::select_node(end_in_high, s64(64), end), start),
                                ),
                                |capped_length: X86NodeRef|
                                    bind(
                                        checked_binary(BinaryOperationKind::Sub(start, s64(64))),
                                        |start_sub_64: X86NodeRef| {
                                            let low_length = crate::unary::select_node(in_high, s64(0), capped_length);
                                            bind(
                                                checked_binary(BinaryOperationKind::Sub(length, low_length)),
                                                |high_length: X86NodeRef|
                                                    Some(
                                                        (
                                                            crate::unary::select_node(in_high, s64(0), start),
                                                            low_length,
                                                            crate::unary::select_node(in_high, start_sub_64, s64(0)),
                                                            high_length,
                                                        ),
                                                    ),
                                            )
                                        },
                                    ),
                            ),
                    ),
            ),
    )
}

/// The node extracting a constant `length` (at most 64) of bits of a
/// 128-bit `value` from `start`: the part in the low half zero-extended,
/// or-ed with the part in the high half zero-extended and shifted above it;
/// where every step is defined.
pub open spec fn extract128_expr(value: X86NodeRef, start: X86NodeRef, length: X86NodeRef) -> Option<X86NodeRef> {
    match length.0.kind {
        NodeKind::Constant { value: length_c, .. } => if length_c > 64 {
            None
        } else {
            let narrow = Type::Unsigned(length_c as u32);
            bind(
                checked_cast(start, Type::Signed(64), CastOperationKind::Convert),
                |start64: X86NodeRef|
                    bind(
                        checked_cast(length, Type::Signed(64), CastOperationKind::Convert),
                        |length64: X86NodeRef|
                            bind(
                                split_expr(start64, length64),
                                |split: (X86NodeRef, X86NodeRef, X86NodeRef, X86NodeRef)|
                                    bind(
                                        checked_bit_extract(value, s64(0), s64(64)),
                                        |value_low: X86NodeRef|
                                            bind(
                                                checked_bit_extract(value, s64(64), s64(64)),
                                                |value_high: X86NodeRef|
                                                    bind(
                                                        checked_bit_extract(value_low, split.0, split.1),
                                                        |low: X86NodeRef|
                                                            bind(
                                                                checked_bit_extract(value_high, split.2, split.3),
                                                                |high: X86NodeRef|
                                                                    bind(
                                                                        checked_cast(low, narrow, CastOperationKind::ZeroExtend),
                                                                        |low_wide: X86NodeRef|
                                                                            bind(
                                                                                checked_cast(high, narrow, CastOperationKind::ZeroExtend),
                                                                                |high_wide: X86NodeRef|
                                                                                    bind(
                                                                                        checked_shift(
                                                                                            high_wide,
                                                                                            split.1,
                                                                                            ShiftOperationKind::LogicalShiftLeft,
                                                                                        ),
                                                                                        |shifted: X86NodeRef|
                                                                                            checked_binary(
                                                                                                BinaryOperationKind::Or(shifted, low_wide),
                                                                                            ),
                                                                                    ),
                                                                            ),
                                                                    ),
                                                            ),
                                                    ),
                                            ),
                                    ),
                            ),
                    ),
            )
        },
        _ => None,
    }
}

/// The node inserting `length` bits of a source of at most 64 bits into a
/// 128-bit `target` at `start`: the target with the bits of a 128-bit mask
/// cleared (the mask built from the masks of the range's two halves),
/// or-ed with the source shifted into place in each half and masked;
/// where every step is defined.
pub open spec fn insert128_expr(target: X86NodeRef, source: X86NodeRef, start: X86NodeRef, length: X86NodeRef) -> Option<
    X86NodeRef,
> {
    if source.0.typ.spec_width() > 64 {
        None
    } else {
        bind(checked_cast(start, Type::Signed(64), CastOperationKind::Convert), |start64: X86NodeRef| bind(checked_cast(length, Type::Signed(64), CastOperationKind::Convert), |length64: X86NodeRef| bind(split_expr(start64, length64), |split: (X86NodeRef, X86NodeRef, X86NodeRef, X86NodeRef)| bind(mask_expr(split.0, split.1, 64), |low_mask: X86NodeRef| bind(checked_cast(low_mask, Type::Unsigned(128), CastOperationKind::ZeroExtend), |low_mask_128: X86NodeRef| bind(mask_expr(split.2, split.3, 64), |high_mask: X86NodeRef| bind(checked_bit_insert(low_mask_128, high_mask, s64(64), s64(64)), |mask: X86NodeRef| bind(checked_unary(UnaryOperationKind::Complement(mask)), |inverted: X86NodeRef| bind(checked_binary(BinaryOperationKind::And(target, inverted)), |cleared: X86NodeRef| bind(checked_cast(source, Type::Unsigned(64), CastOperationKind::ZeroExtend), |source64: X86NodeRef| bind(checked_shift(source64, start64, ShiftOperationKind::LogicalShiftLeft), |low_source: X86NodeRef| bind(checked_cast(low_source, Type::Unsigned(128), CastOperationKind::ZeroExtend), |low_source_128: X86NodeRef| bind(checked_binary(BinaryOperationKind::Sub(s64(64), start64)), |shr_amount: X86NodeRef| bind(checked_binary(BinaryOperationKind::CompareGreaterThan(shr_amount, s64(0))), |positive: X86NodeRef| bind(checked_unary(UnaryOperationKind::Absolute(shr_amount)), |distance: X86NodeRef| bind(checked_shift(source64, distance, ShiftOperationKind::LogicalShiftRight), |shifted_right: X86NodeRef| bind(checked_shift(source64, distance, ShiftOperationKind::LogicalShiftLeft), |shifted_left: X86NodeRef| bind(checked_bit_insert(low_source_128, crate::unary::select_node(positive, shifted_right, shifted_left), s64(64), s64(64)), |joined: X86NodeRef| bind(checked_binary(BinaryOperationKind::And(joined, mask)), |masked_source: X86NodeRef| checked_binary(BinaryOperationKind::Or(cleared, masked_source)))))))))))))))))))))
    }
}

/// A signed 64-bit constant node.
fn s64_node(value: u64) -> (r: X86NodeRef)
    ensures
        r == s64(value),
{
    crate::fold::constant(value, Type::Signed(64))
}

/// The node `((1 << length) - 1) << start` in a `width`-bit unsigned type.
fn mask_node(start: X86NodeRef, length: X86NodeRef, width: u32) -> (r: Result<X86NodeRef, EmitError>)
    ensures
        r == built(mask_expr(start, length, width)),
{
    let one = match try_constant(1, Type::Unsigned(width)) {
        Ok(n) => n,
        Err(e) => return Err(e),
    };
    let shifted_one = match try_shift(one.dup(), length, ShiftOperationKind::LogicalShiftLeft) {
        Ok(n) => n,
        Err(e) => return Err(e),
    };
    let mask = match try_binary(BinaryOperationKind::Sub(shifted_one, one)) {
        Ok(n) => n,
        Err(e) => return Err(e),
    };
    try_shift(mask, start, ShiftOperationKind::LogicalShiftLeft)
}

/// The node inserting `length` bits of `source` into `target` at `start`,
/// built from masks and shifts on values of at most 64 bits.
fn bit_insert_64(target: X86NodeRef, source: X86NodeRef, start: X86NodeRef, length: X86NodeRef) -> (r: Result<
    X86NodeRef,
    EmitError,
>)
    ensures
        r == built(insert64_expr(target, source, start, length)),
{
    let typ = target.typ();
    let mask = match mask_node(start.dup(), length, typ.width()) {
        Ok(n) => n,
        Err(e) => return Err(e),
    };
    let inverted_mask = match try_unary(UnaryOperationKind::Complement(mask.dup())) {
        Ok(n) => n,
        Err(e) => return Err(e),
    };
    let cleared_target = match try_binary(BinaryOperationKind::And(target, inverted_mask)) {
        Ok(n) => n,
        Err(e) => return Err(e),
    };
    let cast_source = match try_cast(source, typ, CastOperationKind::ZeroExtend) {
        Ok(n) => n,
        Err(e) => return Err(e),
    };
    let shifted_source = match try_shift(cast_source, start, ShiftOperationKind::LogicalShiftLeft) {
        Ok(n) => n,
        Err(e) => return Err(e),
    };
    let masked_source = match try_binary(BinaryOperationKind::And(shifted_source, mask)) {
        Ok(n) => n,
        Err(e) => return Err(e),
    };
    try_binary(BinaryOperationKind::Or(cleared_target, masked_source))
}

/// The split of a bit range of a 128-bit value into its parts in the low
/// and the high 64 bits: `(low_start, low_length, high_start, high_length)`
/// as nodes.
fn split_range_nodes(start: &X86NodeRef, length: &X86NodeRef) -> (r: Result<
    (X86NodeRef, X86NodeRef, X86NodeRef, X86NodeRef),
    EmitError,
>)
    ensures
        r == built(split_expr(*start, *length)),
{
    let low_start = {
        let condition = match try_binary(
            BinaryOperationKind::CompareGreaterThanOrEqual(start.dup(), s64_node(64)),
        ) {
            Ok(n) => n,
            Err(e) => return Err(e),
        };
        crate::unary::select(condition, s64_node(0), start.dup())
    };
    let low_length = {
        let condition = match try_binary(
            BinaryOperationKind::CompareGreaterThanOrEqual(start.dup(), s64_node(64)),
        ) {
            Ok(n) => n,
            Err(e) => return Err(e),
        };
        let capped_length = {
            let end = match try_binary(BinaryOperationKind::Add(start.dup(), length.dup())) {
                Ok(n) => n,
                Err(e) => return Err(e),
            };
            let end_condition = match try_binary(
                BinaryOperationKind::CompareGreaterThanOrEqual(end.dup(), s64_node(64)),
            ) {
                Ok(n) => n,
                Err(e) => return Err(e),
            };
            let capped_end = crate::unary::select(end_condition, s64_node(64), end);
            match try_binary(BinaryOperationKind::Sub(capped_end, start.dup())) {
                Ok(n) => n,
                Err(e) => return Err(e),
            }
        };
        crate::unary::select(condition, s64_node(0), capped_length)
    };
    let high_start = {
        let condition = match try_binary(
            BinaryOperationKind::CompareGreaterThanOrEqual(start.dup(), s64_node(64)),
        ) {
            Ok(n) => n,
            Err(e) => return Err(e),
        };
        let start_sub_64 = match try_binary(BinaryOperationKind::Sub(start.dup(), s64_node(64))) {
            Ok(n) => n,
            Err(e) => return Err(e),
        };
        crate::unary::select(condition, start_sub_64, s64_node(0))
    };
    let high_length = match try_binary(BinaryOperationKind::Sub(length.dup(), low_length.dup())) {
        Ok(n) => n,
        Err(e) => return Err(e),
    };
    Ok((low_start, low_length, high_start, high_length))
}

/// A bit range of a 128-bit value split into its part in the low 64 bits
/// and its part in the high 64 bits.
#[derive(Debug, Clone, Copy, PartialEq, Eq, Structural)]
pub struct SplitRange {
    pub low_start: u64,
    pub low_length: u64,
    pub high_start: u64,
    pub high_length: u64,
}

impl SplitRange {
    /// The split of the `length` bits from bit `start`: the low part runs
    /// from `start` up to bit 64 at most, the high part holds the rest,
    /// counted from bit 64.
    pub fn new(start: u64, length: u64) -> (r: SplitRange)
        requires
            start + length <= u64::MAX,
        ensures
            r.low_start == (if start >= 64 { 0 } else { start }),
            r.low_length == (if start >= 64 { 0 } else if start + length < 64 { length as int } else { 64 - start }),
            r.high_start == (if start >= 64 { start - 64 } else { 0 }),
            r.high_length == length - r.low_length,
    {
        let low_start = if start >= 64 {
            0
        } else {
            start
        };
        let low_length = if start >= 64 {
            0
        } else {
            let end = if start + length < 64 {
                start + length
            } else {
                64
            };
            end - start
        };
        let high_start = if start >= 64 {
            start - 64
        } else {
            0
        };
        let high_length = length - low_length;
        SplitRange { low_start, low_length, high_start, high_length }
    }
}

/// The node inserting `length` bits of a source of at most 64 bits into a
/// 128-bit `target` at `start`, from a 128-bit mask built from its two
/// halves.
fn bit_insert_128(target: X86NodeRef, source: X86NodeRef, start: X86NodeRef, length: X86NodeRef) -> (r: Result<
    X86NodeRef,
    EmitError,
>)
    ensures
        r == built(insert128_expr(target, source, start, length)),
{
    if source.typ().width() > 64 {
        return Err(EmitError::Unsupported);
    }
    let start = match try_cast(start, Type::Signed(64), CastOperationKind::Convert) {
        Ok(n) => n,
        Err(e) => return Err(e),
    };
    let length = match try_cast(length, Type::Signed(64), CastOperationKind::Convert) {
        Ok(n) => n,
        Err(e) => return Err(e),
    };
    let (low_start, low_length, high_start, high_length) = match split_range_nodes(&start, &length) {
        Ok(x) => x,
        Err(e) => return Err(e),
    };
    let mask = {
        let low_mask = match mask_node(low_start, low_length, 64) {
            Ok(n) => n,
            Err(e) => return Err(e),
        };
        let low_mask_128 = match try_cast(low_mask, Type::Unsigned(128), CastOperationKind::ZeroExtend) {
            Ok(n) => n,
            Err(e) => return Err(e),
        };
        let high_mask = match mask_node(high_start, high_length, 64) {
            Ok(n) => n,
            Err(e) => return Err(e),
        };
        match try_bit_insert(low_mask_128, high_mask, s64_node(64), s64_node(64)) {
            Ok(n) => n,
            Err(e) => return Err(e),
        }
    };
    let inverted_mask = match try_unary(UnaryOperationKind::Complement(mask.dup())) {
        Ok(n) => n,
        Err(e) => return Err(e),
    };
    let target = match try_binary(BinaryOperationKind::And(target, inverted_mask)) {
        Ok(n) => n,
        Err(e) => return Err(e),
    };
    let source = {
        let source = match try_cast(source, Type::Unsigned(64), CastOperationKind::ZeroExtend) {
            Ok(n) => n,
            Err(e) => return Err(e),
        };
        let low_source = match try_shift(source.dup(), start.dup(), ShiftOperationKind::LogicalShiftLeft) {
            Ok(n) => n,
            Err(e) => return Err(e),
        };
        let low_source_128 = match try_cast(low_source, Type::Unsigned(128), CastOperationKind::ZeroExtend) {
            Ok(n) => n,
            Err(e) => return Err(e),
        };
        let high_source = {
            let shr_amount = match try_binary(BinaryOperationKind::Sub(s64_node(64), start)) {
                Ok(n) => n,
                Err(e) => return Err(e),
            };
            let condition = match try_binary(
                BinaryOperationKind::CompareGreaterThan(shr_amount.dup(), s64_node(0)),
            ) {
                Ok(n) => n,
                Err(e) => return Err(e),
            };
            let abs_shift_amount = match try_unary(UnaryOperationKind::Absolute(shr_amount)) {
                Ok(n) => n,
                Err(e) => return Err(e),
            };
            let shift_right = match try_shift(
                source.dup(),
                abs_shift_amount.dup(),
                ShiftOperationKind::LogicalShiftRight,
            ) {
                Ok(n) => n,
                Err(e) => return Err(e),
            };
            let shift_left = match try_shift(source, abs_shift_amount, ShiftOperationKind::LogicalShiftLeft) {
                Ok(n) => n,
                Err(e) => return Err(e),
            };
            crate::unary::select(condition, shift_right, shift_left)
        };
        let joined = match try_bit_insert(low_source_128, high_source, s64_node(64), s64_node(64)) {
            Ok(n) => n,
            Err(e) => return Err(e),
        };
        match try_binary(BinaryOperationKind::And(joined, mask)) {
            Ok(n) => n,
            Err(e) => return Err(e),
        }
    };
    try_binary(BinaryOperationKind::Or(target, source))
}

/// The node extracting a constant `length` (at most 64) of bits of a
/// 128-bit `value` from `start`, from extractions out of its two halves.
fn bit_extract_128(value: X86NodeRef, start: X86NodeRef, length: X86NodeRef) -> (r: Result<X86NodeRef, EmitError>)
    ensures
        r == built(extract128_expr(value, start, length)),
{
    let length_c = match length.kind() {
        NodeKind::Constant { value, .. } => *value,
        _ => return Err(EmitError::Unsupported),
    };
    if length_c > 64 {
        return Err(EmitError::Unsupported);
    }
    let start = match try_cast(start, Type::Signed(64), CastOperationKind::Convert) {
        Ok(n) => n,
        Err(e) => return Err(e),
    };
    let length = match try_cast(length, Type::Signed(64), CastOperationKind::Convert) {
        Ok(n) => n,
        Err(e) => return Err(e),
    };
    let (low_start, low_length, high_start, high_length) = match split_range_nodes(&start, &length) {
        Ok(x) => x,
        Err(e) => return Err(e),
    };
    let value_low = match try_bit_extract(value.dup(), s64_node(0), s64_node(64)) {
        Ok(n) => n,
        Err(e) => return Err(e),
    };
    let value_high = match try_bit_extract(value, s64_node(64), s64_node(64)) {
        Ok(n) => n,
        Err(e) => return Err(e),
    };
    let extracted_low = match try_bit_extract(value_low, low_start, low_length.dup()) {
        Ok(n) => n,
        Err(e) => return Err(e),
    };
    let extracted_high = match try_bit_extract(value_high, high_start, high_length) {
        Ok(n) => n,
        Err(e) => return Err(e),
    };
    let extracted_low = match try_cast(extracted_low, Type::Unsigned(length_c as u32), CastOperationKind::ZeroExtend) {
        Ok(n) => n,
        Err(e) => return Err(e),
    };
    let extracted_high = match try_cast(extracted_high, Type::Unsigned(length_c as u32), CastOperationKind::ZeroExtend) {
        Ok(n) => n,
        Err(e) => return Err(e),
    };
    let shifted_extracted_high = match try_shift(extracted_high, low_length, ShiftOperationKind::LogicalShiftLeft) {
        Ok(n) => n,
        Err(e) => return Err(e),
    };
    try_binary(BinaryOperationKind::Or(shifted_extracted_high, extracted_low))
}

impl X86Emitter {
    /// The operands of a two-operand operation on `left_node` and
    /// `right_node`, brought to one width as their types allow: unsigned
    /// values by zero-extending the narrower one into a fresh register, a
    /// bit vector and an unsigned value of the same width as they are,
    /// signed values by sign-extending a narrower left one, 64-bit integers
    /// as they are; other types are refused.
    #[verifier::rlimit(100)]
    fn alu_operands(&mut self, left_node: &X86NodeRef, right_node: &X86NodeRef, depth: u32) -> (r: Result<
        (Operand, Operand),
        EmitError,
    >)
        requires
            old(self).wf(),
            depth > 0,
        ensures
            Self::grows(old(self), final(self)),
            depth > 1 && pair_selectable(old(self), *left_node, *right_node) ==> ({
                let (p, a, b, k) = alu_prepared(*left_node, *right_node, old(self).vregs());
                &&& r == Ok::<(Operand, Operand), EmitError>((a, b))
                &&& final(self).instrs() == old(self).instrs() + p
                &&& final(self).vregs() == old(self).vregs() + k
            }),
        decreases depth, 0u32,
    {
        broadcast use lemma_grows_trans;
        proof {
            lemma_grows_refl(&*self);
        }
        let lt = left_node.typ();
        let rt = right_node.typ();
        if is_unsigned(lt) && is_unsigned(rt) {
            let left = match self.to_operand_at(left_node, depth - 1) {
                Ok(o) => o,
                Err(e) => return Err(e),
            };
            let right = match self.to_operand_at(right_node, depth - 1) {
                Ok(o) => o,
                Err(e) => return Err(e),
            };
            match compare_widths(left.width(), right.width()) {
                WidthOrder::Narrower => {
                    let tmp = match self.fresh(right.width()) {
                        Ok(o) => o,
                        Err(e) => return Err(e),
                    };
                    let left = if Width::_64.narrower_than(&tmp.width()) && is_immediate(&left) {
                        let promoted = match self.fresh(left.width()) {
                            Ok(o) => o,
                            Err(e) => return Err(e),
                        };
                        match self.emit_mov(left, promoted) {
                            Ok(()) => {},
                            Err(e) => return Err(e),
                        }
                        promoted
                    } else {
                        left
                    };
                    match self.emit_movzx(left, tmp) {
                        Ok(()) => {},
                        Err(e) => return Err(e),
                    }
                    Ok((tmp, right))
                },
                WidthOrder::Same => Ok((left, right)),
                WidthOrder::Wider => {
                    let tmp = match self.fresh(left.width()) {
                        Ok(o) => o,
                        Err(e) => return Err(e),
                    };
                    let right = if Width::_64.narrower_than(&tmp.width()) && is_immediate(&right) {
                        let promoted = match self.fresh(right.width()) {
                            Ok(o) => o,
                            Err(e) => return Err(e),
                        };
                        match self.emit_mov(right, promoted) {
                            Ok(()) => {},
                            Err(e) => return Err(e),
                        }
                        promoted
                    } else {
                        right
                    };
                    match self.emit_movzx(right, tmp) {
                        Ok(()) => {},
                        Err(e) => return Err(e),
                    }
                    Ok((left, tmp))
                },
            }
        } else if (lt == Type::Bits && is_unsigned(rt)) || (is_unsigned(lt) && rt == Type::Bits) {
            let left = match self.to_operand_at(left_node, depth - 1) {
                Ok(o) => o,
                Err(e) => return Err(e),
            };
            let right = match self.to_operand_at(right_node, depth - 1) {
                Ok(o) => o,
                Err(e) => return Err(e),
            };
            if left.width() != right.width() {
                return Err(EmitError::Unsupported);
            }
            Ok((left, right))
        } else if is_signed(lt) && is_signed(rt) {
            let lw = lt.width();
            let rw = rt.width();
            if lw < rw {
                let left = match self.to_operand_at(left_node, depth - 1) {
                    Ok(o) => o,
                    Err(e) => return Err(e),
                };
                let right = match self.to_operand_at(right_node, depth - 1) {
                    Ok(o) => o,
                    Err(e) => return Err(e),
                };
                let tmp = match self.fresh(right.width()) {
                    Ok(o) => o,
                    Err(e) => return Err(e),
                };
                if !left.width().narrower_than(&tmp.width()) {
                    return Err(EmitError::WidthMismatch);
                }
                self.emit(Instruction::movsx(left, tmp));
                Ok((tmp, right))
            } else if lw == rw {
                let left = match self.to_operand_at(left_node, depth - 1) {
                    Ok(o) => o,
                    Err(e) => return Err(e),
                };
                let right = match self.to_operand_at(right_node, depth - 1) {
                    Ok(o) => o,
                    Err(e) => return Err(e),
                };
                Ok((left, right))
            } else {
                return Err(EmitError::Unsupported);
            }
        } else if is_word_type(lt) && is_word_type(rt) {
            let left = match self.to_operand_at(left_node, depth - 1) {
                Ok(o) => o,
                Err(e) => return Err(e),
            };
            let right = match self.to_operand_at(right_node, depth - 1) {
                Ok(o) => o,
                Err(e) => return Err(e),
            };
            Ok((left, right))
        } else {
            return Err(EmitError::Unsupported);
        }
    }

    /// A two-operand operation: comparisons go to
    /// [`X86Emitter::encode_compare`]; otherwise the operands are brought
    /// to one width as their types allow, the left one is moved to a fresh
    /// register and the operation applied with the right one (division and
    /// remainder go through `rax` and `rdx`).
    #[verifier::rlimit(100)]
    fn binary_operation_to_operand(&mut self, kind: &BinaryOperationKind, depth: u32) -> (r: Result<Operand, EmitError>)
        requires
            old(self).wf(),
            depth > 0,
        ensures
            Self::grows(old(self), final(self)),
            is_alu(*kind) ==> (r matches Ok(dst) ==> dst.kind is Register && ends_with_alu(old(self).instrs(), final(self).instrs(), *kind, dst)),
            kind is Divide ==> (r matches Ok(dst) ==> moved_from(old(self).instrs(), final(self).instrs(), PhysicalRegister::RAX, dst)),
            kind is Modulo ==> (r matches Ok(dst) ==> moved_from(old(self).instrs(), final(self).instrs(), PhysicalRegister::RDX, dst)),
            kind.is_compare() ==> (r matches Ok(dst) ==> compare_lowered(
                old(self).instrs(),
                final(self).instrs(),
                *kind,
                !compare_is_unsigned(kind.spec_children().0.0.typ, kind.spec_children().1.0.typ),
                dst,
            )),
            depth > 1 && reads_selectable(old(self), *kind) ==> ({
                let (l, rn) = kind.spec_children();
                let (seq, dst) = alu_on_reads(*kind, l, rn, old(self).vregs());
                r == Ok::<Operand, EmitError>(dst) && final(self).instrs() == old(self).instrs() + seq
            }),
        decreases depth, 1u32,
    {
        broadcast use lemma_grows_trans;
        proof {
            lemma_grows_refl(&*self);
        }
        let (left_node, right_node) = kind.children();
        match kind {
            BinaryOperationKind::CompareEqual(..) | BinaryOperationKind::CompareNotEqual(..)
            | BinaryOperationKind::CompareGreaterThan(..) | BinaryOperationKind::CompareGreaterThanOrEqual(..)
            | BinaryOperationKind::CompareLessThan(..) | BinaryOperationKind::CompareLessThanOrEqual(..) => {
                return self.encode_compare(kind, right_node, left_node, depth);
            },
            _ => {},
        }
        let (left, right) = match self.alu_operands(left_node, right_node, depth) {
            Ok(p) => p,
            Err(e) => return Err(e),
        };
        let width = left.width();
        if width != right.width() {
            return Err(EmitError::WidthMismatch);
        }
        let dst = match self.fresh(width) {
            Ok(o) => o,
            Err(e) => return Err(e),
        };
        match kind {
            BinaryOperationKind::Add(..) | BinaryOperationKind::Sub(..) | BinaryOperationKind::Or(..)
            | BinaryOperationKind::Xor(..) | BinaryOperationKind::Multiply(..) | BinaryOperationKind::And(..) => {
                match self.emit_mov(left, dst) {
                    Ok(()) => {},
                    Err(e) => return Err(e),
                }
                let instr = match kind {
                    BinaryOperationKind::Add(..) => Instruction::add(right, dst),
                    BinaryOperationKind::Sub(..) => Instruction::sub(right, dst),
                    BinaryOperationKind::Or(..) => Instruction::or(right, dst),
                    BinaryOperationKind::Xor(..) => Instruction::xor(right, dst),
                    BinaryOperationKind::Multiply(..) => Instruction::imul(right, dst),
                    _ => Instruction::and(right, dst),
                };
                assert(instr == alu_instruction(*kind, right, dst));
                self.emit(instr);
                Ok(dst)
            },
            BinaryOperationKind::Divide(dividend, divisor) | BinaryOperationKind::Modulo(dividend, divisor) => {
                if dividend.typ().width() != 64 || divisor.typ().width() != 64 {
                    return Err(EmitError::WidthMismatch);
                }
                let unsigned = is_unsigned(dividend.typ()) || is_unsigned(divisor.typ());
                let dividend = match self.to_operand_at(dividend, depth - 1) {
                    Ok(o) => o,
                    Err(e) => return Err(e),
                };
                let divisor = match self.reg_promote_at(divisor, depth - 1) {
                    Ok(o) => o,
                    Err(e) => return Err(e),
                };
                if width == Width::_128 {
                    return Err(EmitError::WidthMismatch);
                }
                let lo = Operand::preg(width, PhysicalRegister::RAX);
                let hi = Operand::preg(width, PhysicalRegister::RDX);
                match self.emit_mov(dividend, lo) {
                    Ok(()) => {},
                    Err(e) => return Err(e),
                }
                if !unsigned {
                    self.emit(Instruction::cqo());
                } else {
                    self.emit(Instruction::xor(hi, hi));
                }
                self.emit(Instruction::idiv(divisor));
                let result = match self.fresh(width) {
                    Ok(o) => o,
                    Err(e) => return Err(e),
                };
                let from = match kind {
                    BinaryOperationKind::Divide(..) => lo,
                    _ => hi,
                };
                match self.emit_mov(from, result) {
                    Ok(()) => Ok(result),
                    Err(e) => Err(e),
                }
            },
            _ => Err(EmitError::Unsupported),
        }
    }

    /// A comparison of `left` with `right` (the operation's operands
    /// taken right first): a `cmp` (with operands swapped and the condition
    /// turned round where the right one is an immediate) and a `set` of
    /// the condition into a fresh byte register.
    fn encode_compare(&mut self, kind: &BinaryOperationKind, right: &X86NodeRef, left: &X86NodeRef, depth: u32) -> (r: Result<
        Operand,
        EmitError,
    >)
        requires
            old(self).wf(),
            depth > 0,
        ensures
            Self::grows(old(self), final(self)),
            r matches Ok(dst) ==> compare_lowered(
                old(self).instrs(),
                final(self).instrs(),
                *kind,
                !compare_is_unsigned(left.0.typ, right.0.typ),
                dst,
            ),
        decreases depth, 0u32,
    {
        broadcast use lemma_grows_trans;
        proof {
            lemma_grows_refl(&*self);
        }
        match (left.kind(), right.kind()) {
            (NodeKind::Constant { .. }, NodeKind::Constant { .. }) | (NodeKind::Tuple(_), NodeKind::Tuple(_)) => {
                return Err(EmitError::Unsupported);
            },
            _ => {},
        }
        let lt = left.typ();
        let rt = right.typ();
        let signed = if (is_unsigned(lt) || lt == Type::Bits || lt == Type::Int) && (is_unsigned(rt) || rt
            == Type::Bits) {
            false
        } else if (is_signed(lt) || lt == Type::Int) && (is_signed(rt) || rt == Type::Int) {
            true
        } else {
            return Err(EmitError::Unsupported);
        };
        let left_op = match self.to_operand_at(left, depth - 1) {
            Ok(o) => o,
            Err(e) => return Err(e),
        };
        let right_op = match self.to_operand_at(right, depth - 1) {
            Ok(o) => o,
            Err(e) => return Err(e),
        };
        let immediate_right = match (left_op.kind, right_op.kind) {
            (OperandKind::Target(_), _) | (_, OperandKind::Target(_)) => return Err(EmitError::Unsupported),
            (OperandKind::Immediate(_), OperandKind::Immediate(_)) => return Err(EmitError::Unsupported),
            (_, OperandKind::Immediate(_)) => true,
            _ => false,
        };
        if immediate_right {
            self.emit(Instruction::cmp(right_op, left_op));
            let dst = match self.fresh(Width::_8) {
                Ok(o) => o,
                Err(e) => return Err(e),
            };
            let set = match (kind, signed) {
                (BinaryOperationKind::CompareEqual(..), _) => Instruction::sete(dst),
                (BinaryOperationKind::CompareNotEqual(..), _) => Instruction::setne(dst),
                (BinaryOperationKind::CompareLessThan(..), false) => Instruction::setae(dst),
                (BinaryOperationKind::CompareLessThanOrEqual(..), false) => Instruction::seta(dst),
                (BinaryOperationKind::CompareGreaterThan(..), false) => Instruction::setbe(dst),
                (BinaryOperationKind::CompareGreaterThanOrEqual(..), false) => Instruction::setb(dst),
                (BinaryOperationKind::CompareLessThan(..), true) => Instruction::setge(dst),
                (BinaryOperationKind::CompareLessThanOrEqual(..), true) => Instruction::setg(dst),
                (BinaryOperationKind::CompareGreaterThan(..), true) => Instruction::setle(dst),
                (BinaryOperationKind::CompareGreaterThanOrEqual(..), true) => Instruction::setl(dst),
                _ => return Err(EmitError::Unsupported),
            };
            assert(set_for_compare(*kind, signed, true, dst) == Some(set.0));
            self.emit(set);
            Ok(dst)
        } else {
            let both_memory = match (left_op.kind, right_op.kind) {
                (OperandKind::Memory { .. }, OperandKind::Memory { .. }) => true,
                _ => false,
            };
            let l = if both_memory {
                let new_left = match self.fresh(left_op.width()) {
                    Ok(o) => o,
                    Err(e) => return Err(e),
                };
                match self.emit_mov(left_op, new_left) {
                    Ok(()) => {},
                    Err(e) => return Err(e),
                }
                new_left
            } else {
                left_op
            };
            self.emit(Instruction::cmp(l, right_op));
            let dst = match self.fresh(Width::_8) {
                Ok(o) => o,
                Err(e) => return Err(e),
            };
            let set = match (kind, signed) {
                (BinaryOperationKind::CompareEqual(..), _) => Instruction::sete(dst),
                (BinaryOperationKind::CompareNotEqual(..), _) => Instruction::setne(dst),
                (BinaryOperationKind::CompareLessThan(..), false) => Instruction::setb(dst),
                (BinaryOperationKind::CompareLessThanOrEqual(..), false) => Instruction::setbe(dst),
                (BinaryOperationKind::CompareGreaterThan(..), false) => Instruction::seta(dst),
                (BinaryOperationKind::CompareGreaterThanOrEqual(..), false) => Instruction::setae(dst),
                (BinaryOperationKind::CompareLessThan(..), true) => Instruction::setl(dst),
                (BinaryOperationKind::CompareLessThanOrEqual(..), true) => Instruction::setle(dst),
                (BinaryOperationKind::CompareGreaterThan(..), true) => Instruction::setg(dst),
                (BinaryOperationKind::CompareGreaterThanOrEqual(..), true) => Instruction::setge(dst),
                _ => return Err(EmitError::Unsupported),
            };
            assert(set_for_compare(*kind, signed, false, dst) == Some(set.0));
            self.emit(set);
            Ok(dst)
        }
    }

    /// A one-operand operation: complement with `not`, logical not with a
    /// comparison against zero, negation with `neg` in place, and rounding
    /// of a pair (numerator, denominator) with a division.
    fn unary_operation_to_operand(&mut self, kind: &UnaryOperationKind, depth: u32) -> (r: Result<Operand, EmitError>)
        requires
            old(self).wf(),
            depth > 0,
        ensures
            Self::grows(old(self), final(self)),
            r matches Ok(dst) ==> unary_lowered(old(self).instrs(), final(self).instrs(), *kind, dst),
            kind is Negate ==> (r matches Ok(dst) ==> final(self).instrs().len() > old(self).instrs().len() && final(self).instrs().last() == Instruction(Opcode::NEG(dst))),
            depth > 1 && unary_read_selectable(old(self), *kind) ==> ({
                let (seq, dst) = unary_on_read(*kind, old(self).vregs());
                r == Ok::<Operand, EmitError>(dst) && final(self).instrs() == old(self).instrs() + seq
            }),
        decreases depth, 1u32,
    {
        broadcast use lemma_grows_trans;
        proof {
            lemma_grows_refl(&*self);
        }
        match kind {
            UnaryOperationKind::Complement(value) => {
                let width = match width_of(value.typ()) {
                    Ok(w) => w,
                    Err(e) => return Err(e),
                };
                let dst = match self.fresh(width) {
                    Ok(o) => o,
                    Err(e) => return Err(e),
                };
                let v = match self.to_operand_at(value, depth - 1) {
                    Ok(o) => o,
                    Err(e) => return Err(e),
                };
                match self.emit_mov(v, dst) {
                    Ok(()) => {},
                    Err(e) => return Err(e),
                }
                self.emit(Instruction::not(dst));
                Ok(dst)
            },
            UnaryOperationKind::Not(value) => {
                let width = match width_of(value.typ()) {
                    Ok(w) => w,
                    Err(e) => return Err(e),
                };
                let v = match self.to_operand_at(value, depth - 1) {
                    Ok(o) => o,
                    Err(e) => return Err(e),
                };
                let dst = match self.fresh(width) {
                    Ok(o) => o,
                    Err(e) => return Err(e),
                };
                self.emit(Instruction::cmp(Operand::imm(width, 0), v));
                self.emit(Instruction::sete(dst));
                self.emit(Instruction::and(Operand::imm(width, 1), dst));
                Ok(dst)
            },
            UnaryOperationKind::Negate(value) => {
                let v = match self.to_operand_at(value, depth - 1) {
                    Ok(o) => o,
                    Err(e) => return Err(e),
                };
                self.emit(Instruction::neg(v));
                Ok(v)
            },
            UnaryOperationKind::Ceil(value) | UnaryOperationKind::Floor(value) => {
                let (num, den) = match value.kind() {
                    NodeKind::Tuple(crate::ir::NodeList::Cons(num, rest)) => match &**rest {
                        crate::ir::NodeList::Cons(den, tail) => match &**tail {
                            crate::ir::NodeList::Nil => (num, den),
                            _ => return Err(EmitError::Unsupported),
                        },
                        _ => return Err(EmitError::Unsupported),
                    },
                    _ => return Err(EmitError::Unsupported),
                };
                let unsigned = is_unsigned(num.typ()) || is_unsigned(den.typ());
                if num.typ().width() != den.typ().width() {
                    return Err(EmitError::WidthMismatch);
                }
                let width = match width_of(num.typ()) {
                    Ok(w) => w,
                    Err(e) => return Err(e),
                };
                let divisor = match self.fresh(width) {
                    Ok(o) => o,
                    Err(e) => return Err(e),
                };
                if let (NodeKind::Constant { .. }, NodeKind::Constant { .. }) = (num.kind(), den.kind()) {
                    return Err(EmitError::Unsupported);
                }
                let n = match self.reg_promote_at(num, depth - 1) {
                    Ok(o) => o,
                    Err(e) => return Err(e),
                };
                let d = match self.reg_promote_at(den, depth - 1) {
                    Ok(o) => o,
                    Err(e) => return Err(e),
                };
                if width == Width::_128 {
                    return Err(EmitError::WidthMismatch);
                }
                let lo = Operand::preg(width, PhysicalRegister::RAX);
                let hi = Operand::preg(width, PhysicalRegister::RDX);
                match self.emit_mov(n, lo) {
                    Ok(()) => {},
                    Err(e) => return Err(e),
                }
                match self.emit_mov(d, divisor) {
                    Ok(()) => {},
                    Err(e) => return Err(e),
                }
                if !unsigned {
                    self.emit(Instruction::cqo());
                    self.emit(Instruction::idiv(divisor));
                } else {
                    self.emit(Instruction::xor(hi, hi));
                    self.emit(Instruction::div(divisor));
                }
                let quotient = match self.fresh(width) {
                    Ok(o) => o,
                    Err(e) => return Err(e),
                };
                match self.emit_mov(lo, quotient) {
                    Ok(()) => Ok(quotient),
                    Err(e) => Err(e),
                }
            },
            _ => Err(EmitError::Unsupported),
        }
    }
}

impl X86Emitter {
    /// An extraction: from a value of more than 64 bits with `pextr` where
    /// the bounds are a whole element, else through
    /// [`bit_extract_128`]; otherwise with `bextr` and a control word built
    /// from the start and the length.
    fn bit_extract_to_operand(&mut self, value: &X86NodeRef, start: &X86NodeRef, length: &X86NodeRef, depth: u32) -> (r:
        Result<Operand, EmitError>)
        requires
            old(self).wf(),
            depth > 0,
        ensures
            Self::grows(old(self), final(self)),
            value.0.typ.spec_width() <= 64 ==> (r matches Ok(dst) ==> extract_lowered(old(self).instrs(), final(self).instrs(), dst)),
        decreases depth, 1u32,
    {
        broadcast use lemma_grows_trans;
        proof {
            lemma_grows_refl(&*self);
        }
        if value.typ().width() > 64 {
            if let (NodeKind::Constant { value: start_c, .. }, NodeKind::Constant { value: length_c, .. }) = (
                start.kind(),
                length.kind(),
            ) {
                let start_c = *start_c;
                let length_c = *length_c;
                if (length_c == 8 || length_c == 16 || length_c == 32 || length_c == 64) && start_c % length_c
                    == 0 {
                    let src = match self.to_operand_at(value, depth - 1) {
                        Ok(o) => o,
                        Err(e) => return Err(e),
                    };
                    let index = Operand::imm(Width::_8, start_c / length_c);
                    let w = match width_of_bits(length_c) {
                        Ok(w) => w,
                        Err(e) => return Err(e),
                    };
                    let dst = match self.fresh(w) {
                        Ok(o) => o,
                        Err(e) => return Err(e),
                    };
                    self.emit(Instruction::pextr(index, src, dst));
                    return Ok(dst);
                }
            }
            let out = match bit_extract_128(value.dup(), start.dup(), length.dup()) {
                Ok(n) => n,
                Err(e) => return Err(e),
            };
            return self.to_operand_at(&out, depth - 1);
        }
        let mut value_op = if let NodeKind::Constant { .. } = value.kind() {
            let width = match width_of(value.typ()) {
                Ok(w) => w,
                Err(e) => return Err(e),
            };
            let value_reg = match self.fresh(width) {
                Ok(o) => o,
                Err(e) => return Err(e),
            };
            let value_imm = match self.to_operand_at(value, depth - 1) {
                Ok(o) => o,
                Err(e) => return Err(e),
            };
            match self.emit_mov(value_imm, value_reg) {
                Ok(()) => {},
                Err(e) => return Err(e),
            }
            value_reg
        } else {
            match self.to_operand_at(value, depth - 1) {
                Ok(o) => o,
                Err(e) => return Err(e),
            }
        };
        if value_op.width().narrower_than(&Width::_64) {
            let tmp = match self.fresh(Width::_64) {
                Ok(o) => o,
                Err(e) => return Err(e),
            };
            match self.emit_movzx(value_op, tmp) {
                Ok(()) => {},
                Err(e) => return Err(e),
            }
            value_op = tmp;
        }
        let start_op = match self.to_operand_at(start, depth - 1) {
            Ok(o) => o,
            Err(e) => return Err(e),
        };
        let length_op = match self.to_operand_at(length, depth - 1) {
            Ok(o) => o,
            Err(e) => return Err(e),
        };
        let mask = Operand::imm(Width::_64, 0xff);
        let start_dst = match self.fresh(Width::_64) {
            Ok(o) => o,
            Err(e) => return Err(e),
        };
        match self.emit_mov(start_op, start_dst) {
            Ok(()) => {},
            Err(e) => return Err(e),
        }
        self.emit(Instruction::and(mask, start_dst));
        let length_dst = match self.fresh(Width::_64) {
            Ok(o) => o,
            Err(e) => return Err(e),
        };
        match self.emit_mov(length_op, length_dst) {
            Ok(()) => {},
            Err(e) => return Err(e),
        }
        self.emit(Instruction::and(mask, length_dst));
        self.emit(Instruction::shl(Operand::imm(Width::_8, 8), length_dst));
        let control = match self.fresh(Width::_64) {
            Ok(o) => o,
            Err(e) => return Err(e),
        };
        match self.emit_mov(start_dst, control) {
            Ok(()) => {},
            Err(e) => return Err(e),
        }
        self.emit(Instruction::or(length_dst, control));
        let dst = match self.fresh(Width::_64) {
            Ok(o) => o,
            Err(e) => return Err(e),
        };
        self.emit(Instruction::bextr(control, value_op, dst));
        Ok(dst)
    }

    /// An insertion: into a value of more than 64 bits with `pinsr` where
    /// the bounds are a whole element, else through the expression of
    /// [`bit_insert_128`] or [`bit_insert_64`].
    fn bit_insert_to_operand(
        &mut self,
        target: &X86NodeRef,
        source: &X86NodeRef,
        start: &X86NodeRef,
        length: &X86NodeRef,
        depth: u32,
    ) -> (r: Result<Operand, EmitError>)
        requires
            old(self).wf(),
            depth > 0,
        ensures
            Self::grows(old(self), final(self)),
        decreases depth, 1u32,
    {
        broadcast use lemma_grows_trans;
        proof {
            lemma_grows_refl(&*self);
        }
        if let (NodeKind::Constant { value: start_c, .. }, NodeKind::Constant { value: length_c, .. }) = (
            start.kind(),
            length.kind(),
        ) {
            let start_c = *start_c;
            let length_c = *length_c;
            if (length_c == 8 || length_c == 16 || length_c == 32 || length_c == 64) && start_c % length_c == 0
                && target.typ().width() > 64 {
                let target_op = match self.to_operand_at(target, depth - 1) {
                    Ok(o) => o,
                    Err(e) => return Err(e),
                };
                let index = Operand::imm(Width::_8, start_c / length_c);
                let mut source_op = match self.reg_promote_at(source, depth - 1) {
                    Ok(o) => o,
                    Err(e) => return Err(e),
                };
                let w = match width_of_bits(length_c) {
                    Ok(w) => w,
                    Err(e) => return Err(e),
                };
                source_op.set_width(w);
                self.emit(Instruction::pinsr(index, source_op, target_op));
                return Ok(target_op);
            }
        }
        let out = if target.typ().width() > 64 {
            bit_insert_128(target.dup(), source.dup(), start.dup(), length.dup())
        } else {
            bit_insert_64(target.dup(), source.dup(), start.dup(), length.dup())
        };
        match out {
            Ok(n) => self.to_operand_at(&n, depth - 1),
            Err(e) => Err(e),
        }
    }

    /// A replication by an immediate count: the pattern, zero-extended to
    /// the total width, is shifted and or-ed in once per further copy.
    fn bit_replicate_to_operand(&mut self, pattern: &X86NodeRef, count: &X86NodeRef, depth: u32) -> (r: Result<
        Operand,
        EmitError,
    >)
        requires
            old(self).wf(),
            depth > 0,
        ensures
            Self::grows(old(self), final(self)),
        decreases depth, 1u32,
    {
        broadcast use lemma_grows_trans;
        proof {
            lemma_grows_refl(&*self);
        }
        let pattern_width = pattern.typ().width();
        let pattern_op = match self.to_operand_at(pattern, depth - 1) {
            Ok(o) => o,
            Err(e) => return Err(e),
        };
        let count_op = match self.to_operand_at(count, depth - 1) {
            Ok(o) => o,
            Err(e) => return Err(e),
        };
        let count = match count_op.kind {
            OperandKind::Immediate(c) => c,
            _ => return Err(EmitError::Unsupported),
        };
        if count == 0 || count > u32::MAX as u64 {
            return Err(EmitError::Unsupported);
        }
        let total = match pattern_width.checked_mul(count as u32) {
            Some(t) => t,
            None => return Err(EmitError::Unsupported),
        };
        let destination_width = match width_of_bits(total as u64) {
            Ok(w) => w,
            Err(e) => return Err(e),
        };
        let pattern_op = if pattern_op.width() != destination_width {
            let zx = match self.fresh(destination_width) {
                Ok(o) => o,
                Err(e) => return Err(e),
            };
            match self.emit_movzx(pattern_op, zx) {
                Ok(()) => {},
                Err(e) => return Err(e),
            }
            zx
        } else {
            pattern_op
        };
        let dest = match self.fresh(destination_width) {
            Ok(o) => o,
            Err(e) => return Err(e),
        };
        match self.emit_mov(pattern_op, dest) {
            Ok(()) => {},
            Err(e) => return Err(e),
        }
        let mut i: u64 = 1;
        while i < count
            invariant
                self.wf(),
                Self::grows(old(self), self),
            decreases count - i,
        {
            let ghost before = *self;
            self.emit(Instruction::shl(Operand::imm(Width::_8, pattern_width as u64), dest));
            let ghost middle = *self;
            self.emit(Instruction::or(pattern_op, dest));
            proof {
                lemma_grows_trans(&before, &middle, &*self);
                lemma_grows_trans(&*old(self), &before, &*self);
            }
            i = i + 1;
        }
        Ok(dest)
    }

    /// A selection: the false value is moved to a fresh register and the
    /// true value moved over it where the condition is not zero.
    fn select_to_operand(
        &mut self,
        condition: &X86NodeRef,
        true_value: &X86NodeRef,
        false_value: &X86NodeRef,
        depth: u32,
    ) -> (r: Result<Operand, EmitError>)
        requires
            old(self).wf(),
            depth > 0,
        ensures
            Self::grows(old(self), final(self)),
            r matches Ok(dst) ==> select_lowered(old(self).instrs(), final(self).instrs(), dst),
            depth > 1 && select_selectable(old(self), *condition, *true_value, *false_value) ==> ({
                let (seq, dst) = select_on_reads(*condition, *true_value, *false_value, old(self).vregs());
                r == Ok::<Operand, EmitError>(dst) && final(self).instrs() == old(self).instrs() + seq
            }),
        decreases depth, 1u32,
    {
        broadcast use lemma_grows_trans;
        proof {
            lemma_grows_refl(&*self);
        }
        let width = match width_of(true_value.typ()) {
            Ok(w) => w,
            Err(e) => return Err(e),
        };
        let dest = match self.fresh(width) {
            Ok(o) => o,
            Err(e) => return Err(e),
        };
        let condition = match self.to_operand_at(condition, depth - 1) {
            Ok(o) => o,
            Err(e) => return Err(e),
        };
        let true_op = match self.reg_promote_at(true_value, depth - 1) {
            Ok(o) => o,
            Err(e) => return Err(e),
        };
        let false_op = match self.to_operand_at(false_value, depth - 1) {
            Ok(o) => o,
            Err(e) => return Err(e),
        };
        if is_immediate(&condition) {
            return Err(EmitError::Unsupported);
        }
        match self.emit_mov(false_op, dest) {
            Ok(()) => {},
            Err(e) => return Err(e),
        }
        match self.emit_test(condition, condition) {
            Ok(()) => {},
            Err(e) => return Err(e),
        }
        self.emit(Instruction::cmovne(true_op, dest));
        Ok(dest)
    }
}

} // verus!
