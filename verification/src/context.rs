//! Blocks of emitted instructions and the translation context that owns
//! them.
use vstd::prelude::*;
use crate::encoder::{BlockRef, Instruction, Opcode, Operand, OperandKind};
use crate::layout::{
    CompileError, blocks_known, drop_fallthrough_jumps, falls_through, is_jump_block, jump_block_target,
    jump_labels, lay_out, lemma_laid_out_known, link_blocks, threadable,
};
use crate::regalloc::{all_known, allocate, instruction_known, is_instruction_known, lemma_dead_known};
use crate::asm_forms::EncodeError;
use crate::width::Width;

verus! {

/// The mark a depth-first walk leaves on a block.
#[derive(Debug, Clone, Copy, PartialEq, Eq, Structural)]
pub enum X86BlockMark {
    Unmarked,
    Temporary,
    Permanent,
}

/// A straight-line run of instructions and the (at most two) blocks control
/// can go to next.
pub struct X86Block {
    instructions: Vec<Instruction>,
    next: Vec<BlockRef>,
    linked: bool,
    mark: X86BlockMark,
}

impl X86Block {
    /// The instructions, in order.
    pub closed spec fn instrs(&self) -> Seq<Instruction> {
        self.instructions@
    }

    /// The blocks control can go to next.
    pub closed spec fn nexts(&self) -> Seq<BlockRef> {
        self.next@
    }

    /// Whether the block has been laid out.
    pub closed spec fn linked(&self) -> bool {
        self.linked
    }

    /// The block's walk mark.
    pub closed spec fn mark(&self) -> X86BlockMark {
        self.mark
    }

    /// The instructions, to be changed in place; the successors, link and
    /// mark stay as they are.
    pub fn instructions_mut(&mut self) -> (r: &mut Vec<Instruction>)
        ensures
            r@ == old(self).instrs(),
            final(self).instrs() == final(r)@,
            final(self).nexts() == old(self).nexts(),
            final(self).linked() == old(self).linked(),
            final(self).mark() == old(self).mark(),
    {
        &mut self.instructions
    }

    /// An empty, unlinked, unmarked block.
    pub fn new_in() -> (r: X86Block)
        ensures
            r.instrs().len() == 0,
            r.nexts().len() == 0,
            !r.linked(),
            r.mark() == X86BlockMark::Unmarked,
    {
        X86Block {
            instructions: Vec::new(),
            next: Vec::new(),
            linked: false,
            mark: X86BlockMark::Unmarked,
        }
    }

    /// Marks the block as laid out.
    pub fn set_linked(&mut self)
        ensures
            final(self).linked(),
            final(self).instrs() == old(self).instrs(),
            final(self).nexts() == old(self).nexts(),
            final(self).mark() == old(self).mark(),
    {
        self.linked = true;
    }

    /// Whether the block has been laid out.
    pub fn is_linked(&self) -> (r: bool)
        ensures
            r == self.linked(),
    {
        self.linked
    }

    /// Sets the walk mark.
    pub fn set_mark(&mut self, mark: X86BlockMark)
        ensures
            final(self).mark() == mark,
            final(self).instrs() == old(self).instrs(),
            final(self).nexts() == old(self).nexts(),
            final(self).linked() == old(self).linked(),
    {
        self.mark = mark;
    }

    /// The walk mark.
    pub fn get_mark(&self) -> (r: X86BlockMark)
        ensures
            r == self.mark(),
    {
        self.mark
    }

    /// Appends an instruction.
    pub fn append(&mut self, instruction: Instruction)
        ensures
            final(self).instrs() == old(self).instrs().push(instruction),
            final(self).nexts() == old(self).nexts(),
            final(self).linked() == old(self).linked(),
            final(self).mark() == old(self).mark(),
    {
        self.instructions.push(instruction);
    }

    /// The instructions, in order.
    pub fn instructions(&self) -> (r: &[Instruction])
        ensures
            r@ == self.instrs(),
    {
        self.instructions.as_slice()
    }

    /// Replaces the instruction at `index`.
    pub fn set_instruction(&mut self, index: usize, instruction: Instruction)
        requires
            index < old(self).instrs().len(),
        ensures
            final(self).instrs() == old(self).instrs().update(index as int, instruction),
            final(self).nexts() == old(self).nexts(),
            final(self).linked() == old(self).linked(),
            final(self).mark() == old(self).mark(),
    {
        self.instructions.set(index, instruction);
    }

    /// The blocks control can go to next.
    pub fn next_blocks(&self) -> (r: &[BlockRef])
        ensures
            r@ == self.nexts(),
    {
        self.next.as_slice()
    }

    /// Forgets the blocks control can go to next.
    pub fn clear_next_blocks(&mut self)
        ensures
            final(self).nexts().len() == 0,
            final(self).instrs() == old(self).instrs(),
            final(self).linked() == old(self).linked(),
            final(self).mark() == old(self).mark(),
    {
        self.next.clear();
    }

    /// Adds a block control can go to next; a block has at most two.
    pub fn push_next(&mut self, target: BlockRef)
        requires
            old(self).nexts().len() < 2,
        ensures
            final(self).nexts() == old(self).nexts().push(target),
            final(self).instrs() == old(self).instrs(),
            final(self).linked() == old(self).linked(),
            final(self).mark() == old(self).mark(),
    {
        self.next.push(target);
    }
}

/// The addresses of the host functions translated code calls back into.
#[derive(Debug, Clone, Copy, PartialEq, Eq, Structural)]
pub struct Callbacks {
    pub el_changed_callback: u64,
    pub trace_instruction_start: u64,
    pub trace_instruction_end: u64,
    pub trace_register_read: u64,
    pub trace_register_write: u64,
    pub trace_memory_read: u64,
    pub trace_memory_write: u64,
}

/// Where the guest's registers live in the register file, and how large the
/// area for the translation's own variables is.
#[derive(Debug, Clone, Copy, PartialEq, Eq, Structural)]
pub struct RegisterFileLayout {
    pub pc: u64,
    pub el: u64,
    pub sctlr_el1: u64,
    pub ttbr0_el1: u64,
    pub ttbr1_el1: u64,
    pub n: u64,
    pub z: u64,
    pub c: u64,
    pub v: u64,
    pub global_register_size: usize,
}

/// The vector number the panic block raises.
pub const PANIC_BLOCK_VECTOR: u64 = 0x53;

/// The blocks of one translation and what is known of the guest while
/// translating.
pub struct X86TranslationContext {
    blocks: Vec<X86Block>,
    initial_block: BlockRef,
    panic_block: BlockRef,
    writes_to_pc: bool,
    layout: RegisterFileLayout,
    callbacks: Callbacks,
    global_register_offset: usize,
    current_variable_id: usize,
    memory_mask: bool,
}

/// Whether `r` names a block of `blocks`.
pub open spec fn valid_ref(blocks: Seq<X86Block>, r: BlockRef) -> bool {
    r.0 < blocks.len()
}

/// Whether every successor of every block is a block of `blocks`.
pub open spec fn successors_valid(blocks: Seq<X86Block>) -> bool {
    forall|i: int, j: int|
        0 <= i < blocks.len() && 0 <= j < blocks[i].nexts().len() ==> valid_ref(
            blocks,
            #[trigger] blocks[i].nexts()[j],
        )
}

impl X86TranslationContext {
    /// The blocks, indexed by their references.
    pub closed spec fn blocks(&self) -> Seq<X86Block> {
        self.blocks@
    }

    /// The block translation starts in.
    pub closed spec fn initial(&self) -> BlockRef {
        self.initial_block
    }

    /// The block failed assertions jump to.
    pub closed spec fn panic_ref(&self) -> BlockRef {
        self.panic_block
    }

    /// Whether the translation wrote the guest's program counter.
    pub closed spec fn pc_written(&self) -> bool {
        self.writes_to_pc
    }

    /// Where the guest's registers live.
    pub closed spec fn offsets(&self) -> RegisterFileLayout {
        self.layout
    }

    /// The host functions translated code calls back into.
    pub closed spec fn spec_callbacks(&self) -> Callbacks {
        self.callbacks
    }

    /// Where the translation's own variables start in the register file.
    pub closed spec fn spec_global_register_offset(&self) -> usize {
        self.global_register_offset
    }

    /// Whether guest addresses are masked to 40 bits.
    pub closed spec fn spec_memory_mask(&self) -> bool {
        self.memory_mask
    }

    /// The number of variables allocated so far.
    pub closed spec fn variables(&self) -> nat {
        self.current_variable_id as nat
    }

    /// The number of variables the register file has room for.
    pub closed spec fn variable_capacity(&self) -> nat {
        (self.layout.global_register_size / 16) as nat
    }

    /// The context's blocks and roots are consistent.
    pub open spec fn wf(&self) -> bool {
        &&& valid_ref(self.blocks(), self.initial())
        &&& valid_ref(self.blocks(), self.panic_ref())
        &&& successors_valid(self.blocks())
    }

    /// A context with an empty initial block and a panic block that raises
    /// [`PANIC_BLOCK_VECTOR`].
    pub fn new_with_allocator(
        layout: &RegisterFileLayout,
        memory_mask: bool,
        global_register_offset: usize,
        callbacks: Callbacks,
    ) -> (r: X86TranslationContext)
        ensures
            r.wf(),
            r.blocks().len() == 2,
            r.initial() == BlockRef(0),
            r.panic_ref() == BlockRef(1),
            r.blocks()[0].instrs().len() == 0,
            r.blocks()[1].instrs() == seq![
                Instruction(
                    Opcode::INT(Operand { kind: OperandKind::Immediate(PANIC_BLOCK_VECTOR), width_in_bits: Width::_8 }),
                ),
            ],
            forall|i: int| 0 <= i < 2 ==> (#[trigger] r.blocks()[i]).nexts().len() == 0 && !r.blocks()[i].linked()
                && r.blocks()[i].mark() == X86BlockMark::Unmarked,
            !r.pc_written(),
            r.variables() == 0,
            r.variable_capacity() == layout.global_register_size / 16,
            r.offsets() == *layout,
            r.spec_callbacks() == callbacks,
            r.spec_global_register_offset() == global_register_offset,
            r.spec_memory_mask() == memory_mask,
    {
        let mut blocks: Vec<X86Block> = Vec::new();
        blocks.push(X86Block::new_in());
        let mut panic_block = X86Block::new_in();
        panic_block.append(Instruction::interrupt(Operand::imm(Width::_8, PANIC_BLOCK_VECTOR)));
        blocks.push(panic_block);
        X86TranslationContext {
            blocks,
            initial_block: BlockRef(0),
            panic_block: BlockRef(1),
            writes_to_pc: false,
            layout: *layout,
            callbacks,
            global_register_offset,
            current_variable_id: 0,
            memory_mask,
        }
    }

    /// The blocks, indexed by their references.
    pub fn arena(&self) -> (r: &[X86Block])
        ensures
            r@ == self.blocks(),
    {
        self.blocks.as_slice()
    }

    /// The blocks, to be changed in place; the other parts of the context
    /// stay as they are.
    pub fn arena_mut(&mut self) -> (r: &mut Vec<X86Block>)
        ensures
            r@ == old(self).blocks(),
            final(self).blocks() == final(r)@,
            final(self).initial() == old(self).initial(),
            final(self).panic_ref() == old(self).panic_ref(),
            final(self).pc_written() == old(self).pc_written(),
            final(self).offsets() == old(self).offsets(),
            final(self).spec_callbacks() == old(self).spec_callbacks(),
            final(self).spec_memory_mask() == old(self).spec_memory_mask(),
            final(self).spec_global_register_offset() == old(self).spec_global_register_offset(),
            final(self).variables() == old(self).variables(),
            final(self).variable_capacity() == old(self).variable_capacity(),
    {
        &mut self.blocks
    }

    /// The block translation starts in.
    pub fn initial_block(&self) -> (r: BlockRef)
        ensures
            r == self.initial(),
    {
        self.initial_block
    }

    /// The block failed assertions jump to.
    pub fn panic_block(&self) -> (r: BlockRef)
        ensures
            r == self.panic_ref(),
    {
        self.panic_block
    }

    /// Adds an empty block and returns its reference.
    pub fn create_block(&mut self) -> (r: BlockRef)
        requires
            old(self).wf(),
            old(self).blocks().len() < usize::MAX,
        ensures
            final(self).wf(),
            r.0 == old(self).blocks().len(),
            final(self).blocks().len() == old(self).blocks().len() + 1,
            final(self).blocks().take(old(self).blocks().len() as int) == old(self).blocks(),
            final(self).blocks()[r.0 as int].instrs().len() == 0,
            final(self).blocks()[r.0 as int].nexts().len() == 0,
            !final(self).blocks()[r.0 as int].linked(),
            final(self).blocks()[r.0 as int].mark() == X86BlockMark::Unmarked,
            final(self).initial() == old(self).initial(),
            final(self).panic_ref() == old(self).panic_ref(),
            final(self).pc_written() == old(self).pc_written(),
            final(self).variables() == old(self).variables(),
            final(self).variable_capacity() == old(self).variable_capacity(),
            final(self).offsets() == old(self).offsets(),
            final(self).spec_callbacks() == old(self).spec_callbacks(),
            final(self).spec_global_register_offset() == old(self).spec_global_register_offset(),
            final(self).spec_memory_mask() == old(self).spec_memory_mask(),
    {
        let r = BlockRef(self.blocks.len());
        self.blocks.push(X86Block::new_in());
        proof {
            let b = self.blocks@;
            assert forall|i: int, j: int|
                0 <= i < b.len() && 0 <= j < b[i].nexts().len() implies valid_ref(
                b,
                #[trigger] b[i].nexts()[j],
            ) by {
                if i < b.len() - 1 {
                    assert(b[i] == old(self).blocks@[i]);
                }
            }
        }
        r
    }

    /// Appends an instruction to a block.
    pub fn append_to(&mut self, block: BlockRef, instruction: Instruction)
        requires
            old(self).wf(),
            valid_ref(old(self).blocks(), block),
        ensures
            final(self).wf(),
            final(self).blocks().len() == old(self).blocks().len(),
            final(self).blocks()[block.0 as int].instrs() == old(self).blocks()[block.0 as int].instrs().push(instruction),
            final(self).blocks()[block.0 as int].nexts() == old(self).blocks()[block.0 as int].nexts(),
            forall|i: int| 0 <= i < final(self).blocks().len() && i != block.0 ==> #[trigger] final(self).blocks()[i] == old(self).blocks()[i],
            final(self).initial() == old(self).initial(),
            final(self).panic_ref() == old(self).panic_ref(),
            final(self).pc_written() == old(self).pc_written(),
            final(self).variables() == old(self).variables(),
            final(self).variable_capacity() == old(self).variable_capacity(),
            final(self).offsets() == old(self).offsets(),
            final(self).spec_callbacks() == old(self).spec_callbacks(),
            final(self).spec_global_register_offset() == old(self).spec_global_register_offset(),
            final(self).spec_memory_mask() == old(self).spec_memory_mask(),
    {
        let mut b = self.blocks.remove(block.0);
        b.append(instruction);
        self.blocks.insert(block.0, b);
        proof {
            let nb = self.blocks@;
            let ob = old(self).blocks@;
            assert forall|i: int| 0 <= i < nb.len() && i != block.0 implies #[trigger] nb[i] == ob[i] by {}
            assert forall|i: int, j: int|
                0 <= i < nb.len() && 0 <= j < nb[i].nexts().len() implies valid_ref(
                nb,
                #[trigger] nb[i].nexts()[j],
            ) by {
                assert(nb[i].nexts() == ob[i].nexts());
            }
        }
    }

    /// Adds `target` to the blocks control can go to after `block`.
    pub fn push_next_to(&mut self, block: BlockRef, target: BlockRef)
        requires
            old(self).wf(),
            valid_ref(old(self).blocks(), block),
            valid_ref(old(self).blocks(), target),
            old(self).blocks()[block.0 as int].nexts().len() < 2,
        ensures
            final(self).wf(),
            final(self).blocks().len() == old(self).blocks().len(),
            final(self).blocks()[block.0 as int].nexts() == old(self).blocks()[block.0 as int].nexts().push(target),
            final(self).blocks()[block.0 as int].instrs() == old(self).blocks()[block.0 as int].instrs(),
            forall|i: int| 0 <= i < final(self).blocks().len() && i != block.0 ==> #[trigger] final(self).blocks()[i] == old(self).blocks()[i],
            final(self).initial() == old(self).initial(),
            final(self).panic_ref() == old(self).panic_ref(),
            final(self).pc_written() == old(self).pc_written(),
            final(self).variables() == old(self).variables(),
            final(self).variable_capacity() == old(self).variable_capacity(),
            final(self).offsets() == old(self).offsets(),
            final(self).spec_callbacks() == old(self).spec_callbacks(),
            final(self).spec_global_register_offset() == old(self).spec_global_register_offset(),
            final(self).spec_memory_mask() == old(self).spec_memory_mask(),
    {
        let mut b = self.blocks.remove(block.0);
        b.push_next(target);
        self.blocks.insert(block.0, b);
        proof {
            let nb = self.blocks@;
            let ob = old(self).blocks@;
            assert forall|i: int| 0 <= i < nb.len() && i != block.0 implies #[trigger] nb[i] == ob[i] by {}
            assert forall|i: int, j: int|
                0 <= i < nb.len() && 0 <= j < nb[i].nexts().len() implies valid_ref(
                nb,
                #[trigger] nb[i].nexts()[j],
            ) by {
                if i != block.0 {
                    assert(nb[i].nexts() == ob[i].nexts());
                } else if j < ob[i].nexts().len() {
                    assert(nb[i].nexts()[j] == ob[i].nexts()[j]);
                }
            }
        }
    }

    /// Records that the translation wrote the guest's program counter.
    pub fn set_pc_write_flag(&mut self)
        ensures
            final(self).pc_written(),
            final(self).blocks() == old(self).blocks(),
            final(self).initial() == old(self).initial(),
            final(self).panic_ref() == old(self).panic_ref(),
            final(self).variables() == old(self).variables(),
            final(self).variable_capacity() == old(self).variable_capacity(),
            final(self).offsets() == old(self).offsets(),
    {
        self.writes_to_pc = true;
    }

    /// Whether the translation wrote the guest's program counter.
    pub fn get_pc_write_flag(&self) -> (r: bool)
        ensures
            r == self.pc_written(),
    {
        self.writes_to_pc
    }

    /// Where the guest's program counter lives in the register file.
    pub fn pc_offset(&self) -> (r: u64)
        ensures
            r == self.offsets().pc,
    {
        self.layout.pc
    }

    /// Where the guest's registers live in the register file.
    pub fn register_layout(&self) -> (r: RegisterFileLayout)
        ensures
            r == self.offsets(),
    {
        self.layout
    }

    /// The host functions translated code calls back into.
    pub fn callbacks(&self) -> (r: Callbacks)
        ensures
            r == self.spec_callbacks(),
    {
        self.callbacks
    }

    /// Where the translation's own variables start in the register file.
    pub fn global_register_offset(&self) -> (r: usize)
        ensures
            r == self.spec_global_register_offset(),
    {
        self.global_register_offset
    }

    /// Whether guest addresses are masked to 40 bits.
    pub fn memory_mask(&self) -> (r: bool)
        ensures
            r == self.spec_memory_mask(),
    {
        self.memory_mask
    }

    /// Whether the register file has room for another variable.
    pub fn has_variable_room(&self) -> (r: bool)
        ensures
            r == (self.variables() < self.variable_capacity()),
    {
        self.current_variable_id < self.layout.global_register_size / 16
    }

    /// A fresh variable number: the variables are numbered from zero in
    /// the order they are allocated, up to the register file's room for
    /// them.
    pub fn allocate_variable_id(&mut self) -> (r: usize)
        requires
            old(self).variables() < old(self).variable_capacity(),
        ensures
            r == old(self).variables(),
            final(self).variables() == old(self).variables() + 1,
            final(self).variable_capacity() == old(self).variable_capacity(),
            final(self).blocks() == old(self).blocks(),
            final(self).initial() == old(self).initial(),
            final(self).panic_ref() == old(self).panic_ref(),
            final(self).pc_written() == old(self).pc_written(),
            final(self).offsets() == old(self).offsets(),
            final(self).spec_callbacks() == old(self).spec_callbacks(),
            final(self).spec_memory_mask() == old(self).spec_memory_mask(),
            final(self).spec_global_register_offset() == old(self).spec_global_register_offset(),
    {
        let id = self.current_variable_id;
        self.current_variable_id = self.current_variable_id + 1;
        id
    }
}

impl X86TranslationContext {
    /// Compiles the translation to machine code: lays out the blocks
    /// reachable from the panic block and the initial block (see
    /// [`link_blocks`] and [`lay_out`]), drops jumps to the next
    /// instruction, allocates registers for the `num_virtual_registers`
    /// virtual registers, gives labels to the targets of jumps, and hands
    /// the instructions to the assembler.
    pub fn compile(self, num_virtual_registers: usize) -> (r: Result<Vec<u8>, CompileError>)
        requires
            self.wf(),
            threadable(self.blocks()),
            blocks_known(self.blocks(), num_virtual_registers as nat),
    {
        let ghost n = num_virtual_registers as nat;
        let mut ctx = self;
        let order = link_blocks(&mut ctx.blocks, ctx.panic_block, ctx.initial_block);
        let (mut instructions, starts) = lay_out(&ctx.blocks, &order);
        proof {
            lemma_laid_out_known(ctx.blocks@, order@, n);
        }
        let ghost laid = instructions@;
        match drop_fallthrough_jumps(&mut instructions, &starts) {
            Ok(()) => {},
            Err(e) => return Err(e),
        }
        proof {
            lemma_dead_known(n);
            assert forall|i: int| 0 <= i < instructions@.len() implies instruction_known(#[trigger] instructions@[i], n) by {
                assert(instruction_known(laid[i], n));
                if falls_through(laid[i], starts@, i) {
                    assert(instructions@[i] == Instruction(Opcode::DEAD));
                } else {
                    assert(instructions@[i] == laid[i]);
                }
            }
        }
        match allocate(&mut instructions, num_virtual_registers, ctx.global_register_offset) {
            Ok(()) => {},
            Err(e) => return Err(CompileError::Allocation(e)),
        }
        let mut assembler = match crate::assembler::new_assembler() {
            Ok(a) => a,
            Err(_) => return Err(CompileError::Encode(EncodeError::Assembler)),
        };
        let (label_at, labels) = match jump_labels(&mut assembler, &instructions, &starts) {
            Ok(x) => x,
            Err(e) => return Err(e),
        };
        let mut idx: usize = 0;
        while idx < instructions.len()
            invariant
                label_at@.len() == instructions@.len(),
                idx <= instructions@.len(),
            decreases instructions.len() - idx,
        {
            if let Some(label) = label_at[idx] {
                let mut label = label;
                if crate::assembler::set_label(&mut assembler, &mut label).is_err() {
                    return Err(CompileError::Encode(EncodeError::Assembler));
                }
            }
            match instructions[idx].encode(&mut assembler, &labels) {
                Ok(()) => {},
                Err(e) => return Err(CompileError::Encode(e)),
            }
            idx = idx + 1;
        }
        match crate::assembler::assemble(&mut assembler, 0) {
            Ok(code) => Ok(code),
            Err(_) => Err(CompileError::Encode(EncodeError::Assembler)),
        }
    }

    /// Whether [`X86TranslationContext::compile`] can be called with
    /// `num_virtual_registers`: the context is consistent, its blocks can
    /// have their jumps threaded, and every instruction only names virtual
    /// registers below that number.
    pub fn can_compile(&self, num_virtual_registers: usize) -> (r: bool)
        ensures
            r == (self.wf() && threadable(self.blocks()) && blocks_known(
                self.blocks(),
                num_virtual_registers as nat,
            )),
    {
        let len = self.blocks.len();
        if self.initial_block.0 >= len || self.panic_block.0 >= len {
            return false;
        }
        let mut b: usize = 0;
        while b < len
            invariant
                len == self.blocks@.len(),
                b <= len,
                forall|i: int, j: int|
                    0 <= i < b && 0 <= j < self.blocks@[i].nexts().len() ==> valid_ref(
                        self.blocks@,
                        #[trigger] self.blocks@[i].nexts()[j],
                    ),
                forall|i: int|
                    0 <= i < b && is_jump_block(#[trigger] self.blocks@[i]) ==> (jump_block_target(
                        self.blocks@[i],
                    ) matches Some(t) && valid_ref(self.blocks@, t)),
                forall|i: int|
                    0 <= i < b && (#[trigger] self.blocks@[i]).nexts().len() == 1 ==> self.blocks@[i].instrs().len() > 0,
                forall|i: int, k: int|
                    0 <= i < b && 0 <= k < self.blocks@[i].instrs().len() ==> instruction_known(
                        #[trigger] self.blocks@[i].instrs()[k],
                        num_virtual_registers as nat,
                    ),
            decreases len - b,
        {
            let block = &self.blocks[b];
            let nexts = block.next_blocks();
            let instrs = block.instructions();
            let mut j: usize = 0;
            while j < nexts.len()
                invariant
                    nexts@ == self.blocks@[b as int].nexts(),
                    len == self.blocks@.len(),
                    b < len,
                    j <= nexts@.len(),
                    forall|q: int| 0 <= q < j ==> valid_ref(self.blocks@, #[trigger] nexts@[q]),
                decreases nexts.len() - j,
            {
                if nexts[j].0 >= len {
                    return false;
                }
                j = j + 1;
            }
            if nexts.len() == 1 && instrs.len() == 0 {
                return false;
            }
            if instrs.len() == 1 {
                if let Opcode::JMP(op) = instrs[0].0 {
                    match op.kind {
                        OperandKind::Target(t) => {
                            if t.0 >= len {
                                return false;
                            }
                        },
                        _ => return false,
                    }
                }
            }
            let mut k: usize = 0;
            while k < instrs.len()
                invariant
                    instrs@ == self.blocks@[b as int].instrs(),
                    len == self.blocks@.len(),
                    b < len,
                    k <= instrs@.len(),
                    forall|q: int| 0 <= q < k ==> instruction_known(#[trigger] instrs@[q], num_virtual_registers as nat),
                decreases instrs.len() - k,
            {
                if !is_instruction_known(&instrs[k], num_virtual_registers) {
                    return false;
                }
                k = k + 1;
            }
            b = b + 1;
        }
        true
    }
}

} // verus!
