//! Laying out the blocks of a translation as one run of instructions:
//! threading jumps through blocks that only jump, choosing the blocks to
//! lay out, and dropping jumps to the instruction that follows anyway.
use vstd::prelude::*;
use crate::context::{X86Block, successors_valid, valid_ref};
use crate::encoder::{BlockRef, Instruction, Opcode, Operand, OperandKind};
use crate::regalloc::{all_known, instruction_known, operand_registers};
use crate::asm_forms::LabelMap;
use iced_x86::code_asm::{CodeAssembler, CodeLabel};

verus! {

/// Whether a block consists of a single jump.
pub open spec fn is_jump_block(b: X86Block) -> bool {
    b.instrs().len() == 1 && b.instrs()[0].0 is JMP
}

/// The block a single-jump block jumps to, where it jumps to a block.
pub open spec fn jump_block_target(b: X86Block) -> Option<BlockRef> {
    match b.instrs()[0].0 {
        Opcode::JMP(op) => match op.kind {
            OperandKind::Target(t) => Some(t),
            _ => None,
        },
        _ => None,
    }
}

/// Whether the blocks can have their jumps threaded: successors are
/// blocks, every single-jump block jumps to a block, and every block with a
/// single successor has an instruction to end with.
pub open spec fn threadable(blocks: Seq<X86Block>) -> bool {
    &&& successors_valid(blocks)
    &&& forall|i: int|
        0 <= i < blocks.len() && is_jump_block(#[trigger] blocks[i]) ==> (jump_block_target(
            blocks[i],
        ) matches Some(t) && valid_ref(blocks, t))
    &&& forall|i: int|
        0 <= i < blocks.len() && (#[trigger] blocks[i]).nexts().len() == 1 ==> blocks[i].instrs().len()
            > 0
}

/// Whether `new` differs from `old` at most in the instructions and
/// successors of block `at`.
pub open spec fn only_block_changed(old: Seq<X86Block>, new: Seq<X86Block>, at: int) -> bool {
    &&& new.len() == old.len()
    &&& forall|i: int| 0 <= i < new.len() && i != at ==> #[trigger] new[i] == old[i]
    &&& new[at].linked() == old[at].linked()
    &&& new[at].mark() == old[at].mark()
}

/// Replaces block `at` by `b`.
fn put_block(blocks: &mut Vec<X86Block>, at: usize, b: X86Block)
    requires
        at < old(blocks)@.len(),
    ensures
        final(blocks)@ == old(blocks)@.update(at as int, b),
{
    blocks.set(at, b);
}

/// Takes block `at` out, leaving an empty block in its place.
fn take_block(blocks: &mut Vec<X86Block>, at: usize) -> (r: X86Block)
    requires
        at < old(blocks)@.len(),
    ensures
        r == old(blocks)@[at as int],
        final(blocks)@.len() == old(blocks)@.len(),
        forall|i: int| 0 <= i < final(blocks)@.len() && i != at ==> #[trigger] final(blocks)@[i] == old(blocks)@[i],
{
    let mut empty = X86Block::new_in();
    std::mem::swap(&mut blocks[at], &mut empty);
    empty
}

/// The instructions and successors block `cur` ends up with when its
/// jumps are threaded from `instrs` and `nexts`, the other blocks being
/// those of `blocks`: while fuel lasts and its single successor only jumps
/// on to a block, its last instruction becomes that jump and its only
/// successor that block.
pub open spec fn threaded(
    blocks: Seq<X86Block>,
    cur: int,
    instrs: Seq<Instruction>,
    nexts: Seq<BlockRef>,
    fuel: nat,
) -> (Seq<Instruction>, Seq<BlockRef>)
    decreases fuel,
{
    if fuel == 0 || nexts.len() != 1 || instrs.len() == 0 || nexts[0].0 >= blocks.len() {
        (instrs, nexts)
    } else {
        let child = nexts[0].0 as int;
        let child_instrs = if child == cur {
            instrs
        } else {
            blocks[child].instrs()
        };
        if child_instrs.len() == 1 && (child_instrs[0].0 matches Opcode::JMP(op) && op.kind is Target) {
            let op = child_instrs[0].0->JMP_0;
            threaded(
                blocks,
                cur,
                instrs.update(instrs.len() - 1, Instruction(Opcode::JMP(op))),
                seq![op.kind->Target_0],
                (fuel - 1) as nat,
            )
        } else {
            (instrs, nexts)
        }
    }
}

/// Threading depends on the blocks other than `cur` alone.
proof fn lemma_threaded_others(
    a: Seq<X86Block>,
    b: Seq<X86Block>,
    cur: int,
    instrs: Seq<Instruction>,
    nexts: Seq<BlockRef>,
    fuel: nat,
)
    requires
        a.len() == b.len(),
        forall|i: int| 0 <= i < a.len() && i != cur ==> a[i] == b[i],
    ensures
        threaded(a, cur, instrs, nexts, fuel) == threaded(b, cur, instrs, nexts, fuel),
    decreases fuel,
{
    if fuel == 0 || nexts.len() != 1 || instrs.len() == 0 || nexts[0].0 >= a.len() {
    } else {
        let child = nexts[0].0 as int;
        let child_instrs = if child == cur {
            instrs
        } else {
            a[child].instrs()
        };
        if child_instrs.len() == 1 && (child_instrs[0].0 matches Opcode::JMP(op) && op.kind is Target) {
            let op = child_instrs[0].0->JMP_0;
            lemma_threaded_others(
                a,
                b,
                cur,
                instrs.update(instrs.len() - 1, Instruction(Opcode::JMP(op))),
                seq![op.kind->Target_0],
                (fuel - 1) as nat,
            );
        }
    }
}

/// Where block `current` has a single successor that only jumps on to a
/// block, makes `current` jump straight there instead (its last
/// instruction becomes that jump, and its only successor that block), and
/// repeats. A chain of single-jump blocks that leads back into itself
/// would be followed forever; the threading stops after `fuel` steps.
pub fn empty_block_jump_threading(blocks: &mut Vec<X86Block>, current: BlockRef, fuel: usize)
    requires
        threadable(old(blocks)@),
        valid_ref(old(blocks)@, current),
    ensures
        threadable(final(blocks)@),
        only_block_changed(old(blocks)@, final(blocks)@, current.0 as int),
        forall|n: nat| blocks_known(old(blocks)@, n) ==> #[trigger] blocks_known(final(blocks)@, n),
        (final(blocks)@[current.0 as int].instrs(), final(blocks)@[current.0 as int].nexts()) == threaded(
            old(blocks)@,
            current.0 as int,
            old(blocks)@[current.0 as int].instrs(),
            old(blocks)@[current.0 as int].nexts(),
            fuel as nat,
        ),
    decreases fuel,
{
    if fuel == 0 {
        return;
    }
    let single_next = {
        let nexts = blocks[current.0].next_blocks();
        if nexts.len() == 1 {
            Some(nexts[0])
        } else {
            None
        }
    };
    let child = match single_next {
        Some(c) => c,
        None => return,
    };
    assert(blocks@[current.0 as int].nexts()[0] == child);
    assert(valid_ref(blocks@, child));
    let jump = {
        let child_instrs = blocks[child.0].instructions();
        if child_instrs.len() == 1 {
            match child_instrs[0].0 {
                Opcode::JMP(op) => Some(op),
                _ => None,
            }
        } else {
            None
        }
    };
    let op = match jump {
        Some(op) => op,
        None => return,
    };
    assert(is_jump_block(blocks@[child.0 as int]));
    let grandchild = match op.kind {
        OperandKind::Target(t) => t,
        _ => vstd::pervasive::unreached(),
    };
    let ghost before = blocks@;
    let mut b = take_block(blocks, current.0);
    assert(b.instrs().len() > 0);
    let last = b.instructions().len() - 1;
    b.set_instruction(last, Instruction(Opcode::JMP(op)));
    b.clear_next_blocks();
    b.push_next(grandchild);
    put_block(blocks, current.0, b);
    proof {
        let nb = blocks@;
        assert(nb[current.0 as int] == b);
        assert forall|i: int| 0 <= i < nb.len() && i != current.0 implies #[trigger] nb[i] == before[i] by {}
        assert forall|i: int, j: int|
            0 <= i < nb.len() && 0 <= j < nb[i].nexts().len() implies valid_ref(nb, #[trigger] nb[i].nexts()[j]) by {
            if i != current.0 {
                assert(nb[i] == before[i]);
            } else {
                assert(nb[i].nexts() == seq![grandchild]);
            }
        }
        assert forall|i: int|
            0 <= i < nb.len() && is_jump_block(#[trigger] nb[i]) implies (jump_block_target(nb[i]) matches Some(t) && valid_ref(nb, t)) by {
            if i != current.0 {
                assert(nb[i] == before[i]);
            } else {
                assert(nb[i].instrs()[0] == Instruction(Opcode::JMP(op)));
            }
        }
        assert forall|i: int| 0 <= i < nb.len() && (#[trigger] nb[i]).nexts().len() == 1 implies nb[i].instrs().len() > 0 by {
            if i != current.0 {
                assert(nb[i] == before[i]);
            }
        }
        assert forall|n: nat| blocks_known(before, n) implies #[trigger] blocks_known(nb, n) by {
            assert forall|x: int, i: int| 0 <= x < nb.len() && 0 <= i < nb[x].instrs().len() implies instruction_known(#[trigger] nb[x].instrs()[i], n) by {
                if x != current.0 {
                    assert(nb[x] == before[x]);
                } else if i == last {
                    lemma_jump_known(op, n);
                } else {
                    assert(nb[x].instrs()[i] == before[x].instrs()[i]);
                }
            }
        }
    }
    let ghost mid = blocks@;
    proof {
        assert(mid[current.0 as int].instrs() == before[current.0 as int].instrs().update(last as int, Instruction(Opcode::JMP(op))));
        assert(mid[current.0 as int].nexts() =~= seq![grandchild]);
        lemma_threaded_others(
            mid,
            before,
            current.0 as int,
            mid[current.0 as int].instrs(),
            mid[current.0 as int].nexts(),
            (fuel - 1) as nat,
        );
    }
    empty_block_jump_threading(blocks, current, fuel - 1);
    proof {
        assert forall|n: nat| blocks_known(old(blocks)@, n) implies #[trigger] blocks_known(blocks@, n) by {
            assert(blocks_known(mid, n));
        }
    }
}

/// The number of blocks not yet laid out.
pub open spec fn unlinked_count(blocks: Seq<X86Block>) -> nat
    decreases blocks.len(),
{
    if blocks.len() == 0 {
        0
    } else {
        unlinked_count(blocks.drop_last()) + if blocks.last().linked() {
            0nat
        } else {
            1nat
        }
    }
}

proof fn lemma_unlinked_count_update(blocks: Seq<X86Block>, at: int, b: X86Block)
    requires
        0 <= at < blocks.len(),
    ensures
        unlinked_count(blocks.update(at, b)) + (if blocks[at].linked() {
            0nat
        } else {
            1nat
        }) == unlinked_count(blocks) + (if b.linked() {
            0nat
        } else {
            1nat
        }),
    decreases blocks.len(),
{
    let u = blocks.update(at, b);
    if at == blocks.len() - 1 {
        assert(u.drop_last() =~= blocks.drop_last());
    } else {
        assert(u.drop_last() =~= blocks.drop_last().update(at, b));
        lemma_unlinked_count_update(blocks.drop_last(), at, b);
    }
}

proof fn lemma_unlinked_count_same_links(a: Seq<X86Block>, b: Seq<X86Block>)
    requires
        a.len() == b.len(),
        forall|i: int| 0 <= i < a.len() ==> (#[trigger] a[i]).linked() == b[i].linked(),
    ensures
        unlinked_count(a) == unlinked_count(b),
    decreases a.len(),
{
    if a.len() > 0 {
        lemma_unlinked_count_same_links(a.drop_last(), b.drop_last());
    }
}

/// Lays out the blocks reachable from the panic block and the initial
/// block: each not yet laid out block taken from the work list is marked as
/// laid out, has its jumps threaded, and has its successors added to the
/// work list. Returns the blocks laid out, in order; each is a block, none
/// comes twice, each ends up laid out, and the successors of each are laid
/// out too.
pub fn link_blocks(blocks: &mut Vec<X86Block>, panic_block: BlockRef, initial_block: BlockRef) -> (r:
    Vec<BlockRef>)
    requires
        threadable(old(blocks)@),
        valid_ref(old(blocks)@, panic_block),
        valid_ref(old(blocks)@, initial_block),
    ensures
        threadable(final(blocks)@),
        final(blocks)@.len() == old(blocks)@.len(),
        forall|k: int| 0 <= k < r@.len() ==> valid_ref(final(blocks)@, #[trigger] r@[k]),
        forall|k: int| 0 <= k < r@.len() ==> final(blocks)@[(#[trigger] r@[k]).0 as int].linked(),
        forall|a: int, b: int| 0 <= a < b < r@.len() ==> r@[a] != r@[b],
        forall|k: int, j: int|
            0 <= k < r@.len() && 0 <= j < final(blocks)@[r@[k].0 as int].nexts().len()
                ==> final(blocks)@[(#[trigger] final(blocks)@[(#[trigger] r@[k]).0 as int].nexts()[j]).0 as int].linked(),
        final(blocks)@[panic_block.0 as int].linked(),
        final(blocks)@[initial_block.0 as int].linked(),
        forall|n: nat| blocks_known(old(blocks)@, n) ==> #[trigger] blocks_known(final(blocks)@, n),
{
    let ghost n = blocks@.len();
    let mut laid_out: Vec<BlockRef> = Vec::new();
    let mut work: Vec<BlockRef> = Vec::new();
    work.push(panic_block);
    work.push(initial_block);
    assert(work@[0] == panic_block && work@[1] == initial_block);
    let ghost start_linked = Seq::new(n, |i: int| old(blocks)@[i].linked());
    while work.len() > 0
        invariant
            threadable(blocks@),
            blocks@.len() == n,
            forall|k: int| 0 <= k < work@.len() ==> valid_ref(blocks@, #[trigger] work@[k]),
            forall|k: int| 0 <= k < laid_out@.len() ==> valid_ref(blocks@, #[trigger] laid_out@[k]),
            forall|k: int| 0 <= k < laid_out@.len() ==> blocks@[(#[trigger] laid_out@[k]).0 as int].linked(),
            forall|a: int, b: int| 0 <= a < b < laid_out@.len() ==> laid_out@[a] != laid_out@[b],
            forall|k: int| 0 <= k < laid_out@.len() ==> !start_linked[(#[trigger] laid_out@[k]).0 as int],
            forall|i: int| 0 <= i < n && start_linked[i] ==> #[trigger] blocks@[i].linked(),
            forall|k: int, j: int|
                0 <= k < laid_out@.len() && 0 <= j < blocks@[laid_out@[k].0 as int].nexts().len() ==> ({
                    let s = #[trigger] blocks@[(#[trigger] laid_out@[k]).0 as int].nexts()[j];
                    blocks@[s.0 as int].linked() || work@.contains(s)
                }),
            valid_ref(blocks@, panic_block),
            valid_ref(blocks@, initial_block),
            forall|n: nat| blocks_known(old(blocks)@, n) ==> #[trigger] blocks_known(blocks@, n),
            blocks@[panic_block.0 as int].linked() || work@.contains(panic_block),
            blocks@[initial_block.0 as int].linked() || work@.contains(initial_block),
        decreases unlinked_count(blocks@), work@.len(),
    {
        let ghost b0 = blocks@;
        let ghost l0 = laid_out@;
        let ghost w0 = work@;
        let block = work.pop().unwrap();
        let ghost work_before = work@;
        proof {
            assert(w0 == work_before.push(block));
            assert forall|x: BlockRef| #[trigger] w0.contains(x) implies x == block || work_before.contains(x) by {
                let k = choose|k: int| 0 <= k < w0.len() && w0[k] == x;
                if k < work_before.len() {
                    assert(work_before[k] == x);
                }
            }
        }
        if !blocks[block.0].is_linked() {
            let ghost before = blocks@;
            let mut b = take_block(blocks, block.0);
            b.set_linked();
            put_block(blocks, block.0, b);
            proof {
                lemma_unlinked_count_update(before, block.0 as int, b);
                assert(blocks@ == before.update(block.0 as int, b));
                let nb = blocks@;
                assert forall|i: int, j: int|
                    0 <= i < nb.len() && 0 <= j < nb[i].nexts().len() implies valid_ref(nb, #[trigger] nb[i].nexts()[j]) by {
                    assert(nb[i].nexts() == before[i].nexts());
                }
                assert forall|i: int| 0 <= i < nb.len() && is_jump_block(#[trigger] nb[i]) implies (jump_block_target(nb[i]) matches Some(t) && valid_ref(nb, t)) by {
                    assert(nb[i].instrs() == before[i].instrs());
                }
                assert forall|i: int| 0 <= i < nb.len() && (#[trigger] nb[i]).nexts().len() == 1 implies nb[i].instrs().len() > 0 by {
                    assert(nb[i].instrs() == before[i].instrs());
                }
            }
            let ghost linked_state = blocks@;
            proof {
                assert forall|n: nat| blocks_known(old(blocks)@, n) implies #[trigger] blocks_known(linked_state, n) by {
                    assert(blocks_known(b0, n));
                    assert forall|x: int, i: int| 0 <= x < linked_state.len() && 0 <= i < linked_state[x].instrs().len() implies instruction_known(#[trigger] linked_state[x].instrs()[i], n) by {
                        assert(linked_state[x].instrs() == b0[x].instrs());
                    }
                }
            }
            laid_out.push(block);
            empty_block_jump_threading(blocks, block, blocks.len());
            proof {
                assert forall|i: int| 0 <= i < linked_state.len() implies (#[trigger] linked_state[i]).linked() == blocks@[i].linked() by {
                    if i != block.0 {
                        assert(linked_state[i] == blocks@[i]);
                    }
                }
                lemma_unlinked_count_same_links(linked_state, blocks@);
            }
            let nexts = blocks[block.0].next_blocks();
            let mut j: usize = 0;
            let ghost work_mid = work@;
            while j < nexts.len()
                invariant
                    j <= nexts@.len(),
                    nexts@ == blocks@[block.0 as int].nexts(),
                    threadable(blocks@),
                    valid_ref(blocks@, block),
                    work@ == work_mid + nexts@.take(j as int),
                    forall|k: int| 0 <= k < work_mid.len() ==> valid_ref(blocks@, #[trigger] work_mid[k]),
                decreases nexts.len() - j,
            {
                assert(valid_ref(blocks@, blocks@[block.0 as int].nexts()[j as int]));
                work.push(nexts[j]);
                j = j + 1;
                proof {
                    assert(work@ =~= work_mid + nexts@.take(j as int));
                }
            }
            proof {
                assert(nexts@.take(nexts@.len() as int) =~= nexts@);
                let nb = blocks@;
                assert forall|k: int| 0 <= k < work@.len() implies valid_ref(nb, #[trigger] work@[k]) by {
                    if k >= work_mid.len() {
                        assert(work@[k] == nexts@[k - work_mid.len()]);
                    }
                }
                assert forall|x: BlockRef| #[trigger] work_before.contains(x) implies work@.contains(x) by {
                    let k = choose|k: int| 0 <= k < work_before.len() && work_before[k] == x;
                    assert(work@[k] == x);
                }
                assert forall|j: int| 0 <= j < nexts@.len() implies work@.contains(#[trigger] nexts@[j]) by {
                    assert(work@[work_mid.len() + j] == nexts@[j]);
                }
                assert(work_mid == work_before);
                // blocks laid out earlier keep their successors, and their
                // successors stay linked or listed
                assert forall|k: int| 0 <= k < l0.len() implies #[trigger] l0[k] != block by {
                    assert(b0[l0[k].0 as int].linked());
                }
                assert forall|i: int| 0 <= i < n && i != block.0 implies (#[trigger] nb[i]) == b0[i] by {
                    assert(linked_state[i] == b0[i]);
                }
                assert forall|i: int| 0 <= i < n && b0[i].linked() implies (#[trigger] nb[i]).linked() by {
                    if i != block.0 {
                        assert(nb[i] == b0[i]);
                    }
                }
                assert(nb[block.0 as int].linked());
                assert forall|k: int, j: int|
                    0 <= k < laid_out@.len() && 0 <= j < nb[laid_out@[k].0 as int].nexts().len() implies ({
                        let s = #[trigger] nb[(#[trigger] laid_out@[k]).0 as int].nexts()[j];
                        nb[s.0 as int].linked() || work@.contains(s)
                    }) by {
                    if k < l0.len() {
                        assert(laid_out@[k] == l0[k]);
                        assert(nb[l0[k].0 as int] == b0[l0[k].0 as int]);
                        let s = b0[l0[k].0 as int].nexts()[j];
                        assert(b0[s.0 as int].linked() || w0.contains(s));
                        if w0.contains(s) && s != block {
                            assert(work_before.contains(s));
                        }
                    } else {
                        assert(laid_out@[k] == block);
                        assert(work@.contains(nexts@[j]));
                    }
                }
                assert(nb[panic_block.0 as int].linked() || work@.contains(panic_block)) by {
                    if b0[panic_block.0 as int].linked() {
                        if panic_block != block {
                            assert(nb[panic_block.0 as int] == b0[panic_block.0 as int]);
                        }
                    } else if panic_block != block {
                        assert(w0.contains(panic_block));
                        assert(work_before.contains(panic_block));
                        assert(work@.contains(panic_block));
                    }
                }
                assert(nb[initial_block.0 as int].linked() || work@.contains(initial_block)) by {
                    if b0[initial_block.0 as int].linked() {
                        if initial_block != block {
                            assert(nb[initial_block.0 as int] == b0[initial_block.0 as int]);
                        }
                    } else if initial_block != block {
                        assert(w0.contains(initial_block));
                        assert(work_before.contains(initial_block));
                        assert(work@.contains(initial_block));
                    }
                }
                assert forall|k: int| 0 <= k < laid_out@.len() implies nb[(#[trigger] laid_out@[k]).0 as int].linked() by {
                    if k < l0.len() {
                        assert(laid_out@[k] == l0[k]);
                    }
                }
                assert forall|i: int| 0 <= i < n && start_linked[i] implies #[trigger] nb[i].linked() by {
                    assert(b0[i].linked());
                }
                assert forall|k: int| 0 <= k < laid_out@.len() implies !start_linked[(#[trigger] laid_out@[k]).0 as int] by {
                    if k < l0.len() {
                        assert(laid_out@[k] == l0[k]);
                    } else {
                        assert(!b0[block.0 as int].linked());
                    }
                }
                assert forall|a: int, b: int| 0 <= a < b < laid_out@.len() implies laid_out@[a] != laid_out@[b] by {
                    if b == l0.len() {
                        assert(laid_out@[a] == l0[a]);
                    }
                }
            }
        } else {
            proof {
                assert forall|k: int, j: int|
                    0 <= k < laid_out@.len() && 0 <= j < blocks@[laid_out@[k].0 as int].nexts().len() implies ({
                        let s = #[trigger] blocks@[(#[trigger] laid_out@[k]).0 as int].nexts()[j];
                        blocks@[s.0 as int].linked() || work@.contains(s)
                    }) by {
                    let s = blocks@[laid_out@[k].0 as int].nexts()[j];
                    if !blocks@[s.0 as int].linked() {
                        assert(w0.contains(s));
                    }
                }
                assert(blocks@[panic_block.0 as int].linked() || work@.contains(panic_block)) by {
                    if !blocks@[panic_block.0 as int].linked() {
                        assert(w0.contains(panic_block));
                    }
                }
                assert(blocks@[initial_block.0 as int].linked() || work@.contains(initial_block)) by {
                    if !blocks@[initial_block.0 as int].linked() {
                        assert(w0.contains(initial_block));
                    }
                }
            }
        }
    }
    laid_out
}

/// Whether every instruction of every block only names virtual registers
/// among the first `n`.
pub open spec fn blocks_known(blocks: Seq<X86Block>, n: nat) -> bool {
    forall|b: int, i: int|
        0 <= b < blocks.len() && 0 <= i < blocks[b].instrs().len() ==> instruction_known(
            #[trigger] blocks[b].instrs()[i],
            n,
        )
}

/// A jump to a block names no register.
pub proof fn lemma_jump_known(op: Operand, n: nat)
    requires
        op.kind is Target,
    ensures
        instruction_known(Instruction(Opcode::JMP(op)), n),
{
    let j = Instruction(Opcode::JMP(op));
    assert(j.apparent_operands() =~= seq![(crate::encoder::OperandDirection::In, op)]);
    assert(j.use_defs() =~= seq![]) by {
        assert(crate::encoder::use_defs_of(j.apparent_operands().drop_last()) =~= seq![]);
    }
    assert(j.operand_slots() =~= seq![(crate::encoder::OperandDirection::In, op)]);
    assert(operand_registers(op) =~= seq![]);
}

/// The instructions of the blocks in `order`, one block after the other.
pub open spec fn laid_out_instrs(blocks: Seq<X86Block>, order: Seq<BlockRef>) -> Seq<Instruction>
    decreases order.len(),
{
    if order.len() == 0 {
        seq![]
    } else {
        laid_out_instrs(blocks, order.drop_last()) + blocks[order.last().0 as int].instrs()
    }
}

/// Concatenates the instructions of the blocks in `order`, and records
/// where each block's instructions start.
pub fn lay_out(blocks: &Vec<X86Block>, order: &Vec<BlockRef>) -> (r: (Vec<Instruction>, Vec<Option<usize>>))
    requires
        forall|k: int| 0 <= k < order@.len() ==> valid_ref(blocks@, #[trigger] order@[k]),
        forall|a: int, b: int| 0 <= a < b < order@.len() ==> order@[a] != order@[b],
    ensures
        r.0@ == laid_out_instrs(blocks@, order@),
        r.1@.len() == blocks@.len(),
        forall|k: int| 0 <= k < order@.len() ==> r.1@[(#[trigger] order@[k]).0 as int] == Some(
            laid_out_instrs(blocks@, order@.take(k)).len() as usize,
        ),
        forall|b: int| 0 <= b < blocks@.len() && !order@.contains(BlockRef(b as usize)) ==> (#[trigger] r.1@[b]) is None,
{
    let mut instrs: Vec<Instruction> = Vec::new();
    let mut starts: Vec<Option<usize>> = Vec::new();
    let mut b: usize = 0;
    while b < blocks.len()
        invariant
            b <= blocks@.len(),
            starts@ == Seq::new(b as nat, |i: int| None::<usize>),
        decreases blocks.len() - b,
    {
        starts.push(None);
        b = b + 1;
    }
    let mut k: usize = 0;
    while k < order.len()
        invariant
            k <= order@.len(),
            forall|j: int| 0 <= j < order@.len() ==> valid_ref(blocks@, #[trigger] order@[j]),
            forall|a: int, c: int| 0 <= a < c < order@.len() ==> order@[a] != order@[c],
            instrs@ == laid_out_instrs(blocks@, order@.take(k as int)),
            starts@.len() == blocks@.len(),
            forall|j: int| 0 <= j < k ==> starts@[(#[trigger] order@[j]).0 as int] == Some(
                laid_out_instrs(blocks@, order@.take(j)).len() as usize,
            ),
            forall|i: int| 0 <= i < blocks@.len() && !order@.take(k as int).contains(BlockRef(i as usize)) ==> (#[trigger] starts@[i]) is None,
        decreases order.len() - k,
    {
        let block = order[k];
        let ghost before = starts@;
        let ghost before_instrs = instrs@;
        starts.set(block.0, Some(instrs.len()));
        let block_instrs = blocks[block.0].instructions();
        let mut i: usize = 0;
        while i < block_instrs.len()
            invariant
                i <= block_instrs@.len(),
                instrs@ == before_instrs + block_instrs@.take(i as int),
            decreases block_instrs.len() - i,
        {
            instrs.push(block_instrs[i]);
            i = i + 1;
            proof {
                assert(instrs@ =~= before_instrs + block_instrs@.take(i as int));
            }
        }
        proof {
            assert(block_instrs@.take(block_instrs@.len() as int) =~= block_instrs@);
            assert(order@.take(k + 1).drop_last() =~= order@.take(k as int));
            assert(instrs@ == laid_out_instrs(blocks@, order@.take(k + 1)));
            assert forall|j: int| 0 <= j < k + 1 implies starts@[(#[trigger] order@[j]).0 as int] == Some(
                laid_out_instrs(blocks@, order@.take(j)).len() as usize,
            ) by {
                if j < k {
                    assert(order@[j] != block);
                    assert(order@[j].0 != block.0);
                } else {
                    assert(order@.take(j) =~= order@.take(k as int));
                }
            }
            assert forall|i: int| 0 <= i < blocks@.len() && !order@.take(k + 1).contains(BlockRef(i as usize)) implies (#[trigger] starts@[i]) is None by {
                assert(order@.take(k + 1)[k as int] == block);
                if i == block.0 {
                    assert(BlockRef(i as usize) == block);
                } else {
                    if order@.take(k as int).contains(BlockRef(i as usize)) {
                        let j = choose|j: int| 0 <= j < k && order@.take(k as int)[j] == BlockRef(i as usize);
                        assert(order@.take(k + 1)[j] == BlockRef(i as usize));
                    }
                }
            }
        }
        k = k + 1;
    }
    proof {
        assert(order@.take(order@.len() as int) =~= order@);
    }
    (instrs, starts)
}

/// Why a translation could not be compiled.
#[derive(Debug, Clone, Copy, PartialEq, Eq, Structural)]
pub enum CompileError {
    /// A jump goes to a block that was not laid out.
    UnplacedTarget(BlockRef),
    /// A jump goes to a block after which no live instruction follows.
    NothingAfterTarget(BlockRef),
    /// Register allocation failed.
    Allocation(crate::regalloc::AllocationError),
    /// An instruction could not be encoded.
    Encode(crate::asm_forms::EncodeError),
}

/// The block a jump instruction goes to, if it goes to a block.
pub open spec fn jump_target(instr: Instruction) -> Option<BlockRef> {
    match instr.0 {
        Opcode::JMP(op) | Opcode::JE(op) | Opcode::JNE(op) => match op.kind {
            OperandKind::Target(t) => Some(t),
            _ => None,
        },
        _ => None,
    }
}

/// The start of a laid out block.
pub open spec fn start_of(starts: Seq<Option<usize>>, t: BlockRef) -> Option<usize> {
    if t.0 < starts.len() {
        starts[t.0 as int]
    } else {
        None
    }
}

/// Whether the instruction at `at` is an unconditional jump to the block
/// laid out right after it.
pub open spec fn falls_through(instr: Instruction, starts: Seq<Option<usize>>, at: int) -> bool {
    &&& instr.0 is JMP
    &&& jump_target(instr) is Some
    &&& start_of(starts, jump_target(instr)->Some_0) == Some((at + 1) as usize)
}

/// Whether every unconditional jump to a block goes to a laid out one.
pub open spec fn jumps_placed(instrs: Seq<Instruction>, starts: Seq<Option<usize>>) -> bool {
    forall|i: int|
        0 <= i < instrs.len() && (#[trigger] instrs[i]).0 is JMP && jump_target(instrs[i]) is Some
            ==> start_of(starts, jump_target(instrs[i])->Some_0) is Some
}

fn start_of_exec(starts: &Vec<Option<usize>>, t: BlockRef) -> (r: Option<usize>)
    ensures
        r == start_of(starts@, t),
{
    if t.0 < starts.len() {
        starts[t.0]
    } else {
        None
    }
}

/// Turns every unconditional jump to the block laid out right after it
/// into a dead instruction; fails where such a jump goes to a block that
/// was not laid out.
pub fn drop_fallthrough_jumps(instrs: &mut Vec<Instruction>, starts: &Vec<Option<usize>>) -> (r: Result<(), CompileError>)
    ensures
        r is Ok <==> jumps_placed(old(instrs)@, starts@),
        final(instrs)@.len() == old(instrs)@.len(),
        r is Ok ==> forall|i: int| 0 <= i < final(instrs)@.len() ==> #[trigger] final(instrs)@[i] == if falls_through(
            old(instrs)@[i],
            starts@,
            i,
        ) {
            Instruction(Opcode::DEAD)
        } else {
            old(instrs)@[i]
        },
{
    let mut i: usize = 0;
    while i < instrs.len()
        invariant
            i <= instrs@.len(),
            instrs@.len() == old(instrs)@.len(),
            forall|j: int| i <= j < instrs@.len() ==> #[trigger] instrs@[j] == old(instrs)@[j],
            forall|j: int| 0 <= j < i ==> (#[trigger] old(instrs)@[j]).0 is JMP && jump_target(old(instrs)@[j]) is Some
                ==> start_of(starts@, jump_target(old(instrs)@[j])->Some_0) is Some,
            forall|j: int| 0 <= j < i ==> #[trigger] instrs@[j] == if falls_through(old(instrs)@[j], starts@, j) {
                Instruction(Opcode::DEAD)
            } else {
                old(instrs)@[j]
            },
        decreases instrs.len() - i,
    {
        let instr = instrs[i];
        if let Opcode::JMP(op) = instr.0 {
            if let OperandKind::Target(t) = op.kind {
                let target_index = match start_of_exec(starts, t) {
                    Some(x) => x,
                    None => {
                        proof {
                            assert(!jumps_placed(old(instrs)@, starts@)) by {
                                assert(old(instrs)@[i as int] == instr);
                            }
                        }
                        return Err(CompileError::UnplacedTarget(t));
                    },
                };
                if i < usize::MAX && target_index == i + 1 {
                    instrs.set(i, Instruction(Opcode::DEAD));
                }
            }
        }
        i = i + 1;
    }
    Ok(())
}

/// Laying out known blocks gives known instructions.
pub proof fn lemma_laid_out_known(blocks: Seq<X86Block>, order: Seq<BlockRef>, n: nat)
    requires
        blocks_known(blocks, n),
        forall|k: int| 0 <= k < order.len() ==> valid_ref(blocks, #[trigger] order[k]),
    ensures
        all_known(laid_out_instrs(blocks, order), n),
    decreases order.len(),
{
    if order.len() > 0 {
        lemma_laid_out_known(blocks, order.drop_last(), n);
        let prefix = laid_out_instrs(blocks, order.drop_last());
        let last = blocks[order.last().0 as int].instrs();
        assert forall|i: int| 0 <= i < laid_out_instrs(blocks, order).len() implies instruction_known(#[trigger] laid_out_instrs(blocks, order)[i], n) by {
            if i < prefix.len() {
                assert(laid_out_instrs(blocks, order)[i] == prefix[i]);
            } else {
                assert(laid_out_instrs(blocks, order)[i] == last[i - prefix.len()]);
            }
        }
    }
}

/// The first instruction at or after `from` that is not dead.
pub open spec fn next_live(instrs: Seq<Instruction>, from: int) -> Option<int> {
    if exists|k: int| from <= k < instrs.len() && !(instrs[k].0 is DEAD) {
        Some(
            choose|k: int|
                from <= k < instrs.len() && !(instrs[k].0 is DEAD) && forall|j: int|
                    from <= j < k ==> instrs[j].0 is DEAD,
        )
    } else {
        None
    }
}

/// Finds [`next_live`].
fn find_next_live(instrs: &Vec<Instruction>, from: usize) -> (r: Option<usize>)
    ensures
        match next_live(instrs@, from as int) {
            Some(k) => r == Some(k as usize) && from <= k < instrs@.len() && !(instrs@[k].0 is DEAD),
            None => r is None,
        },
{
    let mut k = from;
    while k < instrs.len()
        invariant
            from <= k,
            forall|j: int| from <= j < k ==> instrs@[j].0 is DEAD,
        decreases instrs.len() - k,
    {
        if let Opcode::DEAD = instrs[k].0 {
            k = k + 1;
        } else {
            let ghost w = choose|x: int|
                from <= x < instrs@.len() && !(instrs@[x].0 is DEAD) && forall|j: int|
                    from <= j < x ==> instrs@[j].0 is DEAD;
            proof {
                assert(from <= k < instrs@.len() && !(instrs@[k as int].0 is DEAD) && forall|j: int|
                    from <= j < k ==> instrs@[j].0 is DEAD);
                if w < k {
                    assert(instrs@[w].0 is DEAD);
                } else if w > k {
                    assert(instrs@[k as int].0 is DEAD);
                }
            }
            return Some(k);
        }
    }
    None
}

/// Whether a block a jump goes to can be given a label: it was laid out,
/// and a live instruction follows its start.
#[verifier::opaque]
pub open spec fn labelable(instrs: Seq<Instruction>, starts: Seq<Option<usize>>, t: BlockRef) -> bool {
    start_of(starts, t) matches Some(x) && next_live(instrs, x as int) is Some
}

/// Gives a label to the first live instruction at or after the start of
/// every block a jump goes to, one label per such instruction, and maps
/// each such block to its label. Fails where a jump goes to a block that
/// was not laid out or after which nothing live follows.
#[verifier::rlimit(90)]
pub fn jump_labels(assembler: &mut CodeAssembler, instrs: &Vec<Instruction>, starts: &Vec<Option<usize>>) -> (r:
    Result<(Vec<Option<CodeLabel>>, LabelMap), CompileError>)
    ensures
        r is Ok <==> forall|i: int|
            0 <= i < instrs@.len() && jump_target(#[trigger] instrs@[i]) is Some ==> labelable(
                instrs@,
                starts@,
                jump_target(instrs@[i])->Some_0,
            ),
        r matches Err(e) ==> exists|i: int|
            0 <= i < instrs@.len() && (jump_target(#[trigger] instrs@[i]) matches Some(t) && !labelable(
                instrs@,
                starts@,
                t,
            ) && e == (if start_of(starts@, t) is None {
                CompileError::UnplacedTarget(t)
            } else {
                CompileError::NothingAfterTarget(t)
            })),
        r matches Ok((at, labels)) ==> {
            &&& at@.len() == instrs@.len()
            &&& forall|i: int|
                0 <= i < instrs@.len() && jump_target(#[trigger] instrs@[i]) is Some ==> labels.has(
                    jump_target(instrs@[i])->Some_0,
                )
            &&& forall|k: int| 0 <= k < at@.len() && (#[trigger] at@[k]) is Some ==> !(instrs@[k].0 is DEAD)
        },
{
    let mut at: Vec<Option<CodeLabel>> = Vec::new();
    let mut j: usize = 0;
    while j < instrs.len()
        invariant
            j <= instrs@.len(),
            at@.len() == j,
            forall|k: int| 0 <= k < at@.len() ==> (#[trigger] at@[k]) is None,
        decreases instrs.len() - j,
    {
        at.push(None);
        j = j + 1;
    }
    let mut labels = LabelMap::new();
    let mut i: usize = 0;
    while i < instrs.len()
        invariant
            i <= instrs@.len(),
            at@.len() == instrs@.len(),
            forall|k: int| 0 <= k < i && jump_target(#[trigger] instrs@[k]) is Some ==> labels.has(
                jump_target(instrs@[k])->Some_0,
            ),
            forall|k: int| 0 <= k < at@.len() && (#[trigger] at@[k]) is Some ==> !(instrs@[k].0 is DEAD),
            forall|k: int|
                0 <= k < i && jump_target(#[trigger] instrs@[k]) is Some ==> labelable(
                    instrs@,
                    starts@,
                    jump_target(instrs@[k])->Some_0,
                ),
        decreases instrs.len() - i,
    {
        let target = match instrs[i].0 {
            Opcode::JE(op) | Opcode::JNE(op) | Opcode::JMP(op) => match op.kind {
                OperandKind::Target(t) => Some(t),
                _ => None,
            },
            _ => None,
        };
        assert(target == jump_target(instrs@[i as int]));
        if let Some(t) = target {
            let target_index = match start_of_exec(starts, t) {
                Some(x) => x,
                None => {
                    assert(jump_target(instrs@[i as int]) == Some(t));
                    assert(!labelable(instrs@, starts@, t)) by {
                        reveal(labelable);
                    }
                    return Err(CompileError::UnplacedTarget(t));
                },
            };
            let live = match find_next_live(instrs, target_index) {
                Some(k) => k,
                None => {
                    assert(jump_target(instrs@[i as int]) == Some(t));
                    assert(!labelable(instrs@, starts@, t)) by {
                        reveal(labelable);
                    }
                    return Err(CompileError::NothingAfterTarget(t));
                },
            };
            assert(labelable(instrs@, starts@, t)) by {
                reveal(labelable);
            }
            let label = match at[live] {
                Some(l) => l,
                None => {
                    let l = crate::assembler::create_label(assembler);
                    at.set(live, Some(l));
                    l
                },
            };
            let ghost before = labels.entries@;
            labels.insert(t, label);
            proof {
                let e = labels.entries@;
                assert(e[e.len() - 1].0 == t);
                assert forall|k: int| 0 <= k < i + 1 && jump_target(#[trigger] instrs@[k]) is Some implies labels.has(
                    jump_target(instrs@[k])->Some_0,
                ) by {
                    if k < i {
                        let x = jump_target(instrs@[k])->Some_0;
                        let w = choose|w: int| 0 <= w < before.len() && #[trigger] before[w].0 == x;
                        assert(e[w] == before[w]);
                    }
                }
            }
        }
        i = i + 1;
    }
    Ok((at, labels))
}

} // verus!
