//! Register allocation: live ranges of virtual registers are found by a
//! forward scan, host registers are handed out by a backward scan, and the
//! instructions are then rewritten onto host registers.
use vstd::prelude::*;
use crate::encoder::{Instruction, Opcode, Operand, OperandDirection, OperandKind, UseDef};
use crate::registers::{PHYSICAL_REGISTER_COUNT, PhysicalRegister, Register, RegisterClass};
use crate::regset::{PhysicalRegisterSet, RegisterTrack, RegisterTracker, first_in_not_in, in_set, same_record};
use crate::width::Width;

verus! {

/// Why register allocation stopped.
#[derive(Debug, Clone, Copy, PartialEq, Eq, Structural)]
pub enum AllocationError {
    /// No host register of the needed class was free at the instruction.
    OutOfRegisters(usize),
    /// A register was needed in a host register that held none at the
    /// instruction.
    Unassigned(usize),
    /// A global slot at the instruction lies beyond what a displacement
    /// can reach.
    GlobalOutOfRange(usize),
    /// The call at the instruction is not through a host register.
    CallTarget(usize),
    /// The register saves of the call at the instruction do not fit around
    /// it.
    CallSaves(usize),
}

/// The host registers the allocator hands out: every register but the
/// stack pointer, the register file pointer and the scratch register.
pub open spec fn allocatable(p: PhysicalRegister) -> bool {
    p != PhysicalRegister::RSP && p != PhysicalRegister::RBP && p != PhysicalRegister::R15
}

/// The general purpose registers handed out.
pub open spec fn gpr_pool() -> Seq<bool> {
    Seq::new(PHYSICAL_REGISTER_COUNT as nat, |i: int| (0 <= i < 6) || (8 <= i < 15))
}

/// The XMM registers handed out.
pub open spec fn xmm_pool() -> Seq<bool> {
    Seq::new(PHYSICAL_REGISTER_COUNT as nat, |i: int| 16 <= i < 24)
}

/// The register a use or definition is of.
pub open spec fn ud_register(u: UseDef) -> Register {
    match u {
        UseDef::Use(r) => r,
        UseDef::Def(r) => r,
        UseDef::UseDef(r) => r,
    }
}

/// The registers an operand names: its register, or the base and index of
/// a memory operand.
pub open spec fn operand_registers(op: Operand) -> Seq<Register> {
    match op.kind {
        OperandKind::Register(r) => seq![r],
        OperandKind::Memory { base, index, .. } => (match base {
            Some(b) => seq![b],
            None => seq![],
        }) + (match index {
            Some(x) => seq![x],
            None => seq![],
        }),
        _ => seq![],
    }
}

/// Whether every virtual register the instruction names, directly or by
/// implication, is one of the `n` being allocated.
pub open spec fn instruction_known(instr: Instruction, n: nat) -> bool {
    &&& instr.has_apparent_operands()
    &&& forall|k: int| 0 <= k < instr.use_defs().len() ==> ((#[trigger] ud_register(
        instr.use_defs()[k].0,
    )) matches Register::Virtual { index, .. } ==> index < n)
    &&& forall|s: int, k: int|
        0 <= s < instr.operand_slots().len() && 0 <= k < operand_registers(
            instr.operand_slots()[s].1,
        ).len() ==> ((#[trigger] operand_registers(instr.operand_slots()[s].1)[k]) matches Register::Virtual {
            index,
            ..
        } ==> index < n)
}

/// Whether every instruction only names virtual registers among the `n`
/// being allocated.
pub open spec fn all_known(instrs: Seq<Instruction>, n: nat) -> bool {
    forall|i: int| 0 <= i < instrs.len() ==> instruction_known(#[trigger] instrs[i], n)
}

/// Whether `new` is `old` with some instructions replaced by `DEAD`.
pub open spec fn only_killed(old: Seq<Instruction>, new: Seq<Instruction>) -> bool {
    &&& new.len() == old.len()
    &&& forall|i: int| 0 <= i < new.len() ==> #[trigger] new[i] == old[i] || new[i] == Instruction(
        Opcode::DEAD,
    )
}

/// Whether the tracker has a record for each of the `n` virtual registers
/// and each host register.
pub open spec fn tracker_shape(t: &RegisterTracker, n: nat) -> bool {
    t.virt@.len() == n && t.phys@.len() == PHYSICAL_REGISTER_COUNT
}

/// Whether every host register given to a virtual register is one the
/// allocator hands out.
pub open spec fn assignments_allocatable(t: &RegisterTracker) -> bool {
    forall|v: int| 0 <= v < t.virt@.len() ==> ((#[trigger] t.virt@[v]).physical_register matches Some(
        p,
    ) ==> allocatable(p))
}

pub proof fn lemma_dead_known(n: nat)
    ensures
        instruction_known(Instruction(Opcode::DEAD), n),
{
    assert(Instruction(Opcode::DEAD).use_defs() =~= seq![]) by {
        assert(Instruction(Opcode::DEAD).apparent_operands() =~= seq![]);
    }
    assert(Instruction(Opcode::DEAD).operand_slots() =~= seq![]);
}

/// Whether a use or definition reads the virtual register numbered `v`.
pub open spec fn reads_virtual(u: UseDef, v: int) -> bool {
    match u {
        UseDef::Use(r) => r matches Register::Virtual { index, .. } && index == v,
        UseDef::UseDef(r) => r matches Register::Virtual { index, .. } && index == v,
        UseDef::Def(_) => false,
    }
}

/// Whether a use or definition writes the virtual register numbered `v`.
pub open spec fn writes_virtual(u: UseDef, v: int) -> bool {
    match u {
        UseDef::Def(r) => r matches Register::Virtual { index, .. } && index == v,
        UseDef::UseDef(r) => r matches Register::Virtual { index, .. } && index == v,
        UseDef::Use(_) => false,
    }
}

/// Whether one of the first `k` uses and definitions of an instruction
/// reads the virtual register numbered `v`.
pub open spec fn reads_among(instr: Instruction, v: int, k: int) -> bool {
    exists|j: int| 0 <= j < k && j < instr.use_defs().len() && reads_virtual(#[trigger] instr.use_defs()[j].0, v)
}

/// Whether one of the first `k` uses and definitions of an instruction
/// writes the virtual register numbered `v`.
pub open spec fn writes_among(instr: Instruction, v: int, k: int) -> bool {
    exists|j: int| 0 <= j < k && j < instr.use_defs().len() && writes_virtual(#[trigger] instr.use_defs()[j].0, v)
}

/// Whether an instruction reads the virtual register numbered `v`.
pub open spec fn reads(instr: Instruction, v: int) -> bool {
    reads_among(instr, v, instr.use_defs().len() as int)
}

/// Whether an instruction writes the virtual register numbered `v`.
pub open spec fn writes(instr: Instruction, v: int) -> bool {
    writes_among(instr, v, instr.use_defs().len() as int)
}

/// The last of the first `upto` instructions that reads the virtual
/// register numbered `v`.
pub open spec fn last_read(instrs: Seq<Instruction>, v: int, upto: int) -> Option<usize>
    decreases upto,
{
    if upto <= 0 {
        None
    } else if reads(instrs[upto - 1], v) {
        Some((upto - 1) as usize)
    } else {
        last_read(instrs, v, upto - 1)
    }
}

/// Whether one of the first `upto` instructions writes the virtual register
/// numbered `v`.
pub open spec fn written_before(instrs: Seq<Instruction>, v: int, upto: int) -> bool {
    exists|i: int| 0 <= i < upto && i < instrs.len() && writes(#[trigger] instrs[i], v)
}

/// Records, for each virtual register, where its live range starts (its
/// first definition) and ends (its last use); a second definition before
/// any use, with no jump between the two, makes the first one dead. The
/// last use recorded is the last instruction that reads the register; a
/// start is recorded exactly for the registers some instruction writes,
/// and it is an instruction that writes the register.
pub fn calculate_vreg_live_ranges(tracker: &mut RegisterTracker, instructions: &mut Vec<Instruction>)
    requires
        tracker_shape(old(tracker), old(tracker).virt@.len()),
        all_known(old(instructions)@, old(tracker).virt@.len()),
        forall|v: int| 0 <= v < old(tracker).virt@.len() ==> (#[trigger] old(tracker).virt@[v]).first_def is None
            && old(tracker).virt@[v].last_use is None,
    ensures
        tracker_shape(final(tracker), old(tracker).virt@.len()),
        only_killed(old(instructions)@, final(instructions)@),
        all_known(final(instructions)@, old(tracker).virt@.len()),
        final(tracker).phys@ == old(tracker).phys@,
        forall|v: int| 0 <= v < final(tracker).virt@.len() ==> (#[trigger] final(tracker).virt@[v]).physical_register
            == old(tracker).virt@[v].physical_register,
        forall|v: int| 0 <= v < final(tracker).virt@.len() ==> (#[trigger] final(tracker).virt@[v]).last_use
            == last_read(old(instructions)@, v, old(instructions)@.len() as int),
        forall|v: int| 0 <= v < final(tracker).virt@.len() ==> ((#[trigger] final(tracker).virt@[v]).first_def is Some
            <==> written_before(old(instructions)@, v, old(instructions)@.len() as int)),
        forall|v: int| 0 <= v < final(tracker).virt@.len() ==> ((#[trigger] final(tracker).virt@[v]).first_def matches Some(d)
            ==> d < old(instructions)@.len() && writes(old(instructions)@[d as int], v)),
        forall|i: int| 0 <= i < final(instructions)@.len() ==> #[trigger] final(instructions)@[i] == old(instructions)@[i]
            || exists|v: int| 0 <= v < old(tracker).virt@.len() && writes(old(instructions)@[i], v),
{
    let ghost n = tracker.virt@.len();
    let ghost original = instructions@;
    let mut control_flow_count: u64 = 0;
    let mut current: usize = 0;
    while current < instructions.len()
        invariant
            n == old(tracker).virt@.len(),
            tracker_shape(tracker, n),
            current <= instructions@.len(),
            original == old(instructions)@,
            only_killed(original, instructions@),
            all_known(instructions@, n),
            control_flow_count <= current,
            tracker.phys@ == old(tracker).phys@,
            forall|i: int| current <= i < instructions@.len() ==> #[trigger] instructions@[i] == original[i],
            forall|i: int| 0 <= i < instructions@.len() ==> #[trigger] instructions@[i] == original[i]
                || exists|v: int| 0 <= v < n && writes(original[i], v),
            forall|v: int| 0 <= v < n ==> (#[trigger] tracker.virt@[v]).physical_register
                == old(tracker).virt@[v].physical_register,
            forall|v: int| 0 <= v < n ==> (#[trigger] tracker.virt@[v]).last_use == last_read(original, v, current as int),
            forall|v: int| 0 <= v < n ==> ((#[trigger] tracker.virt@[v]).first_def is Some <==> written_before(original, v, current as int)),
            forall|v: int| 0 <= v < n ==> ((#[trigger] tracker.virt@[v]).first_def matches Some(d) ==> d < current
                && writes(original[d as int], v)),
        decreases instructions@.len() - current,
    {
        let instr = instructions[current];
        assert(instr == original[current as int]);
        match instr.0 {
            Opcode::JE(_) | Opcode::JNE(_) | Opcode::JMP(_) => {
                control_flow_count = control_flow_count + 1;
            },
            _ => {},
        }
        assert(instruction_known(instr, n));
        let use_defs = instr.get_use_defs();
        let mut k: usize = 0;
        while k < use_defs.len()
            invariant
                n == old(tracker).virt@.len(),
                tracker_shape(tracker, n),
                current < instructions@.len(),
                original == old(instructions)@,
                instr == original[current as int],
                only_killed(original, instructions@),
                all_known(instructions@, n),
                instruction_known(instr, n),
                use_defs@ == instr.use_defs(),
                k <= use_defs@.len(),
                tracker.phys@ == old(tracker).phys@,
                forall|i: int| current < i < instructions@.len() ==> #[trigger] instructions@[i] == original[i],
                forall|i: int| 0 <= i < instructions@.len() ==> #[trigger] instructions@[i] == original[i]
                    || exists|v: int| 0 <= v < n && writes(original[i], v),
                forall|v: int| 0 <= v < n ==> (#[trigger] tracker.virt@[v]).physical_register
                    == old(tracker).virt@[v].physical_register,
                forall|v: int| 0 <= v < n ==> (#[trigger] tracker.virt@[v]).last_use == last_read(original, v, current as int),
                forall|v: int| 0 <= v < n ==> ((#[trigger] tracker.virt@[v]).first_def is Some <==> (written_before(original, v, current as int)
                    || writes_among(instr, v, k as int))),
                forall|v: int| 0 <= v < n ==> ((#[trigger] tracker.virt@[v]).first_def matches Some(d) ==> d <= current
                    && writes(original[d as int], v)),
            decreases use_defs@.len() - k,
        {
            let (ud, _) = use_defs[k];
            assert(ud_register(use_defs@[k as int].0) matches Register::Virtual { index, .. } ==> index < n);
            let ghost before_tracker = tracker.virt@;
            proof {
                assert forall|v: int| #[trigger] writes_among(instr, v, k + 1) == (writes_among(instr, v, k as int)
                    || writes_virtual(instr.use_defs()[k as int].0, v)) by {
                    if writes_virtual(instr.use_defs()[k as int].0, v) {
                        assert(writes_among(instr, v, k + 1));
                    }
                }
            }
            match ud {
                UseDef::Def(reg) | UseDef::UseDef(reg) => {
                    if let Register::Virtual { index, .. } = reg {
                        let ghost vi = index as int;
                        assert(writes_virtual(instr.use_defs()[k as int].0, vi));
                        assert(writes(instr, vi)) by {
                            assert(writes_among(instr, vi, k + 1));
                        }
                        let mut track = tracker.take(&reg);
                        match track.first_def {
                            None => {
                                track.first_def = Some(current);
                                track.last_control_flow_count = control_flow_count;
                            },
                            Some(first) => {
                                let is_use_def = match ud {
                                    UseDef::UseDef(_) => true,
                                    _ => false,
                                };
                                if track.last_use.is_none() && !is_use_def
                                    && track.last_control_flow_count == control_flow_count {
                                    let ghost before = instructions@;
                                    instructions.set(first, Instruction(Opcode::DEAD));
                                    proof {
                                        lemma_dead_known(n);
                                        assert forall|i: int| 0 <= i < instructions@.len() implies instruction_known(#[trigger] instructions@[i], n) by {
                                            if i != first {
                                                assert(instructions@[i] == before[i]);
                                            }
                                        }
                                        assert forall|i: int| current < i < instructions@.len() implies #[trigger] instructions@[i] == original[i] by {
                                            assert(instructions@[i] == before[i]);
                                        }
                                        assert(writes(original[first as int], vi));
                                        assert forall|i: int| 0 <= i < instructions@.len() implies #[trigger] instructions@[i] == original[i]
                                            || exists|v: int| 0 <= v < n && writes(original[i], v) by {
                                            if i != first {
                                                assert(instructions@[i] == before[i]);
                                            }
                                        }
                                    }
                                    track.first_def = Some(current);
                                }
                            },
                        }
                        tracker.set(&reg, track);
                    } else {
                        assert forall|v: int| !writes_virtual(instr.use_defs()[k as int].0, v) by {}
                    }
                },
                _ => {
                    assert forall|v: int| !writes_virtual(instr.use_defs()[k as int].0, v) by {}
                },
            }
            k = k + 1;
        }
        proof {
            assert forall|v: int| #[trigger] written_before(original, v, current + 1) == (written_before(original, v, current as int)
                || writes(instr, v)) by {
                if writes(instr, v) {
                    assert(writes(original[current as int], v));
                }
                if written_before(original, v, current + 1) {
                    let i = choose|i: int| 0 <= i < current + 1 && i < original.len() && writes(#[trigger] original[i], v);
                    if i < current {
                        assert(written_before(original, v, current as int));
                    }
                }
            }
        }
        let mut k: usize = 0;
        while k < use_defs.len()
            invariant
                n == old(tracker).virt@.len(),
                tracker_shape(tracker, n),
                current < instructions@.len(),
                original == old(instructions)@,
                instr == original[current as int],
                instruction_known(instr, n),
                use_defs@ == instr.use_defs(),
                k <= use_defs@.len(),
                tracker.phys@ == old(tracker).phys@,
                forall|v: int| 0 <= v < n ==> (#[trigger] tracker.virt@[v]).physical_register
                    == old(tracker).virt@[v].physical_register,
                forall|v: int| 0 <= v < n ==> (#[trigger] tracker.virt@[v]).last_use == (if reads_among(instr, v, k as int) {
                    Some(current)
                } else {
                    last_read(original, v, current as int)
                }),
                forall|v: int| 0 <= v < n ==> ((#[trigger] tracker.virt@[v]).first_def is Some <==> written_before(original, v, current + 1)),
                forall|v: int| 0 <= v < n ==> ((#[trigger] tracker.virt@[v]).first_def matches Some(d) ==> d <= current
                    && writes(original[d as int], v)),
            decreases use_defs@.len() - k,
        {
            let (ud, _) = use_defs[k];
            assert(ud_register(use_defs@[k as int].0) matches Register::Virtual { index, .. } ==> index < n);
            proof {
                assert forall|v: int| #[trigger] reads_among(instr, v, k + 1) == (reads_among(instr, v, k as int)
                    || reads_virtual(instr.use_defs()[k as int].0, v)) by {
                    if reads_virtual(instr.use_defs()[k as int].0, v) {
                        assert(reads_among(instr, v, k + 1));
                    }
                }
            }
            match ud {
                UseDef::Use(reg) | UseDef::UseDef(reg) => {
                    if let Register::Virtual { index, .. } = reg {
                        assert(reads_virtual(instr.use_defs()[k as int].0, index as int));
                        let mut track = tracker.take(&reg);
                        track.last_use = Some(current);
                        tracker.set(&reg, track);
                    } else {
                        assert forall|v: int| !reads_virtual(instr.use_defs()[k as int].0, v) by {}
                    }
                },
                _ => {
                    assert forall|v: int| !reads_virtual(instr.use_defs()[k as int].0, v) by {}
                },
            }
            k = k + 1;
        }
        proof {
            assert forall|v: int| 0 <= v < n implies (#[trigger] tracker.virt@[v]).last_use == last_read(original, v, current + 1) by {
                assert(last_read(original, v, current + 1) == (if reads(original[current as int], v) {
                    Some(current)
                } else {
                    last_read(original, v, current as int)
                }));
            }
        }
        current = current + 1;
    }
}

/// The general purpose registers handed out, as a set.
fn gpr_pool_set() -> (r: PhysicalRegisterSet)
    ensures
        r@ == gpr_pool(),
{
    let mut set = PhysicalRegisterSet::new();
    set.insert(PhysicalRegister::RAX);
    set.insert(PhysicalRegister::RCX);
    set.insert(PhysicalRegister::RDX);
    set.insert(PhysicalRegister::RBX);
    set.insert(PhysicalRegister::RSI);
    set.insert(PhysicalRegister::RDI);
    set.insert(PhysicalRegister::R8);
    set.insert(PhysicalRegister::R9);
    set.insert(PhysicalRegister::R10);
    set.insert(PhysicalRegister::R11);
    set.insert(PhysicalRegister::R12);
    set.insert(PhysicalRegister::R13);
    set.insert(PhysicalRegister::R14);
    assert(set@ =~= gpr_pool());
    set
}

/// The XMM registers handed out, as a set.
fn xmm_pool_set() -> (r: PhysicalRegisterSet)
    ensures
        r@ == xmm_pool(),
{
    let mut set = PhysicalRegisterSet::new();
    set.insert(PhysicalRegister::XMM0);
    set.insert(PhysicalRegister::XMM1);
    set.insert(PhysicalRegister::XMM2);
    set.insert(PhysicalRegister::XMM3);
    set.insert(PhysicalRegister::XMM4);
    set.insert(PhysicalRegister::XMM5);
    set.insert(PhysicalRegister::XMM6);
    set.insert(PhysicalRegister::XMM7);
    assert(set@ =~= xmm_pool());
    set
}

proof fn lemma_pools_allocatable(p: PhysicalRegister)
    requires
        in_set(gpr_pool(), p) || in_set(xmm_pool(), p),
    ensures
        allocatable(p),
{
}

/// The pool a register of the given width is taken from.
fn pick_pool<'a>(
    width: Width,
    gpr: &'a PhysicalRegisterSet,
    xmm: &'a PhysicalRegisterSet,
) -> (r: &'a PhysicalRegisterSet)
    requires
        gpr@ == gpr_pool(),
        xmm@ == xmm_pool(),
    ensures
        r@ == if width == Width::_128 {
            xmm_pool()
        } else {
            gpr_pool()
        },
{
    if width == Width::_128 {
        xmm
    } else {
        gpr
    }
}

/// Whether `p` is a live host register of one of the pools.
pub open spec fn live_pooled(live: Seq<bool>, gpr: Seq<bool>, xmm: Seq<bool>, p: PhysicalRegister) -> bool {
    (in_set(gpr, p) || in_set(xmm, p)) && in_set(live, p)
}

/// Whether every live host register of the pools holds a register that
/// has a record.
pub open spec fn live_holders_known(
    t: RegisterTracker,
    live: Seq<bool>,
    gpr: Seq<bool>,
    xmm: Seq<bool>,
) -> bool {
    forall|p: PhysicalRegister|
        #![trigger t.track(Register::Physical(p))]
        live_pooled(live, gpr, xmm, p) ==> (t.track(Register::Physical(p)).tracking matches Some(h) && t.knows(h))
}

/// Whether the record of `x` is that of a register some live host register
/// of the pools holds.
pub open spec fn holds_live(t: RegisterTracker, live: Seq<bool>, gpr: Seq<bool>, xmm: Seq<bool>, x: Register) -> bool {
    exists|p: PhysicalRegister|
        #![trigger t.track(Register::Physical(p))]
        live_pooled(live, gpr, xmm, p) && (t.track(Register::Physical(p)).tracking matches Some(h) && same_record(h, x))
}

/// The union of two register sets.
pub open spec fn set_union(a: Seq<bool>, b: Seq<bool>) -> Seq<bool> {
    Seq::new(PHYSICAL_REGISTER_COUNT as nat, |i: int| a[i] || b[i])
}

/// Whether `new` is `old` with the live registers added to the interference
/// of each register that a live host register of the pools holds, and
/// nothing else changed.
pub open spec fn interferences_updated(
    old: RegisterTracker,
    new: RegisterTracker,
    live: Seq<bool>,
    gpr: Seq<bool>,
    xmm: Seq<bool>,
) -> bool {
    &&& forall|x: Register| #[trigger] new.knows(x) == old.knows(x)
    &&& forall|x: Register|
        old.knows(x) ==> #[trigger] new.track(x) == (RegisterTrack {
            interference: new.track(x).interference,
            ..old.track(x)
        })
    &&& forall|x: Register|
        old.knows(x) ==> (#[trigger] new.track(x)).interference@ == if holds_live(old, live, gpr, xmm, x) {
            set_union(old.track(x).interference@, live)
        } else {
            old.track(x).interference@
        }
}

/// Adds the live registers to the interference of whatever each live
/// host register of the pools holds; refused where such a register holds
/// nothing, or nothing with a record.
fn update_interferences(
    tracker: &mut RegisterTracker,
    live: &PhysicalRegisterSet,
    gpr: &PhysicalRegisterSet,
    xmm: &PhysicalRegisterSet,
    at: usize,
) -> (r: Result<(), AllocationError>)
    requires
        tracker_shape(old(tracker), old(tracker).virt@.len()),
        assignments_allocatable(old(tracker)),
    ensures
        tracker_shape(final(tracker), old(tracker).virt@.len()),
        assignments_allocatable(final(tracker)),
        r is Err ==> r == Err::<(), AllocationError>(AllocationError::Unassigned(at)),
        r is Ok <==> live_holders_known(*old(tracker), live@, gpr@, xmm@),
        r is Ok ==> interferences_updated(*old(tracker), *final(tracker), live@, gpr@, xmm@),
{
    let ghost n = tracker.virt@.len();
    let ghost t0 = *tracker;
    let mut regs = gpr.iter();
    let ghost gpr_regs = regs@;
    let xmm_regs = xmm.iter();
    let mut j: usize = 0;
    while j < xmm_regs.len()
        invariant
            j <= xmm_regs@.len(),
            regs@ == gpr_regs + xmm_regs@.take(j as int),
        decreases xmm_regs.len() - j,
    {
        regs.push(xmm_regs[j]);
        proof {
            assert(xmm_regs@.take(j as int + 1) =~= xmm_regs@.take(j as int).push(xmm_regs@[j as int]));
        }
        j = j + 1;
        proof {
            assert(regs@ =~= gpr_regs + xmm_regs@.take(j as int));
        }
    }
    proof {
        assert(xmm_regs@.take(xmm_regs@.len() as int) =~= xmm_regs@);
        assert forall|p: PhysicalRegister| in_set(gpr@, p) || in_set(xmm@, p) implies regs@.contains(p) by {
            if in_set(gpr@, p) {
                let w = choose|w: int| 0 <= w < gpr_regs.len() && gpr_regs[w] == p;
                assert(regs@[w] == p);
            } else {
                let w = choose|w: int| 0 <= w < xmm_regs@.len() && xmm_regs@[w] == p;
                assert(regs@[gpr_regs.len() + w] == p);
            }
        }
        assert forall|k: int| 0 <= k < regs@.len() implies in_set(gpr@, #[trigger] regs@[k]) || in_set(xmm@, regs@[k]) by {
            if k < gpr_regs.len() {
                assert(regs@[k] == gpr_regs[k]);
            } else {
                assert(regs@[k] == xmm_regs@[k - gpr_regs.len()]);
            }
        }
    }
    let mut k: usize = 0;
    while k < regs.len()
        invariant
            n == old(tracker).virt@.len(),
            t0 == *old(tracker),
            k <= regs@.len(),
            tracker_shape(tracker, n),
            assignments_allocatable(tracker),
            forall|m: int| 0 <= m < regs@.len() ==> in_set(gpr@, #[trigger] regs@[m]) || in_set(xmm@, regs@[m]),
            forall|p: PhysicalRegister| in_set(gpr@, p) || in_set(xmm@, p) ==> regs@.contains(p),
            forall|x: Register| #[trigger] tracker.knows(x) == t0.knows(x),
            forall|x: Register|
                t0.knows(x) ==> #[trigger] tracker.track(x) == (RegisterTrack {
                    interference: tracker.track(x).interference,
                    ..t0.track(x)
                }),
            forall|x: Register|
                t0.knows(x) ==> (#[trigger] tracker.track(x)).interference@ == if exists|m: int|
                    0 <= m < k && in_set(live@, #[trigger] regs@[m]) && (t0.track(Register::Physical(regs@[m])).tracking matches Some(
                        h,
                    ) && same_record(h, x)) {
                    set_union(t0.track(x).interference@, live@)
                } else {
                    t0.track(x).interference@
                },
            forall|m: int|
                0 <= m < k && in_set(live@, #[trigger] regs@[m]) ==> (t0.track(Register::Physical(regs@[m])).tracking matches Some(
                    h,
                ) && t0.knows(h)),
        decreases regs.len() - k,
    {
        let p = regs[k];
        if live.contains(&p) {
            proof {
                crate::registers::lemma_from_index_of_index(p);
            }
            assert(tracker.knows(Register::Physical(p)));
            assert(t0.knows(Register::Physical(p)));
            let holder = tracker.get(&Register::Physical(p)).tracking;
            assert(holder == t0.track(Register::Physical(p)).tracking);
            match holder {
                Some(reg) => {
                    if !tracker_knows(tracker, &reg) {
                        proof {
                            assert(!live_holders_known(t0, live@, gpr@, xmm@)) by {
                                assert(live_pooled(live@, gpr@, xmm@, p));
                            }
                        }
                        return Err(AllocationError::Unassigned(at));
                    }
                    let ghost pre = *tracker;
                    let mut track = tracker.take(&reg);
                    track.interference.extend(live);
                    let ghost taken = *tracker;
                    tracker.set(&reg, track);
                    proof {
                        assert forall|v: int| 0 <= v < tracker.virt@.len() implies ((#[trigger] tracker.virt@[v]).physical_register matches Some(q) ==> allocatable(q)) by {
                            assert(pre.virt@[v].physical_register matches Some(q) ==> allocatable(q));
                            if let Register::Virtual { index, .. } = reg {
                                if v != index {
                                    assert(tracker.virt@[v] == taken.virt@[v]);
                                    assert(taken.virt@[v] == pre.virt@[v]);
                                }
                            } else {
                                assert(tracker.virt@ == pre.virt@);
                            }
                        }
                        assert forall|x: Register| t0.knows(x) implies #[trigger] tracker.track(x) == (RegisterTrack {
                            interference: tracker.track(x).interference,
                            ..t0.track(x)
                        }) by {
                            if same_record(x, reg) {
                                assert(tracker.track(x) == tracker.track(reg));
                                assert(pre.track(x) == pre.track(reg));
                            }
                        }
                        assert forall|x: Register| t0.knows(x) implies (#[trigger] tracker.track(x)).interference@ == if exists|m: int|
                            0 <= m < k + 1 && in_set(live@, #[trigger] regs@[m]) && (t0.track(Register::Physical(regs@[m])).tracking matches Some(
                                h,
                            ) && same_record(h, x)) {
                            set_union(t0.track(x).interference@, live@)
                        } else {
                            t0.track(x).interference@
                        } by {
                            crate::regset::lemma_set_len(&pre.track(x).interference);
                            crate::regset::lemma_set_len(&t0.track(x).interference);
                            if same_record(x, reg) {
                                assert(tracker.track(x) == tracker.track(reg));
                                assert(pre.track(x) == pre.track(reg));
                                assert(in_set(live@, regs@[k as int]));
                                assert(tracker.track(x).interference@ =~= set_union(t0.track(x).interference@, live@));
                            } else {
                                if exists|m: int|
                                    0 <= m < k + 1 && in_set(live@, #[trigger] regs@[m]) && (t0.track(Register::Physical(regs@[m])).tracking matches Some(
                                        h,
                                    ) && same_record(h, x)) {
                                    let m = choose|m: int|
                                        0 <= m < k + 1 && in_set(live@, #[trigger] regs@[m]) && (t0.track(Register::Physical(regs@[m])).tracking matches Some(
                                            h,
                                        ) && same_record(h, x));
                                    assert(m < k);
                                }
                            }
                        }
                    }
                },
                None => {
                    proof {
                        assert(!live_holders_known(t0, live@, gpr@, xmm@)) by {
                            assert(live_pooled(live@, gpr@, xmm@, p));
                        }
                    }
                    return Err(AllocationError::Unassigned(at));
                },
            }
        }
        k = k + 1;
    }
    proof {
        assert forall|p: PhysicalRegister| #[trigger] live_pooled(live@, gpr@, xmm@, p) implies (t0.track(Register::Physical(p)).tracking matches Some(
            h,
        ) && t0.knows(h)) by {
            let m = choose|m: int| 0 <= m < regs@.len() && regs@[m] == p;
            assert(in_set(live@, regs@[m]));
        }
        assert(live_holders_known(t0, live@, gpr@, xmm@));
        assert forall|x: Register| t0.knows(x) implies (#[trigger] tracker.track(x)).interference@ == if holds_live(t0, live@, gpr@, xmm@, x) {
            set_union(t0.track(x).interference@, live@)
        } else {
            t0.track(x).interference@
        } by {
            if holds_live(t0, live@, gpr@, xmm@, x) {
                let p = choose|p: PhysicalRegister|
                    #![trigger t0.track(Register::Physical(p))]
                    live_pooled(live@, gpr@, xmm@, p) && (t0.track(Register::Physical(p)).tracking matches Some(h) && same_record(h, x));
                let m = choose|m: int| 0 <= m < regs@.len() && regs@[m] == p;
                assert(in_set(live@, regs@[m]));
            } else {
                if exists|m: int|
                    0 <= m < k && in_set(live@, #[trigger] regs@[m]) && (t0.track(Register::Physical(regs@[m])).tracking matches Some(
                        h,
                    ) && same_record(h, x)) {
                    let m = choose|m: int|
                        0 <= m < k && in_set(live@, #[trigger] regs@[m]) && (t0.track(Register::Physical(regs@[m])).tracking matches Some(
                            h,
                        ) && same_record(h, x));
                    assert(live_pooled(live@, gpr@, xmm@, regs@[m]));
                }
            }
        }
    }
    Ok(())
}

/// Whether the tracker has a record for the register.
fn tracker_knows(tracker: &RegisterTracker, reg: &Register) -> (r: bool)
    ensures
        r == tracker.knows(*reg),
{
    match reg {
        Register::Physical(p) => p.index() < tracker.phys.len(),
        Register::Virtual { index, .. } => *index < tracker.virt.len(),
        Register::Global(_) => false,
    }
}

/// Gives `reg` (whose record is known) the host register `p`, which is
/// taken from one of the pools.
fn assign(tracker: &mut RegisterTracker, reg: &Register, p: PhysicalRegister)
    requires
        old(tracker).knows(*reg),
        tracker_shape(old(tracker), old(tracker).virt@.len()),
        assignments_allocatable(old(tracker)),
        allocatable(p),
    ensures
        tracker_shape(final(tracker), old(tracker).virt@.len()),
        assignments_allocatable(final(tracker)),
        final(tracker).track(*reg) == (RegisterTrack { physical_register: Some(p), ..old(tracker).track(*reg) }),
        forall|x: Register| #[trigger] final(tracker).knows(x) == old(tracker).knows(x),
        forall|x: Register|
            old(tracker).knows(x) && !same_record(x, *reg) ==> #[trigger] final(tracker).track(x) == old(tracker).track(x),
{
    let ghost pre = *tracker;
    let mut track = tracker.take(reg);
    track.physical_register = Some(p);
    let ghost taken = *tracker;
    tracker.set(reg, track);
    proof {
        assert forall|v: int| 0 <= v < tracker.virt@.len() implies ((#[trigger] tracker.virt@[v]).physical_register matches Some(q) ==> allocatable(q)) by {
            assert(pre.virt@[v].physical_register matches Some(q) ==> allocatable(q));
            if let Register::Virtual { index, .. } = *reg {
                if v != index {
                    assert(tracker.virt@[v] == taken.virt@[v]);
                    assert(taken.virt@[v] == pre.virt@[v]);
                }
            } else {
                assert(tracker.virt@ == pre.virt@);
            }
        }
    }
}

/// Records that host register `p` now holds `holder`.
fn set_tracking(tracker: &mut RegisterTracker, p: PhysicalRegister, holder: Register)
    requires
        tracker_shape(old(tracker), old(tracker).virt@.len()),
        assignments_allocatable(old(tracker)),
    ensures
        tracker_shape(final(tracker), old(tracker).virt@.len()),
        assignments_allocatable(final(tracker)),
        final(tracker).track(Register::Physical(p)) == (RegisterTrack {
            tracking: Some(holder),
            ..old(tracker).track(Register::Physical(p))
        }),
        final(tracker).virt@ == old(tracker).virt@,
        forall|x: Register| #[trigger] final(tracker).knows(x) == old(tracker).knows(x),
        forall|x: Register|
            old(tracker).knows(x) && !same_record(x, Register::Physical(p)) ==> #[trigger] final(tracker).track(x)
                == old(tracker).track(x),
{
    let reg = Register::Physical(p);
    let mut track = tracker.take(&reg);
    track.tracking = Some(holder);
    tracker.set(&reg, track);
}

/// Sets the interference of `reg` (whose record is known) to the live
/// registers.
fn set_interference(tracker: &mut RegisterTracker, reg: &Register, live: &PhysicalRegisterSet)
    requires
        old(tracker).knows(*reg),
        tracker_shape(old(tracker), old(tracker).virt@.len()),
        assignments_allocatable(old(tracker)),
    ensures
        tracker_shape(final(tracker), old(tracker).virt@.len()),
        assignments_allocatable(final(tracker)),
        final(tracker).track(*reg) == (RegisterTrack {
            interference: final(tracker).track(*reg).interference,
            ..old(tracker).track(*reg)
        }),
        final(tracker).track(*reg).interference@ == live@,
        forall|x: Register| #[trigger] final(tracker).knows(x) == old(tracker).knows(x),
        forall|x: Register|
            old(tracker).knows(x) && !same_record(x, *reg) ==> #[trigger] final(tracker).track(x) == old(tracker).track(x),
{
    let ghost pre = *tracker;
    let mut track = tracker.take(reg);
    track.interference = live.copy();
    let ghost taken = *tracker;
    tracker.set(reg, track);
    proof {
        assert forall|v: int| 0 <= v < tracker.virt@.len() implies ((#[trigger] tracker.virt@[v]).physical_register matches Some(q) ==> allocatable(q)) by {
            assert(pre.virt@[v].physical_register matches Some(q) ==> allocatable(q));
            if let Register::Virtual { index, .. } = *reg {
                if v != index {
                    assert(tracker.virt@[v] == taken.virt@[v]);
                    assert(taken.virt@[v] == pre.virt@[v]);
                }
            } else {
                assert(tracker.virt@ == pre.virt@);
            }
        }
    }
}

/// Sets which register host register `p` holds to the register itself.
fn track_itself(tracker: &mut RegisterTracker, p: PhysicalRegister)
    requires
        tracker_shape(old(tracker), old(tracker).virt@.len()),
        assignments_allocatable(old(tracker)),
    ensures
        tracker_shape(final(tracker), old(tracker).virt@.len()),
        assignments_allocatable(final(tracker)),
        final(tracker).track(Register::Physical(p)) == (RegisterTrack {
            tracking: Some(Register::Physical(p)),
            ..old(tracker).track(Register::Physical(p))
        }),
        forall|x: Register| #[trigger] final(tracker).knows(x) == old(tracker).knows(x),
        forall|x: Register|
            old(tracker).knows(x) && !same_record(x, Register::Physical(p)) ==> #[trigger] final(tracker).track(x)
                == old(tracker).track(x),
{
    set_tracking(tracker, p, Register::Physical(p));
}

/// Whether `new` is `old` after `holder` moved to host register `a`: the
/// holder's record has `a` and, as interference, the live registers; `a`'s
/// record tracks the holder; the registers other live host registers of the
/// pools hold gain the live registers as interference; nothing else
/// changed.
pub open spec fn reassigned(
    old: RegisterTracker,
    new: RegisterTracker,
    holder: Register,
    a: PhysicalRegister,
    live: Seq<bool>,
    gpr: Seq<bool>,
    xmm: Seq<bool>,
) -> bool {
    &&& forall|x: Register| #[trigger] new.knows(x) == old.knows(x)
    &&& forall|x: Register|
        old.knows(x) ==> {
            let t = #[trigger] new.track(x);
            let o = old.track(x);
            &&& t.first_def == o.first_def
            &&& t.last_use == o.last_use
            &&& t.last_control_flow_count == o.last_control_flow_count
            &&& t.physical_register == if same_record(x, holder) {
                Some(a)
            } else {
                o.physical_register
            }
            &&& t.tracking == if same_record(x, Register::Physical(a)) {
                Some(holder)
            } else {
                o.tracking
            }
            &&& t.interference@ == if same_record(x, holder) {
                live
            } else if exists|p: PhysicalRegister|
                #![trigger old.track(Register::Physical(p))]
                p != a && live_pooled(live, gpr, xmm, p) && (old.track(Register::Physical(p)).tracking matches Some(h)
                    && same_record(h, x)) {
                set_union(o.interference@, live)
            } else {
                o.interference@
            }
        }
}

/// Moves `holder` (whose record is known) to a free host register of the
/// pool for `width`, outside its interference, and makes the move known to
/// every live register.
fn reassign(
    tracker: &mut RegisterTracker,
    live: &mut PhysicalRegisterSet,
    gpr: &PhysicalRegisterSet,
    xmm: &PhysicalRegisterSet,
    holder: &Register,
    width: Width,
    at: usize,
) -> (r: Result<(), AllocationError>)
    requires
        old(tracker).knows(*holder),
        gpr@ == gpr_pool(),
        xmm@ == xmm_pool(),
        tracker_shape(old(tracker), old(tracker).virt@.len()),
        assignments_allocatable(old(tracker)),
    ensures
        tracker_shape(final(tracker), old(tracker).virt@.len()),
        assignments_allocatable(final(tracker)),
        r is Err ==> r == Err::<(), AllocationError>(AllocationError::OutOfRegisters(at)) || r
            == Err::<(), AllocationError>(AllocationError::Unassigned(at)),
        ({
            let pool = if width == Width::_128 {
                xmm_pool()
            } else {
                gpr_pool()
            };
            match first_in_not_in(pool, old(tracker).track(*holder).interference@) {
                None => r == Err::<(), AllocationError>(AllocationError::OutOfRegisters(at)) && *final(tracker)
                    == *old(tracker) && final(live)@ == old(live)@,
                Some(i) => {
                    let a = PhysicalRegister::spec_from_index(i);
                    let new_live = old(live)@.update(a.spec_index() as int, true);
                    &&& final(live)@ == new_live
                    &&& (r is Ok <==> forall|p: PhysicalRegister|
                        #![trigger old(tracker).track(Register::Physical(p))]
                        p != a && live_pooled(new_live, gpr@, xmm@, p) ==> (old(tracker).track(
                            Register::Physical(p),
                        ).tracking matches Some(h) && old(tracker).knows(h)))
                    &&& r is Ok ==> reassigned(*old(tracker), *final(tracker), *holder, a, new_live, gpr@, xmm@)
                },
            }
        }),
{
    let pool = pick_pool(width, gpr, xmm);
    let allocated = match pool.first_difference(&tracker.get(holder).interference) {
        Some(a) => a,
        None => return Err(AllocationError::OutOfRegisters(at)),
    };
    proof {
        lemma_pools_allocatable(allocated);
        crate::registers::lemma_from_index_of_index(allocated);
    }
    let ghost t0 = *tracker;
    assign(tracker, holder, allocated);
    let ghost t1 = *tracker;
    set_tracking(tracker, allocated, *holder);
    let ghost t2 = *tracker;
    live.insert(allocated);
    set_interference(tracker, holder, live);
    let ghost t3 = *tracker;
    proof {
        let a = allocated;
        assert forall|x: Register| t0.knows(x) implies {
            let t = #[trigger] t3.track(x);
            let o = t0.track(x);
            &&& t.first_def == o.first_def
            &&& t.last_use == o.last_use
            &&& t.last_control_flow_count == o.last_control_flow_count
            &&& t.physical_register == if same_record(x, *holder) { Some(a) } else { o.physical_register }
            &&& t.tracking == if same_record(x, Register::Physical(a)) { Some(*holder) } else { o.tracking }
            &&& t.interference@ == if same_record(x, *holder) { live@ } else { o.interference@ }
        } by {
            if same_record(x, *holder) {
                assert(t3.track(x) == t3.track(*holder));
                assert(t1.track(x) == t1.track(*holder));
                assert(t0.track(x) == t0.track(*holder));
                if same_record(x, Register::Physical(a)) {
                    assert(t2.track(x) == t2.track(Register::Physical(a)));
                    assert(t2.track(*holder) == t2.track(Register::Physical(a)));
                } else {
                    assert(t2.track(x) == t1.track(x));
                }
                assert(t2.track(*holder) == t2.track(x));
            } else if same_record(x, Register::Physical(a)) {
                assert(t2.track(x) == t2.track(Register::Physical(a)));
                assert(t1.track(Register::Physical(a)) == t1.track(x));
            }
        }
        assert forall|p: PhysicalRegister| #![trigger t3.track(Register::Physical(p))] live_pooled(live@, gpr@, xmm@, p) implies
            (t3.track(Register::Physical(p)).tracking == if p == a { Some(*holder) } else { t0.track(Register::Physical(p)).tracking })
            && t3.knows(Register::Physical(p)) by {
            crate::registers::lemma_from_index_of_index(p);
            assert(t0.knows(Register::Physical(p)));
        }
        crate::regset::lemma_set_len(&*live);
        crate::regset::lemma_set_len(&*old(live));
        crate::registers::lemma_from_index_of_index(a);
        assert(a.spec_index() < live@.len());
        assert(live@ == old(live)@.update(a.spec_index() as int, true));
        assert(in_set(live@, a));
        assert(in_set(gpr@, a) || in_set(xmm@, a));
    }
    let r = update_interferences(tracker, live, gpr, xmm, at);
    proof {
        let a = allocated;
        assert(t3.knows(*holder));
        assert(live_holders_known(t3, live@, gpr@, xmm@) <==> forall|p: PhysicalRegister|
            #![trigger t0.track(Register::Physical(p))]
            p != a && live_pooled(live@, gpr@, xmm@, p) ==> (t0.track(Register::Physical(p)).tracking matches Some(h)
                && t0.knows(h))) by {
            if live_holders_known(t3, live@, gpr@, xmm@) {
                assert forall|p: PhysicalRegister|
                    #![trigger t0.track(Register::Physical(p))]
                    p != a && live_pooled(live@, gpr@, xmm@, p) implies (t0.track(Register::Physical(p)).tracking matches Some(h)
                        && t0.knows(h)) by {
                    assert(t3.track(Register::Physical(p)).tracking == t0.track(Register::Physical(p)).tracking);
                    let h = t3.track(Register::Physical(p)).tracking->Some_0;
                    assert(t3.knows(h) == t0.knows(h));
                }
            }
            if forall|p: PhysicalRegister|
                #![trigger t0.track(Register::Physical(p))]
                p != a && live_pooled(live@, gpr@, xmm@, p) ==> (t0.track(Register::Physical(p)).tracking matches Some(h)
                    && t0.knows(h)) {
                assert forall|p: PhysicalRegister|
                    #![trigger t3.track(Register::Physical(p))]
                    live_pooled(live@, gpr@, xmm@, p) implies (t3.track(Register::Physical(p)).tracking matches Some(h)
                        && t3.knows(h)) by {
                    if p != a {
                        assert(t3.track(Register::Physical(p)).tracking == t0.track(Register::Physical(p)).tracking);
                        let h = t0.track(Register::Physical(p)).tracking->Some_0;
                        assert(t3.knows(h) == t0.knows(h));
                    }
                }
            }
        }
        if r is Ok {
            assert forall|x: Register| t0.knows(x) implies (#[trigger] tracker.track(x)).interference@ == if same_record(x, *holder) {
                live@
            } else if exists|p: PhysicalRegister|
                #![trigger t0.track(Register::Physical(p))]
                p != a && live_pooled(live@, gpr@, xmm@, p) && (t0.track(Register::Physical(p)).tracking matches Some(h)
                    && same_record(h, x)) {
                set_union(t0.track(x).interference@, live@)
            } else {
                t0.track(x).interference@
            } by {
                assert(t3.knows(x));
                crate::regset::lemma_set_len(&t3.track(x).interference);
                if same_record(x, *holder) {
                    assert(holds_live(t3, live@, gpr@, xmm@, x)) by {
                        assert(live_pooled(live@, gpr@, xmm@, a));
                        assert(t3.track(Register::Physical(a)).tracking == Some(*holder));
                    }
                    assert(tracker.track(x).interference@ =~= live@);
                } else {
                    if holds_live(t3, live@, gpr@, xmm@, x) {
                        let p = choose|p: PhysicalRegister|
                            #![trigger t3.track(Register::Physical(p))]
                            live_pooled(live@, gpr@, xmm@, p) && (t3.track(Register::Physical(p)).tracking matches Some(h) && same_record(h, x));
                        assert(p != a);
                        assert(t0.track(Register::Physical(p)).tracking == t3.track(Register::Physical(p)).tracking);
                    }
                    if exists|p: PhysicalRegister|
                        #![trigger t0.track(Register::Physical(p))]
                        p != a && live_pooled(live@, gpr@, xmm@, p) && (t0.track(Register::Physical(p)).tracking matches Some(h)
                            && same_record(h, x)) {
                        let p = choose|p: PhysicalRegister|
                            #![trigger t0.track(Register::Physical(p))]
                            p != a && live_pooled(live@, gpr@, xmm@, p) && (t0.track(Register::Physical(p)).tracking matches Some(h)
                                && same_record(h, x));
                        assert(t3.track(Register::Physical(p)).tracking == t0.track(Register::Physical(p)).tracking);
                        assert(holds_live(t3, live@, gpr@, xmm@, x));
                    }
                }
            }
        }
    }
    r
}

/// Whether `new` knows the registers `old` knows, keeps where their live
/// ranges start and end, and keeps every host register `old` gave.
pub open spec fn keeps_hosts(old: RegisterTracker, new: RegisterTracker) -> bool {
    &&& forall|x: Register| #[trigger] new.knows(x) == old.knows(x)
    &&& forall|x: Register|
        old.knows(x) ==> (#[trigger] new.track(x)).first_def == old.track(x).first_def && new.track(x).last_use
            == old.track(x).last_use && (old.track(x).physical_register is Some
            ==> new.track(x).physical_register is Some)
}

proof fn lemma_keeps_hosts_trans(a: RegisterTracker, b: RegisterTracker, c: RegisterTracker)
    requires
        keeps_hosts(a, b),
        keeps_hosts(b, c),
    ensures
        keeps_hosts(a, c),
{
    assert forall|x: Register| a.knows(x) implies (#[trigger] c.track(x)).first_def == a.track(x).first_def
        && c.track(x).last_use == a.track(x).last_use && (a.track(x).physical_register is Some
        ==> c.track(x).physical_register is Some) by {
        assert(b.knows(x));
        assert(b.track(x).first_def == a.track(x).first_def);
    }
}

/// The register a use or definition writes, where it writes one.
pub open spec fn written_register(u: UseDef) -> Option<Register> {
    match u {
        UseDef::Def(r) => Some(r),
        UseDef::UseDef(r) => Some(r),
        UseDef::Use(_) => None,
    }
}

/// Whether an instruction writes a host register.
pub open spec fn writes_host(instr: Instruction) -> bool {
    exists|j: int|
        0 <= j < instr.use_defs().len() && (written_register(#[trigger] instr.use_defs()[j].0) matches Some(r)
            && r is Physical)
}

/// Whether an instruction writes a virtual register whose live range
/// starts at `at` and that nothing reads afterwards.
pub open spec fn writes_unread(t: RegisterTracker, instr: Instruction, at: usize) -> bool {
    exists|j: int|
        0 <= j < instr.use_defs().len() && (written_register(#[trigger] instr.use_defs()[j].0) matches Some(r)
            && r is Virtual && t.track(r).first_def == Some(at) && t.track(r).last_use is None)
}

/// Whether every virtual register an instruction writes, whose live range
/// starts at `at` and that is read afterwards, holds a host register.
pub open spec fn ends_assigned(t: RegisterTracker, instr: Instruction, at: usize) -> bool {
    forall|j: int|
        0 <= j < instr.use_defs().len() ==> (written_register(#[trigger] instr.use_defs()[j].0) matches Some(r) ==> (r
            is Virtual && t.track(r).first_def == Some(at) && t.track(r).last_use is Some
            ==> t.track(r).physical_register is Some))
}

/// Whether one of the first `k` uses and definitions of an instruction
/// writes a virtual register whose live range starts at `at` and that holds
/// the host register numbered `i`.
pub open spec fn ends_in_among(t: RegisterTracker, instr: Instruction, at: usize, i: int, k: int) -> bool {
    exists|j: int|
        0 <= j < k && j < instr.use_defs().len() && (written_register(#[trigger] instr.use_defs()[j].0) matches Some(
            r,
        ) && r is Virtual && t.track(r).first_def == Some(at) && (t.track(r).physical_register matches Some(p)
            && p.spec_index() == i))
}

/// The first pass of one instruction of the backward scan: a definition
/// ends the live range of the virtual register it defines (or, for a
/// register that is never used, marks the instruction as skipped), and a
/// definition of a host register moves whatever virtual register lived in
/// it elsewhere. Returns whether the instruction is skipped, which it is
/// exactly where it writes a register that nothing reads afterwards. Where
/// live ranges start and end is left as it was; an instruction that writes
/// no host register leaves the records alone, succeeds where each live
/// range it ends lives in a host register, and, unless skipped, frees
/// exactly the host registers of the live ranges it ends.
fn end_live_ranges(
    tracker: &mut RegisterTracker,
    live: &mut PhysicalRegisterSet,
    gpr: &PhysicalRegisterSet,
    xmm: &PhysicalRegisterSet,
    instr: Instruction,
    at: usize,
) -> (r: Result<bool, AllocationError>)
    requires
        gpr@ == gpr_pool(),
        xmm@ == xmm_pool(),
        tracker_shape(old(tracker), old(tracker).virt@.len()),
        assignments_allocatable(old(tracker)),
        instruction_known(instr, old(tracker).virt@.len()),
    ensures
        tracker_shape(final(tracker), old(tracker).virt@.len()),
        assignments_allocatable(final(tracker)),
        r is Err ==> r == Err::<bool, AllocationError>(AllocationError::OutOfRegisters(at)) || r
            == Err::<bool, AllocationError>(AllocationError::Unassigned(at)),
        r is Ok ==> keeps_hosts(*old(tracker), *final(tracker)),
        r matches Ok(skip) ==> (skip <==> writes_unread(*old(tracker), instr, at)),
        !writes_host(instr) ==> *final(tracker) == *old(tracker),
        !writes_host(instr) && ends_assigned(*old(tracker), instr, at) ==> r is Ok,
        !writes_host(instr) && r == Ok::<bool, AllocationError>(false) ==> final(live)@.len() == old(live)@.len()
            && forall|i: int| 0 <= i < old(live)@.len() ==> #[trigger] final(live)@[i] == (old(live)@[i]
            && !ends_in_among(*old(tracker), instr, at, i, instr.use_defs().len() as int)),
{
    let ghost n = tracker.virt@.len();
    let use_defs = instr.get_use_defs();
    let mut k: usize = 0;
    while k < use_defs.len()
        invariant
            n == old(tracker).virt@.len(),
            gpr@ == gpr_pool(),
            xmm@ == xmm_pool(),
            tracker_shape(tracker, n),
            assignments_allocatable(tracker),
            instruction_known(instr, n),
            use_defs@ == instr.use_defs(),
            k <= use_defs@.len(),
            keeps_hosts(*old(tracker), *tracker),
            forall|j: int| 0 <= j < k ==> !(written_register(#[trigger] instr.use_defs()[j].0) matches Some(r)
                && r is Virtual && old(tracker).track(r).first_def == Some(at) && old(tracker).track(r).last_use is None),
            !writes_host(instr) ==> *tracker == *old(tracker),
            !writes_host(instr) ==> live@.len() == old(live)@.len() && forall|i: int| 0 <= i < old(live)@.len()
                ==> #[trigger] live@[i] == (old(live)@[i] && !ends_in_among(*old(tracker), instr, at, i, k as int)),
        decreases use_defs@.len() - k,
    {
        let (ud, width) = use_defs[k];
        proof {
            assert forall|i: int| #[trigger] ends_in_among(*old(tracker), instr, at, i, k + 1) == (ends_in_among(
                *old(tracker),
                instr,
                at,
                i,
                k as int,
            ) || (written_register(instr.use_defs()[k as int].0) matches Some(r) && r is Virtual
                && old(tracker).track(r).first_def == Some(at) && (old(tracker).track(r).physical_register matches Some(
                p,
            ) && p.spec_index() == i))) by {
                if written_register(instr.use_defs()[k as int].0) matches Some(r) && r is Virtual
                    && old(tracker).track(r).first_def == Some(at) && (old(tracker).track(r).physical_register matches Some(
                    p,
                ) && p.spec_index() == i) {
                    assert(ends_in_among(*old(tracker), instr, at, i, k + 1));
                }
            }
        }
        assert(ud_register(use_defs@[k as int].0) matches Register::Virtual { index, .. } ==> index < n);
        let ghost live_prev = live@;
        let ghost mut removed: Option<int> = None;
        match ud {
            UseDef::Def(reg) | UseDef::UseDef(reg) => {
                assert(written_register(instr.use_defs()[k as int].0) == Some(reg));
                match reg {
                    Register::Virtual { .. } => {
                        let track = tracker.get(&reg);
                        if track.first_def == Some(at) {
                            if track.last_use.is_none() {
                                assert(writes_unread(*old(tracker), instr, at));
                                return Ok(true);
                            }
                            match track.physical_register {
                                Some(p) => {
                                    proof {
                                        crate::registers::lemma_from_index_of_index(p);
                                        crate::regset::lemma_set_len(&*live);
                                    }
                                    live.remove(&p);
                                    proof {
                                        removed = Some(p.spec_index() as int);
                                    }
                                },
                                None => return Err(AllocationError::Unassigned(at)),
                            }
                        }
                    },
                    Register::Physical(p) => {
                        assert(writes_host(instr));
                        if live.contains(&p) {
                            live.remove(&p);
                            let holder = tracker.get(&reg).tracking;
                            if let Some(conflicting) = holder {
                                if let Register::Virtual { .. } = conflicting {
                                    if !tracker_knows(tracker, &conflicting) {
                                        return Err(AllocationError::Unassigned(at));
                                    }
                                    let ghost prev = *tracker;
                                    match reassign(tracker, live, gpr, xmm, &conflicting, width, at) {
                                        Ok(()) => {},
                                        Err(e) => return Err(e),
                                    }
                                    proof {
                                        assert(keeps_hosts(prev, *tracker));
                                        lemma_keeps_hosts_trans(*old(tracker), prev, *tracker);
                                    }
                                }
                            }
                        }
                    },
                    Register::Global(_) => {},
                }
            },
            _ => {},
        }
        proof {
            if !writes_host(instr) {
                assert forall|i: int| 0 <= i < old(live)@.len() implies #[trigger] live@[i] == (old(live)@[i]
                    && !ends_in_among(*old(tracker), instr, at, i, k + 1)) by {
                    assert(live_prev[i] == (old(live)@[i] && !ends_in_among(*old(tracker), instr, at, i, k as int)));
                    if removed == Some(i) {
                        assert(ends_in_among(*old(tracker), instr, at, i, k + 1));
                    } else if removed is None {
                        assert(live@ == live_prev);
                    } else {
                        assert(live@ == live_prev.update(removed->0, false));
                    }
                }
            }
        }
        k = k + 1;
    }
    proof {
        assert(!writes_unread(*old(tracker), instr, at));
    }
    Ok(false)
}

/// The register a use or definition reads, where it reads one.
pub open spec fn read_register(u: UseDef) -> Option<Register> {
    match u {
        UseDef::Use(r) => Some(r),
        UseDef::UseDef(r) => Some(r),
        UseDef::Def(_) => None,
    }
}

/// Whether an instruction reads a host register.
pub open spec fn reads_host(instr: Instruction) -> bool {
    exists|j: int|
        0 <= j < instr.use_defs().len() && (read_register(#[trigger] instr.use_defs()[j].0) matches Some(r)
            && r is Physical)
}

/// Whether an instruction is the last reader of a virtual register that
/// holds no host register yet.
pub open spec fn starts_unassigned(t: RegisterTracker, instr: Instruction, at: usize) -> bool {
    exists|j: int|
        0 <= j < instr.use_defs().len() && (read_register(#[trigger] instr.use_defs()[j].0) matches Some(r)
            && r is Virtual && t.track(r).last_use == Some(at) && t.track(r).physical_register is None)
}

/// The second pass of one instruction of the backward scan: the last use
/// of a virtual register starts its live range in a free host register,
/// and a use of a host register claims it, moving whatever other register
/// lived in it elsewhere. Where it succeeds, every virtual register whose
/// last reader the instruction is holds a host register, no register loses
/// its host register, and where live ranges start and end is left as it
/// was; an instruction with nothing to start succeeds and changes nothing.
fn start_live_ranges(
    tracker: &mut RegisterTracker,
    live: &mut PhysicalRegisterSet,
    gpr: &PhysicalRegisterSet,
    xmm: &PhysicalRegisterSet,
    instr: Instruction,
    at: usize,
) -> (r: Result<(), AllocationError>)
    requires
        gpr@ == gpr_pool(),
        xmm@ == xmm_pool(),
        tracker_shape(old(tracker), old(tracker).virt@.len()),
        assignments_allocatable(old(tracker)),
        instruction_known(instr, old(tracker).virt@.len()),
    ensures
        tracker_shape(final(tracker), old(tracker).virt@.len()),
        assignments_allocatable(final(tracker)),
        r is Err ==> r == Err::<(), AllocationError>(AllocationError::OutOfRegisters(at)) || r
            == Err::<(), AllocationError>(AllocationError::Unassigned(at)),
        r is Ok ==> forall|x: Register| #[trigger] final(tracker).knows(x) == old(tracker).knows(x),
        r is Ok ==> forall|x: Register| old(tracker).knows(x) ==> (#[trigger] final(tracker).track(x)).first_def
            == old(tracker).track(x).first_def && final(tracker).track(x).last_use == old(tracker).track(x).last_use
            && (old(tracker).track(x).physical_register is Some ==> final(tracker).track(x).physical_register is Some),
        r is Ok ==> forall|j: int| 0 <= j < instr.use_defs().len() ==> (read_register(
            #[trigger] instr.use_defs()[j].0,
        ) matches Some(x) ==> (x is Virtual && old(tracker).track(x).last_use == Some(at)
            ==> final(tracker).track(x).physical_register is Some)),
        !reads_host(instr) && !starts_unassigned(*old(tracker), instr, at) ==> r is Ok && *final(tracker) == *old(
            tracker,
        ) && final(live)@ == old(live)@,
{
    let ghost n = tracker.virt@.len();
    let use_defs = instr.get_use_defs();
    let mut k: usize = 0;
    while k < use_defs.len()
        invariant
            n == old(tracker).virt@.len(),
            gpr@ == gpr_pool(),
            xmm@ == xmm_pool(),
            tracker_shape(tracker, n),
            assignments_allocatable(tracker),
            instruction_known(instr, n),
            use_defs@ == instr.use_defs(),
            k <= use_defs@.len(),
            forall|x: Register| #[trigger] tracker.knows(x) == old(tracker).knows(x),
            forall|x: Register| old(tracker).knows(x) ==> (#[trigger] tracker.track(x)).first_def
                == old(tracker).track(x).first_def && tracker.track(x).last_use == old(tracker).track(x).last_use
                && (old(tracker).track(x).physical_register is Some ==> tracker.track(x).physical_register is Some),
            forall|j: int| 0 <= j < k ==> (read_register(#[trigger] instr.use_defs()[j].0) matches Some(x) ==> (x
                is Virtual && old(tracker).track(x).last_use == Some(at) ==> tracker.track(x).physical_register is Some)),
            !reads_host(instr) && !starts_unassigned(*old(tracker), instr, at) ==> *tracker == *old(tracker)
                && live@ == old(live)@,
        decreases use_defs@.len() - k,
    {
        let (ud, width) = use_defs[k];
        assert(ud_register(use_defs@[k as int].0) matches Register::Virtual { index, .. } ==> index < n);
        let ghost prev = *tracker;
        match ud {
            UseDef::Use(reg) | UseDef::UseDef(reg) => {
                assert(read_register(instr.use_defs()[k as int].0) == Some(reg));
                match reg {
                    Register::Virtual { .. } => {
                        let track = tracker.get(&reg);
                        if track.last_use == Some(at) && track.physical_register.is_none() {
                            assert(starts_unassigned(*old(tracker), instr, at));
                            let pool = pick_pool(width, gpr, xmm);
                            let allocated = match pool.first_difference(live) {
                                Some(a) => a,
                                None => return Err(AllocationError::OutOfRegisters(at)),
                            };
                            proof {
                                lemma_pools_allocatable(allocated);
                            }
                            assign(tracker, &reg, allocated);
                            let ghost t1 = *tracker;
                            assert(keeps_hosts(prev, t1));
                            live.insert(allocated);
                            set_interference(tracker, &reg, live);
                            let ghost t2 = *tracker;
                            assert(keeps_hosts(t1, t2));
                            set_tracking(tracker, allocated, reg);
                            let ghost t3 = *tracker;
                            assert(keeps_hosts(t2, t3));
                            assert(t3.track(reg).physical_register is Some);
                            match update_interferences(tracker, live, gpr, xmm, at) {
                                Ok(()) => {},
                                Err(e) => return Err(e),
                            }
                            proof {
                                assert(keeps_hosts(t3, *tracker));
                                lemma_keeps_hosts_trans(prev, t1, t2);
                                lemma_keeps_hosts_trans(prev, t2, t3);
                                lemma_keeps_hosts_trans(prev, t3, *tracker);
                            }
                        }
                    },
                    Register::Physical(p) => {
                        assert(reads_host(instr));
                        let holder = tracker.get(&reg).tracking;
                        if live.contains(&p) && holder != Some(reg) {
                            let tracking_reg = match holder {
                                Some(t) => t,
                                None => return Err(AllocationError::Unassigned(at)),
                            };
                            if !tracker_knows(tracker, &tracking_reg) {
                                return Err(AllocationError::Unassigned(at));
                            }
                            match reassign(tracker, live, gpr, xmm, &tracking_reg, width, at) {
                                Ok(()) => {},
                                Err(e) => return Err(e),
                            }
                            let ghost t1 = *tracker;
                            assert(keeps_hosts(prev, t1));
                            track_itself(tracker, p);
                            proof {
                                assert(keeps_hosts(t1, *tracker));
                                lemma_keeps_hosts_trans(prev, t1, *tracker);
                            }
                        } else {
                            track_itself(tracker, p);
                            let ghost t1 = *tracker;
                            assert(keeps_hosts(prev, t1));
                            live.insert(p);
                            set_interference(tracker, &reg, live);
                            let ghost t2 = *tracker;
                            assert(keeps_hosts(t1, t2));
                            match update_interferences(tracker, live, gpr, xmm, at) {
                                Ok(()) => {},
                                Err(e) => return Err(e),
                            }
                            proof {
                                assert(keeps_hosts(t2, *tracker));
                                lemma_keeps_hosts_trans(prev, t1, t2);
                                lemma_keeps_hosts_trans(prev, t2, *tracker);
                            }
                        }
                    },
                    Register::Global(_) => {},
                }
            },
            _ => {},
        }
        assert(keeps_hosts(prev, *tracker));
        proof {
            assert forall|j: int| 0 <= j < k + 1 implies (read_register(#[trigger] instr.use_defs()[j].0) matches Some(x)
                ==> (x is Virtual && old(tracker).track(x).last_use == Some(at) ==> tracker.track(x).physical_register
                is Some)) by {
                if let Some(x) = read_register(instr.use_defs()[j].0) {
                    if x is Virtual && old(tracker).track(x).last_use == Some(at) {
                        assert(ud_register(instr.use_defs()[j].0) == x);
                        assert(old(tracker).knows(x));
                        assert(prev.knows(x));
                        if j < k {
                            assert(prev.track(x).physical_register is Some);
                        }
                    }
                }
            }
        }
        k = k + 1;
    }
    Ok(())
}

/// Whether every register the instructions use or define is a global slot.
pub open spec fn globals_only(instrs: Seq<Instruction>) -> bool {
    forall|i: int, j: int|
        0 <= i < instrs.len() && 0 <= j < instrs[i].use_defs().len() ==> (#[trigger] ud_register(
            instrs[i].use_defs()[j].0,
        )) is Global
}

proof fn lemma_global_instruction(instr: Instruction, t: RegisterTracker, at: usize)
    requires
        forall|j: int| 0 <= j < instr.use_defs().len() ==> (#[trigger] ud_register(instr.use_defs()[j].0)) is Global,
    ensures
        !writes_host(instr),
        !reads_host(instr),
        !writes_unread(t, instr, at),
        !starts_unassigned(t, instr, at),
        ends_assigned(t, instr, at),
{
    assert forall|j: int| 0 <= j < instr.use_defs().len() implies (written_register(#[trigger] instr.use_defs()[j].0)
        matches Some(r) ==> r is Global) && (read_register(instr.use_defs()[j].0) matches Some(r) ==> r is Global) by {
        assert(ud_register(instr.use_defs()[j].0) is Global);
    }
}

/// Whether, where instruction `at` reads a virtual register whose last
/// reader it is according to `t` and writes nothing that is never read,
/// `u` gives that register a host register.
pub open spec fn last_reads_assigned(t: RegisterTracker, u: RegisterTracker, instr: Instruction, at: usize) -> bool {
    forall|j: int|
        0 <= j < instr.use_defs().len() ==> (read_register(#[trigger] instr.use_defs()[j].0) matches Some(x) ==> (x
            is Virtual && t.track(x).last_use == Some(at) && !writes_unread(t, instr, at)
            ==> u.track(x).physical_register is Some))
}

proof fn lemma_writes_unread_kept(a: RegisterTracker, b: RegisterTracker, instr: Instruction, at: usize, n: nat)
    requires
        keeps_hosts(a, b),
        tracker_shape(&a, n),
        instruction_known(instr, n),
    ensures
        writes_unread(a, instr, at) == writes_unread(b, instr, at),
{
    assert forall|j: int| 0 <= j < instr.use_defs().len() implies (written_register(#[trigger] instr.use_defs()[j].0)
        matches Some(r) ==> (r is Virtual ==> a.knows(r))) by {
        assert(ud_register(instr.use_defs()[j].0) matches Register::Virtual { index, .. } ==> index < n);
    }
}

proof fn lemma_keeps_hosts_assigned(
    o: RegisterTracker,
    a: RegisterTracker,
    b: RegisterTracker,
    instrs: Seq<Instruction>,
    from: int,
    n: nat,
)
    requires
        keeps_hosts(a, b),
        keeps_hosts(o, a),
        tracker_shape(&o, n),
        all_known(instrs, n),
        0 <= from,
        forall|k: int| from <= k < instrs.len() ==> last_reads_assigned(o, a, #[trigger] instrs[k], k as usize),
    ensures
        forall|k: int| from <= k < instrs.len() ==> last_reads_assigned(o, b, #[trigger] instrs[k], k as usize),
{
    assert forall|k: int| from <= k < instrs.len() implies last_reads_assigned(o, b, #[trigger] instrs[k], k as usize) by {
        let instr = instrs[k];
        assert(instruction_known(instrs[k], n));
        assert(last_reads_assigned(o, a, instr, k as usize));
        assert forall|j: int| 0 <= j < instr.use_defs().len() implies (read_register(#[trigger] instr.use_defs()[j].0)
            matches Some(x) ==> (x is Virtual && o.track(x).last_use == Some(k as usize) && !writes_unread(o, instr, k as usize)
            ==> b.track(x).physical_register is Some)) by {
            if let Some(x) = read_register(instr.use_defs()[j].0) {
                assert(ud_register(instr.use_defs()[j].0) == x);
                if x is Virtual {
                    assert(o.knows(x));
                    assert(a.knows(x));
                }
            }
        }
    }
}

/// The backward scan: hands out host registers to the live ranges found by
/// [`calculate_vreg_live_ranges`], and records for each call which host
/// registers are live across it. Every host register it gives a virtual
/// register is one it hands out. Where it succeeds, live sets are recorded
/// at calls only, and where live ranges start and end and every host
/// register already given are kept, and every virtual register read by an
/// instruction that is its last reader and is not skipped has a host
/// register; instructions that use and define global slots only leave it
/// nothing to do, and it succeeds.
pub fn do_allocate(
    tracker: &mut RegisterTracker,
    instructions: &Vec<Instruction>,
) -> (r: Result<Vec<Option<PhysicalRegisterSet>>, AllocationError>)
    requires
        tracker_shape(old(tracker), old(tracker).virt@.len()),
        assignments_allocatable(old(tracker)),
        all_known(instructions@, old(tracker).virt@.len()),
    ensures
        tracker_shape(final(tracker), old(tracker).virt@.len()),
        assignments_allocatable(final(tracker)),
        r matches Ok(lives) ==> lives@.len() == instructions@.len(),
        r matches Ok(lives) ==> forall|i: int| 0 <= i < lives@.len() ==> ((#[trigger] lives@[i]) is Some
            ==> instructions@[i].0 is CALL),
        r is Ok ==> keeps_hosts(*old(tracker), *final(tracker)),
        r is Ok ==> forall|at: int| 0 <= at < instructions@.len() ==> last_reads_assigned(
            *old(tracker),
            *final(tracker),
            #[trigger] instructions@[at],
            at as usize,
        ),
        globals_only(instructions@) ==> r is Ok && *final(tracker) == *old(tracker),
        r matches Err(e) ==> (e matches AllocationError::OutOfRegisters(at) && at < instructions@.len()) || (e matches AllocationError::Unassigned(
            at,
        ) && at < instructions@.len()),
{
    let ghost n = tracker.virt@.len();
    let gpr = gpr_pool_set();
    let xmm = xmm_pool_set();
    let mut live = PhysicalRegisterSet::new();
    let mut call_lives: Vec<Option<PhysicalRegisterSet>> = Vec::new();
    let mut j: usize = 0;
    while j < instructions.len()
        invariant
            j <= instructions@.len(),
            call_lives@.len() == j,
            forall|i: int| 0 <= i < j ==> (#[trigger] call_lives@[i]) is None,
        decreases instructions.len() - j,
    {
        call_lives.push(None);
        j = j + 1;
    }
    let mut remaining: usize = instructions.len();
    while remaining > 0
        invariant
            n == old(tracker).virt@.len(),
            gpr@ == gpr_pool(),
            xmm@ == xmm_pool(),
            tracker_shape(tracker, n),
            assignments_allocatable(tracker),
            all_known(instructions@, n),
            remaining <= instructions@.len(),
            call_lives@.len() == instructions@.len(),
            forall|i: int| 0 <= i < call_lives@.len() ==> ((#[trigger] call_lives@[i]) is Some
                ==> instructions@[i].0 is CALL),
            keeps_hosts(*old(tracker), *tracker),
            tracker_shape(old(tracker), n),
            globals_only(instructions@) ==> *tracker == *old(tracker),
            forall|a: int| remaining <= a < instructions@.len() ==> last_reads_assigned(
                *old(tracker),
                *tracker,
                #[trigger] instructions@[a],
                a as usize,
            ),
        decreases remaining,
    {
        let at = remaining - 1;
        let instr = instructions[at];
        assert(instruction_known(instructions@[at as int], n));
        let ghost before = *tracker;
        proof {
            if globals_only(instructions@) {
                assert forall|j: int| 0 <= j < instr.use_defs().len() implies (#[trigger] ud_register(
                    instr.use_defs()[j].0,
                )) is Global by {
                    assert(ud_register(instructions@[at as int].use_defs()[j].0) is Global);
                }
                lemma_global_instruction(instr, *tracker, at);
            }
        }
        let skip = match end_live_ranges(tracker, &mut live, &gpr, &xmm, instr, at) {
            Ok(s) => s,
            Err(e) => return Err(e),
        };
        proof {
            lemma_keeps_hosts_trans(*old(tracker), before, *tracker);
        }
        proof {
            lemma_writes_unread_kept(*old(tracker), before, instr, at, n);
            lemma_keeps_hosts_assigned(*old(tracker), before, *tracker, instructions@, remaining as int, n);
        }
        if !skip {
            let ghost middle = *tracker;
            match start_live_ranges(tracker, &mut live, &gpr, &xmm, instr, at) {
                Ok(()) => {},
                Err(e) => return Err(e),
            }
            proof {
                assert(keeps_hosts(middle, *tracker));
                lemma_keeps_hosts_trans(*old(tracker), middle, *tracker);
                lemma_keeps_hosts_assigned(*old(tracker), middle, *tracker, instructions@, remaining as int, n);
                assert forall|j: int| 0 <= j < instr.use_defs().len() implies (read_register(#[trigger] instr.use_defs()[j].0)
                    matches Some(x) ==> (x is Virtual && old(tracker).track(x).last_use == Some(at) && !writes_unread(
                    *old(tracker),
                    instr,
                    at,
                ) ==> tracker.track(x).physical_register is Some)) by {
                    if let Some(x) = read_register(instr.use_defs()[j].0) {
                        assert(ud_register(instr.use_defs()[j].0) == x);
                        if x is Virtual {
                            assert(old(tracker).knows(x));
                        }
                    }
                }
                assert(last_reads_assigned(*old(tracker), *tracker, instructions@[at as int], at));
            }
            if let Opcode::CALL { .. } = instr.0 {
                call_lives.set(at, Some(live.copy()));
            }
        }
        remaining = remaining - 1;
    }
    Ok(call_lives)
}

/// Whether an operand names no virtual register where the allocator
/// rewrites registers, and no global slot as a register: register operands
/// hold host registers, and memory operands with a base register address
/// through host registers.
pub open spec fn operand_committed(op: Operand) -> bool {
    match op.kind {
        OperandKind::Register(r) => r is Physical,
        OperandKind::Memory { base: Some(b), index, .. } => !(b is Virtual) && (index matches Some(
            x,
        ) ==> !(x is Virtual)),
        _ => true,
    }
}

/// Whether an instruction is dead or all its operands are committed.
pub open spec fn instruction_committed(instr: Instruction) -> bool {
    instr.0 is DEAD || forall|s: int|
        0 <= s < instr.operand_slots().len() ==> operand_committed(
            #[trigger] instr.operand_slots()[s].1,
        )
}

/// Whether every virtual register an instruction's operands name is one of
/// the `n` being allocated.
pub open spec fn slots_known(instr: Instruction, n: nat) -> bool {
    forall|s: int, k: int|
        0 <= s < instr.operand_slots().len() && 0 <= k < operand_registers(
            instr.operand_slots()[s].1,
        ).len() ==> ((#[trigger] operand_registers(instr.operand_slots()[s].1)[k]) matches Register::Virtual {
            index,
            ..
        } ==> index < n)
}

/// The register `reg` stands for after allocation: a virtual register its
/// host register, where it was given one; any other register itself.
pub open spec fn host_of(t: RegisterTracker, reg: Register) -> Option<Register> {
    match reg {
        Register::Virtual { .. } => match t.track(reg).physical_register {
            Some(p) => Some(Register::Physical(p)),
            None => None,
        },
        _ => Some(reg),
    }
}

/// An operand as it reads after allocation (see [`commit_operand`]), where
/// its virtual registers were given host registers and its global slot lies
/// within reach of a displacement.
pub open spec fn committed_operand(t: RegisterTracker, op: Operand, global_register_offset: usize) -> Option<Operand> {
    match op.kind {
        OperandKind::Register(Register::Global(idx)) => {
            let d = global_register_offset + 8 * idx;
            if d <= 0x7fff_ffff {
                Some(Operand::spec_mem_base_displ(op.width_in_bits, Register::Physical(PhysicalRegister::RBP), d as i32))
            } else {
                None
            }
        },
        OperandKind::Register(reg) => match host_of(t, reg) {
            Some(h) => Some(Operand { kind: OperandKind::Register(h), width_in_bits: op.width_in_bits }),
            None => None,
        },
        OperandKind::Memory { base: Some(b), index, scale, displacement, segment_override } => match host_of(t, b) {
            None => None,
            Some(nb) => match index {
                None => Some(
                    Operand {
                        kind: OperandKind::Memory { base: Some(nb), index: None, scale, displacement, segment_override },
                        width_in_bits: op.width_in_bits,
                    },
                ),
                Some(x) => match host_of(t, x) {
                    None => None,
                    Some(nx) => Some(
                        Operand {
                            kind: OperandKind::Memory {
                                base: Some(nb),
                                index: Some(nx),
                                scale,
                                displacement,
                                segment_override,
                            },
                            width_in_bits: op.width_in_bits,
                        },
                    ),
                },
            },
        },
        _ => Some(op),
    }
}

/// Whether every named operand of an instruction can be committed.
pub open spec fn slots_commit(t: RegisterTracker, instr: Instruction, global_register_offset: usize) -> bool {
    forall|s: int|
        0 <= s < instr.operand_slots().len() ==> (#[trigger] committed_operand(
            t,
            instr.operand_slots()[s].1,
            global_register_offset,
        )) is Some
}

/// The host register given to a virtual register.
fn host_register(tracker: &RegisterTracker, reg: Register, at: usize) -> (r: Result<Register, AllocationError>)
    requires
        reg is Virtual ==> tracker.knows(reg),
    ensures
        r matches Ok(x) ==> !(x is Virtual),
        r matches Ok(x) ==> (reg is Physical || reg is Virtual ==> x is Physical),
        !(reg is Virtual) ==> r == Ok::<Register, AllocationError>(reg),
        r is Err ==> r == Err::<Register, AllocationError>(AllocationError::Unassigned(at)),
        r is Ok <==> host_of(*tracker, reg) is Some,
        r matches Ok(x) ==> host_of(*tracker, reg) == Some(x),
{
    match reg {
        Register::Virtual { .. } => match tracker.get(&reg).physical_register {
            Some(p) => Ok(Register::Physical(p)),
            None => Err(AllocationError::Unassigned(at)),
        },
        _ => Ok(reg),
    }
}

/// An operand as it reads after allocation: a global slot becomes the
/// memory word at `global_register_offset + 8 * slot` from the register
/// file pointer, and virtual registers (as register operands, or as base
/// and index of a memory operand with a base) become their host registers.
fn commit_operand(
    tracker: &RegisterTracker,
    op: Operand,
    global_register_offset: usize,
    n: Ghost<nat>,
    at: usize,
) -> (r: Result<Operand, AllocationError>)
    requires
        tracker_shape(tracker, n@),
        forall|k: int| 0 <= k < operand_registers(op).len() ==> ((#[trigger] operand_registers(op)[k]) matches Register::Virtual {
            index,
            ..
        } ==> index < n@),
    ensures
        r matches Ok(x) ==> operand_committed(x),
        r matches Ok(x) ==> x.width_in_bits == op.width_in_bits,
        r is Ok <==> committed_operand(*tracker, op, global_register_offset) is Some,
        r matches Ok(x) ==> committed_operand(*tracker, op, global_register_offset) == Some(x),
        r is Err ==> r == Err::<Operand, AllocationError>(AllocationError::GlobalOutOfRange(at)) || r == Err::<
            Operand,
            AllocationError,
        >(AllocationError::Unassigned(at)),
{
    match op.kind {
        OperandKind::Register(Register::Global(idx)) => {
            let displacement = match idx.checked_mul(8) {
                Some(scaled) => match global_register_offset.checked_add(scaled) {
                    Some(d) => d,
                    None => return Err(AllocationError::GlobalOutOfRange(at)),
                },
                None => return Err(AllocationError::GlobalOutOfRange(at)),
            };
            if displacement > 0x7fff_ffff {
                return Err(AllocationError::GlobalOutOfRange(at));
            }
            let m = Operand::mem_base_displ(
                op.width_in_bits,
                Register::Physical(PhysicalRegister::RBP),
                displacement as i32,
            );
            assert(m.kind matches OperandKind::Memory { base: Some(Register::Physical(_)), index: None, .. });
            Ok(m)
        },
        OperandKind::Register(reg) => {
            assert(operand_registers(op)[0] == reg);
            let host = match host_register(tracker, reg, at) {
                Ok(h) => h,
                Err(e) => return Err(e),
            };
            Ok(Operand { kind: OperandKind::Register(host), width_in_bits: op.width_in_bits })
        },
        OperandKind::Memory { base: Some(b), index, scale, displacement, segment_override } => {
            assert(operand_registers(op)[0] == b);
            let new_base = match host_register(tracker, b, at) {
                Ok(h) => h,
                Err(e) => return Err(e),
            };
            let new_index = match index {
                Some(x) => {
                    assert(operand_registers(op)[1] == x);
                    match host_register(tracker, x, at) {
                        Ok(h) => Some(h),
                        Err(e) => return Err(e),
                    }
                },
                None => None,
            };
            Ok(
                Operand {
                    kind: OperandKind::Memory {
                        base: Some(new_base),
                        index: new_index,
                        scale,
                        displacement,
                        segment_override,
                    },
                    width_in_bits: op.width_in_bits,
                },
            )
        },
        _ => Ok(op),
    }
}

/// The instruction with every operand committed.
#[verifier::rlimit(80)]
fn commit_instruction(
    tracker: &RegisterTracker,
    instr: Instruction,
    global_register_offset: usize,
    n: Ghost<nat>,
    at: usize,
) -> (r: Result<Instruction, AllocationError>)
    requires
        tracker_shape(tracker, n@),
        slots_known(instr, n@),
    ensures
        r matches Ok(x) ==> instruction_committed(x),
        r is Ok <==> slots_commit(*tracker, instr, global_register_offset),
        r matches Ok(x) ==> x.same_operation(instr) && x.operand_slots().len() == instr.operand_slots().len() && forall|s: int|
            0 <= s < instr.operand_slots().len() ==> (#[trigger] x.operand_slots()[s]).0 == instr.operand_slots()[s].0
                && Some(x.operand_slots()[s].1) == committed_operand(
                *tracker,
                instr.operand_slots()[s].1,
                global_register_offset,
            ),
{
    let mut out = instr;
    let slots = instr.get_operands();
    let mut s: usize = 0;
    while s < slots.len()
        invariant
            tracker_shape(tracker, n@),
            slots_known(instr, n@),
            slots@ == instr.operand_slots(),
            s <= slots@.len(),
            out.operand_slots().len() == slots@.len(),
            forall|t: int| 0 <= t < s ==> operand_committed(#[trigger] out.operand_slots()[t].1),
            out.same_operation(instr),
            forall|t: int| 0 <= t < slots@.len() ==> (#[trigger] out.operand_slots()[t]).0 == instr.operand_slots()[t].0,
            forall|t: int|
                0 <= t < s ==> Some((#[trigger] out.operand_slots()[t]).1) == committed_operand(
                    *tracker,
                    instr.operand_slots()[t].1,
                    global_register_offset,
                ),
            forall|t: int| s <= t < slots@.len() ==> (#[trigger] out.operand_slots()[t]) == instr.operand_slots()[t],
        decreases slots.len() - s,
    {
        let (_, op) = slots[s];
        assert forall|k: int| 0 <= k < operand_registers(op).len() implies ((#[trigger] operand_registers(op)[k]) matches Register::Virtual { index, .. } ==> index < n@) by {
            assert(operand_registers(instr.operand_slots()[s as int].1)[k] matches Register::Virtual { index, .. } ==> index < n@);
        }
        let committed = match commit_operand(tracker, op, global_register_offset, n, at) {
            Ok(c) => c,
            Err(e) => {
                proof {
                    assert(committed_operand(*tracker, instr.operand_slots()[s as int].1, global_register_offset) is None);
                    assert(!slots_commit(*tracker, instr, global_register_offset));
                }
                return Err(e);
            },
        };
        let ghost before = out;
        *out.get_operands_mut(s) = committed;
        proof {
            assert forall|t: int| 0 <= t < s + 1 implies operand_committed(#[trigger] out.operand_slots()[t].1) by {
                if t < s {
                    assert(out.operand_slots()[t] == before.operand_slots()[t]);
                }
            }
            assert forall|t: int| 0 <= t < slots@.len() implies (#[trigger] out.operand_slots()[t]).0 == instr.operand_slots()[t].0 by {
                assert(before.operand_slots()[t].0 == instr.operand_slots()[t].0);
            }
            assert forall|t: int| 0 <= t < s + 1 implies Some((#[trigger] out.operand_slots()[t]).1) == committed_operand(
                *tracker,
                instr.operand_slots()[t].1,
                global_register_offset,
            ) by {
                if t < s {
                    assert(out.operand_slots()[t] == before.operand_slots()[t]);
                }
            }
            assert forall|t: int| s + 1 <= t < slots@.len() implies (#[trigger] out.operand_slots()[t]) == instr.operand_slots()[t] by {
                assert(out.operand_slots()[t] == before.operand_slots()[t]);
            }
        }
        s = s + 1;
    }
    proof {
        assert(instruction_committed(out));
        assert forall|t: int| 0 <= t < instr.operand_slots().len() implies (#[trigger] committed_operand(
            *tracker,
            instr.operand_slots()[t].1,
            global_register_offset,
        )) is Some by {
            assert(Some(out.operand_slots()[t].1) == committed_operand(*tracker, instr.operand_slots()[t].1, global_register_offset));
        }
    }
    Ok(out)
}

proof fn lemma_host_only_known(x: Operand, n: nat)
    requires
        x.kind matches OperandKind::Register(Register::Physical(_)),
    ensures
        forall|k: int| 0 <= k < operand_registers(x).len() ==> !(#[trigger] operand_registers(x)[k] is Virtual),
        operand_committed(x),
{
    assert(operand_registers(x).len() == 1);
}

/// A push or pop of a 64-bit host register.
fn save_instruction(reg: PhysicalRegister, restore: bool, n: Ghost<nat>) -> (r: Instruction)
    ensures
        instruction_committed(r),
        slots_known(r, n@),
        r == if restore {
            Instruction(Opcode::POP(Operand::spec_preg(Width::_64, reg)))
        } else {
            Instruction(Opcode::PUSH(Operand::spec_preg(Width::_64, reg)))
        },
{
    let op = Operand::preg(Width::_64, reg);
    proof {
        lemma_host_only_known(op, n@);
    }
    let r = if restore {
        Instruction::pop(op)
    } else {
        Instruction::push(op)
    };
    assert(r.operand_slots() =~= seq![(if restore { OperandDirection::Out } else { OperandDirection::In }, op)]);
    r
}

/// Whether `reg` is one of the first `count` argument registers.
fn among_arguments(reg: PhysicalRegister, count: usize) -> (r: bool)
    ensures
        r == exists|k: int| 0 <= k < count && k < 6 && crate::encoder::ARG_REGS@[k] == reg,
{
    let mut k: usize = 0;
    while k < count && k < 6
        invariant
            k <= 6,
            forall|j: int| 0 <= j < k ==> crate::encoder::ARG_REGS@[j] != reg,
        decreases 6 - k,
    {
        if crate::encoder::ARG_REGS[k] == reg {
            return true;
        }
        k = k + 1;
    }
    false
}

/// Whether a caller-saved register must be saved around a call: it is
/// live across the call, carries none of its arguments and does not hold
/// the function.
pub open spec fn must_save(live: Seq<bool>, nr_input_args: usize, function: PhysicalRegister, reg: PhysicalRegister) -> bool {
    &&& in_set(live, reg)
    &&& !(exists|k: int| 0 <= k < nr_input_args && k < 6 && crate::encoder::ARG_REGS@[k] == reg)
    &&& reg != function
}

/// The registers among the first `c` caller-saved ones that must be saved,
/// in their order.
pub open spec fn saved_among(live: Seq<bool>, nr_input_args: usize, function: PhysicalRegister, c: int) -> Seq<
    PhysicalRegister,
>
    decreases c,
{
    if c <= 0 {
        seq![]
    } else {
        let prev = saved_among(live, nr_input_args, function, c - 1);
        let reg = crate::encoder::CALLER_SAVED@[c - 1];
        if must_save(live, nr_input_args, function, reg) {
            prev.push(reg)
        } else {
            prev
        }
    }
}

/// The caller-saved registers that must be saved around a call (see
/// [`must_save`]), in the order of [`crate::encoder::CALLER_SAVED`].
fn registers_to_save(live: &PhysicalRegisterSet, nr_input_args: usize, function: PhysicalRegister) -> (r: Vec<
    PhysicalRegister,
>)
    ensures
        r@ == saved_among(live@, nr_input_args, function, 9),
        r@.len() <= 9,
{
    let mut out: Vec<PhysicalRegister> = Vec::new();
    let mut c: usize = 0;
    while c < 9
        invariant
            c <= 9,
            out@.len() <= c,
            out@ == saved_among(live@, nr_input_args, function, c as int),
        decreases 9 - c,
    {
        let reg = crate::encoder::CALLER_SAVED[c];
        if live.contains(&reg) && !among_arguments(reg, nr_input_args) && reg != function {
            out.push(reg);
        }
        c = c + 1;
    }
    out
}

/// Whether `new` is `old` with every operand committed: the same operation
/// over the committed operands.
pub open spec fn committed_as(t: RegisterTracker, old: Instruction, new: Instruction, global_register_offset: usize) -> bool {
    &&& new.same_operation(old)
    &&& new.operand_slots().len() == old.operand_slots().len()
    &&& forall|s: int|
        0 <= s < old.operand_slots().len() ==> (#[trigger] new.operand_slots()[s]).0 == old.operand_slots()[s].0
            && Some(new.operand_slots()[s].1) == committed_operand(t, old.operand_slots()[s].1, global_register_offset)
}

/// Whether an instruction is a move that, once committed, copies a host
/// register onto itself at a width other than 32 bits.
pub open spec fn idle_move(t: RegisterTracker, instr: Instruction, global_register_offset: usize) -> bool {
    match instr.0 {
        Opcode::MOV(src, dst) => committed_operand(t, src, global_register_offset) is Some
            && committed_operand(t, src, global_register_offset) == committed_operand(t, dst, global_register_offset)
            && src.width_in_bits != Width::_32,
        _ => false,
    }
}

/// What committing makes of one instruction: a dead one stays, an idle
/// move dies, and any other is committed.
pub open spec fn commits_to(t: RegisterTracker, old: Instruction, new: Instruction, global_register_offset: usize) -> bool {
    if old.0 is DEAD {
        new == old
    } else if idle_move(t, old, global_register_offset) {
        new == Instruction(Opcode::DEAD)
    } else {
        committed_as(t, old, new, global_register_offset)
    }
}

/// Whether no instruction is a call.
pub open spec fn no_calls(instrs: Seq<Instruction>) -> bool {
    forall|i: int| 0 <= i < instrs.len() ==> !((#[trigger] instrs[i]).0 is CALL)
}

/// Whether every instruction that is not dead can be committed.
pub open spec fn all_commit(t: RegisterTracker, instrs: Seq<Instruction>, global_register_offset: usize) -> bool {
    forall|i: int| 0 <= i < instrs.len() && !((#[trigger] instrs[i]).0 is DEAD) ==> slots_commit(
        t,
        instrs[i],
        global_register_offset,
    )
}

/// The instruction that saves (`restore` false) or restores a host
/// register around a call: a 64-bit push or pop of it.
pub open spec fn save_spec(reg: PhysicalRegister, restore: bool) -> Instruction {
    if restore {
        Instruction(Opcode::POP(Operand::spec_preg(Width::_64, reg)))
    } else {
        Instruction(Opcode::PUSH(Operand::spec_preg(Width::_64, reg)))
    }
}

/// Whether `new` is `old` with the registers `to_save` saved around the
/// call at `i`: the save of `to_save[k]` in slot `i - 9 + k`, its restore in
/// slot `i + 9 - k`, every other slot unchanged.
pub open spec fn saves_placed(old: Seq<Instruction>, new: Seq<Instruction>, i: int, to_save: Seq<PhysicalRegister>) -> bool {
    &&& new.len() == old.len()
    &&& forall|k: int| 0 <= k < to_save.len() ==> #[trigger] new[i - 9 + k] == save_spec(to_save[k], false)
    &&& forall|k: int| 0 <= k < to_save.len() ==> #[trigger] new[i + 9 - k] == save_spec(to_save[k], true)
    &&& forall|j: int|
        0 <= j < new.len() && !(i - 9 <= j < i - 9 + to_save.len()) && !(i + 9 - to_save.len() < j <= i + 9)
            ==> #[trigger] new[j] == old[j]
}

/// Saving and restoring around a call is last in, first out: read in the
/// order they run, the restores after the call pop the registers the saves
/// before it pushed, in the reverse order, so each register gets back the
/// value it had before the call; the saves come before the call and the
/// restores after it.
pub proof fn law_saves_lifo(old: Seq<Instruction>, new: Seq<Instruction>, i: int, to_save: Seq<PhysicalRegister>)
    requires
        saves_placed(old, new, i, to_save),
        to_save.len() <= 9,
    ensures
        forall|k: int| 0 <= k < to_save.len() ==> (#[trigger] new[i - 9 + k]) == Instruction(
            Opcode::PUSH(Operand::spec_preg(Width::_64, to_save[k])),
        ) && i - 9 + k < i,
        forall|k: int| 0 <= k < to_save.len() ==> (#[trigger] new[i + 10 - to_save.len() + k]) == Instruction(
            Opcode::POP(Operand::spec_preg(Width::_64, to_save[to_save.len() - 1 - k])),
        ) && i < i + 10 - to_save.len() + k,
{
    assert forall|k: int| 0 <= k < to_save.len() implies (#[trigger] new[i + 10 - to_save.len() + k]) == Instruction(
        Opcode::POP(Operand::spec_preg(Width::_64, to_save[to_save.len() - 1 - k])),
    ) by {
        let kk = to_save.len() - 1 - k;
        assert(new[i + 9 - kk] == save_spec(to_save[kk], true));
    }
    assert forall|k: int| 0 <= k < to_save.len() implies (#[trigger] new[i - 9 + k]) == Instruction(
        Opcode::PUSH(Operand::spec_preg(Width::_64, to_save[k])),
    ) by {
        assert(new[i - 9 + k] == save_spec(to_save[k], false));
    }
}

/// Writes the saves of `to_save` before the call at `i` and their restores
/// after it (see [`saves_placed`]); refused where a slot falls outside the
/// instructions.
fn place_saves(instructions: &mut Vec<Instruction>, i: usize, to_save: &Vec<PhysicalRegister>, n: Ghost<nat>) -> (r:
    Result<(), AllocationError>)
    requires
        i < old(instructions)@.len(),
        to_save@.len() <= 9,
    ensures
        final(instructions)@.len() == old(instructions)@.len(),
        r is Ok <==> (to_save@.len() == 0 || (9 <= i && i + 9 < old(instructions)@.len())),
        r is Err ==> r == Err::<(), AllocationError>(AllocationError::CallSaves(i)),
        r is Ok ==> saves_placed(old(instructions)@, final(instructions)@, i as int, to_save@),
        forall|k: int| 0 <= k < final(instructions)@.len() && !(old(instructions)@[k] == final(instructions)@[k])
            ==> instruction_committed(#[trigger] final(instructions)@[k]) && slots_known(final(instructions)@[k], n@),
{
    let ghost original = instructions@;
    let mut sub: usize = 0;
    while sub < to_save.len()
        invariant
            i < instructions@.len(),
            instructions@.len() == original.len(),
            original == old(instructions)@,
            to_save@.len() <= 9,
            sub <= to_save@.len(),
            sub > 0 ==> 9 <= i,
            forall|k: int| 0 <= k < sub ==> #[trigger] instructions@[i - 9 + k] == save_spec(to_save@[k], false),
            forall|j: int|
                0 <= j < instructions@.len() && !(i - 9 <= j < i - 9 + sub) ==> #[trigger] instructions@[j] == original[j],
            forall|k: int| 0 <= k < instructions@.len() && !(original[k] == instructions@[k])
                ==> instruction_committed(#[trigger] instructions@[k]) && slots_known(instructions@[k], n@),
        decreases to_save.len() - sub,
    {
        if i < 9 - sub {
            return Err(AllocationError::CallSaves(i));
        }
        let slot = i - (9 - sub);
        let save = save_instruction(to_save[sub], false, n);
        let ghost before = instructions@;
        instructions.set(slot, save);
        proof {
            assert forall|j: int|
                0 <= j < instructions@.len() && !(i - 9 <= j < i - 9 + sub + 1) implies #[trigger] instructions@[j]
                == original[j] by {
                assert(instructions@[j] == before[j]);
            }
            assert forall|k: int| 0 <= k < sub + 1 implies #[trigger] instructions@[i - 9 + k] == save_spec(
                to_save@[k],
                false,
            ) by {
                if k < sub {
                    assert(instructions@[i - 9 + k] == before[i - 9 + k]);
                }
            }
            assert forall|k: int| 0 <= k < instructions@.len() && !(original[k] == instructions@[k]) implies
                instruction_committed(#[trigger] instructions@[k]) && slots_known(instructions@[k], n@) by {
                if k != slot {
                    assert(instructions@[k] == before[k]);
                }
            }
        }
        sub = sub + 1;
    }
    let ghost saved = instructions@;
    let mut remaining: usize = to_save.len();
    while remaining > 0
        invariant
            i < instructions@.len(),
            instructions@.len() == original.len(),
            original == old(instructions)@,
            to_save@.len() <= 9,
            remaining <= to_save@.len(),
            to_save@.len() > 0 ==> 9 <= i,
            forall|k: int| 0 <= k < to_save@.len() ==> #[trigger] saved[i - 9 + k] == save_spec(to_save@[k], false),
            forall|j: int|
                0 <= j < saved.len() && !(i - 9 <= j < i - 9 + to_save@.len()) ==> #[trigger] saved[j] == original[j],
            saved.len() == original.len(),
            forall|k: int| remaining <= k < to_save@.len() ==> #[trigger] instructions@[i + 9 - k] == save_spec(to_save@[k], true),
            remaining < to_save@.len() ==> i + 9 - remaining < instructions@.len(),
            forall|j: int|
                0 <= j < instructions@.len() && !(i + 9 - to_save@.len() < j <= i + 9 - remaining) ==> #[trigger] instructions@[j]
                    == saved[j],
            forall|k: int| 0 <= k < instructions@.len() && !(original[k] == instructions@[k])
                ==> instruction_committed(#[trigger] instructions@[k]) && slots_known(instructions@[k], n@),
            forall|k: int| 0 <= k < saved.len() && !(original[k] == saved[k])
                ==> instruction_committed(#[trigger] saved[k]) && slots_known(saved[k], n@),
        decreases remaining,
    {
        let sub = remaining - 1;
        let len = instructions.len();
        let slot = match i.checked_add(9 - sub) {
            Some(x) => x,
            None => {
                proof {
                    assert(len == instructions@.len());
                }
                return Err(AllocationError::CallSaves(i));
            },
        };
        if slot >= instructions.len() {
            return Err(AllocationError::CallSaves(i));
        }
        let restore = save_instruction(to_save[sub], true, n);
        let ghost before = instructions@;
        instructions.set(slot, restore);
        proof {
            assert forall|k: int| sub <= k < to_save@.len() implies #[trigger] instructions@[i + 9 - k] == save_spec(
                to_save@[k],
                true,
            ) by {
                if k > sub {
                    assert(instructions@[i + 9 - k] == before[i + 9 - k]);
                }
            }
            assert forall|j: int|
                0 <= j < instructions@.len() && !(i + 9 - to_save@.len() < j <= i + 9 - sub) implies #[trigger] instructions@[j]
                == saved[j] by {
                assert(instructions@[j] == before[j]);
            }
            assert forall|k: int| 0 <= k < instructions@.len() && !(original[k] == instructions@[k]) implies
                instruction_committed(#[trigger] instructions@[k]) && slots_known(instructions@[k], n@) by {
                if k != slot {
                    assert(instructions@[k] == before[k]);
                    if !(original[k] == saved[k]) {
                        assert(instructions@[k] == saved[k]);
                    }
                }
            }
        }
        remaining = remaining - 1;
    }
    proof {
        if to_save@.len() > 0 {
            assert(saves_placed(original, instructions@, i as int, to_save@)) by {
                assert forall|k: int| 0 <= k < to_save@.len() implies #[trigger] instructions@[i - 9 + k] == save_spec(
                    to_save@[k],
                    false,
                ) by {
                    assert(instructions@[i - 9 + k] == saved[i - 9 + k]);
                }
                assert forall|j: int|
                    0 <= j < instructions@.len() && !(i - 9 <= j < i - 9 + to_save@.len()) && !(i + 9 - to_save@.len()
                        < j <= i + 9) implies #[trigger] instructions@[j] == original[j] by {
                    assert(instructions@[j] == saved[j]);
                }
            }
        } else {
            assert(instructions@ =~= original);
        }
    }
    Ok(())
}

/// Rewrites the instructions onto host registers: operands are committed
/// (see [`commit_operand`]), moves of a register to itself other than
/// 32-bit ones (which clear the upper half) become dead, and the registers
/// to save around each call are pushed into the dead slots before it and
/// popped from those after it. Without calls, it succeeds exactly where
/// every instruction that is not dead can be committed, and then leaves
/// each instruction as [`commits_to`] says.
pub fn commit(
    tracker: &RegisterTracker,
    call_lives: &Vec<Option<PhysicalRegisterSet>>,
    instructions: &mut Vec<Instruction>,
    global_register_offset: usize,
    n: Ghost<nat>,
) -> (r: Result<(), AllocationError>)
    requires
        tracker_shape(tracker, n@),
        forall|i: int| 0 <= i < old(instructions)@.len() ==> slots_known(#[trigger] old(instructions)@[i], n@),
        call_lives@.len() == old(instructions)@.len(),
    ensures
        final(instructions)@.len() == old(instructions)@.len(),
        r is Ok ==> forall|i: int| 0 <= i < final(instructions)@.len() ==> instruction_committed(
            #[trigger] final(instructions)@[i],
        ),
        no_calls(old(instructions)@) ==> (r is Ok <==> all_commit(*tracker, old(instructions)@, global_register_offset)),
        no_calls(old(instructions)@) && r is Ok ==> forall|i: int| 0 <= i < final(instructions)@.len() ==> commits_to(
            *tracker,
            old(instructions)@[i],
            #[trigger] final(instructions)@[i],
            global_register_offset,
        ),
{
    let ghost original = instructions@;
    let mut i: usize = 0;
    while i < instructions.len()
        invariant
            tracker_shape(tracker, n@),
            original == old(instructions)@,
            i <= instructions@.len(),
            instructions@.len() == old(instructions)@.len(),
            call_lives@.len() == instructions@.len(),
            forall|k: int| i <= k < instructions@.len() ==> slots_known(#[trigger] instructions@[k], n@),
            forall|k: int| 0 <= k < i ==> instruction_committed(#[trigger] instructions@[k]),
            no_calls(original) ==> forall|k: int| i <= k < instructions@.len() ==> #[trigger] instructions@[k] == original[k],
            no_calls(original) ==> forall|k: int| 0 <= k < i ==> commits_to(
                *tracker,
                original[k],
                #[trigger] instructions@[k],
                global_register_offset,
            ),
            no_calls(original) ==> forall|k: int| 0 <= k < i && !((#[trigger] original[k]).0 is DEAD) ==> slots_commit(
                *tracker,
                original[k],
                global_register_offset,
            ),
        decreases instructions.len() - i,
    {
        let current = instructions[i];
        if let Opcode::DEAD = current.0 {
            i = i + 1;
            continue;
        }
        assert(slots_known(instructions@[i as int], n@));
        let mut committed = match commit_instruction(tracker, current, global_register_offset, n, i) {
            Ok(c) => c,
            Err(e) => {
                proof {
                    if no_calls(original) {
                        assert(original[i as int] == current);
                        assert(!all_commit(*tracker, original, global_register_offset));
                    }
                }
                return Err(e);
            },
        };
        assert(committed_as(*tracker, current, committed, global_register_offset));
        let ghost as_committed = committed;
        if let Opcode::MOV(src, dst) = committed.0 {
            if src == dst && src.width_in_bits != Width::_32 {
                committed = Instruction(Opcode::DEAD);
            }
        }
        proof {
            if let Opcode::MOV(s0, d0) = current.0 {
                assert(as_committed.0 is MOV);
                assert(current.operand_slots()[0].1 == s0);
                assert(current.operand_slots()[1].1 == d0);
                assert(as_committed.operand_slots()[0].1 == as_committed.0->MOV_0);
                assert(as_committed.operand_slots()[1].1 == as_committed.0->MOV_1);
                assert(committed_operand(*tracker, s0, global_register_offset) == Some(as_committed.0->MOV_0));
                assert(committed_operand(*tracker, d0, global_register_offset) == Some(as_committed.0->MOV_1));
                assert(as_committed.0->MOV_0.width_in_bits == s0.width_in_bits);
            } else {
                assert(!(as_committed.0 is MOV));
            }
            assert(commits_to(*tracker, current, committed, global_register_offset));
        }
        let ghost before = instructions@;
        instructions.set(i, committed);
        proof {
            assert forall|k: int| i < k < instructions@.len() implies slots_known(#[trigger] instructions@[k], n@) by {
                assert(instructions@[k] == before[k]);
            }
            assert forall|k: int| 0 <= k < i + 1 implies instruction_committed(#[trigger] instructions@[k]) by {
                if k < i {
                    assert(instructions@[k] == before[k]);
                }
            }
            if no_calls(original) {
                assert(original[i as int] == current);
                assert forall|k: int| i + 1 <= k < instructions@.len() implies #[trigger] instructions@[k] == original[k] by {
                    assert(instructions@[k] == before[k]);
                }
                assert forall|k: int| 0 <= k < i + 1 implies commits_to(
                    *tracker,
                    original[k],
                    #[trigger] instructions@[k],
                    global_register_offset,
                ) by {
                    if k < i {
                        assert(instructions@[k] == before[k]);
                    }
                }
            }
        }
        if let Opcode::CALL { function, nr_input_args, .. } = committed.0 {
            proof {
                assert(current.0 is CALL);
                if no_calls(original) {
                    assert(original[i as int] == current);
                }
                assert(!no_calls(original));
            }
            let function_register = match function.as_register() {
                Some(Register::Physical(p)) => p,
                _ => return Err(AllocationError::CallTarget(i)),
            };
            let to_save = match &call_lives[i] {
                Some(live) => registers_to_save(live, nr_input_args, function_register),
                None => return Err(AllocationError::CallSaves(i)),
            };
            match place_saves(instructions, i, &to_save, n) {
                Ok(()) => {},
                Err(e) => return Err(e),
            }
        }
        i = i + 1;
    }
    proof {
        if no_calls(original) {
            assert forall|k: int| 0 <= k < original.len() && !((#[trigger] original[k]).0 is DEAD) implies slots_commit(
                *tracker,
                original[k],
                global_register_offset,
            ) by {}
        }
    }
    Ok(())
}

/// Whether no operand of the instructions names a virtual register.
pub open spec fn operands_without_virtual(instrs: Seq<Instruction>) -> bool {
    forall|i: int, s: int, k: int|
        0 <= i < instrs.len() && 0 <= s < instrs[i].operand_slots().len() && 0 <= k < operand_registers(
            instrs[i].operand_slots()[s].1,
        ).len() ==> !((#[trigger] operand_registers(instrs[i].operand_slots()[s].1)[k]) is Virtual)
}

/// Whether every global slot an operand of an instruction that is not dead
/// names lies within reach of a displacement from the register file
/// pointer.
pub open spec fn globals_in_reach(instrs: Seq<Instruction>, global_register_offset: usize) -> bool {
    forall|i: int, s: int|
        0 <= i < instrs.len() && !(instrs[i].0 is DEAD) && 0 <= s < instrs[i].operand_slots().len() ==> ((
        #[trigger] instrs[i].operand_slots()[s]).1.kind matches OperandKind::Register(Register::Global(idx))
            ==> global_register_offset + 8 * idx <= 0x7fff_ffff)
}

proof fn lemma_operand_commits(t: RegisterTracker, op: Operand, global_register_offset: usize)
    requires
        forall|k: int| 0 <= k < operand_registers(op).len() ==> !((#[trigger] operand_registers(op)[k]) is Virtual),
    ensures
        (committed_operand(t, op, global_register_offset) is Some) == (op.kind matches OperandKind::Register(
            Register::Global(idx),
        ) ==> global_register_offset + 8 * idx <= 0x7fff_ffff),
{
    match op.kind {
        OperandKind::Register(r) => {
            assert(operand_registers(op)[0] == r);
        },
        OperandKind::Memory { base, index, .. } => {
            if let Some(b) = base {
                assert(operand_registers(op)[0] == b);
                if let Some(x) = index {
                    assert(operand_registers(op)[1] == x);
                }
            }
        },
        _ => {},
    }
}

proof fn lemma_all_commit(t: RegisterTracker, instrs: Seq<Instruction>, global_register_offset: usize)
    requires
        operands_without_virtual(instrs),
    ensures
        all_commit(t, instrs, global_register_offset) == globals_in_reach(instrs, global_register_offset),
{
    assert forall|i: int, s: int| 0 <= i < instrs.len() && 0 <= s < instrs[i].operand_slots().len() implies (
    committed_operand(t, (#[trigger] instrs[i].operand_slots()[s]).1, global_register_offset) is Some) == (
    instrs[i].operand_slots()[s].1.kind matches OperandKind::Register(Register::Global(idx))
        ==> global_register_offset + 8 * idx <= 0x7fff_ffff) by {
        let op = instrs[i].operand_slots()[s].1;
        assert forall|k: int| 0 <= k < operand_registers(op).len() implies !((#[trigger] operand_registers(op)[k]) is Virtual) by {
            assert(!(operand_registers(instrs[i].operand_slots()[s].1)[k] is Virtual));
        }
        lemma_operand_commits(t, op, global_register_offset);
    }
    if all_commit(t, instrs, global_register_offset) {
        assert forall|i: int, s: int|
            0 <= i < instrs.len() && !(instrs[i].0 is DEAD) && 0 <= s < instrs[i].operand_slots().len() implies ((
            #[trigger] instrs[i].operand_slots()[s]).1.kind matches OperandKind::Register(Register::Global(idx))
                ==> global_register_offset + 8 * idx <= 0x7fff_ffff) by {
            assert(slots_commit(t, instrs[i], global_register_offset));
            assert(committed_operand(t, instrs[i].operand_slots()[s].1, global_register_offset) is Some);
        }
    }
    if globals_in_reach(instrs, global_register_offset) {
        assert forall|i: int| 0 <= i < instrs.len() && !((#[trigger] instrs[i]).0 is DEAD) implies slots_commit(
            t,
            instrs[i],
            global_register_offset,
        ) by {
            assert forall|s: int| 0 <= s < instrs[i].operand_slots().len() implies (#[trigger] committed_operand(
                t,
                instrs[i].operand_slots()[s].1,
                global_register_offset,
            )) is Some by {
                assert(0 <= s < instrs[i].operand_slots().len());
            }
        }
    }
}

/// What an allocation that succeeded did, by the host registers `t` gave
/// and the instructions `kept` after dead writes were dropped: `kept` is
/// `original` with some instructions that write a virtual register made
/// dead; every virtual register ends where the last instruction that reads
/// it stands, and there, unless that instruction is skipped, it has a host
/// register; and each final instruction is the kept one with its virtual
/// registers replaced by their host registers (see [`commits_to`]).
pub open spec fn allocated_as(
    original: Seq<Instruction>,
    result: Seq<Instruction>,
    t: RegisterTracker,
    kept: Seq<Instruction>,
    n: nat,
    global_register_offset: usize,
) -> bool {
    &&& t.virt@.len() == n
    &&& only_killed(original, kept)
    &&& forall|i: int| 0 <= i < kept.len() ==> #[trigger] kept[i] == original[i] || exists|v: int| 0 <= v < n && writes(original[i], v)
    &&& forall|v: int| 0 <= v < n ==> (#[trigger] t.virt@[v]).last_use == last_read(original, v, original.len() as int)
    &&& forall|at: int| 0 <= at < kept.len() ==> last_reads_assigned(t, t, #[trigger] kept[at], at as usize)
    &&& result.len() == kept.len()
    &&& forall|i: int| 0 <= i < kept.len() ==> commits_to(t, kept[i], #[trigger] result[i], global_register_offset)
}

/// Allocates host registers to the `num_virtual_registers` virtual
/// registers of the instructions and rewrites the instructions onto them
/// (see [`calculate_vreg_live_ranges`], [`do_allocate`] and [`commit`]).
/// Where it succeeds, every instruction that is not dead names host
/// registers only, in its register operands and in the addresses of its
/// memory operands with a base, and no global slot as a register. Without
/// calls, for instructions that use and define global slots only and whose
/// operands name no virtual register, it succeeds exactly where every
/// global slot named lies within reach of a displacement. Where it succeeds
/// without calls, the result is as [`allocated_as`] says: the instructions
/// with dead writes dropped and each virtual register replaced by the host
/// register it was given.
pub fn allocate(
    instructions: &mut Vec<Instruction>,
    num_virtual_registers: usize,
    global_register_offset: usize,
) -> (r: Result<(), AllocationError>)
    requires
        all_known(old(instructions)@, num_virtual_registers as nat),
    ensures
        final(instructions)@.len() == old(instructions)@.len(),
        r is Ok ==> forall|i: int| 0 <= i < final(instructions)@.len() ==> instruction_committed(
            #[trigger] final(instructions)@[i],
        ),
        no_calls(old(instructions)@) && globals_only(old(instructions)@) && operands_without_virtual(old(instructions)@)
            ==> (r is Ok <==> globals_in_reach(old(instructions)@, global_register_offset)),
        no_calls(old(instructions)@) && r is Ok ==> exists|t: RegisterTracker, kept: Seq<Instruction>|
            allocated_as(
                old(instructions)@,
                final(instructions)@,
                t,
                kept,
                num_virtual_registers as nat,
                global_register_offset,
            ),
{
    let ghost original = instructions@;
    let mut tracker = RegisterTracker::new(num_virtual_registers);
    let ghost n = num_virtual_registers as nat;
    proof {
        assert forall|v: int| 0 <= v < tracker.virt@.len() implies ((#[trigger] tracker.virt@[v]).physical_register matches Some(q) ==> allocatable(q)) by {}
    }
    calculate_vreg_live_ranges(&mut tracker, instructions);
    proof {
        if globals_only(original) {
            assert forall|i: int| 0 <= i < instructions@.len() implies #[trigger] instructions@[i] == original[i] by {
                if instructions@[i] != original[i] {
                    let v = choose|v: int| 0 <= v < n && writes(original[i], v);
                    let j = choose|j: int|
                        0 <= j < original[i].use_defs().len() && writes_virtual(#[trigger] original[i].use_defs()[j].0, v);
                    assert(ud_register(original[i].use_defs()[j].0) is Global);
                }
            }
            assert(instructions@ =~= original);
        }
    }
    let ghost t0 = tracker;
    let ghost kept = instructions@;
    let call_lives = match do_allocate(&mut tracker, instructions) {
        Ok(c) => c,
        Err(e) => return Err(e),
    };
    proof {
        lemma_assigned_in_final(t0, tracker, kept, n);
        assert forall|v: int| 0 <= v < n implies (#[trigger] tracker.virt@[v]).last_use == last_read(
            original,
            v,
            original.len() as int,
        ) by {
            let x = Register::Virtual { index: v as usize, class: RegisterClass::General };
            assert(t0.knows(x));
            assert(tracker.track(x).last_use == t0.track(x).last_use);
            assert(t0.virt@[v] == t0.track(x));
        }
        if no_calls(original) {
            assert(no_calls(kept)) by {
                assert forall|i: int| 0 <= i < kept.len() implies !((#[trigger] kept[i]).0 is CALL) by {
                    assert(kept[i] == original[i] || kept[i] == Instruction(Opcode::DEAD));
                }
            }
        }
    }
    proof {
        if operands_without_virtual(original) {
            lemma_all_commit(tracker, original, global_register_offset);
        }
    }
    proof {
        assert forall|i: int| 0 <= i < instructions@.len() implies slots_known(#[trigger] instructions@[i], n) by {
            assert(instruction_known(instructions@[i], n));
        }
    }
    let r = commit(&tracker, &call_lives, instructions, global_register_offset, Ghost(n));
    proof {
        if no_calls(original) && r is Ok {
            assert(allocated_as(original, instructions@, tracker, kept, n, global_register_offset));
        }
    }
    r
}

proof fn lemma_assigned_in_final(o: RegisterTracker, t: RegisterTracker, instrs: Seq<Instruction>, n: nat)
    requires
        keeps_hosts(o, t),
        tracker_shape(&o, n),
        all_known(instrs, n),
        forall|at: int| 0 <= at < instrs.len() ==> last_reads_assigned(o, t, #[trigger] instrs[at], at as usize),
    ensures
        forall|at: int| 0 <= at < instrs.len() ==> last_reads_assigned(t, t, #[trigger] instrs[at], at as usize),
{
    assert forall|at: int| 0 <= at < instrs.len() implies last_reads_assigned(t, t, #[trigger] instrs[at], at as usize) by {
        let instr = instrs[at];
        assert(instruction_known(instrs[at], n));
        assert(last_reads_assigned(o, t, instr, at as usize));
        lemma_writes_unread_kept(o, t, instr, at as usize, n);
        assert forall|j: int| 0 <= j < instr.use_defs().len() implies (read_register(#[trigger] instr.use_defs()[j].0)
            matches Some(x) ==> (x is Virtual && t.track(x).last_use == Some(at as usize) && !writes_unread(t, instr, at as usize)
            ==> t.track(x).physical_register is Some)) by {
            if let Some(x) = read_register(instr.use_defs()[j].0) {
                assert(ud_register(instr.use_defs()[j].0) == x);
                if x is Virtual {
                    assert(o.knows(x));
                }
            }
        }
    }
}

/// The registers an operand names.
fn registers_of(op: Operand) -> (r: Vec<Register>)
    ensures
        r@ == operand_registers(op),
{
    let mut out: Vec<Register> = Vec::new();
    match op.kind {
        OperandKind::Register(r) => out.push(r),
        OperandKind::Memory { base, index, .. } => {
            if let Some(b) = base {
                out.push(b);
            }
            if let Some(x) = index {
                out.push(x);
            }
        },
        _ => {},
    }
    proof {
        assert(out@ =~= operand_registers(op));
    }
    out
}

/// Whether a register is a virtual register outside the first `n`.
fn beyond(reg: Register, n: usize) -> (r: bool)
    ensures
        r == (reg matches Register::Virtual { index, .. } && index >= n),
{
    match reg {
        Register::Virtual { index, .. } => index >= n,
        _ => false,
    }
}

/// Decides [`instruction_known`].
pub fn is_instruction_known(instr: &Instruction, n: usize) -> (r: bool)
    ensures
        r == instruction_known(*instr, n as nat),
{
    if let Opcode::IDIV(d) | Opcode::DIV(d) = instr.0 {
        if d.width_in_bits == Width::_128 {
            return false;
        }
    }
    assert(instr.has_apparent_operands());
    let use_defs = instr.get_use_defs();
    let mut k: usize = 0;
    while k < use_defs.len()
        invariant
            use_defs@ == instr.use_defs(),
            k <= use_defs@.len(),
            forall|j: int| 0 <= j < k ==> ((#[trigger] ud_register(use_defs@[j].0)) matches Register::Virtual { index, .. } ==> index < n),
        decreases use_defs.len() - k,
    {
        let reg = match use_defs[k].0 {
            UseDef::Use(r) => r,
            UseDef::Def(r) => r,
            UseDef::UseDef(r) => r,
        };
        if beyond(reg, n) {
            proof {
                assert(ud_register(instr.use_defs()[k as int].0) == reg);
                assert(!((ud_register(instr.use_defs()[k as int].0)) matches Register::Virtual { index, .. } ==> index < n));
            }
            return false;
        }
        k = k + 1;
    }
    let slots = instr.get_operands();
    let mut s: usize = 0;
    while s < slots.len()
        invariant
            slots@ == instr.operand_slots(),
            s <= slots@.len(),
            forall|t: int, q: int|
                0 <= t < s && 0 <= q < operand_registers(slots@[t].1).len() ==> ((#[trigger] operand_registers(slots@[t].1)[q]) matches Register::Virtual {
                    index,
                    ..
                } ==> index < n),
        decreases slots.len() - s,
    {
        let regs = registers_of(slots[s].1);
        let mut q: usize = 0;
        while q < regs.len()
            invariant
                slots@ == instr.operand_slots(),
                s < slots@.len(),
                regs@ == operand_registers(slots@[s as int].1),
                q <= regs@.len(),
                forall|j: int| 0 <= j < q ==> ((#[trigger] regs@[j]) matches Register::Virtual { index, .. } ==> index < n),
            decreases regs.len() - q,
        {
            if beyond(regs[q], n) {
                proof {
                    assert(operand_registers(instr.operand_slots()[s as int].1)[q as int] == regs@[q as int]);
                    assert(!((operand_registers(instr.operand_slots()[s as int].1)[q as int]) matches Register::Virtual { index, .. } ==> index < n));
                }
                return false;
            }
            q = q + 1;
        }
        s = s + 1;
    }
    true
}

} // verus!
