//! Pieces of the interval-based register allocator: live ranges, the set
//! of host registers in use, and the queries the allocator makes of them.
use vstd::prelude::*;
use crate::regset::{PhysicalRegisterSet, in_set, lemma_set_len};
use crate::registers::{PhysicalRegister, Register};
use crate::width::Width;

verus! {

/// The instructions a register is live over: from `start`, up to `end`
/// once it is known.
#[derive(Debug, Clone, Copy, PartialEq, Eq, Structural)]
pub struct Range {
    start: usize,
    end: Option<usize>,
}

impl Range {
    /// The first instruction of the range.
    pub closed spec fn spec_start(&self) -> usize {
        self.start
    }

    /// The end of the range, once known.
    pub closed spec fn spec_end(&self) -> Option<usize> {
        self.end
    }

    /// The range from `start` to `end`.
    pub fn new(start: usize, end: usize) -> (r: Range)
        ensures
            r.spec_start() == start,
            r.spec_end() == Some(end),
    {
        Range { start, end: Some(end) }
    }

    /// The range from `start` whose end is not known yet.
    pub fn new_partial(start: usize) -> (r: Range)
        ensures
            r.spec_start() == start,
            r.spec_end() is None,
    {
        Range { start, end: None }
    }

    /// The first instruction of the range.
    pub fn start(&self) -> (r: usize)
        ensures
            r == self.spec_start(),
    {
        self.start
    }

    /// The end of the range, once known.
    pub fn end(&self) -> (r: Option<usize>)
        ensures
            r == self.spec_end(),
    {
        self.end
    }

    /// The end of the range, to be set.
    pub fn end_mut(&mut self) -> (r: &mut Option<usize>)
        ensures
            *r == old(self).spec_end(),
            final(self).spec_start() == old(self).spec_start(),
            final(self).spec_end() == *final(r),
    {
        &mut self.end
    }

    /// Whether the end of the range is not known yet.
    pub fn is_partial(&self) -> (r: bool)
        ensures
            r == self.spec_end() is None,
    {
        self.end.is_none()
    }

    /// Whether two complete ranges share an instruction, their ends
    /// counted in.
    pub fn intersects(&self, other: &Range) -> (r: bool)
        requires
            self.spec_end() is Some,
            other.spec_end() is Some,
        ensures
            r == (self.spec_start() <= other.spec_end()->0 && other.spec_start() <= self.spec_end()->0),
    {
        let self_end = match self.end {
            Some(e) => e,
            None => vstd::pervasive::unreached(),
        };
        let other_end = match other.end {
            Some(e) => e,
            None => vstd::pervasive::unreached(),
        };
        self.start <= other_end && other.start <= self_end
    }

    /// Whether a complete range holds `index`, from its start up to but not
    /// including its end.
    pub fn contains(&self, index: usize) -> (r: bool)
        requires
            self.spec_end() is Some,
        ensures
            r == (self.spec_start() <= index && index < self.spec_end()->0),
    {
        let self_end = match self.end {
            Some(e) => e,
            None => vstd::pervasive::unreached(),
        };
        self.start <= index && index < self_end
    }
}

/// Whether two complete ranges share an instruction, their ends counted in.
pub open spec fn ranges_intersect(a: Range, b: Range) -> bool {
    a.spec_start() <= b.spec_end()->0 && b.spec_start() <= a.spec_end()->0
}

/// Intersection of complete ranges is symmetric, and a range intersects
/// itself when it is not empty.
pub proof fn lemma_intersects_symmetric(a: Range, b: Range)
    requires
        a.spec_end() is Some,
        b.spec_end() is Some,
    ensures
        ranges_intersect(a, b) == ranges_intersect(b, a),
        a.spec_start() <= a.spec_end()->0 ==> ranges_intersect(a, a),
{
}

/// The host registers in use at the current point.
pub struct PhysicalUsed {
    set: PhysicalRegisterSet,
}

impl PhysicalUsed {
    /// Whether `reg` is in use.
    pub closed spec fn used(&self, reg: PhysicalRegister) -> bool {
        in_set(self.set@, reg)
    }

    /// No register is in use.
    pub fn empty() -> (r: PhysicalUsed)
        ensures
            forall|reg: PhysicalRegister| !r.used(reg),
    {
        PhysicalUsed { set: PhysicalRegisterSet::new() }
    }

    /// Releases `reg`, which is in use.
    pub fn remove(&mut self, reg: &PhysicalRegister)
        requires
            old(self).used(*reg),
        ensures
            !final(self).used(*reg),
            forall|other: PhysicalRegister| other != *reg ==> #[trigger] final(self).used(other) == old(self).used(other),
    {
        proof {
            lemma_set_len(&self.set);
            crate::registers::lemma_from_index_of_index(*reg);
        }
        self.set.remove(reg);
        proof {
            assert forall|other: PhysicalRegister| other != *reg implies #[trigger] self.used(other) == old(self).used(
                other,
            ) by {
                crate::registers::lemma_from_index_of_index(other);
                crate::registers::lemma_from_index_of_index(*reg);
            }
        }
    }

    /// Whether `reg` is in use.
    pub fn contains(&self, reg: &PhysicalRegister) -> (r: bool)
        ensures
            r == self.used(*reg),
    {
        self.set.contains(reg)
    }

    /// Marks `reg` as in use.
    pub fn insert(&mut self, reg: PhysicalRegister)
        ensures
            final(self).used(reg),
            forall|other: PhysicalRegister| other != reg ==> #[trigger] final(self).used(other) == old(self).used(other),
    {
        proof {
            lemma_set_len(&self.set);
            crate::registers::lemma_from_index_of_index(reg);
        }
        self.set.insert(reg);
        proof {
            assert forall|other: PhysicalRegister| other != reg implies #[trigger] self.used(other) == old(self).used(
                other,
            ) by {
                crate::registers::lemma_from_index_of_index(other);
                crate::registers::lemma_from_index_of_index(reg);
            }
        }
    }

    /// A copy of the set.
    pub fn copy(&self) -> (r: PhysicalUsed)
        ensures
            forall|reg: PhysicalRegister| r.used(reg) == self.used(reg),
    {
        PhysicalUsed { set: self.set.copy() }
    }
}

/// Whether a register of the class a value of `width` lives in (XMM for
/// 128 bits, general purpose otherwise) is free.
pub open spec fn class_has_free(used: &PhysicalUsed, width: Width) -> bool {
    exists|i: nat|
        #![trigger PhysicalRegister::spec_from_index(i)]
        (if width == Width::_128 { 16 <= i < 24 } else { i < 16 }) && !used.used(PhysicalRegister::spec_from_index(i))
}

/// The first free register, in declaration order, of the class a value of
/// `width` lives in.
pub fn allocate_physical_register(used: &PhysicalUsed, width: Width) -> (r: PhysicalRegister)
    requires
        class_has_free(used, width),
    ensures
        !used.used(r),
        r.spec_is_xmm() == (width == Width::_128),
        forall|i: nat|
            (if width == Width::_128 { 16 <= i < r.spec_index() } else { i < r.spec_index() }) ==> used.used(
                #[trigger] PhysicalRegister::spec_from_index(i),
            ),
{
    let (first, last): (usize, usize) = if width == Width::_128 {
        (16, 24)
    } else {
        (0, 16)
    };
    let mut i: usize = first;
    while i < last
        invariant
            first <= i <= last,
            first == (if width == Width::_128 { 16usize } else { 0usize }),
            last == (if width == Width::_128 { 24usize } else { 16usize }),
            class_has_free(used, width),
            forall|k: nat| first <= k < i ==> used.used(#[trigger] PhysicalRegister::spec_from_index(k)),
        decreases last - i,
    {
        let reg = PhysicalRegister::from_index(i);
        if !used.contains(&reg) {
            return reg;
        }
        i = i + 1;
    }
    proof {
        let k = choose|k: nat|
            #![trigger PhysicalRegister::spec_from_index(k)]
            (if width == Width::_128 { 16 <= k < 24 } else { k < 16 }) && !used.used(PhysicalRegister::spec_from_index(k));
        assert(used.used(PhysicalRegister::spec_from_index(k)));
    }
    vstd::pervasive::unreached()
}

/// The registers one of whose complete live ranges intersects `x`, each
/// once, in the order of `live_ranges`.
pub fn query_intersections(x: Range, live_ranges: &Vec<(Register, Vec<Range>)>) -> (r: Vec<Register>)
    requires
        x.spec_end() is Some,
        forall|i: int, j: int|
            0 <= i < live_ranges@.len() && 0 <= j < live_ranges@[i].1@.len() ==> (#[trigger] live_ranges@[i].1@[j]).spec_end() is Some,
    ensures
        forall|reg: Register|
            r@.contains(reg) <==> exists|i: int, j: int|
                0 <= i < live_ranges@.len() && 0 <= j < live_ranges@[i].1@.len() && #[trigger] live_ranges@[i].1@[j].spec_start()
                    <= x.spec_end()->0 && x.spec_start() <= live_ranges@[i].1@[j].spec_end()->0 && live_ranges@[i].0 == reg,
        r@.no_duplicates(),
{
    let mut result: Vec<Register> = Vec::new();
    let mut i: usize = 0;
    while i < live_ranges.len()
        invariant
            i <= live_ranges@.len(),
            x.spec_end() is Some,
            forall|a: int, b: int|
                0 <= a < live_ranges@.len() && 0 <= b < live_ranges@[a].1@.len() ==> (#[trigger] live_ranges@[a].1@[b]).spec_end() is Some,
            result@.no_duplicates(),
            forall|reg: Register|
                result@.contains(reg) <==> exists|a: int, b: int|
                    0 <= a < i && 0 <= b < live_ranges@[a].1@.len() && #[trigger] live_ranges@[a].1@[b].spec_start()
                        <= x.spec_end()->0 && x.spec_start() <= live_ranges@[a].1@[b].spec_end()->0 && live_ranges@[a].0 == reg,
        decreases live_ranges@.len() - i,
    {
        let reg = live_ranges[i].0;
        let ranges = &live_ranges[i].1;
        let mut hit = false;
        let mut j: usize = 0;
        while j < ranges.len()
            invariant
                j <= ranges@.len(),
                *ranges == live_ranges@[i as int].1,
                i < live_ranges@.len(),
                x.spec_end() is Some,
                forall|b: int| 0 <= b < ranges@.len() ==> (#[trigger] ranges@[b]).spec_end() is Some,
                hit <==> exists|b: int|
                    0 <= b < j && #[trigger] ranges@[b].spec_start() <= x.spec_end()->0 && x.spec_start()
                        <= ranges@[b].spec_end()->0,
            decreases ranges@.len() - j,
        {
            if x.intersects(&ranges[j]) {
                hit = true;
            }
            j = j + 1;
        }
        let ghost before = result@;
        if hit && !contains_register(&result, &reg) {
            result.push(reg);
        }
        proof {
            assert forall|r2: Register|
                result@.contains(r2) implies exists|a: int, b: int|
                    0 <= a < i + 1 && 0 <= b < live_ranges@[a].1@.len() && #[trigger] live_ranges@[a].1@[b].spec_start()
                        <= x.spec_end()->0 && x.spec_start() <= live_ranges@[a].1@[b].spec_end()->0 && live_ranges@[a].0
                        == r2 by {
                if !before.contains(r2) {
                    assert(r2 == reg && hit);
                    let b = choose|b: int|
                        0 <= b < ranges@.len() && #[trigger] ranges@[b].spec_start() <= x.spec_end()->0 && x.spec_start()
                            <= ranges@[b].spec_end()->0;
                    assert(live_ranges@[i as int].1@[b] == ranges@[b]);
                }
            }
            assert forall|r2: Register|
                (exists|a: int, b: int|
                    0 <= a < i + 1 && 0 <= b < live_ranges@[a].1@.len() && #[trigger] live_ranges@[a].1@[b].spec_start()
                        <= x.spec_end()->0 && x.spec_start() <= live_ranges@[a].1@[b].spec_end()->0 && live_ranges@[a].0
                        == r2) implies result@.contains(r2) by {
                let (a, b) = choose|a: int, b: int|
                    0 <= a < i + 1 && 0 <= b < live_ranges@[a].1@.len() && #[trigger] live_ranges@[a].1@[b].spec_start()
                        <= x.spec_end()->0 && x.spec_start() <= live_ranges@[a].1@[b].spec_end()->0 && live_ranges@[a].0
                        == r2;
                if a == i {
                    assert(ranges@[b] == live_ranges@[a].1@[b]);
                    assert(hit);
                    assert(r2 == reg);
                    if !before.contains(reg) {
                        assert(result@[before.len() as int] == reg);
                    }
                } else {
                    assert(before.contains(r2));
                    let k = choose|k: int| 0 <= k < before.len() && before[k] == r2;
                    assert(result@[k] == r2);
                }
            }
        }
        i = i + 1;
    }
    result
}

fn contains_register(regs: &Vec<Register>, reg: &Register) -> (r: bool)
    ensures
        r == regs@.contains(*reg),
{
    let mut i: usize = 0;
    while i < regs.len()
        invariant
            i <= regs@.len(),
            forall|k: int| 0 <= k < i ==> regs@[k] != *reg,
        decreases regs@.len() - i,
    {
        if regs[i] == *reg {
            return true;
        }
        i = i + 1;
    }
    false
}

/// The interval-based allocator's configuration: where the translation's
/// variables start in the register file.
pub struct FreshAllocator {
    pub global_register_offset: usize,
}

impl FreshAllocator {
    /// An allocator for variables at `global_register_offset`.
    pub fn new(num_virt_regs: usize, global_register_offset: usize) -> (r: FreshAllocator)
        ensures
            r.global_register_offset == global_register_offset,
    {
        FreshAllocator { global_register_offset }
    }
}

} // verus!
