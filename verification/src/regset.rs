//! Sets of host registers and the per-register records of the register
//! allocator.
use vstd::prelude::*;
use crate::registers::{PHYSICAL_REGISTER_COUNT, PhysicalRegister, Register};

verus! {

broadcast use vstd::array::group_array_axioms;

/// A set of host registers, one flag per register.
pub struct PhysicalRegisterSet {
    set: [bool; PHYSICAL_REGISTER_COUNT],
}

impl View for PhysicalRegisterSet {
    type V = Seq<bool>;

    /// The flags, indexed by [`PhysicalRegister::spec_index`].
    closed spec fn view(&self) -> Seq<bool> {
        self.set@
    }
}

/// Whether the register is a member of the flags.
pub open spec fn in_set(flags: Seq<bool>, reg: PhysicalRegister) -> bool {
    flags[reg.spec_index() as int]
}

/// The first register (in index order) that is in `a` and not in `b`.
pub open spec fn first_in_not_in(a: Seq<bool>, b: Seq<bool>) -> Option<nat> {
    if exists|i: int| 0 <= i < PHYSICAL_REGISTER_COUNT && a[i] && !b[i] {
        Some(
            (choose|i: int|
                0 <= i < PHYSICAL_REGISTER_COUNT && a[i] && !b[i] && forall|j: int|
                    0 <= j < i ==> !(a[j] && !b[j])) as nat,
        )
    } else {
        None
    }
}

/// A set has one flag for each register.
pub proof fn lemma_set_len(s: &PhysicalRegisterSet)
    ensures
        s@.len() == PHYSICAL_REGISTER_COUNT,
{
}

impl PhysicalRegisterSet {
    /// The empty set.
    pub fn new() -> (r: PhysicalRegisterSet)
        ensures
            r@ == Seq::new(PHYSICAL_REGISTER_COUNT as nat, |i: int| false),
    {
        let r = PhysicalRegisterSet { set: [false; PHYSICAL_REGISTER_COUNT] };
        assert(r@ =~= Seq::new(PHYSICAL_REGISTER_COUNT as nat, |i: int| false));
        r
    }

    /// Adds a register.
    pub fn insert(&mut self, phys: PhysicalRegister)
        ensures
            final(self)@ == old(self)@.update(phys.spec_index() as int, true),
    {
        let i = phys.index();
        self.set[i] = true;
    }

    /// Removes a register.
    pub fn remove(&mut self, phys: &PhysicalRegister)
        ensures
            final(self)@ == old(self)@.update(phys.spec_index() as int, false),
    {
        let i = phys.index();
        self.set[i] = false;
    }

    /// Whether the register is in the set.
    pub fn contains(&self, phys: &PhysicalRegister) -> (r: bool)
        ensures
            r == in_set(self@, *phys),
    {
        self.set[phys.index()]
    }

    /// The first register, in index order, that is in this set and not in
    /// `other`.
    pub fn first_difference(&self, other: &Self) -> (r: Option<PhysicalRegister>)
        ensures
            match first_in_not_in(self@, other@) {
                Some(i) => r == Some(PhysicalRegister::spec_from_index(i)),
                None => r is None,
            },
            r matches Some(p) ==> in_set(self@, p) && !in_set(other@, p),
    {
        let mut i: usize = 0;
        while i < PHYSICAL_REGISTER_COUNT
            invariant
                i <= PHYSICAL_REGISTER_COUNT,
                self@.len() == PHYSICAL_REGISTER_COUNT,
                other@.len() == PHYSICAL_REGISTER_COUNT,
                forall|j: int| 0 <= j < i ==> !(self@[j] && !other@[j]),
            decreases PHYSICAL_REGISTER_COUNT - i,
        {
            if self.set[i] && !other.set[i] {
                let ghost w = choose|k: int|
                    0 <= k < PHYSICAL_REGISTER_COUNT && self@[k] && !other@[k] && forall|j: int|
                        0 <= j < k ==> !(self@[j] && !other@[j]);
                proof {
                    assert(0 <= i < PHYSICAL_REGISTER_COUNT && self@[i as int] && !other@[i as int]
                        && forall|j: int| 0 <= j < i ==> !(self@[j] && !other@[j]));
                    if w < i {
                        assert(!(self@[w] && !other@[w]));
                    } else if w > i {
                        assert(!(self@[i as int] && !other@[i as int]));
                    }
                    assert(w == i);
                }
                let p = PhysicalRegister::from_index(i);
                assert(p.spec_index() == i);
                return Some(p);
            }
            i = i + 1;
        }
        None
    }

    /// Adds every register of `other`.
    pub fn extend(&mut self, other: &Self)
        ensures
            final(self)@ == Seq::new(
                PHYSICAL_REGISTER_COUNT as nat,
                |i: int| old(self)@[i] || other@[i],
            ),
    {
        let ghost start = self@;
        let mut i: usize = 0;
        while i < PHYSICAL_REGISTER_COUNT
            invariant
                i <= PHYSICAL_REGISTER_COUNT,
                self.set@.len() == PHYSICAL_REGISTER_COUNT,
                start.len() == PHYSICAL_REGISTER_COUNT,
                other@.len() == PHYSICAL_REGISTER_COUNT,
                forall|j: int| 0 <= j < i ==> self.set@[j] == (start[j] || other@[j]),
                forall|j: int| i <= j < PHYSICAL_REGISTER_COUNT ==> self.set@[j] == start[j],
            decreases PHYSICAL_REGISTER_COUNT - i,
        {
            let ghost before = self.set@;
            assert(forall|j: int| 0 <= j < i ==> before[j] == (start[j] || other@[j]));
            if other.set[i] {
                self.set[i] = true;
                assert(self.set@ == before.update(i as int, true));
            }
            assert(self.set@[i as int] == (start[i as int] || other@[i as int]));
            assert forall|j: int| 0 <= j < i + 1 implies self.set@[j] == (start[j] || other@[j]) by {
                if j < i {
                    assert(before[j] == (start[j] || other@[j]));
                }
            }
            i = i + 1;
        }
        proof {
            assert(self@ =~= Seq::new(
                PHYSICAL_REGISTER_COUNT as nat,
                |i: int| start[i] || other@[i],
            ));
        }
    }

    /// A copy of the set.
    pub fn copy(&self) -> (r: Self)
        ensures
            r@ == self@,
    {
        PhysicalRegisterSet { set: self.set }
    }

    /// The registers of the set, in index order.
    pub fn iter(&self) -> (r: Vec<PhysicalRegister>)
        ensures
            forall|k: int| 0 <= k < r@.len() ==> in_set(self@, #[trigger] r@[k]),
            forall|p: PhysicalRegister| in_set(self@, p) ==> r@.contains(p),
            forall|a: int, b: int| 0 <= a < b < r@.len() ==> (#[trigger] r@[a]).spec_index() < (#[trigger] r@[b]).spec_index(),
    {
        let mut out: Vec<PhysicalRegister> = Vec::new();
        let mut i: usize = 0;
        while i < PHYSICAL_REGISTER_COUNT
            invariant
                i <= PHYSICAL_REGISTER_COUNT,
                self@.len() == PHYSICAL_REGISTER_COUNT,
                forall|k: int| 0 <= k < out@.len() ==> in_set(self@, #[trigger] out@[k]),
                forall|k: int| 0 <= k < out@.len() ==> (#[trigger] out@[k]).spec_index() < i,
                forall|p: PhysicalRegister| p.spec_index() < i && in_set(self@, p) ==> out@.contains(p),
                forall|a: int, b: int| 0 <= a < b < out@.len() ==> (#[trigger] out@[a]).spec_index() < (#[trigger] out@[b]).spec_index(),
            decreases PHYSICAL_REGISTER_COUNT - i,
        {
            if self.set[i] {
                let p = PhysicalRegister::from_index(i);
                let ghost before = out@;
                out.push(p);
                proof {
                    assert(out@[out@.len() - 1] == p);
                    assert forall|q: PhysicalRegister| q.spec_index() < i + 1 && in_set(self@, q) implies out@.contains(q) by {
                        crate::registers::lemma_from_index_of_index(q);
                        if q.spec_index() < i {
                            assert(before.contains(q));
                            let k = choose|k: int| 0 <= k < before.len() && before[k] == q;
                            assert(out@[k] == q);
                        } else {
                            assert(q == p);
                        }
                    }
                }
            } else {
                proof {
                    assert forall|q: PhysicalRegister| q.spec_index() < i + 1 && in_set(self@, q) implies out@.contains(q) by {
                        if q.spec_index() == i {
                            assert(!in_set(self@, q));
                        }
                    }
                }
            }
            i = i + 1;
        }
        proof {
            assert forall|p: PhysicalRegister| in_set(self@, p) implies out@.contains(p) by {
                crate::registers::lemma_from_index_of_index(p);
            }
        }
        out
    }
}

/// What the allocator knows of one register: where its live range starts
/// and ends, the host register it was given, the register a host register
/// currently holds, the host registers it must not share with, and how many
/// jumps came before its first definition.
pub struct RegisterTrack {
    pub first_def: Option<usize>,
    pub last_use: Option<usize>,
    pub physical_register: Option<PhysicalRegister>,
    pub tracking: Option<Register>,
    pub interference: PhysicalRegisterSet,
    pub last_control_flow_count: u64,
}

impl RegisterTrack {
    /// A record with nothing known.
    pub fn empty() -> (r: RegisterTrack)
        ensures
            r.first_def is None,
            r.last_use is None,
            r.physical_register is None,
            r.tracking is None,
            r.interference@ == Seq::new(PHYSICAL_REGISTER_COUNT as nat, |i: int| false),
            r.last_control_flow_count == 0,
    {
        RegisterTrack {
            first_def: None,
            last_use: None,
            physical_register: None,
            tracking: None,
            interference: PhysicalRegisterSet::new(),
            last_control_flow_count: 0,
        }
    }
}

/// Whether two registers share a record: the same host register, or
/// virtual registers of the same number.
pub open spec fn same_record(a: Register, b: Register) -> bool {
    match (a, b) {
        (Register::Physical(p), Register::Physical(q)) => p == q,
        (Register::Virtual { index: i, .. }, Register::Virtual { index: j, .. }) => i == j,
        _ => false,
    }
}

/// The allocator's records: one per virtual register and one per host
/// register.
pub struct RegisterTracker {
    pub virt: Vec<RegisterTrack>,
    pub phys: Vec<RegisterTrack>,
}

impl RegisterTracker {
    /// Whether the records can be looked up by `register`: global slots
    /// have no record.
    pub open spec fn knows(&self, register: Register) -> bool {
        match register {
            Register::Physical(p) => p.spec_index() < self.phys@.len(),
            Register::Virtual { index, .. } => index < self.virt@.len(),
            Register::Global(_) => false,
        }
    }

    /// The record of a register that has one.
    pub open spec fn track(&self, register: Register) -> RegisterTrack {
        match register {
            Register::Physical(p) => self.phys@[p.spec_index() as int],
            Register::Virtual { index, .. } => self.virt@[index as int],
            Register::Global(_) => self.phys@[0],
        }
    }

    /// Empty records for `num_virtual_registers` virtual registers and for
    /// every host register.
    pub fn new(num_virtual_registers: usize) -> (r: RegisterTracker)
        ensures
            r.virt@.len() == num_virtual_registers,
            r.phys@.len() == PHYSICAL_REGISTER_COUNT,
            forall|i: int| 0 <= i < r.virt@.len() ==> {
                let t = #[trigger] r.virt@[i];
                t.first_def is None && t.last_use is None && t.physical_register is None
                    && t.tracking is None && t.last_control_flow_count == 0
            },
            forall|i: int| 0 <= i < r.phys@.len() ==> {
                let t = #[trigger] r.phys@[i];
                t.first_def is None && t.last_use is None && t.physical_register is None
                    && t.tracking is None && t.last_control_flow_count == 0
            },
    {
        let mut virt: Vec<RegisterTrack> = Vec::new();
        let mut i: usize = 0;
        while i < num_virtual_registers
            invariant
                i <= num_virtual_registers,
                virt@.len() == i,
                forall|k: int| 0 <= k < virt@.len() ==> {
                    let t = #[trigger] virt@[k];
                    t.first_def is None && t.last_use is None && t.physical_register is None
                        && t.tracking is None && t.last_control_flow_count == 0
                },
            decreases num_virtual_registers - i,
        {
            virt.push(RegisterTrack::empty());
            i = i + 1;
        }
        let mut phys: Vec<RegisterTrack> = Vec::new();
        let mut j: usize = 0;
        while j < PHYSICAL_REGISTER_COUNT
            invariant
                j <= PHYSICAL_REGISTER_COUNT,
                phys@.len() == j,
                forall|k: int| 0 <= k < phys@.len() ==> {
                    let t = #[trigger] phys@[k];
                    t.first_def is None && t.last_use is None && t.physical_register is None
                        && t.tracking is None && t.last_control_flow_count == 0
                },
            decreases PHYSICAL_REGISTER_COUNT - j,
        {
            phys.push(RegisterTrack::empty());
            j = j + 1;
        }
        RegisterTracker { virt, phys }
    }

    /// The record of `register`.
    pub fn get(&self, register: &Register) -> (r: &RegisterTrack)
        requires
            self.knows(*register),
        ensures
            *r == self.track(*register),
    {
        match register {
            Register::Physical(p) => &self.phys[p.index()],
            Register::Virtual { index, .. } => &self.virt[*index],
            Register::Global(_) => vstd::pervasive::unreached(),
        }
    }

    /// The record of `register`, to be changed in place.
    pub fn get_mut(&mut self, register: &Register) -> (r: &mut RegisterTrack)
        requires
            old(self).knows(*register),
        ensures
            *r == old(self).track(*register),
            match *register {
                Register::Physical(p) => final(self).phys@ == old(self).phys@.update(p.spec_index() as int, *final(r))
                    && final(self).virt@ == old(self).virt@,
                Register::Virtual { index, .. } => final(self).virt@ == old(self).virt@.update(index as int, *final(r))
                    && final(self).phys@ == old(self).phys@,
                Register::Global(_) => false,
            },
    {
        match register {
            Register::Physical(p) => {
                let i = p.index();
                &mut self.phys[i]
            },
            Register::Virtual { index, .. } => &mut self.virt[*index],
            Register::Global(_) => vstd::pervasive::unreached(),
        }
    }

    /// Takes the record of `register` out, leaving an empty one.
    pub fn take(&mut self, register: &Register) -> (r: RegisterTrack)
        requires
            old(self).knows(*register),
        ensures
            r == old(self).track(*register),
            match *register {
                Register::Physical(p) => final(self).virt@ == old(self).virt@ && final(self).phys@
                    == old(self).phys@.update(
                    p.spec_index() as int,
                    final(self).phys@[p.spec_index() as int],
                ),
                Register::Virtual { index, .. } => final(self).phys@ == old(self).phys@
                    && final(self).virt@ == old(self).virt@.update(
                    index as int,
                    final(self).virt@[index as int],
                ),
                Register::Global(_) => false,
            },
            final(self).virt@.len() == old(self).virt@.len(),
            final(self).phys@.len() == old(self).phys@.len(),
            forall|x: Register| #[trigger] final(self).knows(x) == old(self).knows(x),
            forall|x: Register| old(self).knows(x) && !same_record(x, *register) ==> #[trigger] final(self).track(x) == old(self).track(x),
    {
        let mut empty = RegisterTrack::empty();
        match register {
            Register::Physical(p) => {
                let i = p.index();
                std::mem::swap(&mut self.phys[i], &mut empty);
            },
            Register::Virtual { index, .. } => {
                std::mem::swap(&mut self.virt[*index], &mut empty);
            },
            Register::Global(_) => vstd::pervasive::unreached(),
        }
        empty
    }

    /// Replaces the record of `register`.
    pub fn set(&mut self, register: &Register, track: RegisterTrack)
        requires
            old(self).knows(*register),
        ensures
            match *register {
                Register::Physical(p) => final(self).phys@ == old(self).phys@.update(
                    p.spec_index() as int,
                    track,
                ) && final(self).virt@ == old(self).virt@,
                Register::Virtual { index, .. } => final(self).virt@ == old(self).virt@.update(
                    index as int,
                    track,
                ) && final(self).phys@ == old(self).phys@,
                Register::Global(_) => false,
            },
            final(self).track(*register) == track,
            forall|x: Register| #[trigger] final(self).knows(x) == old(self).knows(x),
            forall|x: Register| old(self).knows(x) && !same_record(x, *register) ==> #[trigger] final(self).track(x) == old(self).track(x),
    {
        match register {
            Register::Physical(p) => {
                let i = p.index();
                self.phys.set(i, track);
            },
            Register::Virtual { index, .. } => {
                self.virt.set(*index, track);
            },
            Register::Global(_) => vstd::pervasive::unreached(),
        }
    }
}

} // verus!
