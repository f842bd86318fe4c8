//! Extended page tables: the layout of their entries, and the four-level
//! tables that map guest-physical to host-physical addresses, kept here as
//! the tables' contents.
use vstd::prelude::*;
use crate::bits::{bit_extract, bit_extract_spec, bit_insert, bit_insert_spec, lemma_extract_of_insert};

verus! {

/// Whether bit `bit` of `entry` is set.
pub open spec fn entry_flag(entry: u64, bit: u64) -> bool {
    bit_extract_spec(entry, bit, 1) == 1
}

/// `entry` with bit `bit` set to `value`.
pub open spec fn with_flag(entry: u64, bit: u64, value: bool) -> u64 {
    bit_insert_spec(
        entry,
        if value {
            1
        } else {
            0
        },
        bit,
        1,
    )
}

/// The frame number an entry of a table above the last level, or of the
/// last level, holds (bits 12 to 47).
pub open spec fn entry_frame(entry: u64) -> u64 {
    bit_extract_spec(entry, 12, 36)
}

fn get_flag(entry: u64, bit: u64) -> (r: bool)
    requires
        bit < 64,
    ensures
        r == entry_flag(entry, bit),
{
    bit_extract(entry, bit, 1) == 1
}

fn put_flag(entry: u64, bit: u64, value: bool) -> (r: u64)
    requires
        bit < 64,
    ensures
        r == with_flag(entry, bit, value),
{
    bit_insert(
        entry,
        if value {
            1
        } else {
            0
        },
        bit,
        1,
    )
}

/// An entry of an extended page table: read, write and execute access in
/// bits 0 to 2, the page-size bit in bit 7 and the frame number of what it
/// maps in bits 12 to 47.
#[derive(Debug, Clone, Copy, PartialEq, Eq, Structural)]
pub struct EptEntry(pub u64);

impl EptEntry {
    /// Whether reads are allowed.
    pub fn read(&self) -> (r: bool)
        ensures
            r == entry_flag(self.0, 0),
    {
        get_flag(self.0, 0)
    }

    /// Whether writes are allowed.
    pub fn write(&self) -> (r: bool)
        ensures
            r == entry_flag(self.0, 1),
    {
        get_flag(self.0, 1)
    }

    /// Whether instruction fetches are allowed.
    pub fn execute(&self) -> (r: bool)
        ensures
            r == entry_flag(self.0, 2),
    {
        get_flag(self.0, 2)
    }

    /// Whether the entry maps a page rather than a table.
    pub fn size(&self) -> (r: bool)
        ensures
            r == entry_flag(self.0, 7),
    {
        get_flag(self.0, 7)
    }

    /// The frame number the entry holds.
    pub fn address(&self) -> (r: u64)
        ensures
            r == entry_frame(self.0),
    {
        bit_extract(self.0, 12, 36)
    }

    /// Allows or forbids reads.
    pub fn set_read(&mut self, value: bool)
        ensures
            final(self).0 == with_flag(old(self).0, 0, value),
    {
        self.0 = put_flag(self.0, 0, value);
    }

    /// Allows or forbids writes.
    pub fn set_write(&mut self, value: bool)
        ensures
            final(self).0 == with_flag(old(self).0, 1, value),
    {
        self.0 = put_flag(self.0, 1, value);
    }

    /// Allows or forbids instruction fetches.
    pub fn set_execute(&mut self, value: bool)
        ensures
            final(self).0 == with_flag(old(self).0, 2, value),
    {
        self.0 = put_flag(self.0, 2, value);
    }

    /// Sets the page-size bit.
    pub fn set_size(&mut self, value: bool)
        ensures
            final(self).0 == with_flag(old(self).0, 7, value),
    {
        self.0 = put_flag(self.0, 7, value);
    }

    /// Sets the frame number, keeping its low 36 bits.
    pub fn set_address(&mut self, frame: u64)
        ensures
            final(self).0 == bit_insert_spec(old(self).0, frame, 12, 36),
    {
        self.0 = bit_insert(self.0, frame, 12, 36);
    }
}

/// An entry of a page-directory-pointer table that maps a 1-GByte page:
/// read, write and execute access in bits 0 to 2, the memory type in bits
/// 3 to 5, the page-size bit in bit 7 and the frame number in bits 12 to
/// 51.
#[derive(Debug, Clone, Copy, PartialEq, Eq, Structural)]
pub struct Pdp1GEntry(pub u64);

impl Pdp1GEntry {
    /// Whether the entry maps a 1-GByte page.
    pub fn size(&self) -> (r: bool)
        ensures
            r == entry_flag(self.0, 7),
    {
        get_flag(self.0, 7)
    }

    /// The frame number the entry holds.
    pub fn address(&self) -> (r: u64)
        ensures
            r == bit_extract_spec(self.0, 12, 40),
    {
        bit_extract(self.0, 12, 40)
    }

    /// The memory type.
    pub fn ept_memory_type(&self) -> (r: u64)
        ensures
            r == bit_extract_spec(self.0, 3, 3),
    {
        bit_extract(self.0, 3, 3)
    }

    /// Sets the frame number, keeping its low 40 bits.
    pub fn set_address(&mut self, frame: u64)
        ensures
            final(self).0 == bit_insert_spec(old(self).0, frame, 12, 40),
    {
        self.0 = bit_insert(self.0, frame, 12, 40);
    }

    /// Allows or forbids reads.
    pub fn set_read(&mut self, value: bool)
        ensures
            final(self).0 == with_flag(old(self).0, 0, value),
    {
        self.0 = put_flag(self.0, 0, value);
    }

    /// Allows or forbids writes.
    pub fn set_write(&mut self, value: bool)
        ensures
            final(self).0 == with_flag(old(self).0, 1, value),
    {
        self.0 = put_flag(self.0, 1, value);
    }

    /// Allows or forbids instruction fetches.
    pub fn set_execute(&mut self, value: bool)
        ensures
            final(self).0 == with_flag(old(self).0, 2, value),
    {
        self.0 = put_flag(self.0, 2, value);
    }

    /// Sets the page-size bit.
    pub fn set_size(&mut self, value: bool)
        ensures
            final(self).0 == with_flag(old(self).0, 7, value),
    {
        self.0 = put_flag(self.0, 7, value);
    }
}

/// The access a page allows.
#[derive(Debug, Clone, Copy, PartialEq, Eq, Structural)]
pub struct Flags {
    pub read: bool,
    pub write: bool,
    pub execute: bool,
}

/// The indices of a guest-physical address in the four levels of tables.
#[derive(Debug, Clone, Copy, PartialEq, Eq, Structural)]
pub struct PageTableIndices {
    pub pml4: u16,
    pub pdp: u16,
    pub pd: u16,
    pub pt: u16,
}

/// The index of `address` in the table of the level whose entries each
/// cover `1 << shift` bytes.
pub open spec fn level_index(address: u64, shift: u64) -> u16 {
    bit_extract_spec(address, shift, 9) as u16
}

proof fn lemma_nine_bits(v: u64, shift: u64)
    requires
        shift < 64,
    ensures
        bit_extract_spec(v, shift, 9) < 512,
{
    assert((1u64 << 9u32) == 512u64) by (bit_vector);
    assert(crate::bits::mask_spec(9) == 511u64);
    assert((v >> shift) & 511u64 < 512u64) by (bit_vector);
}

impl PageTableIndices {
    /// The four indices of `address`: bits 39 to 47, 30 to 38, 21 to 29,
    /// 12 to 20.
    pub fn from_address(address: u64) -> (r: PageTableIndices)
        ensures
            r.pml4 == level_index(address, 39),
            r.pdp == level_index(address, 30),
            r.pd == level_index(address, 21),
            r.pt == level_index(address, 12),
            r.pml4 < 512 && r.pdp < 512 && r.pd < 512 && r.pt < 512,
    {
        proof {
            lemma_nine_bits(address, 39);
            lemma_nine_bits(address, 30);
            lemma_nine_bits(address, 21);
            lemma_nine_bits(address, 12);
        }
        PageTableIndices {
            pml4: bit_extract(address, 39, 9) as u16,
            pdp: bit_extract(address, 30, 9) as u16,
            pd: bit_extract(address, 21, 9) as u16,
            pt: bit_extract(address, 12, 9) as u16,
        }
    }
}

/// Why the tables could not be walked.
#[derive(Debug, Clone, Copy, PartialEq, Eq, Structural)]
pub enum EptError {
    /// Every table has been used.
    OutOfTables,
    /// The walk would go through a 1-GByte page.
    ThroughHugePage,
}

/// An entry that points to a table: its frame number, and read, write and
/// execute access.
pub open spec fn table_entry(frame: u64) -> u64 {
    with_flag(with_flag(with_flag(bit_insert_spec(0, frame, 12, 36), 0, true), 1, true), 2, true)
}

/// The extended page tables of a guest: a pool of `capacity` tables at
/// consecutive frames from `base_frame`, of which the first ones are in
/// use, the first being the top-level (PML4) table.
pub struct Ept {
    base_frame: u64,
    capacity: usize,
    tables: Vec<Vec<u64>>,
    levels: Ghost<Seq<nat>>,
}

impl Ept {
    /// The frame of the first table of the pool.
    pub closed spec fn spec_base_frame(&self) -> u64 {
        self.base_frame
    }

    /// The number of tables in the pool.
    pub closed spec fn spec_capacity(&self) -> nat {
        self.capacity as nat
    }

    /// The contents of the tables in use, in the order of their frames.
    pub closed spec fn spec_tables(&self) -> Seq<Seq<u64>> {
        Seq::new(self.tables@.len(), |t: int| self.tables@[t]@)
    }

    /// The level of each table in use: 4 for the top table, 1 for the
    /// tables of 4-KByte pages.
    pub closed spec fn spec_levels(&self) -> Seq<nat> {
        self.levels@
    }

    /// The position in the pool of the table an entry points to.
    pub open spec fn table_index(&self, entry: u64) -> int {
        entry_frame(entry) - self.spec_base_frame()
    }

    /// Whether the walk follows `entry` of a table at `level` to a table.
    pub open spec fn follows(level: nat, entry: u64) -> bool {
        level >= 2 && entry != 0 && !(level == 3 && entry_flag(entry, 7))
    }

    /// The tables are consistent: each is 512 entries, and each entry the
    /// walk follows points to a table in use one level down.
    pub open spec fn wf(&self) -> bool {
        let tables = self.spec_tables();
        let levels = self.spec_levels();
        &&& 1 <= tables.len() <= self.spec_capacity()
        &&& levels.len() == tables.len()
        &&& levels[0] == 4
        &&& self.spec_base_frame() + self.spec_capacity() < 0x10_0000_0000
        &&& forall|t: int| 0 <= t < tables.len() ==> (#[trigger] tables[t]).len() == 512 && 1 <= levels[t] <= 4
        &&& forall|t: int, i: int|
            0 <= t < tables.len() && 0 <= i < 512 && Self::follows(levels[t], #[trigger] tables[t][i]) ==> {
                let j = self.table_index(tables[t][i]);
                0 <= j < tables.len() && levels[j] == levels[t] - 1
            }
    }

    /// The physical address of the top-level table.
    pub open spec fn spec_phys_addr(&self) -> u64 {
        (self.spec_base_frame() * 4096) as u64
    }

    /// Tables over a pool of `num_tables` tables from frame
    /// `tables_phys / 4096`, with an empty top-level table.
    pub fn new(tables_phys: u64, num_tables: usize) -> (r: Ept)
        requires
            num_tables >= 1,
            tables_phys / 4096 + num_tables < 0x10_0000_0000,
        ensures
            r.wf(),
            r.spec_base_frame() == tables_phys / 4096,
            r.spec_capacity() == num_tables,
            r.spec_tables() == seq![Seq::new(512, |i: int| 0u64)],
    {
        let mut ept = Ept { base_frame: tables_phys / 4096, capacity: num_tables, tables: Vec::new(), levels: Ghost(Seq::<nat>::empty()) };
        let _ = ept.allocate_page_table(Ghost(4));
        proof {
            assert(ept.spec_tables() =~= seq![Seq::new(512, |i: int| 0u64)]);
        }
        ept
    }

    /// Takes the next table of the pool, empty, for `level`; returns its
    /// frame number.
    fn allocate_page_table(&mut self, level: Ghost<nat>) -> (frame: u64)
        requires
            old(self).spec_tables().len() < old(self).spec_capacity(),
            old(self).spec_base_frame() + old(self).spec_capacity() < 0x10_0000_0000,
            1 <= level@ <= 4,
        ensures
            frame == old(self).spec_base_frame() + old(self).spec_tables().len(),
            final(self).spec_tables() == old(self).spec_tables().push(Seq::new(512, |i: int| 0u64)),
            final(self).spec_levels() == old(self).spec_levels().push(level@),
            final(self).spec_base_frame() == old(self).spec_base_frame(),
            final(self).spec_capacity() == old(self).spec_capacity(),
    {
        let frame = self.base_frame + self.tables.len() as u64;
        let mut table: Vec<u64> = Vec::new();
        let mut i: usize = 0;
        while i < 512
            invariant
                i <= 512,
                table@ == Seq::new(i as nat, |k: int| 0u64),
            decreases 512 - i,
        {
            table.push(0);
            i = i + 1;
            proof {
                assert(table@ =~= Seq::new(i as nat, |k: int| 0u64));
            }
        }
        self.tables.push(table);
        self.levels = Ghost(self.levels@.push(level@));
        proof {
            assert(self.spec_tables() =~= old(self).spec_tables().push(Seq::new(512, |i: int| 0u64)));
        }
        frame
    }

    /// The physical address of the top-level table.
    pub fn phys_addr(&self) -> (r: u64)
        requires
            self.spec_base_frame() < 0x10_0000_0000,
        ensures
            r == self.spec_phys_addr(),
    {
        self.base_frame * 4096
    }

    /// The entries of table `index` of the pool.
    pub fn table(&self, index: usize) -> (r: &[u64])
        requires
            index < self.spec_tables().len(),
        ensures
            r@ == self.spec_tables()[index as int],
    {
        self.tables[index].as_slice()
    }

    /// The number of tables in use.
    pub fn tables_in_use(&self) -> (r: usize)
        ensures
            r == self.spec_tables().len(),
    {
        self.tables.len()
    }

    fn entry(&self, t: usize, i: usize) -> (r: u64)
        requires
            self.wf(),
            t < self.spec_tables().len(),
            i < 512,
        ensures
            r == self.spec_tables()[t as int][i as int],
    {
        proof {
            assert(self.spec_tables()[t as int] == self.tables@[t as int]@);
        }
        self.tables[t][i]
    }

    fn set_entry(&mut self, t: usize, i: usize, value: u64)
        requires
            old(self).wf(),
            t < old(self).spec_tables().len(),
            i < 512,
            Self::follows(old(self).spec_levels()[t as int], value) ==> {
                let j = old(self).table_index(value);
                0 <= j < old(self).spec_tables().len() && old(self).spec_levels()[j] == old(self).spec_levels()[t as int]
                    - 1
            },
        ensures
            final(self).wf(),
            final(self).spec_tables() == old(self).spec_tables().update(
                t as int,
                old(self).spec_tables()[t as int].update(i as int, value),
            ),
            final(self).spec_levels() == old(self).spec_levels(),
            final(self).spec_base_frame() == old(self).spec_base_frame(),
            final(self).spec_capacity() == old(self).spec_capacity(),
    {
        proof {
            assert(self.spec_tables()[t as int] == self.tables@[t as int]@);
        }
        let mut table: Vec<u64> = Vec::new();
        std::mem::swap(&mut table, &mut self.tables[t]);
        table.set(i, value);
        self.tables.set(t, table);
        proof {
            assert(self.spec_tables() =~= old(self).spec_tables().update(
                t as int,
                old(self).spec_tables()[t as int].update(i as int, value),
            ));
            let tables = self.spec_tables();
            assert forall|a: int, b: int|
                0 <= a < tables.len() && 0 <= b < 512 && Self::follows(self.spec_levels()[a], #[trigger] tables[a][b])
                    implies {
                let j = self.table_index(tables[a][b]);
                0 <= j < tables.len() && self.spec_levels()[j] == self.spec_levels()[a] - 1
            } by {
                if !(a == t && b == i) {
                    assert(tables[a][b] == old(self).spec_tables()[a][b]);
                }
            }
        }
    }
}

proof fn lemma_zero_flag(bit: u64)
    requires
        bit < 64,
    ensures
        !entry_flag(0, bit),
{
    assert((1u64 << 1u32) == 2u64) by (bit_vector);
    assert(crate::bits::mask_spec(1) == 1u64);
    assert((0u64 >> bit) & 1u64 == 0u64) by (bit_vector);
}

proof fn lemma_table_entry(frame: u64)
    requires
        frame < 0x10_0000_0000,
    ensures
        entry_frame(table_entry(frame)) == frame,
        table_entry(frame) != 0,
        !entry_flag(table_entry(frame), 7),
{
    let m36 = 0xf_ffff_ffffu64;
    assert((1u64 << 36u32) == 0x10_0000_0000u64) by (bit_vector);
    assert((1u64 << 1u32) == 2u64) by (bit_vector);
    assert(crate::bits::mask_spec(36) == m36);
    assert(crate::bits::mask_spec(1) == 1u64);
    let e0 = bit_insert_spec(0, frame, 12, 36);
    assert(e0 == (0u64 & !(m36 << 12u64)) | ((frame & m36) << 12u64));
    let e1 = with_flag(e0, 0, true);
    assert(e1 == (e0 & !(1u64 << 0u64)) | ((1u64 & 1u64) << 0u64));
    let e2 = with_flag(e1, 1, true);
    assert(e2 == (e1 & !(1u64 << 1u64)) | ((1u64 & 1u64) << 1u64));
    let e3 = with_flag(e2, 2, true);
    assert(e3 == (e2 & !(1u64 << 2u64)) | ((1u64 & 1u64) << 2u64));
    assert(e3 == table_entry(frame));
    assert(((e3 >> 12u64) & m36) == frame && e3 != 0u64 && ((e3 >> 7u64) & 1u64) != 1u64) by (bit_vector)
        requires
            frame < 0x10_0000_0000u64,
            m36 == 0xf_ffff_ffffu64,
            e0 == (0u64 & !(m36 << 12u64)) | ((frame & m36) << 12u64),
            e1 == (e0 & !(1u64 << 0u64)) | ((1u64 & 1u64) << 0u64),
            e2 == (e1 & !(1u64 << 1u64)) | ((1u64 & 1u64) << 1u64),
            e3 == (e2 & !(1u64 << 2u64)) | ((1u64 & 1u64) << 2u64),
    ;
}

/// A new entry pointing to the table at `frame`, with read, write and
/// execute access.
fn new_table_entry(frame: u64) -> (r: u64)
    ensures
        r == table_entry(frame),
{
    let mut entry = EptEntry(0);
    entry.set_address(frame);
    entry.set_read(true);
    entry.set_write(true);
    entry.set_execute(true);
    entry.0
}

impl Ept {
    /// The entry of the top-level table for `g`.
    pub open spec fn pml4_entry(&self, g: u64) -> u64 {
        self.spec_tables()[0][level_index(g, 39) as int]
    }

    /// The tables a walk to the 4-KByte page of `g` ends at, and the index
    /// there, where every level on the way is present.
    pub open spec fn walk4k(&self, g: u64) -> Option<(int, int)> {
        let tables = self.spec_tables();
        let e4 = self.pml4_entry(g);
        if e4 == 0 {
            None
        } else {
            let e3 = tables[self.table_index(e4)][level_index(g, 30) as int];
            if e3 == 0 || entry_flag(e3, 7) {
                None
            } else {
                let e2 = tables[self.table_index(e3)][level_index(g, 21) as int];
                if e2 == 0 {
                    None
                } else {
                    Some((self.table_index(e2), level_index(g, 12) as int))
                }
            }
        }
    }

    /// Whether the walk to `g` meets a 1-GByte page.
    pub open spec fn through_huge(&self, g: u64) -> bool {
        let e4 = self.pml4_entry(g);
        e4 != 0 && {
            let e3 = self.spec_tables()[self.table_index(e4)][level_index(g, 30) as int];
            e3 != 0 && entry_flag(e3, 7)
        }
    }

    /// The number of tables a walk to `g` adds: one for each level missing
    /// on the way.
    pub open spec fn missing_tables(&self, g: u64) -> nat {
        let tables = self.spec_tables();
        let e4 = self.pml4_entry(g);
        if e4 == 0 {
            3
        } else {
            let e3 = tables[self.table_index(e4)][level_index(g, 30) as int];
            if e3 == 0 {
                2
            } else {
                let e2 = tables[self.table_index(e3)][level_index(g, 21) as int];
                if e2 == 0 {
                    1
                } else {
                    0
                }
            }
        }
    }

    /// Whether `new` keeps every non-zero entry of `old` and every table
    /// of `old`, and only adds tables.
    pub open spec fn keeps(old: &Ept, new: &Ept) -> bool {
        &&& new.spec_base_frame() == old.spec_base_frame()
        &&& new.spec_capacity() == old.spec_capacity()
        &&& new.spec_tables().len() >= old.spec_tables().len()
        &&& new.spec_levels().take(old.spec_levels().len() as int) == old.spec_levels()
        &&& forall|t: int, i: int|
            0 <= t < old.spec_tables().len() && 0 <= i < 512 && #[trigger] old.spec_tables()[t][i] != 0
                ==> new.spec_tables()[t][i] == old.spec_tables()[t][i]
    }

    /// The table entry `i` of table `t` points to, the table being added
    /// where the entry is zero.
    fn descend(&mut self, t: usize, i: usize) -> (r: Result<usize, EptError>)
        requires
            old(self).wf(),
            t < old(self).spec_tables().len(),
            i < 512,
            old(self).spec_levels()[t as int] >= 2,
            !(old(self).spec_levels()[t as int] == 3 && entry_flag(old(self).spec_tables()[t as int][i as int], 7)),
        ensures
            final(self).wf(),
            Self::keeps(old(self), final(self)),
            old(self).spec_tables()[t as int][i as int] != 0 ==> r is Ok && *final(self) == *old(self),
            old(self).spec_tables()[t as int][i as int] == 0 ==> (r is Ok <==> old(self).spec_tables().len()
                < old(self).spec_capacity()),
            old(self).spec_tables()[t as int][i as int] == 0 && r is Ok ==> final(self).spec_tables().len()
                == old(self).spec_tables().len() + 1 && r == Ok::<usize, EptError>(old(self).spec_tables().len() as usize)
                && final(self).spec_tables()[old(self).spec_tables().len() as int] == Seq::new(512, |k: int| 0u64),
            old(self).spec_tables()[t as int][i as int] == 0 && r is Err ==> *final(self) == *old(self),
            forall|a: int, b: int|
                0 <= a < old(self).spec_tables().len() && 0 <= b < 512 && !(a == t && b == i)
                    ==> #[trigger] final(self).spec_tables()[a][b] == old(self).spec_tables()[a][b],
            r matches Ok(c) ==> {
                &&& c < final(self).spec_tables().len()
                &&& final(self).spec_levels()[c as int] == old(self).spec_levels()[t as int] - 1
                &&& final(self).spec_tables()[t as int][i as int] != 0
                &&& !entry_flag(final(self).spec_tables()[t as int][i as int], 7) || old(self).spec_levels()[t as int] != 3
                &&& final(self).table_index(final(self).spec_tables()[t as int][i as int]) == c
            },
            r is Err ==> r == Err::<usize, EptError>(EptError::OutOfTables),
    {
        proof {
            assert(self.spec_levels().take(self.spec_levels().len() as int) =~= self.spec_levels());
        }
        let e = self.entry(t, i);
        if e != 0 {
            let c = bit_extract(e, 12, 36) - self.base_frame;
            return Ok(c as usize);
        }
        if self.tables.len() >= self.capacity {
            return Err(EptError::OutOfTables);
        }
        let ghost before = *self;
        let level = Ghost((self.levels@[t as int] - 1) as nat);
        let frame = self.allocate_page_table(level);
        let entry = new_table_entry(frame);
        proof {
            lemma_table_entry(frame);
            assert(self.spec_tables()[t as int] == before.spec_tables()[t as int]);
            let tables = self.spec_tables();
            assert forall|a: int, b: int|
                0 <= a < tables.len() && 0 <= b < 512 && Self::follows(self.spec_levels()[a], #[trigger] tables[a][b])
                    implies {
                let j = self.table_index(tables[a][b]);
                0 <= j < tables.len() && self.spec_levels()[j] == self.spec_levels()[a] - 1
            } by {
                if a < before.spec_tables().len() {
                    assert(tables[a] == before.spec_tables()[a]);
                }
            }
            assert forall|a: int| 0 <= a < tables.len() implies (#[trigger] tables[a]).len() == 512 && 1
                <= self.spec_levels()[a] <= 4 by {
                if a < before.spec_tables().len() {
                    assert(tables[a] == before.spec_tables()[a]);
                }
            }
            assert(self.wf());
        }
        let c = self.tables.len() - 1;
        self.set_entry(t, i, entry);
        proof {
            assert(self.spec_levels().take(before.spec_levels().len() as int) =~= before.spec_levels());
        }
        Ok(c)
    }
}

proof fn lemma_index_bound(g: u64)
    ensures
        level_index(g, 39) < 512,
        level_index(g, 30) < 512,
        level_index(g, 21) < 512,
        level_index(g, 12) < 512,
{
    lemma_nine_bits(g, 39);
    lemma_nine_bits(g, 30);
    lemma_nine_bits(g, 21);
    lemma_nine_bits(g, 12);
}

proof fn lemma_keeps_trans(a: &Ept, b: &Ept, c: &Ept)
    requires
        Ept::keeps(a, b),
        Ept::keeps(b, c),
        a.wf(),
        b.wf(),
        c.wf(),
    ensures
        Ept::keeps(a, c),
{
    assert(c.spec_levels().take(a.spec_levels().len() as int) =~= c.spec_levels().take(
        b.spec_levels().len() as int,
    ).take(a.spec_levels().len() as int));
    assert forall|t: int, i: int|
        0 <= t < a.spec_tables().len() && 0 <= i < 512 && #[trigger] a.spec_tables()[t][i] != 0 implies c.spec_tables()[t][i]
        == a.spec_tables()[t][i] by {
        assert(b.spec_tables()[t][i] == a.spec_tables()[t][i]);
    }
}

impl Ept {
    /// The entry of the 4-KByte page of `g`, as the table and the index in
    /// it: the tables missing on the way are added; a walk through a
    /// 1-GByte page, or one that needs more tables than are left, is
    /// refused.
    pub fn translate(&mut self, g: u64) -> (r: Result<(usize, usize), EptError>)
        requires
            old(self).wf(),
        ensures
            final(self).wf(),
            Self::keeps(old(self), final(self)),
            r is Err <==> (old(self).through_huge(g) || old(self).spec_tables().len() + old(self).missing_tables(g)
                > old(self).spec_capacity()),
            old(self).through_huge(g) ==> r == Err::<(usize, usize), EptError>(EptError::ThroughHugePage),
            forall|a: int, b: int|
                0 <= a < old(self).spec_tables().len() && 0 <= b < 512 && old(self).spec_levels()[a] == 1
                    ==> #[trigger] final(self).spec_tables()[a][b] == old(self).spec_tables()[a][b],
            forall|a: int, b: int|
                old(self).spec_tables().len() <= a < final(self).spec_tables().len() && 0 <= b < 512
                    && final(self).spec_levels()[a] == 1 ==> #[trigger] final(self).spec_tables()[a][b] == 0,
            r matches Ok((t, i)) ==> {
                &&& final(self).walk4k(g) == Some((t as int, i as int))
                &&& final(self).spec_levels()[t as int] == 1
                &&& final(self).spec_tables().len() == old(self).spec_tables().len() + old(self).missing_tables(g)
                &&& i == level_index(g, 12)
                &&& t < final(self).spec_tables().len()
                &&& i < 512
            },
    {
        let idx = PageTableIndices::from_address(g);
        let ghost s0 = *self;
        let t3 = match self.descend(0, idx.pml4 as usize) {
            Ok(c) => c,
            Err(e) => return Err(e),
        };
        let ghost s1 = *self;
        proof {
            lemma_zero_flag(7);
        }
        let e3 = self.entry(t3, idx.pdp as usize);
        if e3 != 0 && get_flag(e3, 7) {
            proof {
                assert(s0.pml4_entry(g) != 0);
            }
            return Err(EptError::ThroughHugePage);
        }
        let t2 = match self.descend(t3, idx.pdp as usize) {
            Ok(c) => c,
            Err(e) => {
                proof {
                    lemma_keeps_trans(&s0, &s1, &*self);
                }
                return Err(e);
            },
        };
        let ghost s2 = *self;
        proof {
            lemma_keeps_trans(&s0, &s1, &s2);
        }
        let t1 = match self.descend(t2, idx.pd as usize) {
            Ok(c) => c,
            Err(e) => {
                proof {
                    lemma_keeps_trans(&s0, &s2, &*self);
                }
                return Err(e);
            },
        };
        proof {
            lemma_keeps_trans(&s0, &s2, &*self);
        }
        Ok((t1, idx.pt as usize))
    }
}

/// `entry` made to map the 1-GByte page at host address `host`, with read,
/// write and execute access.
pub open spec fn huge_page_entry(entry: u64, host: u64) -> u64 {
    with_flag(with_flag(with_flag(with_flag(bit_insert_spec(entry, host >> 12u64, 12, 40), 0, true), 1, true), 2, true), 7, true)
}

/// `entry` made to map the 4-KByte page at host address `host`, with read,
/// write and execute access.
pub open spec fn page_entry(entry: u64, host: u64) -> u64 {
    with_flag(with_flag(with_flag(bit_insert_spec(entry, host >> 12u64, 12, 36), 0, true), 1, true), 2, true)
}

/// `entry` with the access of `flags`.
pub open spec fn with_flags(entry: u64, flags: Flags) -> u64 {
    with_flag(with_flag(with_flag(entry, 0, flags.read), 1, flags.write), 2, flags.execute)
}

proof fn lemma_flag_set(entry: u64, bit: u64)
    requires
        bit < 64,
    ensures
        entry_flag(with_flag(entry, bit, true), bit),
{
    lemma_extract_of_insert(entry, 1, bit, 1);
    assert((1u64 << 1u32) == 2u64) by (bit_vector);
    assert(crate::bits::mask_spec(1) == 1u64);
    assert(1u64 & 1u64 == 1u64) by (bit_vector);
}

impl Ept {
    /// Whether `new` keeps every non-zero entry of `old` but entry `i` of
    /// table `t`, and every table of `old`.
    pub open spec fn keeps_but(old: &Ept, new: &Ept, t: int, i: int) -> bool {
        &&& new.spec_base_frame() == old.spec_base_frame()
        &&& new.spec_capacity() == old.spec_capacity()
        &&& new.spec_tables().len() >= old.spec_tables().len()
        &&& forall|a: int, b: int|
            0 <= a < old.spec_tables().len() && 0 <= b < 512 && #[trigger] old.spec_tables()[a][b] != 0 && !(a == t
                && b == i) ==> new.spec_tables()[a][b] == old.spec_tables()[a][b]
    }

    /// Maps the 1-GByte page of guest address `guest` to the one at host
    /// address `host`, with read, write and execute access; the top-level
    /// entry is filled in first where it is empty, which is refused where
    /// no table is left.
    pub fn map_1g_page(&mut self, guest: u64, host: u64) -> (r: Result<(), EptError>)
        requires
            old(self).wf(),
            guest & 0x3fff_ffff == 0,
            host & 0x3fff_ffff == 0,
        ensures
            final(self).wf(),
            r is Err <==> old(self).pml4_entry(guest) == 0 && old(self).spec_tables().len() == old(self).spec_capacity(),
            r is Err ==> *final(self) == *old(self),
            r is Ok ==> {
                let t = final(self).table_index(final(self).pml4_entry(guest));
                let i = level_index(guest, 30) as int;
                &&& final(self).pml4_entry(guest) != 0
                &&& 0 <= t < final(self).spec_tables().len()
                &&& final(self).spec_tables()[t][i] == huge_page_entry(
                    if old(self).pml4_entry(guest) == 0 {
                        0
                    } else {
                        old(self).spec_tables()[t][i]
                    },
                    host,
                )
                &&& Self::keeps_but(old(self), final(self), t, i)
            },
    {
        let idx = PageTableIndices::from_address(guest);
        let ghost s0 = *self;
        let t = match self.descend(0, idx.pml4 as usize) {
            Ok(c) => c,
            Err(e) => return Err(e),
        };
        let mut entry = Pdp1GEntry(self.entry(t, idx.pdp as usize));
        entry.set_address(host >> 12);
        entry.set_read(true);
        entry.set_write(true);
        entry.set_execute(true);
        entry.set_size(true);
        proof {
            lemma_flag_set(with_flag(with_flag(with_flag(bit_insert_spec(self.spec_tables()[t as int][idx.pdp as int], host >> 12u64, 12, 40), 0, true), 1, true), 2, true), 7);
        }
        let ghost s1 = *self;
        self.set_entry(t, idx.pdp as usize, entry.0);
        proof {
            assert(self.pml4_entry(guest) == s1.pml4_entry(guest));
        }
        Ok(())
    }

    /// The tables a walk to `g` goes through are those of the levels above
    /// the last, so the last level's entries are not on the way.
    proof fn lemma_walk_levels(&self, g: u64)
        requires
            self.wf(),
            self.walk4k(g) is Some,
        ensures
            ({
                let tables = self.spec_tables();
                let e4 = self.pml4_entry(g);
                let t3 = self.table_index(e4);
                let e3 = tables[t3][level_index(g, 30) as int];
                let t2 = self.table_index(e3);
                &&& 0 <= t3 < tables.len() && self.spec_levels()[t3] == 3
                &&& 0 <= t2 < tables.len() && self.spec_levels()[t2] == 2
            }),
    {
        let tables = self.spec_tables();
        crate::ept::lemma_index_bound(g);
        assert(Self::follows(self.spec_levels()[0], tables[0][level_index(g, 39) as int]));
        let t3 = self.table_index(self.pml4_entry(g));
        assert(Self::follows(self.spec_levels()[t3], tables[t3][level_index(g, 30) as int]));
    }

    /// Maps the 4-KByte page of guest address `guest` to the one at host
    /// address `host`, with read, write and execute access, adding the
    /// tables missing on the way (see [`Ept::translate`]).
    pub fn map_page(&mut self, guest: u64, host: u64) -> (r: Result<(), EptError>)
        requires
            old(self).wf(),
        ensures
            final(self).wf(),
            r is Err <==> (old(self).through_huge(guest) || old(self).spec_tables().len() + old(self).missing_tables(guest)
                > old(self).spec_capacity()),
            r is Ok ==> (final(self).walk4k(guest) matches Some((t, i)) && final(self).spec_tables()[t][i] == page_entry(
                if t < old(self).spec_tables().len() {
                    old(self).spec_tables()[t][i]
                } else {
                    0
                },
                host,
            )),
    {
        let ghost s0 = *self;
        let (t, i) = match self.translate(guest) {
            Ok(p) => p,
            Err(e) => return Err(e),
        };
        let ghost s1 = *self;
        let mut entry = EptEntry(self.entry(t, i));
        proof {
            if (t as int) < s0.spec_tables().len() {
                assert(s1.spec_levels()[t as int] == s1.spec_levels().take(s0.spec_levels().len() as int)[t as int]);
                assert(s0.spec_levels()[t as int] == 1);
                assert(s1.spec_tables()[t as int][i as int] == s0.spec_tables()[t as int][i as int]);
            } else {
                assert(s1.spec_tables()[t as int][i as int] == 0);
            }
        }
        entry.set_address(host >> 12);
        entry.set_read(true);
        entry.set_write(true);
        entry.set_execute(true);
        proof {
            s1.lemma_walk_levels(guest);
        }
        self.set_entry(t, i, entry.0);
        proof {
            crate::ept::lemma_index_bound(guest);
            assert(self.walk4k(guest) == s1.walk4k(guest));
        }
        Ok(())
    }
}

proof fn lemma_with_flags(entry: u64, flags: Flags)
    ensures
        entry_flag(with_flags(entry, flags), 0) == flags.read,
        entry_flag(with_flags(entry, flags), 1) == flags.write,
        entry_flag(with_flags(entry, flags), 2) == flags.execute,
{
    assert((1u64 << 1u32) == 2u64) by (bit_vector);
    assert(crate::bits::mask_spec(1) == 1u64);
    let r: u64 = if flags.read { 1 } else { 0 };
    let w: u64 = if flags.write { 1 } else { 0 };
    let x: u64 = if flags.execute { 1 } else { 0 };
    let e1 = with_flag(entry, 0, flags.read);
    let e2 = with_flag(e1, 1, flags.write);
    let e3 = with_flag(e2, 2, flags.execute);
    assert(e1 == (entry & !(1u64 << 0u64)) | ((r & 1u64) << 0u64));
    assert(e2 == (e1 & !(1u64 << 1u64)) | ((w & 1u64) << 1u64));
    assert(e3 == (e2 & !(1u64 << 2u64)) | ((x & 1u64) << 2u64));
    assert(((e3 >> 0u64) & 1u64 == 1u64) == (r == 1u64) && ((e3 >> 1u64) & 1u64 == 1u64) == (w == 1u64) && ((e3
        >> 2u64) & 1u64 == 1u64) == (x == 1u64)) by (bit_vector)
        requires
            r <= 1u64,
            w <= 1u64,
            x <= 1u64,
            e1 == (entry & !(1u64 << 0u64)) | ((r & 1u64) << 0u64),
            e2 == (e1 & !(1u64 << 1u64)) | ((w & 1u64) << 1u64),
            e3 == (e2 & !(1u64 << 2u64)) | ((x & 1u64) << 2u64),
    ;
}

impl Ept {
    /// Whether the 4-KByte page of `g` is mapped with the access of
    /// `flags`.
    pub open spec fn has_flags(&self, g: u64, flags: Flags) -> bool {
        self.walk4k(g) matches Some((t, i)) && {
            let e = self.spec_tables()[t][i];
            entry_flag(e, 0) == flags.read && entry_flag(e, 1) == flags.write && entry_flag(e, 2) == flags.execute
        }
    }

    /// Gives the 4-KByte page of `g` the access of `flags`, adding the
    /// tables missing on the way (see [`Ept::translate`]).
    pub fn update_flags(&mut self, g: u64, flags: Flags) -> (r: Result<(), EptError>)
        requires
            old(self).wf(),
        ensures
            final(self).wf(),
            r is Err <==> (old(self).through_huge(g) || old(self).spec_tables().len() + old(self).missing_tables(g)
                > old(self).spec_capacity()),
            r is Ok ==> final(self).has_flags(g, flags),
            r is Ok ==> final(self).spec_tables().len() >= old(self).spec_tables().len(),
            forall|p: u64, f: Flags| #[trigger] old(self).has_flags(p, f) && f == flags ==> final(self).has_flags(p, f),
            forall|p: u64| old(self).walk4k(p) is Some ==> #[trigger] final(self).walk4k(p) == old(self).walk4k(p),
    {
        let ghost s0 = *self;
        let (t, i) = match self.translate(g) {
            Ok(p) => p,
            Err(e) => {
                proof {
                    self.lemma_keeps_flags(&s0, flags);
                    self.lemma_keeps_walks(&s0);
                }
                return Err(e);
            },
        };
        proof {
            self.lemma_keeps_walks(&s0);
        }
        let ghost s1 = *self;
        proof {
            self.lemma_keeps_flags(&s0, flags);
        }
        let mut entry = EptEntry(self.entry(t, i));
        entry.set_read(flags.read);
        entry.set_write(flags.write);
        entry.set_execute(flags.execute);
        proof {
            s1.lemma_walk_levels(g);
            lemma_with_flags(s1.spec_tables()[t as int][i as int], flags);
        }
        self.set_entry(t, i, entry.0);
        proof {
            lemma_index_bound(g);
            assert(self.walk4k(g) == s1.walk4k(g));
            assert forall|p: u64, f: Flags| #[trigger] s1.has_flags(p, f) && f == flags implies self.has_flags(p, f) by {
                s1.lemma_walk_levels(p);
                lemma_index_bound(p);
                assert(self.walk4k(p) == s1.walk4k(p));
            }
            assert forall|p: u64| s0.walk4k(p) is Some implies #[trigger] self.walk4k(p) == s0.walk4k(p) by {
                assert(s1.walk4k(p) == s0.walk4k(p));
                s1.lemma_walk_levels(p);
                lemma_index_bound(p);
            }
        }
        Ok(())
    }

    /// Walks that reach a 4-KByte page stay as they are when tables are
    /// only added and non-zero entries kept.
    proof fn lemma_keeps_walks(&self, old: &Ept)
        requires
            old.wf(),
            self.wf(),
            Self::keeps(old, self),
        ensures
            forall|p: u64| old.walk4k(p) is Some ==> #[trigger] self.walk4k(p) == old.walk4k(p),
    {
        assert forall|p: u64| old.walk4k(p) is Some implies #[trigger] self.walk4k(p) == old.walk4k(p) by {
            old.lemma_walk_levels(p);
            lemma_index_bound(p);
            let tables = old.spec_tables();
            let e4 = old.pml4_entry(p);
            let t3 = old.table_index(e4);
            let e3 = tables[t3][level_index(p, 30) as int];
            let t2 = old.table_index(e3);
            let e2 = tables[t2][level_index(p, 21) as int];
            assert(self.spec_tables()[0][level_index(p, 39) as int] == e4);
            assert(self.spec_tables()[t3][level_index(p, 30) as int] == e3);
            assert(self.spec_tables()[t2][level_index(p, 21) as int] == e2);
        }
    }

    /// A page mapped with given access stays so when tables are only
    /// added and level-one tables are kept.
    proof fn lemma_keeps_flags(&self, old: &Ept, flags: Flags)
        requires
            old.wf(),
            self.wf(),
            Self::keeps(old, self),
            forall|a: int, b: int|
                0 <= a < old.spec_tables().len() && 0 <= b < 512 && old.spec_levels()[a] == 1
                    ==> #[trigger] self.spec_tables()[a][b] == old.spec_tables()[a][b],
        ensures
            forall|p: u64, f: Flags| #[trigger] old.has_flags(p, f) && f == flags ==> self.has_flags(p, f),
    {
        assert forall|p: u64, f: Flags| #[trigger] old.has_flags(p, f) && f == flags implies self.has_flags(p, f) by {
            old.lemma_walk_levels(p);
            lemma_index_bound(p);
            let tables = old.spec_tables();
            let e4 = old.pml4_entry(p);
            let t3 = old.table_index(e4);
            let e3 = tables[t3][level_index(p, 30) as int];
            let t2 = old.table_index(e3);
            let e2 = tables[t2][level_index(p, 21) as int];
            assert(self.spec_tables()[0][level_index(p, 39) as int] == e4);
            assert(self.spec_tables()[t3][level_index(p, 30) as int] == e3);
            assert(self.spec_tables()[t2][level_index(p, 21) as int] == e2);
            assert(self.walk4k(p) == old.walk4k(p));
            let t1 = old.table_index(e2);
            assert(Self::follows(old.spec_levels()[t2], e2));
            assert(old.spec_levels()[t1] == 1);
        }
    }

    /// Gives the 4-KByte pages from `start` up to `end`, in steps of 4096
    /// bytes, the access of `flags`.
    pub fn update_flags_range(&mut self, start: u64, end: u64, flags: Flags) -> (r: Result<(), EptError>)
        requires
            old(self).wf(),
        ensures
            final(self).wf(),
            r is Ok ==> forall|k: nat| start + 4096 * k < end ==> #[trigger] final(self).has_flags(page_of(start, k), flags),
            (forall|k: nat| start + 4096 * k < end ==> (#[trigger] old(self).walk4k(page_of(start, k))) is Some) ==> r is Ok,
    {
        let ghost s0 = *self;
        let ghost mapped = forall|k: nat| start + 4096 * k < end ==> (#[trigger] s0.walk4k(page_of(start, k))) is Some;
        let mut addr = start;
        let ghost mut done: nat = 0;
        loop
            invariant
                self.wf(),
                s0 == *old(self),
                mapped == (forall|k: nat| start + 4096 * k < end ==> (#[trigger] s0.walk4k(page_of(start, k))) is Some),
                mapped ==> forall|k: nat| start + 4096 * k < end ==> (#[trigger] self.walk4k(page_of(start, k))) is Some,
                addr == start + 4096 * done,
                forall|k: nat| k < done && start + 4096 * k < end ==> #[trigger] self.has_flags(page_of(start, k), flags),
            ensures
                self.wf(),
                forall|k: nat| start + 4096 * k < end ==> #[trigger] self.has_flags(page_of(start, k), flags),
            decreases end - addr,
        {
            if addr >= end {
                proof {
                    assert forall|k: nat| start + 4096 * k < end implies #[trigger] self.has_flags(page_of(start, k), flags) by {
                        assert(k < done);
                    }
                }
                break;
            }
            let ghost before = *self;
            proof {
                if mapped {
                    assert(addr == page_of(start, done));
                    assert(self.walk4k(page_of(start, done)) is Some);
                    assert(!self.through_huge(addr) && self.missing_tables(addr) == 0);
                }
            }
            match self.update_flags(addr, flags) {
                Ok(()) => {},
                Err(e) => return Err(e),
            }
            proof {
                if mapped {
                    assert forall|k: nat| start + 4096 * k < end implies (#[trigger] self.walk4k(page_of(start, k))) is Some by {
                        assert(before.walk4k(page_of(start, k)) is Some);
                    }
                }
                assert forall|k: nat| k < done + 1 && start + 4096 * k < end implies #[trigger] self.has_flags(page_of(start, k), flags) by {
                    if k < done {
                        assert(before.has_flags(page_of(start, k), flags));
                    }
                }
            }
            if end - addr <= 4096 {
                proof {
                    assert forall|k: nat| start + 4096 * k < end implies #[trigger] self.has_flags(page_of(start, k), flags) by {
                        assert(k < done + 1);
                    }
                }
                break;
            }
            addr = addr + 4096;
            proof {
                done = done + 1;
            }
        }
        Ok(())
    }

    /// Takes write access from the 4-KByte page of `page`, so that a write
    /// to it exits.
    pub fn smc_protect(&mut self, page: u64) -> (r: Result<(), EptError>)
        requires
            old(self).wf(),
        ensures
            final(self).wf(),
            r is Err <==> (old(self).through_huge(page) || old(self).spec_tables().len() + old(self).missing_tables(page)
                > old(self).spec_capacity()),
            r is Ok ==> (final(self).walk4k(page) matches Some((t, i)) && !entry_flag(final(self).spec_tables()[t][i], 1)),
    {
        let (t, i) = match self.translate(page) {
            Ok(p) => p,
            Err(e) => return Err(e),
        };
        let ghost s1 = *self;
        let mut entry = EptEntry(self.entry(t, i));
        entry.set_write(false);
        proof {
            s1.lemma_walk_levels(page);
            lemma_write_cleared(s1.spec_tables()[t as int][i as int]);
        }
        self.set_entry(t, i, entry.0);
        proof {
            lemma_index_bound(page);
            assert(self.walk4k(page) == s1.walk4k(page));
        }
        Ok(())
    }

    /// Whether the walk to `g` meets a 1-GByte page whose entry holds the
    /// frame of host address `host`.
    pub open spec fn maps_huge_page(&self, g: u64, host: u64) -> bool {
        let e4 = self.pml4_entry(g);
        &&& e4 != 0
        &&& {
            let e3 = self.spec_tables()[self.table_index(e4)][level_index(g, 30) as int];
            entry_flag(e3, 7) && entry_frame(e3) == host >> 12u64
        }
    }

    /// Maps the first 16 GBytes of guest-physical memory one to one with
    /// 1-GByte pages; this is refused only where the top-level entry
    /// they share is empty and no table is left for it.
    pub fn init(&mut self) -> (r: Result<(), EptError>)
        requires
            old(self).wf(),
        ensures
            final(self).wf(),
            r is Err <==> old(self).pml4_entry(0) == 0 && old(self).spec_tables().len() == old(self).spec_capacity(),
            r is Ok ==> forall|k: u64|
                k < 16 ==> #[trigger] final(self).maps_huge_page(gigabyte(k), gigabyte(k)),
    {
        let ghost s0 = *self;
        let mut i: u64 = 0;
        while i < 16
            invariant
                self.wf(),
                i <= 16,
                s0 == *old(self),
                i == 0 ==> *self == s0,
                i > 0 ==> self.pml4_entry(0) != 0,
                i > 0 ==> !(s0.pml4_entry(0) == 0 && s0.spec_tables().len() == s0.spec_capacity()),
                forall|k: u64| k < i ==> #[trigger] self.maps_huge_page(gigabyte(k), gigabyte(k)),
            decreases 16 - i,
        {
            let address = i * 0x4000_0000;
            proof {
                lemma_gigabyte_indices(i);
                lemma_gigabyte_indices(0);
            }
            let ghost before = *self;
            proof {
                assert(address == gigabyte(i));
                assert(before.pml4_entry(address) == before.pml4_entry(0));
            }
            match self.map_1g_page(address, address) {
                Ok(()) => {},
                Err(e) => return Err(e),
            }
            proof {
                lemma_huge_page_entry(
                    if before.pml4_entry(address) == 0 {
                        0
                    } else {
                        before.spec_tables()[before.table_index(self.pml4_entry(address)) as int][i as int]
                    },
                    address,
                );
                assert(self.pml4_entry(0) == self.pml4_entry(address));
                assert forall|k: u64| k < i + 1 implies #[trigger] self.maps_huge_page(gigabyte(k), gigabyte(k)) by {
                    lemma_gigabyte_indices(k);
                    if k < i {
                        assert(before.maps_huge_page(gigabyte(k), gigabyte(k)));
                        lemma_zero_flag(7);
                        let tb = before.table_index(before.pml4_entry(address));
                        assert(Self::follows(before.spec_levels()[0], before.spec_tables()[0][0]));
                        assert(self.spec_tables()[tb][k as int] == before.spec_tables()[tb][k as int]);
                    }
                }
            }
            i = i + 1;
        }
        Ok(())
    }
}

/// The address of the `k`-th GByte.
pub open spec fn gigabyte(k: u64) -> u64 {
    (k * 0x4000_0000) as u64
}

/// Of the `k`-th GByte, for `k` below 16: it is 1-GByte aligned, its
/// top-level index is 0 and its index in the next table is `k`.
proof fn lemma_gigabyte_indices(k: u64)
    requires
        k < 16,
    ensures
        gigabyte(k) == k * 0x4000_0000,
        gigabyte(k) & 0x3fff_ffff == 0,
        level_index(gigabyte(k), 39) == 0,
        level_index(gigabyte(k), 30) == k,
{
    assert((1u64 << 9u32) == 512u64) by (bit_vector);
    assert(crate::bits::mask_spec(9) == 511u64);
    let a = gigabyte(k);
    assert(a == k * 0x4000_0000);
    assert(a & 0x3fff_ffff == 0 && (a >> 39u64) & 511u64 == 0 && (a >> 30u64) & 511u64 == k) by (bit_vector)
        requires
            a == k * 0x4000_0000,
            k < 16,
    ;
}

/// A 1-GByte page entry maps its host frame and has the size bit set.
proof fn lemma_huge_page_entry(entry: u64, host: u64)
    requires
        host < 0x10_0000_0000,
    ensures
        entry_flag(huge_page_entry(entry, host), 7),
        entry_frame(huge_page_entry(entry, host)) == host >> 12u64,
{
    assert((1u64 << 1u32) == 2u64) by (bit_vector);
    assert((1u64 << 36u32) == 0x10_0000_0000u64) by (bit_vector);
    assert((1u64 << 40u32) == 0x100_0000_0000u64) by (bit_vector);
    assert(crate::bits::mask_spec(1) == 1u64);
    assert(crate::bits::mask_spec(36) == 0xf_ffff_ffffu64);
    assert(crate::bits::mask_spec(40) == 0xff_ffff_ffffu64);
    let e0 = (entry & !(0xff_ffff_ffffu64 << 12u64)) | (((host >> 12u64) & 0xff_ffff_ffffu64) << 12u64);
    let e1 = (e0 & !(1u64 << 0u64)) | ((1u64 & 1u64) << 0u64);
    let e2 = (e1 & !(1u64 << 1u64)) | ((1u64 & 1u64) << 1u64);
    let e3 = (e2 & !(1u64 << 2u64)) | ((1u64 & 1u64) << 2u64);
    let e4 = (e3 & !(1u64 << 7u64)) | ((1u64 & 1u64) << 7u64);
    assert((e4 >> 7u64) & 1u64 == 1u64 && (e4 >> 12u64) & 0xf_ffff_ffffu64 == host >> 12u64) by (bit_vector)
        requires
            host < 0x10_0000_0000,
            e0 == (entry & !(0xff_ffff_ffffu64 << 12u64)) | (((host >> 12u64) & 0xff_ffff_ffffu64) << 12u64),
            e1 == (e0 & !(1u64 << 0u64)) | ((1u64 & 1u64) << 0u64),
            e2 == (e1 & !(1u64 << 1u64)) | ((1u64 & 1u64) << 1u64),
            e3 == (e2 & !(1u64 << 2u64)) | ((1u64 & 1u64) << 2u64),
            e4 == (e3 & !(1u64 << 7u64)) | ((1u64 & 1u64) << 7u64),
    ;
    assert(huge_page_entry(entry, host) == e4);
}

/// The `k`-th page from `start`.
pub open spec fn page_of(start: u64, k: nat) -> u64 {
    (start + 4096 * k) as u64
}

proof fn lemma_write_cleared(entry: u64)
    ensures
        !entry_flag(with_flag(entry, 1, false), 1),
{
    assert((1u64 << 1u32) == 2u64) by (bit_vector);
    assert(crate::bits::mask_spec(1) == 1u64);
    let e = with_flag(entry, 1, false);
    assert(e == (entry & !(1u64 << 1u64)) | ((0u64 & 1u64) << 1u64));
    assert((e >> 1u64) & 1u64 != 1u64) by (bit_vector)
        requires
            e == (entry & !(1u64 << 1u64)) | ((0u64 & 1u64) << 1u64),
    ;
}

} // verus!
