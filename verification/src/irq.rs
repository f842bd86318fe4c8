//! Bookkeeping of the interrupt vectors that have a handler.
use vstd::prelude::*;
use crate::bitset::{lemma_word_set, lemma_word_zero, word_bit, words_set_bit, words_test_bit};

verus! {

/// Why an interrupt vector could not be given a handler.
#[derive(Debug, Clone, Copy, PartialEq, Eq, Structural)]
pub enum IrqError {
    /// The vector already has a handler.
    IrqAlreadyReserved(u8),
}

/// The processor's exception vectors that get handlers first: divide
/// error, debug, breakpoint, double fault, general protection fault, page
/// fault.
pub open spec fn exception_vectors() -> Set<u8> {
    set![0u8, 1u8, 3u8, 8u8, 13u8, 14u8]
}

/// The vectors translated code raises: undefined terminator, default
/// terminator, constant assert, panic.
pub open spec fn translation_vectors() -> Set<u8> {
    set![0x50u8, 0x51u8, 0x52u8, 0x53u8]
}

/// The set of the 256 interrupt vectors that have a handler.
pub struct UsedInterruptVectors([u64; 4]);

impl UsedInterruptVectors {
    /// Whether vector `nr` has a handler.
    pub closed spec fn used(&self, nr: u8) -> bool {
        word_bit(self.0@[(nr / 64) as int], (nr % 64) as u64)
    }

    /// The vectors that have a handler.
    pub open spec fn used_set(&self) -> Set<u8> {
        Set::new(|nr: u8| self.used(nr))
    }

    /// No vector has a handler.
    pub fn new() -> (r: UsedInterruptVectors)
        ensures
            forall|nr: u8| !r.used(nr),
    {
        let r = UsedInterruptVectors([0u64; 4]);
        proof {
            assert forall|nr: u8| !r.used(nr) by {
                assert(r.0@[(nr / 64) as int] == 0u64);
                lemma_word_zero((nr % 64) as u64);
            }
        }
        r
    }

    /// Marks vector `nr` as having a handler.
    pub fn set(&mut self, nr: u8)
        ensures
            final(self).used(nr),
            forall|other: u8| other != nr ==> #[trigger] final(self).used(other) == old(self).used(other),
    {
        words_set_bit(&mut self.0, nr as usize);
        proof {
            lemma_word_set(old(self).0@[(nr / 64) as int], (nr % 64) as u64, (nr % 64) as u64);
            assert forall|other: u8| other != nr implies #[trigger] self.used(other) == old(self).used(other) by {
                if other / 64 == nr / 64 {
                    lemma_word_set(old(self).0@[(nr / 64) as int], (nr % 64) as u64, (other % 64) as u64);
                }
            }
        }
    }

    /// Whether vector `nr` has a handler.
    pub fn get(&mut self, nr: u8) -> (r: bool)
        ensures
            r == old(self).used(nr),
            *final(self) == *old(self),
    {
        words_test_bit(&self.0, nr as usize)
    }

    /// Reserves vector `nr` for a new handler: refused where it has one.
    pub fn reserve(&mut self, nr: u8) -> (r: Result<(), IrqError>)
        ensures
            old(self).used(nr) ==> r == Err::<(), IrqError>(IrqError::IrqAlreadyReserved(nr)) && *final(self) == *old(self),
            !old(self).used(nr) ==> r is Ok && final(self).used_set() == old(self).used_set().insert(nr),
    {
        if !self.get(nr) {
            self.set(nr);
            proof {
                assert(self.used_set() =~= old(self).used_set().insert(nr));
            }
            Ok(())
        } else {
            Err(IrqError::IrqAlreadyReserved(nr))
        }
    }

    /// Marks the exception vectors as having handlers, then reserves the
    /// vectors translated code raises, in order; refused at the first of
    /// those that already has one.
    pub fn setup(&mut self) -> (r: Result<(), IrqError>)
        ensures
            r is Ok <==> translation_vectors().disjoint(old(self).used_set()),
            r is Ok ==> final(self).used_set() == old(self).used_set() + exception_vectors() + translation_vectors(),
    {
        self.set(14);
        self.set(13);
        self.set(3);
        self.set(1);
        self.set(8);
        self.set(0);
        let ghost marked = self.used_set();
        proof {
            assert(marked =~= old(self).used_set() + exception_vectors());
        }
        let mut nr: u8 = 0x50;
        while nr <= 0x53
            invariant
                0x50 <= nr <= 0x54,
                self.used_set() == marked + Set::new(|v: u8| 0x50 <= v < nr),
                forall|v: u8| 0x50 <= v < nr ==> !#[trigger] old(self).used_set().contains(v),
                marked == old(self).used_set() + exception_vectors(),
            decreases 0x54 - nr,
        {
            let ghost before = *self;
            proof {
                assert(before.used_set().contains(nr) == before.used(nr));
                assert(!exception_vectors().contains(nr));
                assert(before.used_set().contains(nr) == old(self).used_set().contains(nr));
            }
            match self.reserve(nr) {
                Ok(()) => {},
                Err(e) => {
                    proof {
                        assert(old(self).used_set().contains(nr));
                        assert(translation_vectors().contains(nr));
                    }
                    return Err(e);
                },
            }
            proof {
                assert(self.used_set() =~= marked + Set::new(|v: u8| 0x50 <= v < nr + 1));
                assert(!old(self).used_set().contains(nr));
            }
            nr = nr + 1;
        }
        proof {
            assert(Set::new(|v: u8| 0x50 <= v < nr) =~= translation_vectors());
            assert(translation_vectors().disjoint(old(self).used_set()));
        }
        Ok(())
    }
}

/// The interrupt vectors with the address of the handler installed for
/// each, and the set of vectors that have one.
pub struct IrqManager {
    handlers: Vec<Option<u64>>,
    used: UsedInterruptVectors,
}

impl IrqManager {
    /// The table has an entry for each of the 256 vectors.
    pub closed spec fn wf(&self) -> bool {
        self.handlers@.len() == 256
    }

    /// The address of the handler installed for vector `nr`, if any.
    pub closed spec fn handler_of(&self, nr: u8) -> Option<u64> {
        self.handlers@[nr as int]
    }

    /// The vectors that have a handler.
    pub closed spec fn reserved(&self) -> Set<u8> {
        self.used.used_set()
    }

    /// No vector has a handler.
    pub fn new() -> (r: IrqManager)
        ensures
            r.wf(),
            forall|nr: u8| #[trigger] r.handler_of(nr) is None,
            r.reserved() == Set::<u8>::empty(),
    {
        let mut handlers: Vec<Option<u64>> = Vec::new();
        let mut i: usize = 0;
        while i < 256
            invariant
                i <= 256,
                handlers@.len() == i,
                forall|j: int| 0 <= j < i ==> (#[trigger] handlers@[j]) is None,
            decreases 256 - i,
        {
            handlers.push(None);
            i = i + 1;
        }
        let used = UsedInterruptVectors::new();
        let r = IrqManager { handlers, used };
        proof {
            assert(r.reserved() =~= Set::<u8>::empty());
        }
        r
    }

    /// Installs `handler` for vector `nr`: refused, changing nothing, where
    /// the vector already has a handler; otherwise the vector's entry holds
    /// the handler's address and the vector is reserved, every other
    /// vector left as it was.
    pub fn assign_irq(&mut self, nr: u8, handler: u64) -> (r: Result<(), IrqError>)
        requires
            old(self).wf(),
        ensures
            final(self).wf(),
            old(self).reserved().contains(nr) ==> r == Err::<(), IrqError>(IrqError::IrqAlreadyReserved(nr))
                && *final(self) == *old(self),
            !old(self).reserved().contains(nr) ==> r is Ok && final(self).handler_of(nr) == Some(handler)
                && final(self).reserved() == old(self).reserved().insert(nr) && forall|other: u8|
                other != nr ==> #[trigger] final(self).handler_of(other) == old(self).handler_of(other),
    {
        match self.used.reserve(nr) {
            Ok(()) => {
                self.handlers.set(nr as usize, Some(handler));
                Ok(())
            },
            Err(e) => Err(e),
        }
    }

    /// The address of the handler installed for vector `nr`, if any.
    pub fn handler(&self, nr: u8) -> (r: Option<u64>)
        requires
            self.wf(),
        ensures
            r == self.handler_of(nr),
    {
        self.handlers[nr as usize]
    }
}

} // verus!
