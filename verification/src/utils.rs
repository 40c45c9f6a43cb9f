//! Cooperative cancellation: a table of flags and the two halves of a token.
//!
//! A token is one flag in an [`AbortFlags`] table. The owning half,
//! [`AbortController`], can trip the flag and read it; the observing half,
//! [`AbortSignal`], can only read it. Tripping never stops any work by itself:
//! whoever does the work polls the flag.

use vstd::prelude::*;

verus! {

/// The flags of all tokens handed out so far, each `false` until tripped.
pub struct AbortFlags {
    flags: Vec<bool>,
}

/// The owning half of a cancellation token.
#[derive(Clone, Copy, Debug)]
pub struct AbortController {
    slot: usize,
}

/// The observing half of a cancellation token.
#[derive(Clone, Copy, Debug)]
pub struct AbortSignal {
    slot: usize,
}

impl View for AbortFlags {
    type V = Seq<bool>;

    closed spec fn view(&self) -> Seq<bool> {
        self.flags@
    }
}

impl AbortFlags {
    /// Whether the flag at `slot` exists and has been tripped.
    pub open spec fn is_tripped(flags: Seq<bool>, slot: int) -> bool {
        0 <= slot < flags.len() && flags[slot]
    }

    /// The flags after the one at `slot` has been tripped; a slot outside the
    /// table changes nothing.
    pub open spec fn tripped(flags: Seq<bool>, slot: int) -> Seq<bool> {
        if 0 <= slot < flags.len() {
            flags.update(slot, true)
        } else {
            flags
        }
    }

    /// An empty table.
    pub fn new() -> (flags: AbortFlags)
        ensures
            flags@ == Seq::<bool>::empty(),
    {
        AbortFlags { flags: Vec::new() }
    }

    /// The number of tokens handed out so far.
    pub fn len(&self) -> (n: usize)
        ensures
            n == self@.len(),
    {
        self.flags.len()
    }

    /// Tripping a flag twice is the same as tripping it once.
    pub proof fn lemma_trip_is_idempotent(flags: Seq<bool>, slot: int)
        ensures
            Self::tripped(Self::tripped(flags, slot), slot) == Self::tripped(flags, slot),
    {
        assert(Self::tripped(Self::tripped(flags, slot), slot) =~= Self::tripped(flags, slot));
    }

    /// Tripping one flag trips exactly that flag: it reads as tripped
    /// afterwards if it is in the table, and every other flag reads as before.
    pub proof fn lemma_trip_touches_one_flag(flags: Seq<bool>, slot: int, other: int)
        ensures
            Self::tripped(flags, slot).len() == flags.len(),
            0 <= slot < flags.len() ==> Self::is_tripped(Self::tripped(flags, slot), slot),
            other != slot ==> Self::is_tripped(Self::tripped(flags, slot), other)
                == Self::is_tripped(flags, other),
            Self::is_tripped(flags, other) ==> Self::is_tripped(Self::tripped(flags, slot), other),
    {
    }
}

impl AbortController {
    /// The place of this token's flag in the table.
    pub closed spec fn slot(&self) -> int {
        self.slot as int
    }

    /// Hands out a fresh, untripped token at the end of the table.
    pub fn new(flags: &mut AbortFlags) -> (controller: AbortController)
        ensures
            controller.slot() == old(flags)@.len(),
            final(flags)@ == old(flags)@.push(false),
    {
        let slot: usize = flags.flags.len();
        flags.flags.push(false);
        AbortController { slot }
    }

    /// Trips the token. Tripping an already tripped token changes nothing.
    pub fn abort(&self, flags: &mut AbortFlags)
        ensures
            final(flags)@ == AbortFlags::tripped(old(flags)@, self.slot()),
    {
        if self.slot < flags.flags.len() {
            flags.flags.set(self.slot, true);
        }
    }

    /// Reads the token.
    pub fn is_aborted(&self, flags: &AbortFlags) -> (aborted: bool)
        ensures
            aborted == AbortFlags::is_tripped(flags@, self.slot()),
    {
        self.slot < flags.flags.len() && flags.flags[self.slot]
    }

    /// An observing half of this token; any number of them may share it.
    pub fn signal(&self) -> (signal: AbortSignal)
        ensures
            signal.slot() == self.slot(),
    {
        AbortSignal { slot: self.slot }
    }
}

impl AbortSignal {
    /// The place of this token's flag in the table.
    pub closed spec fn slot(&self) -> int {
        self.slot as int
    }

    /// Reads the token.
    pub fn is_aborted(&self, flags: &AbortFlags) -> (aborted: bool)
        ensures
            aborted == AbortFlags::is_tripped(flags@, self.slot()),
    {
        self.slot < flags.flags.len() && flags.flags[self.slot]
    }
}

} // verus!
