//! The handle type of an index module and its generator, as verified code.
//!
//! An index module is emitted as text. This module holds the same two types
//! with the same operations, so that what the emitted code does is stated
//! and proved: a generator hands out the ordinals 0, 1, 2, … in this order,
//! no ordinal wraps around, and only an ordinal that fits in 32 bits has an
//! encoding. Where the emitted code stops the program, the operations here
//! either require that the fault cannot happen or report it as an error.

use crate::text::{decimal, decimal_string};
use vstd::prelude::*;

verus! {

/// A fault of a handle or of a generator.
#[derive(Clone, Copy, Debug, PartialEq, Eq, Structural)]
pub enum HandleError {
    /// The ordinal is the largest there is: there is no next one.
    CounterOverflow,
    /// The ordinal does not fit in the 32 bits of the encoding.
    SerializationRangeExceeded,
}

/// A handle: an ordinal that stands for one item of one kind.
#[derive(Clone, Copy, Debug, PartialEq, Eq, PartialOrd, Ord, Hash, Structural)]
pub struct Id {
    index: usize,
}

/// A generator of fresh handles.
#[derive(Clone, Copy, Debug)]
pub struct Generator {
    counter: usize,
}

impl View for Id {
    type V = nat;

    /// The ordinal of the handle.
    closed spec fn view(&self) -> nat {
        self.index as nat
    }
}

impl Id {
    /// The handle with the ordinal `init`.
    pub fn new(init: usize) -> (id: Id)
        ensures
            id@ == init,
    {
        Id { index: init }
    }

    /// The handle with ordinal 0, which an index module names `ZERO`.
    pub fn zero() -> (id: Id)
        ensures
            id@ == 0,
    {
        Id { index: 0 }
    }

    /// The handle with ordinal 1, which an index module names `ONE`.
    pub fn one() -> (id: Id)
        ensures
            id@ == 1,
    {
        Id { index: 1 }
    }

    /// Whether the ordinal of the handle is 0.
    pub fn is_zero(&self) -> (b: bool)
        ensures
            b == (self@ == 0),
    {
        self.index == 0
    }

    /// The ordinal of the handle.
    pub fn to_usize(&self) -> (n: usize)
        ensures
            n == self@,
    {
        self.index
    }

    /// Moves the handle on to the next ordinal. There has to be one.
    pub fn incr(&mut self)
        requires
            old(self)@ < usize::MAX,
        ensures
            final(self)@ == old(self)@ + 1,
    {
        self.index = self.index + 1;
    }

    /// Moves the handle on to the next ordinal, or fails and leaves it
    /// unchanged where there is none.
    pub fn checked_incr(&mut self) -> (r: Result<(), HandleError>)
        ensures
            old(self)@ < usize::MAX ==> r is Ok && final(self)@ == old(self)@ + 1,
            old(self)@ == usize::MAX ==> r == Err::<(), HandleError>(HandleError::CounterOverflow)
                && *final(self) == *old(self),
    {
        if self.index < usize::MAX {
            self.index = self.index + 1;
            Ok(())
        } else {
            Err(HandleError::CounterOverflow)
        }
    }

    /// The ordinal in decimal.
    pub fn to_string(&self) -> (out: String)
        ensures
            out@ == decimal(self@),
    {
        decimal_string(self.index)
    }

    /// The encoding of the handle: its ordinal in 32 bits. An ordinal that
    /// does not fit has none.
    pub fn serialize(&self) -> (r: Result<u32, HandleError>)
        ensures
            r == encoding(*self),
    {
        if self.index <= u32::MAX as usize {
            Ok(self.index as u32)
        } else {
            Err(HandleError::SerializationRangeExceeded)
        }
    }
}

impl View for Generator {
    type V = nat;

    /// The ordinal of the next fresh handle.
    closed spec fn view(&self) -> nat {
        self.counter as nat
    }
}

impl Generator {
    /// A generator that has handed out nothing yet.
    pub closed spec fn fresh() -> Generator {
        Generator { counter: 0 }
    }

    /// What `fresh_id` does: the handle it returns, and the generator it
    /// leaves.
    pub closed spec fn step(self) -> (Id, Generator) {
        (Id { index: self.counter }, Generator { counter: (self.counter + 1) as usize })
    }

    /// The generator that has handed out `n` handles.
    pub open spec fn after(n: nat) -> Generator
        decreases n,
    {
        if n == 0 {
            Generator::fresh()
        } else {
            Generator::after((n - 1) as nat).step().1
        }
    }

    /// The handle that a new generator hands out at its call number `n`,
    /// counted from zero.
    pub open spec fn nth_id(n: nat) -> Id {
        Generator::after(n).step().0
    }

    /// A generator that has handed out nothing yet.
    pub fn new() -> (g: Generator)
        ensures
            g == Generator::fresh(),
            g@ == 0,
    {
        Generator { counter: 0 }
    }

    /// A fresh handle: it has the ordinal of the generator, which moves on
    /// by one. There has to be a next ordinal.
    pub fn fresh_id(&mut self) -> (id: Id)
        requires
            old(self)@ < usize::MAX,
        ensures
            (id, *final(self)) == old(self).step(),
            id@ == old(self)@,
            final(self)@ == old(self)@ + 1,
    {
        let index = Id::new(self.counter);
        self.counter = self.counter + 1;
        index
    }

    /// A fresh handle, or a failure that leaves the generator unchanged
    /// where there is no next ordinal.
    pub fn checked_fresh_id(&mut self) -> (r: Result<Id, HandleError>)
        ensures
            old(self)@ < usize::MAX ==> r is Ok && r->Ok_0@ == old(self)@ && final(self)@ == old(
                self,
            )@ + 1,
            old(self)@ == usize::MAX ==> r == Err::<Id, HandleError>(HandleError::CounterOverflow)
                && *final(self) == *old(self),
    {
        if self.counter < usize::MAX {
            Ok(self.fresh_id())
        } else {
            Err(HandleError::CounterOverflow)
        }
    }
}

/// Two handles are the same handle exactly when they have the same ordinal.
pub proof fn lemma_handle_is_its_ordinal(a: Id, b: Id)
    ensures
        (a@ == b@) == (a == b),
{
}

/// Handles are ordered as their ordinals are: this is what the derived
/// order of the one field amounts to.
pub open spec fn handle_lt(a: Id, b: Id) -> bool {
    a@ < b@
}

/// A new generator hands out the ordinals 0, 1, 2, … in this order: the
/// call number `n`, counted from zero, returns the handle with ordinal `n`
/// and leaves a generator whose next ordinal is `n + 1`.
pub proof fn lemma_fresh_ids_count_up(n: nat)
    requires
        n < usize::MAX,
    ensures
        Generator::after(n)@ == n,
        Generator::nth_id(n)@ == n,
        Generator::after(n + 1)@ == n + 1,
    decreases n,
{
    if n > 0 {
        lemma_fresh_ids_count_up((n - 1) as nat);
    }
    assert(Generator::after(n + 1) == Generator::after(((n + 1) - 1) as nat).step().1);
}

/// The handles that a generator hands out strictly increase, so no two of
/// them are the same.
pub proof fn lemma_fresh_ids_increase(i: nat, j: nat)
    requires
        i < j < usize::MAX,
    ensures
        handle_lt(Generator::nth_id(i), Generator::nth_id(j)),
        Generator::nth_id(i) != Generator::nth_id(j),
{
    lemma_fresh_ids_count_up(i);
    lemma_fresh_ids_count_up(j);
}

/// The first two handles of a new generator are the handles with the
/// ordinals 0 and 1.
pub proof fn lemma_first_fresh_ids(zero: Id, one: Id)
    requires
        zero@ == 0,
        one@ == 1,
    ensures
        Generator::nth_id(0) == zero,
        Generator::nth_id(1) == one,
{
    lemma_fresh_ids_count_up(0);
    lemma_fresh_ids_count_up(1);
}

/// A handle has an encoding exactly when its ordinal is at most 2^32 - 1,
/// and the encoding is then that ordinal.
pub open spec fn encoding(id: Id) -> Result<u32, HandleError> {
    if id@ <= 0xffff_ffff {
        Ok(id@ as u32)
    } else {
        Err(HandleError::SerializationRangeExceeded)
    }
}

} // verus!
