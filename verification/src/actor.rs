use vstd::prelude::*;

verus! {

/// The two-method notification sink that the on-air state machine drives.
/// Implementations perform the actual side effect (a production actor might
/// launch a desktop notification); the contract only counts how often each
/// method has been invoked, which is what the edge-trigger guarantees of the
/// state machine are stated over.
pub trait OnAirActor {
    /// How many times `go_on_air` has been invoked on this actor.
    spec fn on_air_calls(&self) -> nat;

    /// How many times `go_off_air` has been invoked on this actor.
    spec fn off_air_calls(&self) -> nat;

    /// Invoked when the on-air flag turns true.
    fn go_on_air(&mut self)
        ensures
            final(self).on_air_calls() == old(self).on_air_calls() + 1,
            final(self).off_air_calls() == old(self).off_air_calls(),
    ;

    /// Invoked when the on-air flag turns false.
    fn go_off_air(&mut self)
        ensures
            final(self).off_air_calls() == old(self).off_air_calls() + 1,
            final(self).on_air_calls() == old(self).on_air_calls(),
    ;
}

/// A recording test double: it performs no side effect and only counts
/// invocations, so tests can assert that a transition fired its hook exactly
/// once. The executable counters mirror the ghost call counts but stop at
/// `u64::MAX` instead of overflowing.
pub struct CountingActor {
    /// Executable count of `go_on_air` invocations (saturating).
    pub on_air_count: u64,
    /// Executable count of `go_off_air` invocations (saturating).
    pub off_air_count: u64,
    /// Unbounded count of `go_on_air` invocations.
    pub on_air_ghost: Ghost<nat>,
    /// Unbounded count of `go_off_air` invocations.
    pub off_air_ghost: Ghost<nat>,
}

impl CountingActor {
    /// An actor that has not been invoked yet.
    pub fn new() -> (a: Self)
        ensures
            a.on_air_calls() == 0,
            a.off_air_calls() == 0,
            a.on_air_count == 0,
            a.off_air_count == 0,
    {
        CountingActor {
            on_air_count: 0,
            off_air_count: 0,
            on_air_ghost: Ghost(0),
            off_air_ghost: Ghost(0),
        }
    }
}

impl OnAirActor for CountingActor {
    open spec fn on_air_calls(&self) -> nat {
        self.on_air_ghost@
    }

    open spec fn off_air_calls(&self) -> nat {
        self.off_air_ghost@
    }

    fn go_on_air(&mut self)
        ensures
            final(self).on_air_count == (if old(self).on_air_count < u64::MAX {
                old(self).on_air_count + 1
            } else {
                old(self).on_air_count as int
            }),
            final(self).off_air_count == old(self).off_air_count,
    {
        if self.on_air_count < u64::MAX {
            self.on_air_count = self.on_air_count + 1;
        }
        self.on_air_ghost = Ghost(self.on_air_ghost@ + 1);
    }

    fn go_off_air(&mut self)
        ensures
            final(self).off_air_count == (if old(self).off_air_count < u64::MAX {
                old(self).off_air_count + 1
            } else {
                old(self).off_air_count as int
            }),
            final(self).on_air_count == old(self).on_air_count,
    {
        if self.off_air_count < u64::MAX {
            self.off_air_count = self.off_air_count + 1;
        }
        self.off_air_ghost = Ghost(self.off_air_ghost@ + 1);
    }
}

} // verus!
