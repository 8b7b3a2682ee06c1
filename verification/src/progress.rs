use vstd::prelude::*;

verus! {

/// Progress state of an in-flight operation: byte counters for display,
/// a completion flag set once the owning procedure has finished, and a
/// cancellation flag that an observer sets to request early termination.
pub struct Progress {
    pub indeterminate: bool,
    pub complete: bool,
    pub cancelled: bool,
    pub current: u64,
    pub maximum: u64,
}

impl Progress {
    /// The freshly reset state: indeterminate, no flags, both counters
    /// at zero — what every step starts from.
    pub open spec fn spec_fresh() -> Progress {
        Progress {
            indeterminate: true,
            complete: false,
            cancelled: false,
            current: 0u64,
            maximum: 0u64,
        }
    }

    /// The completion ratio as a numerator/denominator pair: 1/1 once
    /// complete, 0/1 while nothing is known, otherwise current/maximum.
    pub open spec fn spec_percent(self) -> (u64, u64) {
        if self.complete {
            (1u64, 1u64)
        } else if self.current == 0 || self.maximum == 0 {
            (0u64, 1u64)
        } else {
            (self.current, self.maximum)
        }
    }

    pub fn new(
        indeterminate: bool,
        complete: bool,
        cancelled: bool,
        current: u64,
        maximum: u64,
    ) -> (r: Self)
        ensures
            r == (Progress { indeterminate, complete, cancelled, current, maximum }),
    {
        Self { indeterminate, complete, cancelled, current, maximum }
    }

    pub fn indeterminate(&self) -> (r: bool)
        ensures
            r == self.indeterminate,
    {
        self.indeterminate
    }

    pub fn complete(&self) -> (r: bool)
        ensures
            r == self.complete,
    {
        self.complete
    }

    pub fn cancelled(&self) -> (r: bool)
        ensures
            r == self.cancelled,
    {
        self.cancelled
    }

    pub fn current(&self) -> (r: u64)
        ensures
            r == self.current,
    {
        self.current
    }

    pub fn maximum(&self) -> (r: u64)
        ensures
            r == self.maximum,
    {
        self.maximum
    }

    pub fn set_indeterminate(&mut self, val: bool)
        ensures
            *final(self) == (Progress { indeterminate: val, ..*old(self) }),
    {
        self.indeterminate = val;
    }

    pub fn set_complete(&mut self, val: bool)
        ensures
            *final(self) == (Progress { complete: val, ..*old(self) }),
    {
        self.complete = val;
    }

    pub fn set_cancelled(&mut self, val: bool)
        ensures
            *final(self) == (Progress { cancelled: val, ..*old(self) }),
    {
        self.cancelled = val;
    }

    pub fn set_current(&mut self, val: u64)
        ensures
            *final(self) == (Progress { current: val, ..*old(self) }),
    {
        self.current = val;
    }

    pub fn set_maximum(&mut self, val: u64)
        ensures
            *final(self) == (Progress { maximum: val, ..*old(self) }),
    {
        self.maximum = val;
    }

    /// Adds to the current counter, wrapping on overflow as a hardware
    /// fetch-add would.
    pub fn add_current(&mut self, val: u64)
        ensures
            final(self).current == if old(self).current + val <= u64::MAX {
                old(self).current + val
            } else {
                old(self).current + val - (u64::MAX + 1)
            },
            *final(self) == (Progress { current: final(self).current, ..*old(self) }),
    {
        self.current = self.current.wrapping_add(val);
    }

    /// Adds to the maximum counter, wrapping on overflow as a hardware
    /// fetch-add would.
    pub fn add_maximum(&mut self, val: u64)
        ensures
            final(self).maximum == if old(self).maximum + val <= u64::MAX {
                old(self).maximum + val
            } else {
                old(self).maximum + val - (u64::MAX + 1)
            },
            *final(self) == (Progress { maximum: final(self).maximum, ..*old(self) }),
    {
        self.maximum = self.maximum.wrapping_add(val);
    }

    /// Restores the defaults before a new step begins.
    pub fn reset(&mut self)
        ensures
            *final(self) == Progress::spec_fresh(),
    {
        self.set_indeterminate(true);
        self.set_complete(false);
        self.set_cancelled(false);
        self.set_current(0);
        self.set_maximum(0);
    }

    /// The completion ratio, as a numerator/denominator pair so that no
    /// floating-point value enters the verified code. The denominator is
    /// never zero. A display layer divides the two for a percentage.
    pub fn percent(&self) -> (r: (u64, u64))
        ensures
            r == self.spec_percent(),
            r.1 != 0,
    {
        if self.complete {
            (1, 1)
        } else if self.current == 0 || self.maximum == 0 {
            (0, 1)
        } else {
            (self.current, self.maximum)
        }
    }
}

impl Default for Progress {
    /// A fresh progress value: indeterminate, nothing transferred yet.
    fn default() -> (r: Self)
        ensures
            r == Progress::spec_fresh(),
    {
        Self::new(true, false, false, 0, 0)
    }
}

} // verus!
