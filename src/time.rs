use vstd::prelude::*;

verus! {

/// A span of whole seconds; zero disables the timeout it configures.
#[derive(Clone, Copy, Debug, PartialEq, Eq, Structural)]
pub struct Seconds(pub u16);

impl Seconds {
    /// True when the span is not zero, that is when a timer is to be armed.
    pub fn non_zero(self) -> (r: bool)
        ensures
            r == (self.0 != 0),
    {
        self.0 != 0
    }

    /// The span as a number of seconds.
    pub fn seconds(self) -> (r: u64)
        ensures
            r == self.0 as u64,
    {
        self.0 as u64
    }

    /// The span as a timer to arm: `None` when it is zero.
    pub fn deadline(self) -> (r: Option<Seconds>)
        ensures
            r == deadline_of(self),
    {
        if self.0 != 0 {
            Some(self)
        } else {
            None
        }
    }
}

/// The timer that a configured timeout arms, if any.
pub open spec fn deadline_of(t: Seconds) -> Option<Seconds> {
    if t.0 != 0 {
        Some(t)
    } else {
        None
    }
}

} // verus!
