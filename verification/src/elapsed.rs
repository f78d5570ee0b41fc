use vstd::prelude::*;

verus! {

/// A span of time as the timer reports it: whole seconds and the nanosecond
/// remainder below one second, the two parts that are rendered on a line.
#[derive(Clone, Copy, PartialEq, Eq, Structural, Debug)]
pub struct Elapsed {
    pub secs: u64,
    pub nanos: u32,
}

impl Elapsed {
    /// The remainder stays below one second.
    pub open spec fn wf(self) -> bool {
        self.nanos < 1_000_000_000
    }

    /// The whole span, in nanoseconds.
    pub open spec fn value(self) -> int {
        self.secs * 1_000_000_000 + self.nanos
    }

    /// `self - other`, floored at zero: a lap that somehow reads a span
    /// shorter than its anchor reports nothing rather than underflowing.
    pub fn saturating_sub(&self, other: &Elapsed) -> (r: Elapsed)
        requires
            self.wf(),
            other.wf(),
        ensures
            r.wf(),
            r.value() == (if self.value() >= other.value() {
                self.value() - other.value()
            } else {
                0
            }),
    {
        if self.secs > other.secs {
            if self.nanos >= other.nanos {
                Elapsed { secs: self.secs - other.secs, nanos: self.nanos - other.nanos }
            } else {
                Elapsed {
                    secs: self.secs - other.secs - 1,
                    nanos: 1_000_000_000 - other.nanos + self.nanos,
                }
            }
        } else if self.secs == other.secs && self.nanos >= other.nanos {
            Elapsed { secs: 0, nanos: self.nanos - other.nanos }
        } else {
            Elapsed { secs: 0, nanos: 0 }
        }
    }
}

} // verus!
