//! Per-frame rendering options and the input signals that adjust them.

use vstd::prelude::*;

verus! {

/// A discrete control signal that raises or lowers the subdivision level by
/// one step.
#[derive(Clone, Copy, PartialEq, Eq, Structural, Debug)]
pub enum SegmentSignal {
    Increase,
    Decrease,
}

/// Per-frame rendering options. `num_segments` governs how finely each
/// three-point window of a path is subdivided; the input layer keeps it
/// within `[1, 255]` by saturating at both bounds.
#[derive(Clone, Copy, PartialEq, Eq, Structural, Debug)]
pub struct Options {
    pub num_segments: u8,
}

impl Options {
    /// The subdivision level is meaningful only when it is at least one.
    pub open spec fn wf(self) -> bool {
        1 <= self.num_segments
    }

    /// How one signal changes the subdivision level: increase and decrease
    /// saturate at 255 and at 1 and never wrap around.
    pub open spec fn apply_signal(n: u8, signal: SegmentSignal) -> u8 {
        match signal {
            SegmentSignal::Increase => if n == 255 { n } else { (n + 1) as u8 },
            SegmentSignal::Decrease => if n <= 1 { n } else { (n - 1) as u8 },
        }
    }

    /// The subdivision level after a whole sequence of signals, applied in
    /// order.
    pub open spec fn apply_signals(n: u8, signals: Seq<SegmentSignal>) -> u8
        decreases signals.len(),
    {
        if signals.len() == 0 {
            n
        } else {
            Self::apply_signals(Self::apply_signal(n, signals[0]), signals.drop_first())
        }
    }

    /// Raise the subdivision level by one, saturating at 255.
    pub fn increment_segments(&mut self)
        ensures
            final(self).num_segments == Self::apply_signal(
                old(self).num_segments,
                SegmentSignal::Increase,
            ),
    {
        if self.num_segments != 255 {
            self.num_segments = self.num_segments + 1;
        }
    }

    /// Lower the subdivision level by one, saturating at 1.
    pub fn decrement_segments(&mut self)
        ensures
            final(self).num_segments == Self::apply_signal(
                old(self).num_segments,
                SegmentSignal::Decrease,
            ),
    {
        if self.num_segments > 1 {
            self.num_segments = self.num_segments - 1;
        }
    }

    /// Apply one signal to the options.
    pub fn apply(&mut self, signal: SegmentSignal)
        ensures
            final(self).num_segments == Self::apply_signal(old(self).num_segments, signal),
    {
        match signal {
            SegmentSignal::Increase => self.increment_segments(),
            SegmentSignal::Decrease => self.decrement_segments(),
        }
    }
}

/// Law: starting from a level inside `[1, 255]`, no sequence of increase and
/// decrease signals can drive the subdivision level outside `[1, 255]`; both
/// bounds saturate and nothing wraps around.
pub proof fn lemma_segments_never_leave_range(n: u8, signals: Seq<SegmentSignal>)
    requires
        1 <= n,
    ensures
        1 <= Options::apply_signals(n, signals) <= 255,
    decreases signals.len(),
{
    if signals.len() > 0 {
        lemma_segments_never_leave_range(
            Options::apply_signal(n, signals[0]),
            signals.drop_first(),
        );
    }
}

} // verus!
