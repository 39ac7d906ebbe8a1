//! A quota tracker that tells its messenger when usage crosses the
//! warning thresholds.

use vstd::prelude::*;

verus! {

/// The outlet for quota warnings; how a message is delivered is the
/// user's business, so implementations are supplied by the caller.
pub trait Messenger {
    fn send(&self, msg: &str);
}

/// The message a given usage earns: `0` none, `1` the 75% warning, `2`
/// the 90% warning, `3` over quota. The thresholds divide at the exact
/// rational ratios; a zero maximum counts any use at all as over quota
/// and no use as nothing to report.
pub fn warning_level(value: usize, max: usize) -> (r: u32)
    ensures
        max == 0 && value == 0 ==> r == 0,
        max == 0 && value > 0 ==> r == 3,
        max > 0 && value >= max ==> r == 3,
        max > 0 && value < max && 10 * value >= 9 * max ==> r == 2,
        max > 0 && 10 * value < 9 * max && 4 * value >= 3 * max ==> r == 1,
        max > 0 && 4 * value < 3 * max ==> r == 0,
{
    if max == 0 {
        if value == 0 {
            0
        } else {
            3
        }
    } else {
        let v = value as u128;
        let m = max as u128;
        if v >= m {
            3
        } else if 10 * v >= 9 * m {
            2
        } else if 4 * v >= 3 * m {
            1
        } else {
            0
        }
    }
}

/// Tracks a usage value against a maximum and warns through its messenger
/// when the value crosses 75%, 90% or 100% of the maximum.
pub struct LimitTracker<'a, T: Messenger> {
    messenger: &'a T,
    value: usize,
    max: usize,
}

impl<'a, T: Messenger> LimitTracker<'a, T> {
    /// The usage recorded most recently.
    pub closed spec fn spec_value(&self) -> usize {
        self.value
    }

    /// The maximum the tracker was built with.
    pub closed spec fn spec_max(&self) -> usize {
        self.max
    }

    /// A tracker at zero usage against `max`.
    pub fn new(messenger: &'a T, max: usize) -> (r: LimitTracker<'a, T>)
        ensures
            r.spec_value() == 0,
            r.spec_max() == max,
    {
        LimitTracker { messenger, value: 0, max }
    }

    /// Record a new usage value and send the warning it earns, if any:
    /// the 75% warning from three quarters of the maximum, the urgent
    /// warning from nine tenths, and the over-quota error from the
    /// maximum itself.
    pub fn set_value(&mut self, value: usize)
        ensures
            final(self).spec_value() == value,
            final(self).spec_max() == old(self).spec_max(),
    {
        self.value = value;
        let level = warning_level(self.value, self.max);
        if level == 1 {
            self.messenger.send("Warning: You've used up over 75% of your quota!");
        } else if level == 2 {
            self.messenger.send("Urgent warning: You've used up over 90% of your quota!");
        } else if level == 3 {
            self.messenger.send("Error: You are over your quota!");
        }
    }
}

} // verus!
