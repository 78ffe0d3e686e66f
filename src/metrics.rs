//! One tick's metrics reading, in integer units.
use vstd::prelude::*;

verus! {

/// A metrics reading for one tick. CPU usage is held in tenths of a percent
/// (`815` stands for 81.5%); memory is in bytes.
pub struct Metrics {
    pub cpu_tenths: u64,
    pub memory_used: u64,
    pub memory_total: u64,
}

/// `part / whole * 100`, in tenths of a percent rounded to the nearest tenth
/// (halves up); zero when `whole` is zero.
pub open spec fn percent_tenths(part: nat, whole: nat) -> nat {
    if whole == 0 {
        0
    } else {
        (2000 * part + whole) / (2 * whole)
    }
}

/// The share of `whole` that `part` is, in tenths of a percent, rounded to the
/// nearest tenth. A zero `whole` gives zero rather than a division by zero.
pub fn percent_of(part: u64, whole: u64) -> (r: u128)
    ensures
        r == percent_tenths(part as nat, whole as nat),
{
    if whole == 0 {
        0
    } else {
        let num: u128 = 2000 * (part as u128) + (whole as u128);
        let den: u128 = 2 * (whole as u128);
        num / den
    }
}

impl Metrics {
    /// Memory in use, in tenths of a percent of the total.
    pub open spec fn memory_percent_spec(&self) -> nat {
        percent_tenths(self.memory_used as nat, self.memory_total as nat)
    }

    /// Memory in use, in tenths of a percent of the total (zero when the
    /// total is reported as zero).
    pub fn memory_percent_tenths(&self) -> (r: u128)
        ensures
            r == self.memory_percent_spec(),
    {
        percent_of(self.memory_used, self.memory_total)
    }
}

} // verus!
