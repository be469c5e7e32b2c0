use vstd::prelude::*;

verus! {

/// The integer percentage `done` ticks make of `total`.
pub open spec fn percent_of(done: u32, total: u32) -> int
    recommends
        total > 0,
{
    (done as int * 100) / total as int
}

/// Tracks progress reporting at integer-percentage boundaries: a new
/// percentage is handed out at most once, and never one lower than an
/// earlier one.
#[derive(Debug, Clone, Copy, PartialEq, Eq, Structural)]
pub struct ProgressCounter {
    pub last: u64,
    pub total: u32,
}

impl ProgressCounter {
    /// A fresh counter over `total` ticks, with nothing reported yet.
    pub fn new(total: u32) -> (r: ProgressCounter)
        ensures
            r.last == 0u64,
            r.total == total,
    {
        ProgressCounter { last: 0, total }
    }

    /// Advances to `done` processed ticks. Returns the new integer
    /// percentage exactly when it exceeds every percentage handed out
    /// before, and records it; over a zero total nothing is ever reported.
    pub fn update(&mut self, done: u32) -> (r: Option<u64>)
        ensures
            final(self).total == old(self).total,
            old(self).total == 0 ==> r is None && final(self).last == old(self).last,
            old(self).total > 0 ==> {
                let p = percent_of(done, old(self).total);
                &&& p > old(self).last ==> r == Some(p as u64) && final(self).last as int == p
                &&& p <= old(self).last ==> r is None && final(self).last == old(self).last
            },
    {
        if self.total == 0 {
            return None;
        }
        let p: u64 = (done as u64) * 100 / (self.total as u64);
        if p > self.last {
            self.last = p;
            Some(p)
        } else {
            None
        }
    }
}

} // verus!
