//! The rolling in-memory history of accepted readings kept for the
//! presentation layer: bounded to the most recent points unless the whole
//! history is loaded, with verified minimum/maximum summaries.

use vstd::prelude::*;

use crate::logfmt::HistoryPoint;
use crate::logfmt::MAX_HISTORY_POINTS;

verus! {

/// The rolling history and the policy it was configured with.
#[derive(Debug)]
pub struct History {
    pub points: Vec<HistoryPoint>,
    pub load_all_history: bool,
}

impl History {
    /// An empty history with the given retention policy.
    pub fn new(load_all_history: bool) -> (r: History)
        ensures
            r.points@.len() == 0,
            r.load_all_history == load_all_history,
    {
        History { points: Vec::new(), load_all_history }
    }

    /// What the history holds after adding one point: everything when the
    /// whole history is kept or the bound is not yet reached, else the most
    /// recent points up to the bound.
    pub open spec fn after_add(points: Seq<HistoryPoint>, p: HistoryPoint, load_all: bool) -> Seq<
        HistoryPoint,
    > {
        if load_all || points.len() < MAX_HISTORY_POINTS {
            points.push(p)
        } else {
            points.skip(points.len() - (MAX_HISTORY_POINTS - 1)).push(p)
        }
    }

    /// Appends one point, dropping the oldest points first when the bound
    /// applies.
    pub fn add_data_point(&mut self, p: HistoryPoint)
        ensures
            final (self).load_all_history == old(self).load_all_history,
            final (self).points@ == Self::after_add(
                old(self).points@,
                p,
                old(self).load_all_history,
            ),
    {
        if !self.load_all_history {
            while self.points.len() >= MAX_HISTORY_POINTS
                invariant
                    self.load_all_history == old(self).load_all_history,
                    !self.load_all_history,
                    self.points@ == old(self).points@.skip(
                        old(self).points@.len() - self.points@.len(),
                    ),
                    self.points@.len() <= old(self).points@.len(),
                    old(self).points@.len() >= MAX_HISTORY_POINTS ==> self.points@.len()
                        >= MAX_HISTORY_POINTS - 1,
                    old(self).points@.len() < MAX_HISTORY_POINTS ==> self.points@ == old(
                        self,
                    ).points@,
                decreases self.points@.len(),
            {
                self.points.remove(0);
                proof {
                    let k = old(self).points@.len() - self.points@.len();
                    assert(self.points@ =~= old(self).points@.skip(k));
                }
            }
        }
        self.points.push(p);
    }

    /// Smallest and largest temperature in the history, or `None` when it
    /// is empty.
    pub fn temp_min_max(&self) -> (r: Option<(i16, i16)>)
        ensures
            r is None <==> self.points@.len() == 0,
            r matches Some(mm) ==> {
                &&& forall|i: int|
                    0 <= i < self.points@.len() ==> mm.0 <= #[trigger] self.points@[i].temp_tenths
                        <= mm.1
                &&& exists|i: int|
                    0 <= i < self.points@.len() && #[trigger] self.points@[i].temp_tenths == mm.0
                &&& exists|i: int|
                    0 <= i < self.points@.len() && #[trigger] self.points@[i].temp_tenths == mm.1
            },
    {
        if self.points.len() == 0 {
            return None;
        }
        let mut lo = self.points[0].temp_tenths;
        let mut hi = lo;
        let mut i: usize = 1;
        while i < self.points.len()
            invariant
                1 <= i <= self.points@.len(),
                forall|j: int| 0 <= j < i ==> lo <= #[trigger] self.points@[j].temp_tenths <= hi,
                exists|j: int| 0 <= j < i && #[trigger] self.points@[j].temp_tenths == lo,
                exists|j: int| 0 <= j < i && #[trigger] self.points@[j].temp_tenths == hi,
            decreases self.points@.len() - i,
        {
            let t = self.points[i].temp_tenths;
            if t < lo {
                lo = t;
            }
            if t > hi {
                hi = t;
            }
            i += 1;
        }
        Some((lo, hi))
    }

    /// Smallest and largest humidity in the history, or `None` when it is
    /// empty.
    pub fn hum_min_max(&self) -> (r: Option<(u8, u8)>)
        ensures
            r is None <==> self.points@.len() == 0,
            r matches Some(mm) ==> {
                &&& forall|i: int|
                    0 <= i < self.points@.len() ==> mm.0 <= #[trigger] self.points@[i].humidity
                        <= mm.1
                &&& exists|i: int|
                    0 <= i < self.points@.len() && #[trigger] self.points@[i].humidity == mm.0
                &&& exists|i: int|
                    0 <= i < self.points@.len() && #[trigger] self.points@[i].humidity == mm.1
            },
    {
        if self.points.len() == 0 {
            return None;
        }
        let mut lo = self.points[0].humidity;
        let mut hi = lo;
        let mut i: usize = 1;
        while i < self.points.len()
            invariant
                1 <= i <= self.points@.len(),
                forall|j: int| 0 <= j < i ==> lo <= #[trigger] self.points@[j].humidity <= hi,
                exists|j: int| 0 <= j < i && #[trigger] self.points@[j].humidity == lo,
                exists|j: int| 0 <= j < i && #[trigger] self.points@[j].humidity == hi,
            decreases self.points@.len() - i,
        {
            let h = self.points[i].humidity;
            if h < lo {
                lo = h;
            }
            if h > hi {
                hi = h;
            }
            i += 1;
        }
        Some((lo, hi))
    }
}

} // verus!
