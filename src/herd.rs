use vstd::prelude::*;
use crate::bind_loop::LoopEnd;

verus! {

/// The number of bind loops that race in one run.
pub const HERD_SIZE: usize = 1024;

/// One member's report: its index in the herd and how its loop ended.
#[derive(Clone, Copy, Debug, PartialEq, Eq, Structural)]
pub struct Report {
    pub member: usize,
    pub end: LoopEnd,
}

/// The decisions of the herd driver: it launches `size` bind loops, and the
/// first of them to stop decides the run. The others are abandoned, not
/// cancelled: they keep running until the runtime is torn down, and what
/// they report afterwards is ignored.
#[derive(Clone, Copy, Debug, PartialEq, Eq, Structural)]
pub struct Herd {
    pub size: usize,
    pub winner: Option<Report>,
}

/// The herd after taking the reports in order.
pub open spec fn settle(h: Herd, reports: Seq<Report>) -> Herd
    decreases reports.len(),
{
    if reports.len() == 0 {
        h
    } else {
        let prev = settle(h, reports.drop_last());
        let r = reports.last();
        if prev.winner is None && r.member < prev.size {
            Herd { winner: Some(r), ..prev }
        } else {
            prev
        }
    }
}

impl Herd {
    /// A herd of `HERD_SIZE` loops, none of which has stopped.
    pub fn new() -> (r: Herd)
        ensures
            r.size == HERD_SIZE,
            r.winner is None,
    {
        Herd { size: HERD_SIZE, winner: None }
    }

    /// Takes the report that loop `member` stopped with `end`. Returns whether
    /// this report ends the run, that is whether it is the first from a member
    /// of the herd.
    pub fn report(&mut self, member: usize, end: LoopEnd) -> (r: bool)
        ensures
            r == (old(self).winner is None && member < old(self).size),
            *final(self) == settle(*old(self), seq![Report { member, end }]),
            final(self).size == old(self).size,
            final(self).winner == (if r { Some(Report { member, end }) } else { old(self).winner }),
    {
        assert(seq![Report { member, end }].drop_last() =~= Seq::<Report>::empty());
        assert(settle(*self, Seq::<Report>::empty()) == *self);
        if self.winner.is_none() && member < self.size {
            self.winner = Some(Report { member, end });
            true
        } else {
            false
        }
    }

    /// Whether the run has ended, and if so whether it ended without failure.
    pub fn outcome(&self) -> (r: Option<bool>)
        ensures
            r == (match self.winner {
                Some(Report { end, .. }) => Some(end == LoopEnd::CapReached),
                None => None,
            }),
    {
        match self.winner {
            Some(Report { end, .. }) => Some(end == LoopEnd::CapReached),
            None => None,
        }
    }
}

/// Once a member has stopped, the run's result is fixed: the first report
/// from a member of the herd decides it, and no later report changes it.
pub proof fn lemma_first_report_wins(h: Herd, first: Report, later: Seq<Report>)
    requires
        h.winner is None,
        first.member < h.size,
    ensures
        settle(h, seq![first] + later).winner == Some(first),
        settle(h, seq![first] + later).size == h.size,
    decreases later.len(),
{
    if later.len() == 0 {
        assert(seq![first] + later =~= seq![first]);
        assert(seq![first].drop_last() =~= Seq::<Report>::empty());
        assert(settle(h, Seq::<Report>::empty()) == h);
    } else {
        lemma_first_report_wins(h, first, later.drop_last());
        assert((seq![first] + later).drop_last() =~= seq![first] + later.drop_last());
    }
}

} // verus!
