use vstd::prelude::*;
use crate::cache::ReplyModel;
use crate::pipeline::{step_model, ActionModel, EventModel, Outcome, Stage};

verus! {

/// The counts reported at the end of a run. Every page whose pipeline ended
/// counts as processed, whether it was saved or left unresolved.
#[derive(Clone, Copy, Debug, PartialEq, Eq, Structural)]
pub struct RunTally {
    pub processed: u64,
    pub saved: u64,
    pub unresolved: u64,
}

pub open spec fn bump(n: u64) -> u64 {
    if n < u64::MAX {
        (n + 1) as u64
    } else {
        n
    }
}

impl RunTally {
    pub fn new() -> (r: RunTally)
        ensures
            r.processed == 0,
            r.saved == 0,
            r.unresolved == 0,
    {
        RunTally { processed: 0, saved: 0, unresolved: 0 }
    }

    /// Counts one ended pipeline; each count stops at its largest value.
    pub fn record(&mut self, o: Outcome)
        ensures
            final(self).processed == bump(old(self).processed),
            final(self).saved == if o == Outcome::Saved {
                bump(old(self).saved)
            } else {
                old(self).saved
            },
            final(self).unresolved == if o == Outcome::Saved {
                old(self).unresolved
            } else {
                bump(old(self).unresolved)
            },
    {
        self.processed = self.processed.saturating_add(1);
        if o == Outcome::Saved {
            self.saved = self.saved.saturating_add(1);
        } else {
            self.unresolved = self.unresolved.saturating_add(1);
        }
    }
}

/// A page whose cache lookup misses ends unresolved, with no artifact, and
/// still counts as one processed page: recording its outcome raises the
/// processed count by exactly one, short of the count's largest value.
pub proof fn miss_counts_as_processed(url: Seq<char>, before: RunTally, after: RunTally)
    requires
        before.processed < u64::MAX,
        after.processed == bump(before.processed),
    ensures
        step_model(Stage::CacheLookup, url, EventModel::LookupReplied(ReplyModel::NotFound)) == (
            Stage::Unresolved,
            ActionModel::Release(Outcome::CacheMiss),
        ),
        after.processed == before.processed + 1,
{
}

} // verus!
