//! A batch: which files of a source root are candidates, and the count of
//! what became of them.

use crate::placement::Decision;
use crate::placement::PlacementDecision;
use vstd::prelude::*;
use vstd::string::StringExecFns;

verus! {

/// The search pattern for the candidates below `root`: every path, at any
/// depth below the root, whose last component holds a dot.
pub open spec fn candidates_below(root: Seq<char>) -> Seq<char> {
    root + "/**/*.*"@
}

/// The search pattern for the candidates below `source_root`.
pub fn candidate_pattern(source_root: &str) -> (pattern: String)
    ensures
        pattern@ == candidates_below(source_root@),
{
    let mut pattern = source_root.to_owned();
    pattern.append("/**/*.*");
    pattern
}

/// How many files were decided, and how.
pub struct Counts {
    pub processed: nat,
    pub moved: nat,
    pub in_place: nat,
    pub skipped: nat,
}

impl Counts {
    /// Every file that was decided is counted under exactly one decision.
    pub open spec fn adds_up(self) -> bool {
        self.processed == self.moved + self.in_place + self.skipped
    }

    /// The counts after one more decision.
    pub open spec fn with(self, decision: Decision) -> Counts {
        match decision {
            Decision::Moved { .. } => Counts {
                processed: self.processed + 1,
                moved: self.moved + 1,
                ..self
            },
            Decision::AlreadyInPlace { .. } => Counts {
                processed: self.processed + 1,
                in_place: self.in_place + 1,
                ..self
            },
            Decision::Skipped { .. } => Counts {
                processed: self.processed + 1,
                skipped: self.skipped + 1,
                ..self
            },
        }
    }
}

/// The counts of no decisions at all.
pub open spec fn no_counts() -> Counts {
    Counts { processed: 0, moved: 0, in_place: 0, skipped: 0 }
}

/// The counts of `decisions`, taken one after the other.
pub open spec fn counts_of(decisions: Seq<Decision>) -> Counts
    decreases decisions.len(),
{
    if decisions.len() == 0 {
        no_counts()
    } else {
        counts_of(decisions.drop_last()).with(decisions.last())
    }
}

/// The counts of a batch name every file once: as many are counted as were
/// decided, each under its own decision.
pub proof fn lemma_counts_add_up(decisions: Seq<Decision>)
    ensures
        counts_of(decisions).adds_up(),
        counts_of(decisions).processed == decisions.len(),
    decreases decisions.len(),
{
    if decisions.len() > 0 {
        lemma_counts_add_up(decisions.drop_last());
    }
}

/// A batch in which every file is found in place moves nothing.
pub proof fn lemma_settled_batch_moves_nothing(decisions: Seq<Decision>)
    requires
        forall|at: int| 0 <= at < decisions.len() ==> decisions[at] is AlreadyInPlace,
    ensures
        counts_of(decisions).moved == 0,
        counts_of(decisions).skipped == 0,
        counts_of(decisions).in_place == decisions.len(),
    decreases decisions.len(),
{
    if decisions.len() > 0 {
        let before = decisions.drop_last();
        assert forall|at: int| 0 <= at < before.len() implies before[at] is AlreadyInPlace by {
            assert(before[at] == decisions[at]);
        }
        lemma_settled_batch_moves_nothing(before);
    }
}

/// The running count of a batch.
#[derive(Clone, Copy, Debug, PartialEq, Eq, Structural)]
pub struct Tally {
    processed: u64,
    moved: u64,
    in_place: u64,
    skipped: u64,
}

impl View for Tally {
    type V = Counts;

    closed spec fn view(&self) -> Counts {
        Counts {
            processed: self.processed as nat,
            moved: self.moved as nat,
            in_place: self.in_place as nat,
            skipped: self.skipped as nat,
        }
    }
}

impl Tally {
    /// What holds of every tally that a program can hold.
    #[verifier::type_invariant]
    pub open spec fn well_formed(self) -> bool {
        self@.adds_up()
    }

    /// The tally of a batch in which nothing was decided yet.
    pub fn new() -> (tally: Tally)
        ensures
            tally@ == no_counts(),
    {
        Tally { processed: 0, moved: 0, in_place: 0, skipped: 0 }
    }

    /// Counts one more decision.
    pub fn record(&mut self, decision: &PlacementDecision)
        requires
            old(self)@.processed < u64::MAX,
        ensures
            final(self)@ == old(self)@.with(decision@),
    {
        proof {
            use_type_invariant(&*self);
        }
        let now = *self;
        let processed = now.processed + 1;
        *self = match decision {
            PlacementDecision::Moved { .. } => Tally { processed, moved: now.moved + 1, ..now },
            PlacementDecision::AlreadyInPlace { .. } => Tally {
                processed,
                in_place: now.in_place + 1,
                ..now
            },
            PlacementDecision::Skipped { .. } => Tally {
                processed,
                skipped: now.skipped + 1,
                ..now
            },
        };
    }

    /// How many files were decided.
    pub fn processed(&self) -> (count: u64)
        ensures
            count == self@.processed,
    {
        self.processed
    }

    /// How many files were moved, or would be in a dry run.
    pub fn moved(&self) -> (count: u64)
        ensures
            count == self@.moved,
    {
        self.moved
    }

    /// How many files were found in place.
    pub fn in_place(&self) -> (count: u64)
        ensures
            count == self@.in_place,
    {
        self.in_place
    }

    /// How many files were left where they are.
    pub fn skipped(&self) -> (count: u64)
        ensures
            count == self@.skipped,
            self@.adds_up(),
    {
        proof {
            use_type_invariant(self);
        }
        self.skipped
    }
}

} // verus!
