use vstd::prelude::*;

verus! {

/// How one file came out of the optimizer.
#[derive(Clone, Copy, Debug, PartialEq, Eq, Structural)]
pub enum OutcomeKind {
    /// The file is strictly smaller than before.
    Improved,
    /// The file has the size it had before.
    Unchanged,
    /// The codec succeeded but the file is larger than before.
    Increased,
    /// The codec or a size query failed; the file counts as untouched.
    Failed,
}

/// The sizes of one file before and after, and the classification.
#[derive(Clone, Copy, Debug, PartialEq, Eq, Structural)]
pub struct FileOutcome {
    pub original_size: u64,
    pub new_size: u64,
    pub kind: OutcomeKind,
}

/// What a worker observed while handling one file.
#[derive(Clone, Copy, Debug, PartialEq, Eq, Structural)]
pub enum Attempt {
    /// The size of the file could not be read before the codec ran.
    Unreadable,
    /// The codec reported an error.
    CodecFailed { original_size: u64 },
    /// The codec succeeded, but the size afterwards could not be read.
    ResultUnreadable { original_size: u64 },
    /// The codec succeeded and both sizes are known.
    Optimized { original_size: u64, new_size: u64 },
}

/// The classification of a successful run by the two sizes alone.
pub open spec fn kind_of_sizes(original_size: u64, new_size: u64) -> OutcomeKind {
    if new_size < original_size {
        OutcomeKind::Improved
    } else if new_size == original_size {
        OutcomeKind::Unchanged
    } else {
        OutcomeKind::Increased
    }
}

/// The outcome that an attempt is recorded as.
pub open spec fn outcome_of(attempt: Attempt) -> FileOutcome {
    match attempt {
        Attempt::Unreadable => FileOutcome {
            original_size: 0,
            new_size: 0,
            kind: OutcomeKind::Failed,
        },
        Attempt::CodecFailed { original_size } => FileOutcome {
            original_size,
            new_size: original_size,
            kind: OutcomeKind::Failed,
        },
        Attempt::ResultUnreadable { original_size } => FileOutcome {
            original_size,
            new_size: original_size,
            kind: OutcomeKind::Failed,
        },
        Attempt::Optimized { original_size, new_size } => FileOutcome {
            original_size,
            new_size,
            kind: kind_of_sizes(original_size, new_size),
        },
    }
}

impl FileOutcome {
    /// A failed outcome records no change of size; any other kind is the one
    /// that the two sizes give.
    pub open spec fn well_formed(&self) -> bool {
        if self.kind == OutcomeKind::Failed {
            self.new_size == self.original_size
        } else {
            self.kind == kind_of_sizes(self.original_size, self.new_size)
        }
    }

    /// Bytes saved, negative where the file grew.
    pub open spec fn spec_savings(&self) -> int {
        self.original_size - self.new_size
    }

    /// Bytes saved, negative where the file grew.
    pub fn savings(&self) -> (saved: i128)
        ensures
            saved == self.spec_savings(),
    {
        let before: i128 = self.original_size as i128;
        let after: i128 = self.new_size as i128;
        before - after
    }
}

/// Classifies what a worker observed on one file. A failure of the codec or
/// of a size query becomes a `Failed` outcome with equal sizes; it is never an
/// error of the batch.
pub fn process_outcome(attempt: Attempt) -> (outcome: FileOutcome)
    ensures
        outcome == outcome_of(attempt),
        outcome.well_formed(),
        attempt matches Attempt::Optimized { original_size, new_size } ==> (new_size
            < original_size ==> outcome.kind == OutcomeKind::Improved && outcome.spec_savings()
            == original_size - new_size && outcome.spec_savings() > 0),
        attempt matches Attempt::CodecFailed { original_size } ==> outcome.kind
            == OutcomeKind::Failed && outcome.new_size == original_size && outcome.original_size
            == original_size,
{
    match attempt {
        Attempt::Unreadable => FileOutcome {
            original_size: 0,
            new_size: 0,
            kind: OutcomeKind::Failed,
        },
        Attempt::CodecFailed { original_size } => FileOutcome {
            original_size,
            new_size: original_size,
            kind: OutcomeKind::Failed,
        },
        Attempt::ResultUnreadable { original_size } => FileOutcome {
            original_size,
            new_size: original_size,
            kind: OutcomeKind::Failed,
        },
        Attempt::Optimized { original_size, new_size } => {
            let kind = if new_size < original_size {
                OutcomeKind::Improved
            } else if new_size == original_size {
                OutcomeKind::Unchanged
            } else {
                OutcomeKind::Increased
            };
            FileOutcome { original_size, new_size, kind }
        },
    }
}

/// Whether an attempt gets a line of its own in verbose output: one of which
/// a size could not be read gets none.
pub open spec fn is_logged(attempt: Attempt) -> bool {
    !(attempt == Attempt::Unreadable || attempt matches Attempt::ResultUnreadable { .. })
}

/// Decides whether an attempt gets a line of its own in verbose output.
pub fn outcome_is_logged(attempt: Attempt) -> (logged: bool)
    ensures
        logged == is_logged(attempt),
{
    match attempt {
        Attempt::Unreadable => false,
        Attempt::ResultUnreadable { .. } => false,
        Attempt::CodecFailed { .. } => true,
        Attempt::Optimized { .. } => true,
    }
}

} // verus!
