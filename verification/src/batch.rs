use crate::text::{decimal, push_decimal, texts};
use crate::workers::{
    chunk_bounds, chunk_bounds_for, resolve_worker_count, resolved_workers, ChunkBounds,
};
use vstd::prelude::*;
use vstd::string::StringExecFns;

verus! {

/// What a run does once the target directory has been looked at.
#[derive(Clone, Copy, Debug, PartialEq, Eq, Structural)]
pub enum BatchPlan {
    /// The directory does not exist: the run ends with an empty report.
    DirectoryMissing,
    /// The directory holds no eligible file: the run ends with an empty
    /// report.
    NothingToDo,
    /// The files are processed by a pool of `workers`, in chunks within
    /// `chunks`.
    Run { file_count: usize, workers: usize, chunks: ChunkBounds },
}

/// The plan for a directory that exists or not, a number of discovered
/// files, the configured worker count and the platform's parallelism.
pub open spec fn planned(
    directory_exists: bool,
    file_count: usize,
    max_workers: Option<usize>,
    available: Option<usize>,
) -> BatchPlan {
    if !directory_exists {
        BatchPlan::DirectoryMissing
    } else if file_count == 0 {
        BatchPlan::NothingToDo
    } else {
        BatchPlan::Run {
            file_count,
            workers: resolved_workers(max_workers, available),
            chunks: chunk_bounds_for(file_count, resolved_workers(max_workers, available)),
        }
    }
}

/// Decides what a run does. A missing directory and an empty one both end the
/// run without error; otherwise the pool is sized once and the chunk bounds
/// follow from it.
pub fn plan_batch(
    directory_exists: bool,
    file_count: usize,
    max_workers: Option<usize>,
    available: Option<usize>,
) -> (plan: BatchPlan)
    ensures
        plan == planned(directory_exists, file_count, max_workers, available),
        plan matches BatchPlan::Run { workers, chunks, .. } ==> workers >= 1 && 1 <= chunks.min_len
            <= chunks.max_len <= file_count,
{
    if !directory_exists {
        BatchPlan::DirectoryMissing
    } else if file_count == 0 {
        BatchPlan::NothingToDo
    } else {
        let workers = resolve_worker_count(max_workers, available);
        BatchPlan::Run { file_count, workers, chunks: chunk_bounds(file_count, workers) }
    }
}

/// The messages that announce a plan.
pub open spec fn notice_texts(directory: Seq<char>, plan: BatchPlan) -> Seq<Seq<char>> {
    match plan {
        BatchPlan::DirectoryMissing => seq!["Directory not found: "@ + directory],
        BatchPlan::NothingToDo => seq!["No png files found in "@ + directory],
        BatchPlan::Run { file_count, workers, chunks } => seq![
            "Found "@ + decimal(file_count as nat) + " png files"@,
            "Starting optimization with "@ + decimal(workers as nat) + " workers"@,
        ],
    }
}

/// Formats the messages that announce a plan.
pub fn plan_notices(directory: &str, plan: &BatchPlan) -> (lines: Vec<String>)
    ensures
        texts(lines@) == notice_texts(directory@, *plan),
{
    let mut lines: Vec<String> = Vec::new();
    match plan {
        BatchPlan::DirectoryMissing => {
            let mut line = String::from_str("Directory not found: ");
            line.append(directory);
            lines.push(line);
        },
        BatchPlan::NothingToDo => {
            let mut line = String::from_str("No png files found in ");
            line.append(directory);
            lines.push(line);
        },
        BatchPlan::Run { file_count, workers, chunks } => {
            let mut found = String::from_str("Found ");
            push_decimal(&mut found, *file_count as u128);
            found.append(" png files");
            lines.push(found);
            let mut starting = String::from_str("Starting optimization with ");
            push_decimal(&mut starting, *workers as u128);
            starting.append(" workers");
            lines.push(starting);
        },
    }
    assert(texts(lines@) =~= notice_texts(directory@, *plan));
    lines
}

} // verus!
