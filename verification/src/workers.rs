use vstd::arithmetic::div_mod::{lemma_basic_div, lemma_div_is_ordered_by_denominator};
use vstd::prelude::*;

verus! {

/// The worker count that a run uses: the configured override where it is
/// present and positive, else the parallelism that the platform reports where
/// that is positive, else one.
pub open spec fn resolved_workers(configured: Option<usize>, available: Option<usize>) -> usize {
    match configured {
        Some(n) if n > 0 => n,
        _ => match available {
            Some(a) if a > 0 => a,
            _ => 1usize,
        },
    }
}

/// Sizes the worker pool for one run. The result is never zero.
pub fn resolve_worker_count(configured: Option<usize>, available: Option<usize>) -> (workers: usize)
    ensures
        workers == resolved_workers(configured, available),
        workers >= 1,
{
    if let Some(n) = configured {
        if n > 0 {
            return n;
        }
    }
    if let Some(a) = available {
        if a > 0 {
            return a;
        }
    }
    1
}

/// The least and greatest number of files handed to a worker at a time.
#[derive(Clone, Copy, Debug, PartialEq, Eq, Structural)]
pub struct ChunkBounds {
    pub min_len: usize,
    pub max_len: usize,
}

/// A number raised to one where it is below.
pub open spec fn at_least_one(n: int) -> int {
    if n < 1 {
        1
    } else {
        n
    }
}

/// The chunk bounds for a number of files and of workers: at most an even
/// share per worker, at least a quarter of that, and never less than one file.
pub open spec fn chunk_bounds_for(file_count: usize, workers: usize) -> ChunkBounds
    recommends
        workers >= 1,
{
    ChunkBounds {
        min_len: at_least_one(file_count as int / (workers * 4)) as usize,
        max_len: at_least_one(file_count as int / (workers as int)) as usize,
    }
}

/// Bounds the chunks into which the files are split among the workers.
pub fn chunk_bounds(file_count: usize, workers: usize) -> (bounds: ChunkBounds)
    requires
        workers >= 1,
    ensures
        bounds == chunk_bounds_for(file_count, workers),
        bounds.min_len == at_least_one(file_count as int / (workers * 4)),
        bounds.max_len == at_least_one(file_count as int / (workers as int)),
        1 <= bounds.min_len <= bounds.max_len,
        bounds.max_len <= at_least_one(file_count as int),
{
    let share: usize = file_count / workers;
    let max_len: usize = if share < 1 {
        1
    } else {
        share
    };
    let min_len: usize = match workers.checked_mul(4) {
        Some(divisor) => {
            let quarter: usize = file_count / divisor;
            if quarter < 1 {
                1
            } else {
                quarter
            }
        },
        None => {
            proof {
                lemma_basic_div(file_count as int, workers * 4);
            }
            1
        },
    };
    proof {
        lemma_div_is_ordered_by_denominator(file_count as int, workers as int, workers * 4);
        lemma_div_is_ordered_by_denominator(file_count as int, 1, workers as int);
    }
    ChunkBounds { min_len, max_len }
}

} // verus!
