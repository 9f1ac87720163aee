use blair_png::batch::{plan_batch, plan_notices, BatchPlan};
use blair_png::workers::ChunkBounds;

#[test]
fn missing_directory_ends_the_run() {
    let plan = plan_batch(false, 0, Some(4), Some(8));
    assert_eq!(plan, BatchPlan::DirectoryMissing);
    assert_eq!(plan_batch(false, 12, None, None), BatchPlan::DirectoryMissing);
    assert_eq!(plan_notices("cards", &plan), vec!["Directory not found: cards".to_string()]);
}

#[test]
fn empty_directory_is_nothing_to_do() {
    let plan = plan_batch(true, 0, None, Some(8));
    assert_eq!(plan, BatchPlan::NothingToDo);
    assert_eq!(plan_notices("cards", &plan), vec!["No png files found in cards".to_string()]);
}

#[test]
fn files_are_spread_over_the_workers() {
    let plan = plan_batch(true, 100, Some(4), Some(32));
    assert_eq!(
        plan,
        BatchPlan::Run { file_count: 100, workers: 4, chunks: ChunkBounds { min_len: 6, max_len: 25 } }
    );
    assert_eq!(
        plan_notices("cards", &plan),
        vec!["Found 100 png files".to_string(), "Starting optimization with 4 workers".to_string()]
    );
    assert_eq!(
        plan_batch(true, 5, None, None),
        BatchPlan::Run { file_count: 5, workers: 1, chunks: ChunkBounds { min_len: 1, max_len: 5 } }
    );
    assert_eq!(
        plan_batch(true, 5, Some(0), Some(16)),
        BatchPlan::Run { file_count: 5, workers: 16, chunks: ChunkBounds { min_len: 1, max_len: 1 } }
    );
}
