use shub::fetcher::{FetchPool, Step, DEFAULT_POOL_SIZE, DEFAULT_QUEUE_CAPACITY};
use shub::types::BuildStatus;

/// Drives a pool over `outcomes`, one for each item. A worker comes back
/// after `delay` steps of waiting. Returns the result and the largest
/// number of fetches that were under way at once.
fn drive(
    outcomes: Vec<Result<Option<BuildStatus>, String>>,
    limit: usize,
    capacity: usize,
) -> (Result<Vec<(usize, BuildStatus)>, String>, usize) {
    let mut pool: FetchPool<String> = FetchPool::new(outcomes.len(), limit, capacity);
    let mut running: Vec<usize> = Vec::new();
    let mut most = 0;
    loop {
        assert!(pool.in_flight() <= limit);
        most = most.max(pool.in_flight());
        match pool.next_step() {
            Step::Start => {
                let index = pool.start();
                assert!(pool.is_in_flight(index));
                running.push(index);
            }
            Step::Collect => pool.collect(),
            Step::Wait => {
                // The worker that started last comes back first.
                let index = running.pop().unwrap();
                while !pool.has_room() {
                    pool.collect();
                }
                pool.complete(index, outcomes[index].clone());
                assert!(!pool.is_in_flight(index));
            }
            Step::Finish => break,
        }
    }
    assert!(pool.is_finished());
    (pool.finish(), most)
}

#[test]
fn bounded_concurrency() {
    let outcomes: Vec<Result<Option<BuildStatus>, String>> =
        (0..10).map(|_| Ok(Some(BuildStatus::Success))).collect();
    for limit in 1..=4 {
        let (result, most) = drive(outcomes.clone(), limit, DEFAULT_QUEUE_CAPACITY);
        assert_eq!(most, limit);
        assert_eq!(result.unwrap().len(), 10);
    }
    assert_eq!(DEFAULT_POOL_SIZE, 2);
    assert_eq!(DEFAULT_QUEUE_CAPACITY, 32);
}

#[test]
fn only_present_statuses_are_collected() {
    let outcomes = vec![
        Ok(Some(BuildStatus::Success)),
        Ok(None),
        Ok(Some(BuildStatus::Failure)),
        Ok(None),
        Ok(Some(BuildStatus::InProgress)),
    ];
    let (result, _) = drive(outcomes, DEFAULT_POOL_SIZE, DEFAULT_QUEUE_CAPACITY);
    let mut fetched = result.unwrap();
    fetched.sort_by_key(|f| f.0);
    assert_eq!(
        fetched,
        [(0, BuildStatus::Success), (2, BuildStatus::Failure), (4, BuildStatus::InProgress)]
    );
}

#[test]
fn one_failure_ends_the_batch() {
    let outcomes = vec![
        Ok(Some(BuildStatus::Success)),
        Ok(Some(BuildStatus::Success)),
        Err("rate limited".to_owned()),
        Ok(Some(BuildStatus::Success)),
    ];
    let (result, _) = drive(outcomes, 1, DEFAULT_QUEUE_CAPACITY);
    assert_eq!(result, Err("rate limited".to_owned()));
}

#[test]
fn empty_batch_is_finished_at_once() {
    let pool: FetchPool<String> = FetchPool::new(0, 2, 32);
    assert_eq!(pool.next_step(), Step::Finish);
    assert!(pool.is_finished());
    assert_eq!(pool.finish(), Ok(vec![]));
}

#[test]
fn full_queue_holds_workers_back() {
    let mut pool: FetchPool<String> = FetchPool::new(3, 3, 1);
    assert_eq!(pool.start(), 0);
    assert_eq!(pool.start(), 1);
    assert_eq!(pool.start(), 2);
    assert_eq!(pool.next_step(), Step::Wait);
    pool.complete(1, Ok(Some(BuildStatus::Failure)));
    assert!(!pool.has_room());
    assert_eq!(pool.in_flight(), 2);
    assert_eq!(pool.next_step(), Step::Collect);
    pool.collect();
    assert!(pool.has_room());
    pool.complete(0, Ok(Some(BuildStatus::Success)));
    pool.complete(2, Ok(None));
    assert!(!pool.is_finished());
    assert_eq!(pool.next_step(), Step::Collect);
    pool.collect();
    assert_eq!(pool.next_step(), Step::Finish);
    assert_eq!(pool.finish(), Ok(vec![(1, BuildStatus::Failure), (0, BuildStatus::Success)]));
}
