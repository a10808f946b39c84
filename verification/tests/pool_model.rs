use tcp_router::pool::WorkerPool;

#[test]
fn jobs_within_pool_size_all_run() {
    let mut p = WorkerPool::new(4);
    for job in 1..=4u64 {
        p.submit(job);
    }
    p.dispatch();
    assert_eq!(p.busy, 4);
    assert_eq!(p.idle, 0);
    assert!(p.queue.is_empty());
    assert_eq!(p.delivered, vec![1, 2, 3, 4]);
}

#[test]
fn extra_job_waits_until_a_worker_frees_up() {
    let mut p = WorkerPool::new(4);
    for job in 1..=5u64 {
        p.submit(job);
    }
    p.dispatch();
    assert_eq!(p.busy, 4);
    assert_eq!(p.queue, vec![5]);
    p.finish();
    p.dispatch();
    assert_eq!(p.busy, 4);
    assert!(p.queue.is_empty());
    assert_eq!(p.delivered, vec![1, 2, 3, 4, 5]);
}

#[test]
fn delivery_keeps_submission_order() {
    let mut p = WorkerPool::new(1);
    p.submit(10);
    p.submit(20);
    p.submit(30);
    let first = p.deliver();
    p.finish();
    let second = p.deliver();
    p.finish();
    let third = p.deliver();
    assert_eq!((first, second, third), (10, 20, 30));
}

#[test]
fn shutdown_drains_queue_and_joins_all_workers() {
    let mut p = WorkerPool::new(3);
    for job in 1..=7u64 {
        p.submit(job);
    }
    p.dispatch();
    p.shutdown();
    assert!(p.queue.is_empty());
    assert_eq!(p.delivered, vec![1, 2, 3, 4, 5, 6, 7]);
    assert_eq!(p.exited, 3);
    assert_eq!(p.busy, 0);
    assert_eq!(p.idle, 0);
}

#[test]
fn fault_does_not_shrink_the_pool() {
    let mut p = WorkerPool::new(2);
    p.submit(1);
    p.dispatch();
    assert_eq!(p.busy, 1);
    p.fault();
    assert_eq!(p.exited, 0);
    assert_eq!(p.idle + p.busy, 2);
    // the pool still runs jobs with its full strength
    p.submit(2);
    p.submit(3);
    p.dispatch();
    assert_eq!(p.busy, 2);
}
