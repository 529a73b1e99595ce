use http_pool::{ConfigError, HttpPool, HttpPoolBuilder, StartupError, WorkerPhase};

#[test]
fn builder_starts_from_the_defaults() {
    let pool = HttpPoolBuilder::new().build().unwrap();
    assert_eq!(pool.size(), 10);
    assert_eq!(pool.timeout(), 60);
    assert!(!pool.is_started());
}

#[test]
fn pool_builder_is_the_default_builder() {
    let pool = HttpPool::builder().build().unwrap();
    assert_eq!(pool.size(), 10);
    assert_eq!(pool.timeout(), 60);
}

#[test]
fn size_overrides_only_the_size() {
    let pool = HttpPoolBuilder::new().size(3).build().unwrap();
    assert_eq!(pool.size(), 3);
    assert_eq!(pool.timeout(), 60);
}

#[test]
fn timeout_overrides_only_the_timeout() {
    let pool = HttpPoolBuilder::new().timeout(250).build().unwrap();
    assert_eq!(pool.size(), 10);
    assert_eq!(pool.timeout(), 250);
}

#[test]
fn later_override_wins() {
    let pool = HttpPoolBuilder::new().size(4).timeout(5).size(7).timeout(9).build().unwrap();
    assert_eq!(pool.size(), 7);
    assert_eq!(pool.timeout(), 9);
}

#[test]
fn queue_holds_as_many_items_as_there_are_workers() {
    let pool = HttpPoolBuilder::new().size(2).timeout(100).build().unwrap();
    assert_eq!(pool.capacity(), Some(2));
    assert_eq!(pool.sender().capacity(), Some(2));
    let single = HttpPoolBuilder::new().size(1).build().unwrap();
    assert_eq!(single.capacity(), Some(1));
    let wide = HttpPoolBuilder::new().size(64).build().unwrap();
    assert_eq!(wide.capacity(), Some(64));
}

#[test]
fn new_queue_is_empty_and_open() {
    let pool = HttpPoolBuilder::new().size(2).build().unwrap();
    assert!(pool.sender().is_empty());
    assert!(!pool.sender().is_closed());
}

#[test]
fn zero_workers_are_refused() {
    let error = HttpPoolBuilder::new().size(0).build().unwrap_err();
    assert_eq!(error, ConfigError::InvalidSize(0));
}

#[test]
fn negative_workers_are_refused() {
    let error = HttpPoolBuilder::new().size(-5).build().unwrap_err();
    assert_eq!(error, ConfigError::InvalidSize(-5));
    let error = HttpPoolBuilder::new().size(i32::MIN).build().unwrap_err();
    assert_eq!(error, ConfigError::InvalidSize(i32::MIN));
}

#[test]
fn zero_timeout_is_refused() {
    let error = HttpPoolBuilder::new().timeout(0).build().unwrap_err();
    assert_eq!(error, ConfigError::InvalidTimeout(0));
}

#[test]
fn negative_timeout_is_refused() {
    let error = HttpPoolBuilder::new().size(1).timeout(-1).build().unwrap_err();
    assert_eq!(error, ConfigError::InvalidTimeout(-1));
}

#[test]
fn size_is_judged_before_timeout() {
    let error = HttpPoolBuilder::new().size(0).timeout(0).build().unwrap_err();
    assert_eq!(error, ConfigError::InvalidSize(0));
}

#[test]
fn smallest_valid_parameters_build() {
    let pool = HttpPoolBuilder::new().size(1).timeout(1).build().unwrap();
    assert_eq!(pool.size(), 1);
    assert_eq!(pool.timeout(), 1);
    assert_eq!(pool.capacity(), Some(1));
}

#[test]
fn start_hands_out_one_waiting_worker_per_number() {
    let pool = HttpPoolBuilder::new().size(3).build().unwrap();
    let (pool, workers) = pool.start().unwrap();
    assert!(pool.is_started());
    assert_eq!(pool.size(), 3);
    assert_eq!(pool.timeout(), 60);
    assert_eq!(workers.len(), 3);
    for (number, worker) in workers.iter().enumerate() {
        assert_eq!(worker.id(), number as i32);
        assert_eq!(worker.phase(), WorkerPhase::Waiting);
    }
}

#[test]
fn workers_share_the_queue_of_the_pool() {
    let pool = HttpPoolBuilder::new().size(3).build().unwrap();
    let (pool, workers) = pool.start().unwrap();
    assert!(workers[0].receiver().same_channel(workers[1].receiver()));
    assert!(workers[1].receiver().same_channel(workers[2].receiver()));
    assert_eq!(workers[2].receiver().capacity(), Some(3));
    // the pool keeps its own receiving end beside those of the workers
    assert_eq!(pool.sender().receiver_count(), 4);

    let other = HttpPoolBuilder::new().size(3).build().unwrap();
    let (_other, strangers) = other.start().unwrap();
    assert!(!workers[0].receiver().same_channel(strangers[0].receiver()));
}

#[test]
fn start_keeps_the_queue() {
    let pool = HttpPoolBuilder::new().size(2).build().unwrap();
    let (_submission, item) = pool.request(String::from("kept"), 10);
    assert!(pool.sender().try_send(item).is_ok());
    let (pool, workers) = pool.start().unwrap();
    assert_eq!(pool.capacity(), Some(2));
    let item = workers[1].receiver().try_recv().unwrap();
    assert_eq!(item.url(), "kept");
}

#[test]
fn second_start_fails() {
    let pool = HttpPoolBuilder::new().size(2).build().unwrap();
    let (pool, _workers) = pool.start().unwrap();
    match pool.start() {
        Ok(_) => panic!("a started pool was started again"),
        Err(error) => assert_eq!(error, StartupError::AlreadyStarted),
    }
}
