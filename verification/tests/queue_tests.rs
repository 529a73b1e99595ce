use async_channel::{TryRecvError, TrySendError};
use http_pool::{HttpPoolBuilder, RemoteResponse, WorkerEvent, WorkerNote};

#[test]
fn second_submission_waits_until_the_worker_has_claimed_the_first() {
    let pool = HttpPoolBuilder::new().size(1).build().unwrap();
    let (pool, mut workers) = pool.start().unwrap();
    let (_x, item_x) = pool.request(String::from("X"), 1000);
    let (_y, item_y) = pool.request(String::from("Y"), 1000);
    assert!(pool.sender().try_send(item_x).is_ok());
    // the queue is full: the second item is not admitted, and it is not lost
    let item_y = match pool.sender().try_send(item_y) {
        Err(TrySendError::Full(item)) => item,
        _ => panic!("a full queue admitted an item"),
    };
    assert!(pool.sender().is_full());
    // the worker claims X
    let claimed = workers[0].receiver().try_recv().unwrap();
    assert_eq!(claimed.url(), "X");
    assert_eq!(workers[0].step(WorkerEvent::Received(claimed)).note, WorkerNote::Claimed);
    // now there is room for Y
    assert!(pool.sender().try_send(item_y).is_ok());
    assert_eq!(pool.sender().len(), 1);
}

#[test]
fn full_queue_admits_again_after_every_claim() {
    let pool = HttpPoolBuilder::new().size(3).build().unwrap();
    let (pool, workers) = pool.start().unwrap();
    for number in 0..3 {
        let (_submission, item) = pool.request(format!("item-{number}"), 1000);
        assert!(pool.sender().try_send(item).is_ok());
    }
    for number in 3..9 {
        let (_submission, item) = pool.request(format!("item-{number}"), 1000);
        let item = match pool.sender().try_send(item) {
            Err(TrySendError::Full(item)) => item,
            _ => panic!("a full queue admitted an item"),
        };
        let claimed = workers[number % 3].receiver().try_recv().unwrap();
        assert_eq!(*claimed.url(), format!("item-{}", number - 3));
        assert!(pool.sender().try_send(item).is_ok());
        assert!(pool.sender().is_full());
    }
}

#[test]
fn every_item_goes_to_exactly_one_worker() {
    let pool = HttpPoolBuilder::new().size(4).build().unwrap();
    let (pool, workers) = pool.start().unwrap();
    let mut claimed: Vec<String> = Vec::new();
    let mut next = 0;
    while claimed.len() < 40 {
        while next < 40 {
            let (_submission, item) = pool.request(format!("item-{next}"), 1000);
            if pool.sender().try_send(item).is_err() {
                break;
            }
            next += 1;
        }
        for worker in workers.iter().rev() {
            if let Ok(item) = worker.receiver().try_recv() {
                claimed.push(item.url().clone());
            }
        }
    }
    for worker in workers.iter() {
        assert!(matches!(worker.receiver().try_recv(), Err(TryRecvError::Empty)));
    }
    claimed.sort();
    let mut expected: Vec<String> = (0..40).map(|number| format!("item-{number}")).collect();
    expected.sort();
    assert_eq!(claimed, expected);
}

#[test]
fn closed_and_drained_queue_stops_the_workers() {
    let pool = HttpPoolBuilder::new().size(2).build().unwrap();
    let (pool, mut workers) = pool.start().unwrap();
    let (mut submission, item) = pool.request(String::from("last"), 1000);
    assert!(pool.sender().try_send(item).is_ok());
    assert!(pool.sender().close());
    // a closed queue admits nothing more
    let (_refused, refused_item) = pool.request(String::from("refused"), 1000);
    assert!(matches!(pool.sender().try_send(refused_item), Err(TrySendError::Closed(_))));
    // but what it holds is still served
    let item = workers[0].receiver().try_recv().unwrap();
    assert_eq!(workers[0].step(WorkerEvent::Received(item)).note, WorkerNote::Claimed);
    let done = RemoteResponse { status: 200, body: Vec::new() };
    assert_eq!(
        workers[0].step(WorkerEvent::CallFinished(Ok(done.clone()))).note,
        WorkerNote::Delivered
    );
    assert_eq!(submission.receiver().try_recv().unwrap(), Ok(done));
    for worker in workers.iter_mut() {
        assert!(matches!(worker.receiver().try_recv(), Err(TryRecvError::Closed)));
        assert_eq!(worker.step(WorkerEvent::QueueClosed).note, WorkerNote::Closed);
    }
}
