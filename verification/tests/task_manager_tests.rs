use hookshot::task_manager::{Error, Queue, QueueKey, TaskManager};

/// Pop every pending task of the queue under the key, appending each
/// marker to the buffer — what the per-queue worker thread does, run
/// to quiescence.
fn drain(manager: &mut TaskManager<&'static str>, key: &QueueKey, buffer: &mut String) {
    let index = manager
        .queues
        .iter()
        .position(|entry| entry.0 == key.k)
        .expect("queue should exist");
    while let Some(task) = manager.queues[index].1.pop_task() {
        buffer.push_str(task);
    }
}

#[test]
fn test_task_manager() {
    let mut s1 = String::new();
    let mut s2 = String::new();

    let mut manager: TaskManager<&'static str> = TaskManager::new(None);

    let key1 = manager.ensure_queue(uuid::Uuid::new_v4().to_string());
    manager.add_task(&key1, "b").unwrap();
    manager.add_task(&key1, "r").unwrap();
    manager.add_task(&key1, "i").unwrap();
    manager.add_task(&key1, "a").unwrap();
    manager.add_task(&key1, "n").unwrap();

    let key2 = manager.ensure_queue(uuid::Uuid::new_v4().to_string());
    manager.add_task(&key2, "s").unwrap();
    manager.add_task(&key2, "l").unwrap();
    manager.add_task(&key2, "o").unwrap();
    manager.add_task(&key2, "t").unwrap();
    manager.add_task(&key2, "h").unwrap();
    manager.add_task(&key2, "s").unwrap();

    drain(&mut manager, &key1, &mut s1);
    drain(&mut manager, &key2, &mut s2);

    assert_eq!(s1, "brian");
    assert_eq!(s2, "sloths");
}

#[test]
fn test_task_manager_limit() {
    let mut s1 = String::new();
    let limit = Some(1);
    let mut manager: TaskManager<&'static str> = TaskManager::new(limit);

    let queue_key = manager.ensure_queue(uuid::Uuid::new_v4().to_string());

    // The worker takes "1" and is busy running it while the rest arrive.
    manager.add_task(&queue_key, "1").unwrap();
    let mut running = String::new();
    drain(&mut manager, &queue_key, &mut running);
    s1.push_str(&running);

    let mut cancelled: Vec<&'static str> = Vec::new();
    for m in ["2", "3", "4", "5"] {
        if let Some(evicted) = manager.add_task(&queue_key, m).unwrap() {
            cancelled.push(evicted);
        }
    }

    let mut rest = String::new();
    drain(&mut manager, &queue_key, &mut rest);
    s1.push_str(&rest);

    assert_eq!(s1, "15");
    assert_eq!(cancelled, vec!["2", "3", "4"]);
}

#[test]
fn test_queue_eviction_scenario() {
    // queue_limit one; T1 sleeps while T2, T3, T4 arrive rapidly.
    let mut manager: TaskManager<&'static str> = TaskManager::new(Some(1));
    let key = manager.ensure_queue(String::from("alice.proj.main"));

    manager.add_task(&key, "T1").unwrap();
    let mut ran = String::new();
    drain(&mut manager, &key, &mut ran);  // T1 runs

    let mut cancelled: Vec<&'static str> = Vec::new();
    for t in ["T2", "T3", "T4"] {
        if let Some(evicted) = manager.add_task(&key, t).unwrap() {
            cancelled.push(evicted);
        }
    }
    drain(&mut manager, &key, &mut ran);  // T4 runs

    assert_eq!(ran, "T1T4");
    assert_eq!(cancelled, vec!["T2", "T3"]);
}

#[test]
fn test_fifo_order_under_load() {
    let mut manager: TaskManager<&'static str> = TaskManager::new(None);
    let key = manager.ensure_queue(String::from("one-queue"));
    let tokens = ["a", "b", "c", "d", "e", "f", "g", "h"];
    for t in tokens {
        manager.add_task(&key, t).unwrap();
    }
    let mut buffer = String::new();
    drain(&mut manager, &key, &mut buffer);
    assert_eq!(buffer, "abcdefgh");
}

#[test]
fn test_shutdown_drain_scenario() {
    let mut manager: TaskManager<&'static str> = TaskManager::new(None);
    let key = manager.ensure_queue(String::from("q"));
    manager.add_task(&key, "long-task").unwrap();

    // The worker picks the task up, then shutdown arrives while it runs.
    let index = manager.queues.iter().position(|entry| entry.0 == key.k).unwrap();
    let running = manager.queues[index].1.pop_task().unwrap();
    manager.shutdown();

    // The running task completes normally.
    let mut log = String::new();
    log.push_str(running);
    assert_eq!(log, "long-task");

    // Every add after shutdown refuses.
    assert_eq!(manager.add_task(&key, "late").unwrap_err(), Error::Shutdown);
    assert_eq!(manager.add_task(&key, "later").unwrap_err(), Error::Shutdown);

    // A restart clears the flag.
    manager.restart();
    assert!(manager.add_task(&key, "fresh").is_ok());
}

#[test]
fn test_ensure_queue_is_idempotent() {
    let mut manager: TaskManager<&'static str> = TaskManager::new(None);
    let first = manager.ensure_queue(String::from("owner.repo.main"));
    manager.add_task(&first, "a").unwrap();
    let second = manager.ensure_queue(String::from("owner.repo.main"));
    assert_eq!(manager.queues.len(), 1);
    manager.add_task(&second, "b").unwrap();
    let mut buffer = String::new();
    drain(&mut manager, &second, &mut buffer);
    assert_eq!(buffer, "ab");
}

#[test]
fn test_add_task_unknown_queue() {
    let mut manager: TaskManager<&'static str> = TaskManager::new(None);
    manager.ensure_queue(String::from("known"));
    let unknown = QueueKey { k: String::from("unknown") };
    assert_eq!(manager.add_task(&unknown, "t").unwrap_err(), Error::QueueMissing);
}

#[test]
fn test_zero_limit_drops_newcomers() {
    let mut queue: Queue<&'static str> = Queue::new(Some(0));
    assert_eq!(queue.push_task("t"), None);
    assert_eq!(queue.pop_task(), None);
}
