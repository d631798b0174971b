use lazy_pool::{get_or_init, init_from, pool_from, Registry};
use std::sync::mpsc;
use std::time::Duration;

#[test]
fn test_default_pool() {
    let mut reg = Registry::new();
    let pool_slot = reg.new_slot();
    let custom_pool_slot = reg.new_slot();

    init_from(&mut reg, pool_slot, 4).unwrap();
    let pool = pool_from(&mut reg, pool_slot).unwrap();
    pool.run_task(move || {
        println!("in pool");
    });

    init_from(&mut reg, custom_pool_slot, 4).unwrap();
    let pool = pool_from(&mut reg, custom_pool_slot).unwrap();
    pool.run_task(move || {
        println!("in pool");
    });
}

#[test]
fn test_get_before_init() {
    let mut reg = Registry::new();
    let slot = reg.new_slot();
    assert!(reg.get(slot).is_none());
}

#[test]
fn test_double_init_rejected() {
    let mut reg = Registry::new();
    let slot = reg.new_slot();
    assert!(init_from(&mut reg, slot, 4).is_ok());
    assert!(init_from(&mut reg, slot, 8).is_err());
    assert!(reg.get(slot).is_some());
}

#[test]
fn test_get_or_init_repeated() {
    let mut reg = Registry::new();
    let slot = reg.new_slot();
    assert!(pool_from(&mut reg, slot).is_ok());
    assert!(pool_from(&mut reg, slot).is_ok());
    assert!(reg.get(slot).is_some());
}

#[test]
fn test_get_or_init_many_callers() {
    let mut reg = Registry::new();
    let slot = reg.new_slot();
    for _ in 0..8 {
        assert!(get_or_init(&mut reg, slot, 4).is_ok());
    }
    assert!(reg.get(slot).is_some());
}

#[test]
fn test_independent_slots() {
    let mut reg = Registry::new();
    let a = reg.new_slot();
    let b = reg.new_slot();
    assert!(init_from(&mut reg, a, 2).is_ok());
    assert!(reg.get(b).is_none());
    assert!(init_from(&mut reg, b, 3).is_ok());
    assert!(reg.get(a).is_some());
    assert!(reg.get(b).is_some());
}

#[test]
fn test_teardown_blocks_reuse() {
    let mut reg = Registry::new();
    let slot = reg.new_slot();
    assert!(init_from(&mut reg, slot, 2).is_ok());
    reg.teardown(slot);
    assert!(reg.get(slot).is_none());
    assert!(pool_from(&mut reg, slot).is_err());
    assert!(init_from(&mut reg, slot, 2).is_err());
}

#[test]
fn test_teardown_of_empty_slot() {
    let mut reg = Registry::new();
    let slot = reg.new_slot();
    reg.teardown(slot);
    assert!(reg.get(slot).is_none());
    assert!(init_from(&mut reg, slot, 2).is_err());
}

#[test]
fn test_task_runs() {
    let mut reg = Registry::new();
    let slot = reg.new_slot();
    init_from(&mut reg, slot, 2).unwrap();
    let pool = pool_from(&mut reg, slot).unwrap();
    let (tx, rx) = mpsc::channel();
    pool.run_task(move || {
        tx.send(42u32).unwrap();
    });
    assert_eq!(rx.recv_timeout(Duration::from_secs(10)).unwrap(), 42);
}

#[test]
fn test_handles_share_instance() {
    let mut reg = Registry::new();
    let slot = reg.new_slot();
    init_from(&mut reg, slot, 2).unwrap();
    let p1 = reg.get(slot).unwrap();
    let p2 = reg.get(slot).unwrap();
    let (tx, rx) = mpsc::channel();
    let tx2 = tx.clone();
    p1.run_task(move || {
        tx.send(1u32).unwrap();
    });
    p2.run_task(move || {
        tx2.send(2u32).unwrap();
    });
    let mut got = vec![
        rx.recv_timeout(Duration::from_secs(10)).unwrap(),
        rx.recv_timeout(Duration::from_secs(10)).unwrap(),
    ];
    got.sort();
    assert_eq!(got, vec![1, 2]);
}

#[test]
fn test_default_sized_pool_works() {
    let mut reg = Registry::new();
    let slot = reg.new_slot();
    let pool = pool_from(&mut reg, slot).unwrap();
    let (tx, rx) = mpsc::channel();
    pool.run_task(move || {
        tx.send(7u32).unwrap();
    });
    assert_eq!(rx.recv_timeout(Duration::from_secs(10)).unwrap(), 7);
}

#[test]
fn test_outstanding_handle_survives_teardown() {
    let mut reg = Registry::new();
    let slot = reg.new_slot();
    init_from(&mut reg, slot, 2).unwrap();
    let pool = pool_from(&mut reg, slot).unwrap();
    reg.teardown(slot);
    assert!(reg.get(slot).is_none());
    let (tx, rx) = mpsc::channel();
    pool.run_task(move || {
        tx.send(9u32).unwrap();
    });
    assert_eq!(rx.recv_timeout(Duration::from_secs(10)).unwrap(), 9);
}

#[test]
fn test_error_message() {
    let mut reg = Registry::new();
    let slot = reg.new_slot();
    init_from(&mut reg, slot, 2).unwrap();
    let err = init_from(&mut reg, slot, 2).unwrap_err();
    assert!(err.message().contains("already initialized"));
}
