use darwin_metrics::error::Error;
use darwin_metrics::resource::{
    cache_entry_expired, cache_expiry, monitor_turn, resource_monitor_step, return_resource,
    take_oldest_resource, MonitorAction, ResourcePool,
};

#[test]
fn test_resource_pool() {
    let mut pool = ResourcePool::<String>::new(2);

    assert!(pool.acquire().is_none());

    pool.release("resource1".to_string()).unwrap();
    pool.release("resource2".to_string()).unwrap();

    assert!(pool.release("resource3".to_string()).is_err());

    assert_eq!(pool.acquire(), Some("resource2".to_string()));
    assert_eq!(pool.acquire(), Some("resource1".to_string()));
    assert!(pool.acquire().is_none());
}

#[test]
fn full_pool_refuses_with_a_system_error() {
    let mut pool = ResourcePool::<u32>::new(1);
    pool.release(1).unwrap();
    match pool.release(2) {
        Err(Error::System(m)) => assert_eq!(m, "Resource pool is full"),
        _ => panic!("a full pool took a resource"),
    }
    assert_eq!(pool.len(), 1);
    assert_eq!(pool.try_acquire().unwrap(), Some(1));
    assert_eq!(pool.try_acquire().unwrap(), None);
}

#[test]
fn pool_of_no_capacity_refuses_everything() {
    let mut pool = ResourcePool::<u8>::new(0);
    assert!(pool.release(9).is_err());
    assert_eq!(pool.acquire(), None);
}

#[test]
fn monitor_loop_decisions() {
    assert_eq!(monitor_turn(true, true), MonitorAction::Stop);
    assert_eq!(monitor_turn(true, false), MonitorAction::Stop);
    assert_eq!(monitor_turn(false, true), MonitorAction::Collect);
    assert_eq!(monitor_turn(false, false), MonitorAction::Wait);
}

#[test]
fn resource_manager_queue_hands_out_oldest_first() {
    let mut queue: Vec<u32> = Vec::new();
    assert!(return_resource(&mut queue, 2, 10).is_ok());
    assert!(return_resource(&mut queue, 2, 20).is_ok());
    assert!(matches!(return_resource(&mut queue, 2, 30), Err(Error::ResourceLimitExceeded)));
    assert_eq!(queue, vec![10, 20]);
    assert_eq!(take_oldest_resource(&mut queue), Some(10));
    assert_eq!(take_oldest_resource(&mut queue), Some(20));
    assert_eq!(take_oldest_resource(&mut queue), None);
}

#[test]
fn resource_limit_error_text() {
    assert_eq!(Error::ResourceLimitExceeded.to_string(), "Resource limit exceeded");
    assert_eq!(Error::LockError.to_string(), "Failed to acquire lock");
    assert_eq!(Error::ChannelError.to_string(), "Channel error");
}

#[test]
fn pool_takes_exactly_its_capacity() {
    let mut pool = ResourcePool::<u32>::new(3);
    for x in [1, 2, 3] {
        assert!(pool.release(x).is_ok());
    }
    assert!(pool.release(4).is_err());
    assert_eq!(pool.len(), 3);
    assert_eq!(pool.acquire(), Some(3));
    assert!(pool.release(5).is_ok());
    assert!(pool.release(6).is_err());
    assert_eq!(pool.len(), 3);
}

#[test]
fn resource_monitor_step_decides_each_turn() {
    assert_eq!(resource_monitor_step(true, 0, 500, 100), MonitorAction::Stop);
    assert_eq!(resource_monitor_step(false, 0, 99, 100), MonitorAction::Wait);
    assert_eq!(resource_monitor_step(false, 0, 100, 100), MonitorAction::Collect);
    assert_eq!(resource_monitor_step(false, 200, 250, 100), MonitorAction::Wait);
    assert_eq!(resource_monitor_step(false, 200, 100, 0), MonitorAction::Collect);
}

#[test]
fn cache_entries_expire_after_their_time() {
    let expiry = cache_expiry(1_000, 500);
    assert_eq!(expiry, 1_500);
    assert!(!cache_entry_expired(expiry, 1_500));
    assert!(cache_entry_expired(expiry, 1_501));
}
