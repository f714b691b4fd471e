use network_manager::dispatch::Dispatcher;

#[test]
fn a_tick_starts_one_worker() {
    let mut d: Dispatcher<Option<String>> = Dispatcher::new();
    assert!(d.is_running());
    assert!(!d.is_probing());
    assert!(d.tick());
    assert!(d.is_probing());
    assert!(!d.tick());
    assert!(!d.tick());
    assert_eq!(d.collect(), None);
    assert!(d.is_probing());
    d.deliver(Some("home".to_string()));
    assert!(!d.is_probing());
    assert!(!d.tick());
    assert_eq!(d.collect(), Some(Some("home".to_string())));
    assert_eq!(d.collect(), None);
    assert!(d.tick());
    d.deliver(None);
    assert_eq!(d.collect(), Some(None));
}

#[test]
fn results_without_a_worker_are_dropped() {
    let mut d: Dispatcher<u32> = Dispatcher::new();
    d.deliver(7);
    assert_eq!(d.collect(), None);
    assert!(d.tick());
    d.deliver(8);
    d.deliver(9);
    assert_eq!(d.collect(), Some(8));
}

#[test]
fn nothing_is_handed_on_after_shutdown() {
    let mut d: Dispatcher<u32> = Dispatcher::new();
    assert!(d.tick());
    d.shut_down();
    assert!(!d.is_running());
    assert!(d.is_probing());
    d.deliver(1);
    assert!(!d.is_probing());
    assert_eq!(d.collect(), None);
    assert!(!d.tick());
    d.deliver(2);
    assert_eq!(d.collect(), None);
    let mut waiting: Dispatcher<u32> = Dispatcher::new();
    assert!(waiting.tick());
    waiting.deliver(3);
    waiting.shut_down();
    assert_eq!(waiting.collect(), None);
}
