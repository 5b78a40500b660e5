use gb_memory::timer::Timer;

#[test]
fn falling_edge_after_eight_ticks() {
    let mut t = Timer { div: 0x0008, tima: 0x10, tma: 0, tac: 0xFD, schedule: -1, last_tap: 8 };
    for _ in 0..7 {
        assert!(!t.tick());
        assert_eq!(t.tima, 0x10);
    }
    t.tick();
    assert_eq!(t.tima, 0x11);
    assert_eq!(t.div, 0x0010);
}

#[test]
fn overflow_is_delayed() {
    let mut t = Timer { div: 0x000F, tima: 0xFF, tma: 0x42, tac: 0xFD, schedule: -1, last_tap: 8 };
    assert!(!t.tick());
    assert_eq!(t.tima, 0);
    for _ in 0..4 {
        assert!(!t.tick());
        assert_ne!(t.tima, 0x42);
    }
    assert!(t.tick());
    assert_eq!(t.tima, 0x42);
    assert!(!t.tick());
    assert_eq!(t.tima, 0x42);
}

#[test]
fn tima_write_ignored_while_reload_pending() {
    let mut t = Timer { div: 0, tima: 0, tma: 0x42, tac: 0xF8, schedule: 3, last_tap: 0 };
    t.write_tima(0x99);
    assert_eq!(t.tima, 0);
    let mut t = Timer { div: 0, tima: 0, tma: 0x42, tac: 0xF8, schedule: -1, last_tap: 0 };
    t.write_tima(0x99);
    assert_eq!(t.tima, 0x99);
}

#[test]
fn disabled_timer_does_not_count() {
    let mut t = Timer::new();
    for _ in 0..4096 {
        t.tick();
    }
    assert_eq!(t.tima, 0);
    assert_eq!(t.div, 4096);
}
