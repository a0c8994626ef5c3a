use rdp_core::mouse::RDPMousePosition;

#[test]
fn same_position_twice_notifies_once() {
    let mut p = RDPMousePosition::default();
    assert_eq!(p, RDPMousePosition { x: 0, y: 0 });
    let mut notifications = 0;
    for _ in 0..2 {
        if p.update(10, 20) {
            notifications += 1;
        }
    }
    assert_eq!(notifications, 1);
    assert_eq!(p, RDPMousePosition { x: 10, y: 20 });
}

#[test]
fn current_position_is_no_change() {
    let mut p = RDPMousePosition { x: 5, y: 7 };
    assert!(!p.update(5, 7));
    assert!(p.update(5, 8));
    assert_eq!(p, RDPMousePosition { x: 5, y: 8 });
    assert!(p.update(6, 8));
    assert_eq!(p, RDPMousePosition { x: 6, y: 8 });
}
