use modbus_plc::events::{detect_coil_events, detect_holding_events, Event};

#[test]
fn holding_changes_become_events() {
    let mut events = Vec::new();
    detect_holding_events(&mut events, 1234, &[1, 2, 3, 4], &[1, 5, 3, 0]);
    assert_eq!(
        events,
        vec![
            Event { utc_ms: 1234, coil: false, address: 1, state: 5 },
            Event { utc_ms: 1234, coil: false, address: 3, state: 0 },
        ]
    );
}

#[test]
fn holding_events_cover_common_cells_only() {
    let mut events = Vec::new();
    detect_holding_events(&mut events, 1, &[], &[1, 2, 3]);
    assert!(events.is_empty());
    detect_holding_events(&mut events, 2, &[7, 7, 7], &[7, 8]);
    assert_eq!(events, vec![Event { utc_ms: 2, coil: false, address: 1, state: 8 }]);
}

#[test]
fn coil_changes_become_events_after_earlier_ones() {
    let mut events = vec![Event { utc_ms: 1, coil: false, address: 0, state: 9 }];
    detect_coil_events(&mut events, 50, &[false, true, true], &[true, true, false]);
    assert_eq!(
        events,
        vec![
            Event { utc_ms: 1, coil: false, address: 0, state: 9 },
            Event { utc_ms: 50, coil: true, address: 0, state: 1 },
            Event { utc_ms: 50, coil: true, address: 2, state: 0 },
        ]
    );
}
