use wictk::feeds::lightning::{accept_lightning_event, LightningEventFacts};

fn event(timestamp: i64, magic: u64) -> LightningEventFacts {
    LightningEventFacts {
        arity: 4,
        timestamp: Some(timestamp),
        longitude_given: true,
        latitude_given: true,
        magic_value: Some(magic),
    }
}

#[test]
fn feed_events_become_strikes() {
    assert_eq!(accept_lightning_event(&event(1_700_000_000, 1)), Some(1));
    assert_eq!(accept_lightning_event(&event(1_700_000_060, 2)), Some(2));
}

#[test]
fn magic_value_keeps_its_lowest_byte() {
    assert_eq!(accept_lightning_event(&event(0, 300)), Some(44));
    assert_eq!(accept_lightning_event(&event(0, 255)), Some(255));
}

#[test]
fn malformed_events_are_skipped() {
    let mut e = event(1_700_000_000, 1);
    e.arity = 3;
    assert_eq!(accept_lightning_event(&e), None);
    let mut e = event(1_700_000_000, 1);
    e.timestamp = None;
    assert_eq!(accept_lightning_event(&e), None);
    let mut e = event(1_700_000_000, 1);
    e.latitude_given = false;
    assert_eq!(accept_lightning_event(&e), None);
    let mut e = event(1_700_000_000, 1);
    e.magic_value = None;
    assert_eq!(accept_lightning_event(&e), None);
    assert_eq!(accept_lightning_event(&event(i64::MAX, 1)), None);
}

#[test]
fn strike_times_must_be_representable() {
    assert_eq!(accept_lightning_event(&event(8_210_266_876_799, 7)), Some(7));
    assert_eq!(accept_lightning_event(&event(8_210_266_876_800, 7)), None);
    assert_eq!(accept_lightning_event(&event(-8_334_601_228_800, 7)), Some(7));
    assert_eq!(accept_lightning_event(&event(-8_334_601_228_801, 7)), None);
}
