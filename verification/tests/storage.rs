use wictk::client_logger::sensor::SensorIds;
use wictk::client_logger::storage::{
    alert_count_slot, lightning_slots, met_nowcast_slots, openweather_nowcast_slots,
    MeasurementSlot,
};

fn sensor_ids() -> SensorIds {
    SensorIds {
        temperature: 1,
        humidity: 2,
        wind_speed: 3,
        wind_deg: 4,
        precipitation_rate: 5,
        precipitation_amount: 6,
        wind_speed_gust: 7,
        feels_like: 8,
        pressure: 9,
        clouds: 10,
        visibility: 11,
        lon: 12,
        lat: 13,
        alert_count: 14,
        earthquake_depth: 15,
        earthquake_magnitude: 16,
        earthquake_significance: 17,
        earthquake_tsunami: 18,
    }
}

/// 2025-08-11T12:00:00Z.
const NOON: i64 = 1_754_913_600;

fn sensors(slots: &[MeasurementSlot]) -> Vec<i32> {
    slots.iter().map(|s| s.sensor).collect()
}

#[test]
fn met_nowcast_readings_go_to_their_sensors() {
    let slots = met_nowcast_slots(NOON, 0, 1, &sensor_ids());
    assert_eq!(sensors(&slots), vec![1, 2, 3, 4, 5, 6, 7]);
    assert!(slots.iter().all(|s| s.timestamp_secs == NOON && s.timestamp_nanos == 0 && s.device == 1));
}

#[test]
fn openweather_nowcast_readings_go_to_their_sensors() {
    let slots = openweather_nowcast_slots(NOON, 500, 3, &sensor_ids());
    assert_eq!(sensors(&slots), vec![1, 2, 3, 4, 8, 9, 10, 11]);
    assert!(slots.iter().all(|s| s.timestamp_secs == NOON && s.timestamp_nanos == 500 && s.device == 3));
}

#[test]
fn lightning_strikes_store_latitude_then_longitude() {
    let slots = lightning_slots(&vec![(NOON, 0), (NOON + 60, 7)], 1, 12, 13);
    assert_eq!(
        slots,
        vec![
            MeasurementSlot { timestamp_secs: NOON, timestamp_nanos: 0, device: 1, sensor: 13 },
            MeasurementSlot { timestamp_secs: NOON, timestamp_nanos: 0, device: 1, sensor: 12 },
            MeasurementSlot { timestamp_secs: NOON + 60, timestamp_nanos: 7, device: 1, sensor: 13 },
            MeasurementSlot { timestamp_secs: NOON + 60, timestamp_nanos: 7, device: 1, sensor: 12 },
        ]
    );
    assert!(lightning_slots(&vec![], 1, 12, 13).is_empty());
}

#[test]
fn alert_count_has_one_slot() {
    assert_eq!(
        alert_count_slot(NOON, 0, 1, 14),
        MeasurementSlot { timestamp_secs: NOON, timestamp_nanos: 0, device: 1, sensor: 14 }
    );
}
