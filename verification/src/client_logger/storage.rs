//! The client that stores measurements in HEMRS, and which measurements it
//! stores: for each reading, the sensor it is stored under, its time and the
//! device. The values (floating point) are paired with these slots by the
//! caller, in the order given here.

use vstd::prelude::*;

use crate::client_logger::sensor::SensorIds;

verus! {

/// Stores measurements in HEMRS.
pub struct StorageClient {
    client: reqwest::Client,
}

impl StorageClient {
    /// The HTTP client held.
    pub closed spec fn http_client(self) -> reqwest::Client {
        self.client
    }

    pub fn new(client: reqwest::Client) -> (r: Self)
        ensures
            r.http_client() == client,
    {
        Self { client }
    }

    /// The HTTP client the measurements are sent with.
    pub fn client(&self) -> (r: &reqwest::Client)
        ensures
            *r == self.http_client(),
    {
        &self.client
    }
}

/// Where one measurement goes: its time, the device and the sensor.
#[derive(Debug, Clone, Copy, PartialEq, Eq, Structural)]
pub struct MeasurementSlot {
    /// Seconds of the measurement time since the Unix epoch.
    pub timestamp_secs: i64,
    /// Nanoseconds of the measurement time within its second.
    pub timestamp_nanos: u32,
    pub device: i32,
    pub sensor: i32,
}

/// The sensors of the slots, in order.
pub open spec fn slot_sensors(slots: Seq<MeasurementSlot>) -> Seq<i32> {
    slots.map_values(|m: MeasurementSlot| m.sensor)
}

/// Every slot carries the given time and device.
pub open spec fn all_at(slots: Seq<MeasurementSlot>, secs: i64, nanos: u32, device: i32) -> bool {
    forall|k: int|
        0 <= k < slots.len() ==> (#[trigger] slots[k]).timestamp_secs == secs
            && slots[k].timestamp_nanos == nanos && slots[k].device == device
}

/// The sensors of a MET nowcast's readings, in the order they are sent:
/// temperature, humidity, wind speed, wind direction, precipitation rate,
/// precipitation amount, wind gust.
pub open spec fn met_nowcast_sensors(ids: SensorIds) -> Seq<i32> {
    seq![
        ids.temperature,
        ids.humidity,
        ids.wind_speed,
        ids.wind_deg,
        ids.precipitation_rate,
        ids.precipitation_amount,
        ids.wind_speed_gust,
    ]
}

/// The sensors of an OpenWeather nowcast's readings, in the order they are
/// sent: temperature, humidity, wind speed, wind direction, feels-like
/// temperature, pressure, clouds, visibility.
pub open spec fn openweather_nowcast_sensors(ids: SensorIds) -> Seq<i32> {
    seq![
        ids.temperature,
        ids.humidity,
        ids.wind_speed,
        ids.wind_deg,
        ids.feels_like,
        ids.pressure,
        ids.clouds,
        ids.visibility,
    ]
}

/// Slots at one time and device, one per sensor, in order.
fn slots_for(time_secs: i64, time_nanos: u32, device: i32, sensors: &Vec<i32>) -> (r: Vec<
    MeasurementSlot,
>)
    ensures
        slot_sensors(r@) == sensors@,
        all_at(r@, time_secs, time_nanos, device),
{
    let mut r: Vec<MeasurementSlot> = Vec::new();
    let mut k: usize = 0;
    while k < sensors.len()
        invariant
            k <= sensors.len(),
            r.len() == k,
            forall|j: int| 0 <= j < k ==> (#[trigger] r@[j]).sensor == sensors@[j],
            all_at(r@, time_secs, time_nanos, device),
        decreases sensors.len() - k,
    {
        r.push(
            MeasurementSlot { timestamp_secs: time_secs, timestamp_nanos: time_nanos, device, sensor: sensors[k] },
        );
        k = k + 1;
    }
    assert(slot_sensors(r@) =~= sensors@);
    r
}

/// The slots of a MET nowcast taken at the given time, for a device.
pub fn met_nowcast_slots(time_secs: i64, time_nanos: u32, device: i32, ids: &SensorIds) -> (r: Vec<
    MeasurementSlot,
>)
    ensures
        slot_sensors(r@) == met_nowcast_sensors(*ids),
        all_at(r@, time_secs, time_nanos, device),
        r@.len() == 7,
        r@[0].sensor == ids.temperature && r@[1].sensor == ids.humidity && r@[2].sensor
            == ids.wind_speed && r@[3].sensor == ids.wind_deg && r@[4].sensor
            == ids.precipitation_rate && r@[5].sensor == ids.precipitation_amount && r@[6].sensor
            == ids.wind_speed_gust,
{
    let sensors = vec![
        ids.temperature,
        ids.humidity,
        ids.wind_speed,
        ids.wind_deg,
        ids.precipitation_rate,
        ids.precipitation_amount,
        ids.wind_speed_gust,
    ];
    assert(sensors@ =~= met_nowcast_sensors(*ids));
    let r = slots_for(time_secs, time_nanos, device, &sensors);
    assert(slot_sensors(r@).len() == r@.len());
    assert forall|k: int| 0 <= k < r@.len() implies r@[k].sensor == #[trigger] sensors@[k] by {
        assert(slot_sensors(r@)[k] == r@[k].sensor);
    }
    r
}

/// The slots of an OpenWeather nowcast taken at the given time, for a device.
pub fn openweather_nowcast_slots(
    time_secs: i64,
    time_nanos: u32,
    device: i32,
    ids: &SensorIds,
) -> (r: Vec<MeasurementSlot>)
    ensures
        slot_sensors(r@) == openweather_nowcast_sensors(*ids),
        all_at(r@, time_secs, time_nanos, device),
        r@.len() == 8,
        r@[0].sensor == ids.temperature && r@[1].sensor == ids.humidity && r@[2].sensor
            == ids.wind_speed && r@[3].sensor == ids.wind_deg && r@[4].sensor == ids.feels_like
            && r@[5].sensor == ids.pressure && r@[6].sensor == ids.clouds && r@[7].sensor
            == ids.visibility,
{
    let sensors = vec![
        ids.temperature,
        ids.humidity,
        ids.wind_speed,
        ids.wind_deg,
        ids.feels_like,
        ids.pressure,
        ids.clouds,
        ids.visibility,
    ];
    assert(sensors@ =~= openweather_nowcast_sensors(*ids));
    let r = slots_for(time_secs, time_nanos, device, &sensors);
    assert(slot_sensors(r@).len() == r@.len());
    assert forall|k: int| 0 <= k < r@.len() implies r@[k].sensor == #[trigger] sensors@[k] by {
        assert(slot_sensors(r@)[k] == r@[k].sensor);
    }
    r
}

/// The slots of a batch of lightning strikes, given their times: for each
/// strike in turn, its latitude under `lat_id`, then its longitude under
/// `lon_id`.
pub fn lightning_slots(times: &Vec<(i64, u32)>, device: i32, lon_id: i32, lat_id: i32) -> (r: Vec<
    MeasurementSlot,
>)
    ensures
        r.len() == 2 * times.len(),
        forall|k: int|
            0 <= k < times.len() ==> r@[2 * k] == (MeasurementSlot {
                timestamp_secs: (#[trigger] times@[k]).0,
                timestamp_nanos: times@[k].1,
                device,
                sensor: lat_id,
            }) && r@[2 * k + 1] == (MeasurementSlot {
                timestamp_secs: times@[k].0,
                timestamp_nanos: times@[k].1,
                device,
                sensor: lon_id,
            }),
{
    let mut r: Vec<MeasurementSlot> = Vec::new();
    let mut k: usize = 0;
    while k < times.len()
        invariant
            k <= times.len(),
            r.len() == 2 * k,
            forall|j: int|
                0 <= j < k ==> r@[2 * j] == (MeasurementSlot {
                    timestamp_secs: (#[trigger] times@[j]).0,
                    timestamp_nanos: times@[j].1,
                    device,
                    sensor: lat_id,
                }) && r@[2 * j + 1] == (MeasurementSlot {
                    timestamp_secs: times@[j].0,
                    timestamp_nanos: times@[j].1,
                    device,
                    sensor: lon_id,
                }),
        decreases times.len() - k,
    {
        let (secs, nanos) = times[k];
        r.push(MeasurementSlot { timestamp_secs: secs, timestamp_nanos: nanos, device, sensor: lat_id });
        r.push(MeasurementSlot { timestamp_secs: secs, timestamp_nanos: nanos, device, sensor: lon_id });
        k = k + 1;
    }
    r
}

/// The slot of an alert count taken at the given time, for a device.
pub fn alert_count_slot(time_secs: i64, time_nanos: u32, device: i32, sensor: i32) -> (r:
    MeasurementSlot)
    ensures
        r == (MeasurementSlot { timestamp_secs: time_secs, timestamp_nanos: time_nanos, device, sensor }),
{
    MeasurementSlot { timestamp_secs: time_secs, timestamp_nanos: time_nanos, device, sensor }
}

/// Both nowcasts store temperature, humidity, wind speed and wind direction
/// first, in that order, under the same sensors; each reading goes under its
/// own kind's sensor, so distinct sensor ids give distinct slots.
pub proof fn law_nowcast_readings_keep_their_sensors(ids: SensorIds)
    ensures
        met_nowcast_sensors(ids).len() == 7,
        openweather_nowcast_sensors(ids).len() == 8,
        met_nowcast_sensors(ids).take(4) == openweather_nowcast_sensors(ids).take(4),
        met_nowcast_sensors(ids)[0] == ids.temperature,
        met_nowcast_sensors(ids)[1] == ids.humidity,
        met_nowcast_sensors(ids)[6] == ids.wind_speed_gust,
        openweather_nowcast_sensors(ids)[4] == ids.feels_like,
        openweather_nowcast_sensors(ids)[7] == ids.visibility,
        met_nowcast_sensors(ids).contains(ids.precipitation_rate),
        met_nowcast_sensors(ids).contains(ids.precipitation_amount),
        openweather_nowcast_sensors(ids).contains(ids.pressure),
        openweather_nowcast_sensors(ids).contains(ids.clouds),
{
    assert(met_nowcast_sensors(ids).take(4) =~= openweather_nowcast_sensors(ids).take(4));
    assert(met_nowcast_sensors(ids)[4] == ids.precipitation_rate);
    assert(met_nowcast_sensors(ids)[5] == ids.precipitation_amount);
    assert(openweather_nowcast_sensors(ids)[5] == ids.pressure);
    assert(openweather_nowcast_sensors(ids)[6] == ids.clouds);
}

} // verus!
