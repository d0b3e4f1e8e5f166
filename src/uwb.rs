//! Simulated ranging readings.

use vstd::prelude::*;

verus! {

/// One range reading between a device and an anchor, in millimetres.
#[derive(Debug)]
pub struct Measurement {
    pub device_id: String,
    pub anchor_id: String,
    pub distance_mm: u32,
}

/// Whether `m` is the reading of `device` to `anchor` at `distance_mm`.
pub open spec fn is_reading(m: Measurement, device: Seq<char>, anchor: Seq<char>, distance_mm: u32) -> bool {
    m.device_id@ == device && m.anchor_id@ == anchor && m.distance_mm == distance_mm
}

fn reading(device: &str, anchor: &str, distance_mm: u32) -> (m: Measurement)
    ensures
        is_reading(m, device@, anchor@, distance_mm),
{
    Measurement {
        device_id: String::from_str(device),
        anchor_id: String::from_str(anchor),
        distance_mm,
    }
}

/// The fixed set of simulated readings.
pub fn read_measurements() -> (r: Vec<Measurement>)
    ensures
        r@.len() == 3,
        is_reading(r@[0], "UWB_1"@, "ANCHOR_A"@, 10500),
        is_reading(r@[1], "UWB_1"@, "ANCHOR_B"@, 20300),
        is_reading(r@[2], "UWB_2"@, "ANCHOR_C"@, 15200),
{
    let mut r: Vec<Measurement> = Vec::new();
    r.push(reading("UWB_1", "ANCHOR_A", 10500));
    r.push(reading("UWB_1", "ANCHOR_B", 20300));
    r.push(reading("UWB_2", "ANCHOR_C", 15200));
    r
}

} // verus!
