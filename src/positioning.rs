//! Simulated position of a device.

use vstd::prelude::*;

verus! {

/// A device's position, each coordinate in millimetres.
#[derive(Debug)]
pub struct Position {
    pub device_id: String,
    pub x_mm: i64,
    pub y_mm: i64,
    pub z_mm: i64,
}

/// The fixed simulated position.
pub fn calculate_position() -> (p: Position)
    ensures
        p.device_id@ == "UWB_1"@,
        p.x_mm == 1230,
        p.y_mm == 4560,
        p.z_mm == 780,
{
    Position { device_id: String::from_str("UWB_1"), x_mm: 1230, y_mm: 4560, z_mm: 780 }
}

} // verus!
