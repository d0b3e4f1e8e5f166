//! The lap-time record and its validation.

use vstd::prelude::*;

verus! {

/// The kind of device that produced a record.
#[derive(Clone, Copy, Debug, PartialEq, Eq, Structural)]
pub enum DeviceType {
    Anchor,
    Tag,
}

/// One timed lap. Fractional times are held in thousandths of a second.
#[derive(Clone, Debug, PartialEq, Eq)]
pub struct LapRecord {
    pub id: usize,
    pub hour: u32,
    pub minute: u32,
    pub second_ms: i64,
    pub sector1_ms: i64,
    pub sector2_ms: i64,
    pub sector3_ms: i64,
    pub timestamp: String,
    pub lap_count: u32,
    pub device_type: DeviceType,
    pub rfid_read_time: String,
    pub total_time_ms: i64,
}

/// A record is acceptable when its total time is not negative.
pub open spec fn valid_total(r: LapRecord) -> bool {
    r.total_time_ms >= 0
}

/// The record as it is listed at position `i`: the same fields, with `id`
/// set to the position.
pub open spec fn at_position(r: LapRecord, i: int) -> LapRecord {
    LapRecord { id: i as usize, ..r }
}

/// A sequence of records as it is listed: each carries its position as `id`.
pub open spec fn positioned(s: Seq<LapRecord>) -> Seq<LapRecord> {
    Seq::new(s.len(), |i: int| at_position(s[i], i))
}

impl LapRecord {
    /// Whether the record passes validation.
    pub fn has_valid_total(&self) -> (b: bool)
        ensures
            b == valid_total(*self),
    {
        self.total_time_ms >= 0
    }

    /// A copy that carries `pos` as its identifier.
    pub fn with_position(&self, pos: usize) -> (r: LapRecord)
        ensures
            r == at_position(*self, pos as int),
    {
        let mut r = self.duplicate();
        r.id = pos;
        r
    }

    /// A field-for-field copy.
    pub fn duplicate(&self) -> (r: LapRecord)
        ensures
            r == *self,
    {
        LapRecord {
            id: self.id,
            hour: self.hour,
            minute: self.minute,
            second_ms: self.second_ms,
            sector1_ms: self.sector1_ms,
            sector2_ms: self.sector2_ms,
            sector3_ms: self.sector3_ms,
            timestamp: self.timestamp.clone(),
            lap_count: self.lap_count,
            device_type: self.device_type,
            rfid_read_time: self.rfid_read_time.clone(),
            total_time_ms: self.total_time_ms,
        }
    }
}

} // verus!
