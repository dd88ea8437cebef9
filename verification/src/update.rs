//! The data carried through the relay: immutable telemetry updates and the
//! static metadata describing each measured field.

use vstd::prelude::*;

verus! {

/// Static metadata for one measured quantity. One instance exists per
/// distinct field for the life of the process; updates refer to fields
/// positionally. The calibration factors `scale` and `bias` are carried as
/// opaque strings: the relay never applies them to values, it only attaches
/// them as labels.
pub struct Field {
    pub id: String,
    pub name: String,
    pub group: String,
    pub unit: String,
    pub scale: String,
    pub bias: String,
}

/// One telemetry sample set: a timestamp (in microseconds of the source
/// clock), the identity of the originating device, and a vector of sample
/// values positionally aligned with a vector of field descriptors.
///
/// Sample values are carried as raw 64-bit encodings which the relay never
/// interprets: it passes each value through to the sinks unmodified.
pub struct Update {
    pub timestamp: i64,
    pub device_id: String,
    pub fields: Vec<Field>,
    pub values: Vec<u64>,
}

impl Update {
    /// Fields and values correspond one to one.
    pub open spec fn wf(&self) -> bool {
        self.fields@.len() == self.values@.len()
    }

    pub fn new(timestamp: i64, device_id: String, fields: Vec<Field>, values: Vec<u64>) -> (u:
        Option<Update>)
        ensures
            u is Some <==> fields@.len() == values@.len(),
            u matches Some(u) ==> u.wf() && u.timestamp == timestamp && u.device_id@ == device_id@
                && u.fields@ == fields@ && u.values@ == values@,
    {
        if fields.len() == values.len() {
            Some(Update { timestamp, device_id, fields, values })
        } else {
            None
        }
    }
}

} // verus!
