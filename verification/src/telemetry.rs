//! One-way sensor telemetry: a remote sensor periodically transmits a wrapped
//! numeric reading; the receiver keeps the last reading that parsed, and
//! whether any reading was ever observed.
//!
//! The datagram I/O loop lives outside the library; it hands each received
//! datagram's text to [`ingest_telemetry`].

use vstd::prelude::*;
use crate::decimal::{fixed_point_ok, milli_value, parse_milli};
use crate::protocol::frames_of;

verus! {

/// The last temperature reading, in thousandths of a degree Celsius, and
/// whether one was ever observed.
#[derive(Debug, PartialEq, Eq, Structural)]
pub struct Thermometer {
    pub temp_c: i64,
    pub is_updated: bool,
}

impl Thermometer {
    /// No reading observed yet.
    pub fn new() -> (t: Thermometer)
        ensures
            t == (Thermometer { temp_c: 0, is_updated: false }),
    {
        Thermometer { temp_c: 0, is_updated: false }
    }

    /// Records a new reading and marks the cache as updated.
    pub fn update_temp_c(&mut self, new_temp_c: i64)
        ensures
            *final(self) == (Thermometer { temp_c: new_temp_c, is_updated: true }),
    {
        self.temp_c = new_temp_c;
        self.is_updated = true;
    }
}

impl Default for Thermometer {
    fn default() -> (t: Thermometer)
        ensures
            t == (Thermometer { temp_c: 0, is_updated: false }),
    {
        Thermometer::new()
    }
}

/// The cache state after feeding it the given frame payloads in order: each
/// payload that is a well-formed reading overwrites the temperature; the
/// others are ignored.
pub open spec fn ingest_result(t0: Thermometer, frames: Seq<Seq<char>>) -> Thermometer
    decreases frames.len(),
{
    if frames.len() == 0 {
        t0
    } else if fixed_point_ok(frames.last()) {
        Thermometer { temp_c: milli_value(frames.last()) as i64, is_updated: true }
    } else {
        ingest_result(t0, frames.drop_last())
    }
}

/// Feeds one received datagram to the cache: every complete frame that is a
/// well-formed fixed-point reading updates the temperature, in wire order.
pub fn ingest_telemetry(thermometer: &mut Thermometer, datagram: &str)
    ensures
        *final(thermometer) == ingest_result(*old(thermometer), frames_of(datagram@)),
{
    let ghost frames = frames_of(datagram@);
    match crate::protocol::unwrap_message(datagram) {
        Err(_) => {
        },
        Ok(msgs) => {
            let mut i: usize = 0;
            while i < msgs.len()
                invariant
                    msgs.deep_view() == frames,
                    i <= msgs.len(),
                    msgs@.len() == msgs.len(),
                    *thermometer == ingest_result(*old(thermometer), frames.take(i as int)),
                decreases msgs.len() - i,
            {
                proof {
                    assert(frames[i as int] == msgs@[i as int]@);
                    assert(frames.take(i as int + 1).drop_last() =~= frames.take(i as int));
                    assert(frames.take(i as int + 1).last() == frames[i as int]);
                }
                match parse_milli(msgs[i].as_str()) {
                    Some(v) => {
                        thermometer.update_temp_c(v);
                    },
                    None => {
                    },
                }
                i += 1;
            }
            proof {
                assert(frames.take(msgs@.len() as int) =~= frames);
            }
        },
    }
}

} // verus!
