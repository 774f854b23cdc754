//! The local wall clock, from which a timestamp is taken when a message is
//! made.

use vstd::prelude::*;
use crate::message::RoverTimestamp;

verus! {

/// Hour, minute and second of the local time of day, read from the system
/// clock through `chrono::Local::now` and the `chrono::Timelike` accessors
/// `hour`, `minute` and `second` of the time it returns.
///
/// Nothing is proved of this function. Its contract repeats the ranges that
/// chrono documents for the three accessors: hours run from 0 to 23, minutes
/// and seconds from 0 to 59 (a leap second is never reported as 60). Which
/// values come back depends on the moment of the call and on the time zone
/// of the machine. `Local::now` panics if the system clock stands before
/// 1970 or the local offset from UTC cannot be found.
#[verifier::external_body]
fn local_time_of_day() -> (hms: (u32, u32, u32))
    ensures
        hms.0 < 24,
        hms.1 < 60,
        hms.2 < 60,
{
    let time = chrono::Local::now().time();
    (chrono::Timelike::hour(&time), chrono::Timelike::minute(&time), chrono::Timelike::second(&time))
}

impl RoverTimestamp {
    /// True of a timestamp that a clock can show.
    pub open spec fn is_time_of_day(self) -> bool {
        self.hour < 24 && self.minute < 60 && self.second < 60
    }

    /// The timestamp that keeps the low eight bits of each number.
    pub open spec fn spec_from_hms(hour: u32, minute: u32, second: u32) -> RoverTimestamp {
        RoverTimestamp {
            hour: (hour % 256) as u8,
            minute: (minute % 256) as u8,
            second: (second % 256) as u8,
        }
    }

    /// Narrows hour, minute and second to the three bytes of a timestamp.
    /// A number above 255 keeps its low eight bits.
    pub fn from_hms(hour: u32, minute: u32, second: u32) -> (ts: RoverTimestamp)
        ensures
            ts == Self::spec_from_hms(hour, minute, second),
            hour < 24 && minute < 60 && second < 60 ==> ts.hour == hour && ts.minute == minute
                && ts.second == second && ts.is_time_of_day(),
    {
        RoverTimestamp {
            hour: (hour % 256) as u8,
            minute: (minute % 256) as u8,
            second: (second % 256) as u8,
        }
    }
}

impl Default for RoverTimestamp {
    /// The local time of day at the moment of the call.
    fn default() -> (ts: RoverTimestamp)
        ensures
            ts.is_time_of_day(),
    {
        let (hour, minute, second) = local_time_of_day();
        RoverTimestamp::from_hms(hour, minute, second)
    }
}

} // verus!
