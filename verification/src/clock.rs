use vstd::prelude::*;
use vstd::string::*;

use crate::text::{two_digit, two_digit_str};

verus! {

/// How long a clock reading may be reused, in seconds.
pub const CLOCK_VALIDITY_SECS: u64 = 60;

/// A local wall-clock reading reduced to the fields the bar displays.
pub struct ClockReading {
    pub hour: u8,
    pub minute: u8,
    pub month: u8,
    pub day: u8,
}

impl ClockReading {
    /// The ranges a valid local time stays within.
    pub open spec fn wf(self) -> bool {
        self.hour < 24 && self.minute < 60 && 1 <= self.month <= 12 && 1 <= self.day <= 31
    }
}

/// Relies on chrono: `Local::now` for the current local time, read through
/// the `Timelike` accessors `hour` and `minute` and the `Datelike`
/// accessors `month` and `day`, whose documented ranges are 0-23, 0-59,
/// 1-12 and 1-31. The reading depends on the wall clock, so nothing more
/// than those ranges can be promised of it.
#[verifier::external_body]
pub(crate) fn read_local_clock() -> (r: ClockReading)
    ensures
        r.wf(),
{
    let now = chrono::Local::now();
    ClockReading {
        hour: chrono::Timelike::hour(&now) as u8,
        minute: chrono::Timelike::minute(&now) as u8,
        month: chrono::Datelike::month(&now) as u8,
        day: chrono::Datelike::day(&now) as u8,
    }
}

/// The hour on a 12-hour clock.
pub open spec fn hour12_of(hour: u8) -> u8 {
    if hour % 12 == 0 {
        12u8
    } else {
        (hour % 12) as u8
    }
}

/// "AM" before noon, "PM" from noon on.
pub open spec fn ampm_of(hour: u8) -> Seq<char> {
    if hour < 12 {
        "AM"@
    } else {
        "PM"@
    }
}

/// The clock segment's content: a glyph, the zero-padded 12-hour time with
/// its AM/PM marker, a second glyph, and the zero-padded month/day date.
pub open spec fn clock_content(rd: ClockReading) -> Seq<char> {
    "\u{f43a} "@ + two_digit(hour12_of(rd.hour)) + ":"@ + two_digit(rd.minute) + " "@ + ampm_of(
        rd.hour,
    ) + " \u{f073} "@ + two_digit(rd.month) + "/"@ + two_digit(rd.day)
}

pub fn clock_content_str(rd: ClockReading) -> (r: String)
    requires
        rd.wf(),
    ensures
        r@ == clock_content(rd),
{
    let h12: u8 = if rd.hour % 12 == 0 {
        12
    } else {
        rd.hour % 12
    };
    let mut s = "\u{f43a} ".to_owned();
    s.append(two_digit_str(h12).as_str());
    s.append(":");
    s.append(two_digit_str(rd.minute).as_str());
    s.append(" ");
    s.append(if rd.hour < 12 { "AM" } else { "PM" });
    s.append(" \u{f073} ");
    s.append(two_digit_str(rd.month).as_str());
    s.append("/");
    s.append(two_digit_str(rd.day).as_str());
    s
}

} // verus!
