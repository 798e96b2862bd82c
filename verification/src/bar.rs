use vstd::prelude::*;
use vstd::string::*;

use crate::battery::{
    bat_fresh, bat_step, battery_body_str, BatteryModel, BATTERY_VALIDITY_SECS,
};
use crate::cache::CachedData;
use crate::clock::{clock_content, clock_content_str, read_local_clock, ClockReading,
    CLOCK_VALIDITY_SECS};
use crate::segment::{seg_text, BarSegment};
use crate::text::{
    capacity_value, fields_of, find_percent_line, find_percent_line_str, first_token,
    first_token_str, nth_field, str_eq, trim_str, trimmed,
};

verus! {

/// What the load segment shows for raw load-average text: the first
/// whitespace-delimited token after "CPU: ", or "N/A" when there is none.
pub open spec fn loadavg_content(contents: Seq<char>) -> Seq<char> {
    "CPU: "@ + (if first_token(contents).len() == 0 {
        "N/A"@
    } else {
        first_token(contents)
    })
}

/// What the volume segment shows for the mixer's output: a glyph, then
/// the fifth whitespace-delimited field of the first line that holds a
/// percent sign, or "N/A" when no such line or field exists.
pub open spec fn volume_content(output: Seq<char>) -> Seq<char> {
    "\u{f028} "@ + (match find_percent_line(output) {
        Option::None => "N/A"@,
        Option::Some(line) => if fields_of(line).len() > 4 {
            fields_of(line)[4]
        } else {
            "N/A"@
        },
    })
}

/// The status bar: one colored segment per category, plus the cached
/// battery and clock readings and the last observed charging status.
pub struct StatusBar {
    pub cpu: BarSegment,
    pub wifi: BarSegment,
    pub nowifi: BarSegment,
    pub clock: BarSegment,
    pub volume: BarSegment,
    pub battery_cache: CachedData<String>,
    pub clock_cache: CachedData<String>,
    pub previous_status: String,
}

/// What the wireless segment shows for the raw operational state: the
/// connected segment for "up", the disconnected one for "down", and the
/// "Unknown" label with the connected segment's colors for anything else.
pub open spec fn wlan_text(sb: StatusBar, operstate_raw: Seq<char>) -> Seq<char> {
    let st = trimmed(operstate_raw);
    if st == "up"@ {
        seg_text(sb.wifi, "\u{f1eb}  Connected"@)
    } else if st == "down"@ {
        seg_text(sb.nowifi, "Disconnected"@)
    } else {
        seg_text(sb.wifi, "Unknown"@)
    }
}

impl StatusBar {
    /// The battery-cache fields, as the step function speaks of them.
    pub open spec fn bat_model(self) -> BatteryModel {
        BatteryModel {
            cache: self.battery_cache.value@,
            last_updated: self.battery_cache.last_updated as int,
            prev_status: self.previous_status@,
        }
    }

    /// The five segments, which never change after construction.
    pub open spec fn segments_eq(self, other: StatusBar) -> bool {
        self.cpu == other.cpu && self.wifi == other.wifi && self.nowifi == other.nowifi
            && self.clock == other.clock && self.volume == other.volume
    }

    /// The bar as it starts: fixed colors, empty caches stamped `now`.
    pub fn new(now: u64) -> (r: StatusBar)
        ensures
            r.cpu.bg_color@ == "^b#b383f3^"@,
            r.cpu.fg_color@ == "^c#2E3440^"@,
            r.wifi.bg_color@ == "^b#3fc1b0^"@,
            r.wifi.fg_color@ == "^c#2E3440^"@,
            r.nowifi.bg_color@ == "^b#d73f3f^"@,
            r.nowifi.fg_color@ == "^c#2E3440^"@,
            r.clock.bg_color@ == "^b#599dcf^"@,
            r.clock.fg_color@ == "^c#3E3440^"@,
            r.volume.bg_color@ == "^b#818991^"@,
            r.volume.fg_color@ == "^c#2E3440^"@,
            r.battery_cache.value@ == Seq::<char>::empty(),
            r.battery_cache.last_updated == now,
            r.clock_cache.value@ == Seq::<char>::empty(),
            r.clock_cache.last_updated == now,
            r.previous_status@ == Seq::<char>::empty(),
    {
        StatusBar {
            cpu: BarSegment { bg_color: "^b#b383f3^", fg_color: "^c#2E3440^" },
            wifi: BarSegment { bg_color: "^b#3fc1b0^", fg_color: "^c#2E3440^" },
            nowifi: BarSegment { bg_color: "^b#d73f3f^", fg_color: "^c#2E3440^" },
            clock: BarSegment { bg_color: "^b#599dcf^", fg_color: "^c#3E3440^" },
            volume: BarSegment { bg_color: "^b#818991^", fg_color: "^c#2E3440^" },
            battery_cache: CachedData::new(String::new(), now),
            clock_cache: CachedData::new(String::new(), now),
            previous_status: String::new(),
        }
    }

    /// The load segment, from the raw text of the load-average resource.
    pub fn loadavg(&self, contents: &str) -> (r: String)
        ensures
            r@ == seg_text(self.cpu, loadavg_content(contents@)),
    {
        let tok = first_token_str(contents);
        let val: &str = if tok.as_str().unicode_len() == 0 {
            "N/A"
        } else {
            tok.as_str()
        };
        let content = "CPU: ".to_owned().concat(val);
        self.cpu.format(content.as_str())
    }

    /// The wireless segment, from the raw operational-state text.
    pub fn wlan(&self, operstate_raw: &str) -> (r: String)
        ensures
            r@ == wlan_text(*self, operstate_raw@),
            trimmed(operstate_raw@) != "up"@ && trimmed(operstate_raw@) != "down"@ ==> r@
                == seg_text(self.wifi, "Unknown"@),
    {
        let st = trim_str(operstate_raw);
        if str_eq(st, "up") {
            self.wifi.format("\u{f1eb}  Connected")
        } else if str_eq(st, "down") {
            self.nowifi.format("Disconnected")
        } else {
            self.wifi.format("Unknown")
        }
    }

    /// The volume segment, from the mixer's raw output.
    pub fn volume(&self, mixer_output: &str) -> (r: String)
        ensures
            r@ == seg_text(self.volume, volume_content(mixer_output@)),
    {
        let field: String = match find_percent_line_str(mixer_output) {
            Option::None => "N/A".to_owned(),
            Option::Some(line) => match nth_field(line.as_str(), 4) {
                Option::Some(f) => f,
                Option::None => "N/A".to_owned(),
            },
        };
        let content = "\u{f028} ".to_owned().concat(field.as_str());
        self.volume.format(content.as_str())
    }

    /// Whether the battery cache must be recomputed at tick `now`, given
    /// the raw text of the charging-status file.
    pub fn battery_needs_refresh(&self, now: u64, status_raw: &str) -> (r: bool)
        ensures
            r == !bat_fresh(self.bat_model(), now as int, status_raw@),
    {
        let st = trim_str(status_raw);
        if !str_eq(st, self.previous_status.as_str()) {
            true
        } else {
            self.battery_cache.is_expired(now, BATTERY_VALIDITY_SECS)
        }
    }

    /// One tick of the battery reader, over the raw texts of the
    /// charging-status and capacity files.
    pub fn battery(&mut self, now: u64, status_raw: &str, capacity_raw: &str) -> (r: String)
        ensures
            final(self).bat_model() == bat_step(
                old(self).bat_model(),
                now as int,
                status_raw@,
                capacity_raw@,
            ),
            r@ == bat_step(old(self).bat_model(), now as int, status_raw@, capacity_raw@).cache,
            final(self).segments_eq(*old(self)),
            final(self).clock_cache == old(self).clock_cache,
    {
        let needs = self.battery_needs_refresh(now, status_raw);
        if needs {
            let st = trim_str(status_raw);
            self.previous_status = st.to_owned();
            let cap = capacity_value(capacity_raw);
            let charging = str_eq(st, "Charging");
            let text = battery_body_str(charging, cap);
            self.battery_cache = CachedData::new(text, now);
        }
        self.battery_cache.value.clone()
    }

    /// One tick of the clock segment: within the validity window the
    /// cached text is returned unchanged; past it, the wall clock is read
    /// anew, formatted and cached at `now`.
    pub fn clock(&mut self, now: u64) -> (r: String)
        ensures
            final(self).segments_eq(*old(self)),
            final(self).battery_cache == old(self).battery_cache,
            final(self).previous_status == old(self).previous_status,
            r == final(self).clock_cache.value,
            now < old(self).clock_cache.last_updated + CLOCK_VALIDITY_SECS
                ==> final(self).clock_cache == old(self).clock_cache,
            old(self).clock_cache.last_updated + CLOCK_VALIDITY_SECS <= now ==> {
                &&& final(self).clock_cache.last_updated == now
                &&& exists|rd: ClockReading|
                    rd.wf() && final(self).clock_cache.value@ == seg_text(
                        old(self).clock,
                        clock_content(rd),
                    )
            },
    {
        if self.clock_cache.is_expired(now, CLOCK_VALIDITY_SECS) {
            let rd = read_local_clock();
            let content = clock_content_str(rd);
            let text = self.clock.format(content.as_str());
            proof {
                assert(rd.wf() && text@ == seg_text(self.clock, clock_content(rd)));
            }
            self.clock_cache = CachedData::new(text, now);
        }
        self.clock_cache.value.clone()
    }

    /// One full tick: the five segments rendered in their fixed order
    /// (clock, load, battery, volume, wifi) and concatenated.
    pub fn update_status(
        &mut self,
        now: u64,
        loadavg_raw: &str,
        status_raw: &str,
        capacity_raw: &str,
        mixer_raw: &str,
        operstate_raw: &str,
    ) -> (r: String)
        ensures
            final(self).segments_eq(*old(self)),
            final(self).bat_model() == bat_step(
                old(self).bat_model(),
                now as int,
                status_raw@,
                capacity_raw@,
            ),
            now < old(self).clock_cache.last_updated + CLOCK_VALIDITY_SECS
                ==> final(self).clock_cache == old(self).clock_cache,
            old(self).clock_cache.last_updated + CLOCK_VALIDITY_SECS <= now
                ==> final(self).clock_cache.last_updated == now && (exists|rd: ClockReading|
                rd.wf() && final(self).clock_cache.value@ == seg_text(
                    old(self).clock,
                    clock_content(rd),
                )),
            r@ == final(self).clock_cache.value@ + seg_text(
                old(self).cpu,
                loadavg_content(loadavg_raw@),
            ) + final(self).bat_model().cache + seg_text(
                old(self).volume,
                volume_content(mixer_raw@),
            ) + wlan_text(*old(self), operstate_raw@),
    {
        let clock_part = self.clock(now);
        let load_part = self.loadavg(loadavg_raw);
        let battery_part = self.battery(now, status_raw, capacity_raw);
        let volume_part = self.volume(mixer_raw);
        let wlan_part = self.wlan(operstate_raw);
        let mut s = clock_part;
        s.append(load_part.as_str());
        s.append(battery_part.as_str());
        s.append(volume_part.as_str());
        s.append(wlan_part.as_str());
        s
    }
}

} // verus!
