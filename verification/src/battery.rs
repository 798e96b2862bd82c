use vstd::prelude::*;
use vstd::string::*;

use crate::segment::RESET;
use crate::text::{capacity_of, parse_u8, trimmed, u8_dec, u8_dec_str};

verus! {

/// How long a battery reading may be reused, in seconds.
pub const BATTERY_VALIDITY_SECS: u64 = 30;

/// The coloring of the battery segment: charging, the five capacity
/// ranges, or a spare tier for readings above 100.
#[derive(Clone, Copy, PartialEq, Eq, Structural, Debug)]
pub enum Tier {
    Charging,
    Critical,
    Low,
    Medium,
    High,
    Full,
    Unknown,
}

/// Tier selection: a pure function of the charging flag and the capacity.
/// Charging overrides; otherwise the capacity is bucketed into 0-20,
/// 21-40, 41-60, 61-80 and 81-100, with `Unknown` above 100.
pub open spec fn tier_of(charging: bool, capacity: u8) -> Tier {
    if charging {
        Tier::Charging
    } else if capacity <= 20 {
        Tier::Critical
    } else if capacity <= 40 {
        Tier::Low
    } else if capacity <= 60 {
        Tier::Medium
    } else if capacity <= 80 {
        Tier::High
    } else if capacity <= 100 {
        Tier::Full
    } else {
        Tier::Unknown
    }
}

pub fn tier_for(charging: bool, capacity: u8) -> (t: Tier)
    ensures
        t == tier_of(charging, capacity),
{
    if charging {
        Tier::Charging
    } else if capacity <= 20 {
        Tier::Critical
    } else if capacity <= 40 {
        Tier::Low
    } else if capacity <= 60 {
        Tier::Medium
    } else if capacity <= 80 {
        Tier::High
    } else if capacity <= 100 {
        Tier::Full
    } else {
        Tier::Unknown
    }
}

pub open spec fn tier_icon(t: Tier) -> Seq<char> {
    match t {
        Tier::Charging => "\u{f0e7}"@,
        Tier::Critical => "\u{f244} "@,
        Tier::Low => "\u{f243} "@,
        Tier::Medium => "\u{f242} "@,
        Tier::High => "\u{f241} "@,
        Tier::Full => "\u{f240} "@,
        Tier::Unknown => "\u{f590}"@,
    }
}

pub fn tier_icon_str(t: Tier) -> (r: &'static str)
    ensures
        r@ == tier_icon(t),
{
    match t {
        Tier::Charging => "\u{f0e7}",
        Tier::Critical => "\u{f244} ",
        Tier::Low => "\u{f243} ",
        Tier::Medium => "\u{f242} ",
        Tier::High => "\u{f241} ",
        Tier::Full => "\u{f240} ",
        Tier::Unknown => "\u{f590}",
    }
}

pub open spec fn tier_bg(t: Tier) -> Seq<char> {
    match t {
        Tier::Charging => "^b#A3BE8C^"@,
        Tier::Critical => "^b#BF616A^"@,
        Tier::Low => "^b#D08770^"@,
        Tier::Medium => "^b#EBCB8B^"@,
        Tier::High => "^b#A3BE8C^"@,
        Tier::Full => "^b#88C0D0^"@,
        Tier::Unknown => "^b#4C566A^"@,
    }
}

pub fn tier_bg_str(t: Tier) -> (r: &'static str)
    ensures
        r@ == tier_bg(t),
{
    match t {
        Tier::Charging => "^b#A3BE8C^",
        Tier::Critical => "^b#BF616A^",
        Tier::Low => "^b#D08770^",
        Tier::Medium => "^b#EBCB8B^",
        Tier::High => "^b#A3BE8C^",
        Tier::Full => "^b#88C0D0^",
        Tier::Unknown => "^b#4C566A^",
    }
}

pub open spec fn tier_fg(t: Tier) -> Seq<char> {
    match t {
        Tier::Charging => "^c#2E3440^"@,
        Tier::Critical => "^c#ECEFF4^"@,
        Tier::Low => "^c#2E3440^"@,
        Tier::Medium => "^c#2E3440^"@,
        Tier::High => "^c#2E3440^"@,
        Tier::Full => "^c#2E3440^"@,
        Tier::Unknown => "^c#D8DEE9^"@,
    }
}

pub fn tier_fg_str(t: Tier) -> (r: &'static str)
    ensures
        r@ == tier_fg(t),
{
    match t {
        Tier::Charging => "^c#2E3440^",
        Tier::Critical => "^c#ECEFF4^",
        Tier::Low => "^c#2E3440^",
        Tier::Medium => "^c#2E3440^",
        Tier::High => "^c#2E3440^",
        Tier::Full => "^c#2E3440^",
        Tier::Unknown => "^c#D8DEE9^",
    }
}

/// The battery segment's full text for a charging flag and a capacity:
/// the tier's colors and icon, the capacity as a percentage, the reset
/// marker.
pub open spec fn battery_body(charging: bool, capacity: u8) -> Seq<char> {
    let t = tier_of(charging, capacity);
    tier_bg(t) + tier_fg(t) + " "@ + tier_icon(t) + " "@ + u8_dec(capacity) + "% "@ + RESET@
}

/// What the battery segment shows for the raw status and capacity texts.
pub open spec fn battery_text(status_raw: Seq<char>, capacity_raw: Seq<char>) -> Seq<char> {
    battery_body(trimmed(status_raw) == "Charging"@, capacity_of(capacity_raw))
}

pub fn battery_body_str(charging: bool, capacity: u8) -> (r: String)
    ensures
        r@ == battery_body(charging, capacity),
{
    let t = tier_for(charging, capacity);
    let mut s = tier_bg_str(t).to_owned();
    s.append(tier_fg_str(t));
    s.append(" ");
    s.append(tier_icon_str(t));
    s.append(" ");
    let cap = u8_dec_str(capacity);
    s.append(cap.as_str());
    s.append("% ");
    s.append(RESET);
    s
}

// --- the cached reader, as a step function ---------------------------------

/// The battery-cache state the bar carries between ticks.
pub ghost struct BatteryModel {
    pub cache: Seq<char>,
    pub last_updated: int,
    pub prev_status: Seq<char>,
}

/// The cached text may be reused: the trimmed status is the one observed
/// last, and the reading is still within its validity window.
pub open spec fn bat_fresh(m: BatteryModel, now: int, status_raw: Seq<char>) -> bool {
    trimmed(status_raw) == m.prev_status && now < m.last_updated + BATTERY_VALIDITY_SECS
}

/// One tick of the battery reader: reuse the cache when it is fresh,
/// otherwise recompute from the raw readings and stamp the cache `now`.
pub open spec fn bat_step(
    m: BatteryModel,
    now: int,
    status_raw: Seq<char>,
    capacity_raw: Seq<char>,
) -> BatteryModel {
    if bat_fresh(m, now, status_raw) {
        m
    } else {
        BatteryModel {
            cache: battery_text(status_raw, capacity_raw),
            last_updated: now,
            prev_status: trimmed(status_raw),
        }
    }
}

/// Tier selection partitions capacities 0-100 into exactly six disjoint
/// buckets: `Charging` when the charging flag is set, else one of the five
/// ranges, with no gap at the 20/21, 40/41, 60/61 and 80/81 boundaries.
pub proof fn lemma_tier_partition(charging: bool, capacity: u8)
    requires
        capacity <= 100,
    ensures
        charging <==> tier_of(charging, capacity) == Tier::Charging,
        !charging ==> (tier_of(charging, capacity) == Tier::Critical <==> capacity <= 20),
        !charging ==> (tier_of(charging, capacity) == Tier::Low <==> 21 <= capacity <= 40),
        !charging ==> (tier_of(charging, capacity) == Tier::Medium <==> 41 <= capacity <= 60),
        !charging ==> (tier_of(charging, capacity) == Tier::High <==> 61 <= capacity <= 80),
        !charging ==> (tier_of(charging, capacity) == Tier::Full <==> 81 <= capacity <= 100),
        tier_of(charging, capacity) != Tier::Unknown,
{
}

/// Two consecutive ticks within the validity window and with the observed
/// status text unchanged: the second leaves the state untouched and its
/// output is the cached text of the first, whatever the capacity text
/// would have read.
pub proof fn lemma_battery_cache_stable(
    m: BatteryModel,
    now1: int,
    now2: int,
    status_raw: Seq<char>,
    capacity1: Seq<char>,
    capacity2: Seq<char>,
)
    requires
        now2 < bat_step(m, now1, status_raw, capacity1).last_updated + BATTERY_VALIDITY_SECS,
    ensures
        bat_step(bat_step(m, now1, status_raw, capacity1), now2, status_raw, capacity2)
            == bat_step(m, now1, status_raw, capacity1),
{
}

/// A change in the observed charging-status text forces recomputation,
/// even within the validity window.
pub proof fn lemma_battery_status_change_recomputes(
    m: BatteryModel,
    now: int,
    status_raw: Seq<char>,
    capacity_raw: Seq<char>,
)
    requires
        trimmed(status_raw) != m.prev_status,
    ensures
        bat_step(m, now, status_raw, capacity_raw).cache == battery_text(status_raw, capacity_raw),
        bat_step(m, now, status_raw, capacity_raw).last_updated == now,
{
}

/// Capacity text that does not parse yields capacity 0, which lands in the
/// lowest tier when not charging; no reading makes the reader fail.
pub proof fn lemma_malformed_capacity_defaults(status_raw: Seq<char>, capacity_raw: Seq<char>)
    requires
        parse_u8(trimmed(capacity_raw)) is None,
        trimmed(status_raw) != "Charging"@,
    ensures
        capacity_of(capacity_raw) == 0,
        battery_text(status_raw, capacity_raw) == battery_body(false, 0),
        tier_of(false, 0) == Tier::Critical,
{
}

} // verus!
