use statusbar::bar::StatusBar;
use statusbar::clock::{clock_content_str, ClockReading};

#[test]
fn clock_formats_afternoon() {
    let rd = ClockReading { hour: 13, minute: 5, month: 10, day: 3 };
    assert_eq!(clock_content_str(rd), "\u{f43a} 01:05 PM \u{f073} 10/03");
}

#[test]
fn clock_formats_midnight_as_twelve_am() {
    let rd = ClockReading { hour: 0, minute: 0, month: 1, day: 1 };
    assert_eq!(clock_content_str(rd), "\u{f43a} 12:00 AM \u{f073} 01/01");
}

#[test]
fn clock_formats_noon_as_twelve_pm() {
    let rd = ClockReading { hour: 12, minute: 59, month: 12, day: 31 };
    assert_eq!(clock_content_str(rd), "\u{f43a} 12:59 PM \u{f073} 12/31");
}

#[test]
fn clock_formats_late_morning() {
    let rd = ClockReading { hour: 11, minute: 30, month: 6, day: 15 };
    assert_eq!(clock_content_str(rd), "\u{f43a} 11:30 AM \u{f073} 06/15");
}

#[test]
fn fresh_clock_cache_is_reused_unchanged() {
    let mut sb = StatusBar::new(0);
    // the cache starts stamped at tick 0, so for the first minute the
    // segment still shows the initial empty text
    let a = sb.clock(0);
    assert_eq!(a, "");
    let b = sb.clock(59);
    assert_eq!(b, "");
}

#[test]
fn expired_clock_reads_the_wall_clock() {
    let mut sb = StatusBar::new(0);
    let b = sb.clock(60);
    // the reading itself depends on the wall clock; its frame does not
    assert!(b.starts_with("^b#599dcf^^c#3E3440^ \u{f43a} "));
    assert!(b.ends_with(" ^d^"));
    assert!(b.contains(":"));
    assert!(b.contains(" \u{f073} "));
    assert!(b.contains("/"));
    assert!(b.contains("M "));
    let c = sb.clock(90);
    assert_eq!(b, c);
}
