use statusbar::bar::StatusBar;
use statusbar::cache::CachedData;
use statusbar::segment::BarSegment;

#[test]
fn segment_wraps_content_in_colors_and_reset() {
    let seg = BarSegment { bg_color: "^b#112233^", fg_color: "^c#445566^" };
    assert_eq!(seg.format("hello"), "^b#112233^^c#445566^ hello ^d^");
}

#[test]
fn cache_expiry_boundaries() {
    let c = CachedData::new(String::from("x"), 100);
    assert!(!c.is_expired(100, 30));
    assert!(!c.is_expired(129, 30));
    assert!(c.is_expired(130, 30));
    assert!(c.is_expired(1000, 30));
    assert!(!c.is_expired(50, 30));
}

#[test]
fn loadavg_takes_first_token() {
    let sb = StatusBar::new(0);
    let out = sb.loadavg("0.42 0.38 0.41 1/123 4567\n");
    assert_eq!(out, "^b#b383f3^^c#2E3440^ CPU: 0.42 ^d^");
    assert!(out.contains("CPU: 0.42"));
}

#[test]
fn loadavg_falls_back_when_empty() {
    let sb = StatusBar::new(0);
    assert_eq!(sb.loadavg(""), "^b#b383f3^^c#2E3440^ CPU: N/A ^d^");
    assert_eq!(sb.loadavg("  \n"), "^b#b383f3^^c#2E3440^ CPU: N/A ^d^");
}

#[test]
fn wlan_up_renders_connected() {
    let sb = StatusBar::new(0);
    assert_eq!(sb.wlan("up\n"), "^b#3fc1b0^^c#2E3440^ \u{f1eb}  Connected ^d^");
}

#[test]
fn wlan_down_renders_disconnected() {
    let sb = StatusBar::new(0);
    assert_eq!(sb.wlan("down\n"), "^b#d73f3f^^c#2E3440^ Disconnected ^d^");
}

#[test]
fn wlan_unknown_state_uses_connected_colors() {
    let sb = StatusBar::new(0);
    let out = sb.wlan("dormant\n");
    assert_eq!(out, "^b#3fc1b0^^c#2E3440^ Unknown ^d^");
    assert!(out.starts_with("^b#3fc1b0^"));
    assert_eq!(sb.wlan(""), "^b#3fc1b0^^c#2E3440^ Unknown ^d^");
}

#[test]
fn volume_extracts_fifth_field_of_percent_line() {
    let sb = StatusBar::new(0);
    let amixer = "Simple mixer control 'Master',0\n  Capabilities: pvolume pswitch\n  Front Left: Playback 65536 [100%] [on]\n";
    assert_eq!(
        sb.volume(amixer),
        "^b#818991^^c#2E3440^ \u{f028} [100%] ^d^"
    );
}

#[test]
fn volume_falls_back_without_percent_line() {
    let sb = StatusBar::new(0);
    assert_eq!(sb.volume(""), "^b#818991^^c#2E3440^ \u{f028} N/A ^d^");
    assert_eq!(
        sb.volume("no percent here\nnor here\n"),
        "^b#818991^^c#2E3440^ \u{f028} N/A ^d^"
    );
}

#[test]
fn volume_falls_back_when_field_is_missing() {
    let sb = StatusBar::new(0);
    assert_eq!(
        sb.volume("50%\n"),
        "^b#818991^^c#2E3440^ \u{f028} N/A ^d^"
    );
}

#[test]
fn update_status_concatenates_in_fixed_order() {
    let mut sb = StatusBar::new(0);
    let out = sb.update_status(
        0,
        "0.42 0.38 0.41 1/123 4567\n",
        "Charging\n",
        "55\n",
        "  Front Left: Playback 57000 [87%] [on]\n",
        "up\n",
    );
    // at tick 0 the clock cache is still fresh and empty, so the remaining
    // four segments follow each other directly
    let expected = String::new()
        + "^b#b383f3^^c#2E3440^ CPU: 0.42 ^d^"
        + "^b#A3BE8C^^c#2E3440^ \u{f0e7} 55% ^d^"
        + "^b#818991^^c#2E3440^ \u{f028} [87%] ^d^"
        + "^b#3fc1b0^^c#2E3440^ \u{f1eb}  Connected ^d^";
    assert_eq!(out, expected);
    assert!(out.contains("CPU: 0.42"));
    assert!(!out.contains("EBCB8B"));
}
