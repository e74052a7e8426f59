use nocy::queue::PendingQueue;
use nocy::render::{
    art_padding, board_window, position_clock, queue_row_prefix, row_flags, dur_calc, dur_hmsfmt, dur_thmsfmt, playing_title, queue_more_label, queue_panel_title,
    queue_rows, queue_total_secs, row_marker, row_number, searchbar_text, truncate_title, Renderer,
};
use nocy::text::{push_decimal_pad2, str_eq, u64_to_decimal};
use nocy::track::{ProviderType, SoundCloudTrack, Track};
use nocy::version::{app_version_it, Version, APP_NAME, APP_VERSION};

fn track(id: &str, secs: u64) -> SoundCloudTrack {
    SoundCloudTrack {
        id: id.to_string(),
        title: id.to_string(),
        artist: "A".to_string(),
        permalink_url: "https://soundcloud.com/x".to_string(),
        duration: secs,
        created_at: String::new(),
        track_authorization: Some("tok".to_string()),
        transcodings: None,
    }
}

#[test]
fn decimal_text() {
    assert_eq!(u64_to_decimal(0), "0");
    assert_eq!(u64_to_decimal(7), "7");
    assert_eq!(u64_to_decimal(10), "10");
    assert_eq!(u64_to_decimal(12345), "12345");
    assert_eq!(u64_to_decimal(u64::MAX), "18446744073709551615");
}

#[test]
fn decimal_padding() {
    let mut s = String::from("x");
    push_decimal_pad2(&mut s, 5);
    push_decimal_pad2(&mut s, 42);
    push_decimal_pad2(&mut s, 123);
    assert_eq!(s, "x0542123");
}

#[test]
fn string_equality() {
    assert!(str_eq("progressive", "progressive"));
    assert!(!str_eq("progressive", "hls"));
    assert!(!str_eq("ab", "abc"));
    assert!(str_eq("", ""));
}

#[test]
fn version_display() {
    let v = Version::new(1, 22, 3, "beta");
    assert_eq!(v.to_display_string(), "v1.22.3 beta");
    assert_eq!(app_version_it().to_display_string(), APP_VERSION);
    assert_eq!(APP_VERSION, "v0.0.1 internal");
    assert_eq!(APP_NAME, "nocy");
}

#[test]
fn provider_name_and_track_accessors() {
    assert_eq!(ProviderType::SoundCloud.name(), "SoundCloud");
    let t = track("42", 31);
    assert_eq!(t.provider(), ProviderType::SoundCloud);
    assert_eq!(t.id(), "42");
    assert_eq!(t.url(), "https://soundcloud.com/x");
    assert_eq!(t.title(), "42");
    assert_eq!(t.artist(), "A");
    assert_eq!(Track::duration(&t), 31);
    assert!(t.stream().is_none());
    let c = t.clone();
    assert_eq!(c.track_authorization.as_deref(), Some("tok"));
}

#[test]
fn hours_minutes_seconds() {
    assert_eq!(dur_calc(0), (0, 0, 0));
    assert_eq!(dur_calc(59), (0, 0, 59));
    assert_eq!(dur_calc(3725), (1, 2, 5));
    assert_eq!(dur_calc(7199), (1, 59, 59));
    let (h, m, s) = dur_calc(987654);
    assert_eq!(h * 3600 + m * 60 + s, 987654);
    assert!(m < 60 && s < 60);
}

#[test]
fn duration_texts() {
    assert_eq!(dur_hmsfmt(0), "0h 0m 0s");
    assert_eq!(dur_hmsfmt(7198), "1h 59m 58s");
    assert_eq!(dur_thmsfmt(30, None), "00:30");
    assert_eq!(dur_thmsfmt(65, None), "01:05");
    assert_eq!(dur_thmsfmt(3725, None), "01:02:05");
    assert_eq!(dur_thmsfmt(65, Some(true)), "00:01:05");
    assert_eq!(dur_thmsfmt(65, Some(false)), "01:05");
    assert_eq!(dur_thmsfmt(360000, None), "100:00:00");
}

#[test]
fn board_window_follows_selection() {
    assert_eq!(board_window(0, 10, 50), (0, 10, 0));
    assert_eq!(board_window(20, 10, 50), (15, 25, 5));
    assert_eq!(board_window(48, 10, 50), (43, 50, 5));
    assert_eq!(board_window(2, 10, 3), (0, 3, 2));
}

#[test]
fn row_texts() {
    assert_eq!(row_marker(true, true), "▶ ");
    assert_eq!(row_marker(false, true), "# ");
    assert_eq!(row_marker(false, false), "   ");
    assert_eq!(row_number(0), " 1. ");
    assert_eq!(row_number(9), "10. ");
    assert_eq!(row_number(123), "124. ");
    assert_eq!(playing_title(false, true), " Nothing ");
    assert_eq!(playing_title(true, true), " Paused ");
    assert_eq!(playing_title(true, false), " Playing ");
}

#[test]
fn titles_are_cut_with_ellipsis() {
    assert_eq!(truncate_title("abcdef", 3), "abc…");
    assert_eq!(truncate_title("abc", 3), "abc");
    assert_eq!(truncate_title("héllo wörld", 5), "héllo…");
    assert_eq!(truncate_title("abc", 0), "…");
}

#[test]
fn queue_panel_texts() {
    let mut q = PendingQueue::new();
    assert_eq!(queue_total_secs(&q), Some(0));
    q.push("a".to_string(), track("a", 3600));
    q.push("b".to_string(), track("b", 3598));
    assert_eq!(queue_total_secs(&q), Some(7198));
    assert_eq!(queue_panel_title(7198), " Queue | 1h 59m 58s ");
    q.push("c".to_string(), track("c", u64::MAX));
    assert_eq!(queue_total_secs(&q), None);
    assert_eq!(queue_rows(10), 6);
    assert_eq!(queue_rows(3), 0);
    assert_eq!(queue_more_label(10, 6).unwrap(), " - 4+");
    assert!(queue_more_label(6, 6).is_none());
}

#[test]
fn empty_board_padding() {
    assert_eq!(art_padding(0), 0);
    assert_eq!(art_padding(15), 0);
    assert_eq!(art_padding(25), 5);
    assert_eq!(art_padding(26), 5);
}

#[test]
fn search_bar_text() {
    assert_eq!(searchbar_text(true, "lofi", Some("Song")), "lofi");
    assert_eq!(searchbar_text(false, "lofi", Some("Song")), "Song");
    assert_eq!(searchbar_text(false, "lofi", None), "Nice Choice!");
    let _r = Renderer::new();
}

#[test]
fn decimal_reads_back() {
    for n in [0u64, 1, 9, 10, 99, 100, 4096, 1_000_000_007, u64::MAX] {
        let s = u64_to_decimal(n);
        assert_eq!(s.parse::<u64>().unwrap(), n);
        assert!(n == 0 || !s.starts_with('0'));
    }
}

#[test]
fn position_clock_follows_track_length() {
    assert_eq!(position_clock(65, 200), "01:05");
    assert_eq!(position_clock(65, 3725), "00:01:05");
    assert_eq!(position_clock(3725, 100), "01:02:05");
    assert_eq!(position_clock(5, 360000), "00:05");
}

#[test]
fn board_row_flags_and_queue_prefix() {
    let mut q = PendingQueue::new();
    q.push("a".to_string(), track("a", 1));
    let cur = Some(track("b", 1));
    assert_eq!(row_flags("a", &q, &cur), (false, true));
    assert_eq!(row_flags("b", &q, &cur), (true, false));
    assert_eq!(row_flags("c", &q, &None), (false, false));
    assert_eq!(queue_row_prefix(0), "▶ ");
    assert_eq!(queue_row_prefix(3), "  ");
}
