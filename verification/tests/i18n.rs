use riff::i18n::{decimal_text, fill_count, fill_placeholder};
use riff::saved_tracks::SavedTracks;

#[test]
fn placeholder_is_filled_once() {
    assert_eq!(fill_placeholder("{} Tracks", "12"), "12 Tracks");
    assert_eq!(fill_placeholder("a {} b {}", "x"), "a x b {}");
    assert_eq!(fill_placeholder("no slot", "x"), "no slot");
    assert_eq!(fill_placeholder("", "x"), "");
    assert_eq!(fill_placeholder("{", "x"), "{");
    assert_eq!(fill_placeholder("{}", "x"), "x");
    assert_eq!(fill_placeholder("Pistes : {}", "3"), "Pistes : 3");
}

#[test]
fn counts_are_written_in_decimal() {
    assert_eq!(fill_count("{} Tracks", 0), "0 Tracks");
    assert_eq!(fill_count("{} Tracks", 42), "42 Tracks");
    assert_eq!(fill_count("{}", 1_000_007), "1000007");
}

#[test]
fn decimal_digits() {
    assert_eq!(decimal_text(0), "0");
    assert_eq!(decimal_text(7), "7");
    assert_eq!(decimal_text(10), "10");
    assert_eq!(decimal_text(90210), "90210");
    assert_eq!(decimal_text(usize::MAX), usize::MAX.to_string());
}

#[test]
fn track_count_subtitle() {
    let page = SavedTracks::new();
    assert_eq!(page.track_count_message(1), ("{} Track", "{} Tracks", 1));
    assert_eq!(page.track_count_message(5), ("{} Track", "{} Tracks", 5));
    assert_eq!(page.update_track_count("{} Track", 1), "1 Track");
    assert_eq!(page.update_track_count("{} Tracks", 5), "5 Tracks");
    assert_eq!(page.update_track_count("{} pistes", 12), "12 pistes");
}

#[test]
fn queue_label_message_id() {
    assert_eq!(riff::now_playing::NowPlaying::new(false).queue_label(), "Queue");
}
