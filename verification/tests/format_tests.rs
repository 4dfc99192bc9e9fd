use playback_panel::config::{PanelConfig, Position, ProgressBarType};
use playback_panel::format::{construct_playback_text, StyledLine};
use playback_panel::snapshot::{
    EpisodeInfo, PlayableItem, PlaybackMetadata, RepeatState, TrackInfo,
};

fn base_config(format: &str, fields: &[&str]) -> PanelConfig {
    PanelConfig {
        playback_window_height: 6,
        playback_window_position: Position::Top,
        cover_img_width: 5,
        cover_img_length: 5,
        image_enabled: false,
        progress_bar_type: ProgressBarType::Rectangle,
        play_icon: String::from(">"),
        pause_icon: String::from("||"),
        liked_icon: String::from("<3"),
        playback_format: String::from(format),
        playback_metadata_fields: fields.iter().map(|f| String::from(*f)).collect(),
        image_protocol: None,
    }
}

fn track(name: &str, explicit: bool, artists: &[&str]) -> PlayableItem {
    PlayableItem::Track(TrackInfo {
        name: String::from(name),
        explicit,
        artists: artists.iter().map(|a| String::from(*a)).collect(),
        album: String::from("Album"),
        liked_key: Some(String::from("spotify:track:1")),
        duration_secs: 180,
        image_url: None,
    })
}

fn meta() -> PlaybackMetadata {
    PlaybackMetadata {
        is_playing: true,
        repeat_state: RepeatState::Off,
        fake_track_repeat_state: false,
        shuffle_state: false,
        volume: Some(50),
        mute_state: None,
        device_name: String::from("Dev"),
    }
}

fn line_text(line: &StyledLine) -> String {
    let mut s = String::new();
    for span in &line.spans {
        s.push_str(span.text.as_str());
    }
    s
}

#[test]
fn two_line_format_resolves_track_artists_and_metadata() {
    let cfg = base_config("{track} - {artists}\n{metadata}", &["volume", "device"]);
    let item = track("Foo", true, &["A", "B"]);
    let m = meta();
    let liked: Vec<String> = Vec::new();
    let lines = construct_playback_text(&item, &m, &cfg, &liked);
    assert_eq!(lines.len(), 2);
    assert_eq!(line_text(&lines[0]), "Foo (E) - A, B");
    let second = line_text(&lines[1]);
    assert!(second.contains("volume: 50%"));
    assert!(!second.contains("repeat:"));
    assert!(!second.contains("shuffle:"));
    assert_eq!(second, "volume: 50% | device: Dev");
}

#[test]
fn unknown_placeholder_contributes_nothing() {
    let cfg = base_config("a{bogus}b", &[]);
    let item = track("T", false, &[]);
    let m = meta();
    let liked: Vec<String> = Vec::new();
    let lines = construct_playback_text(&item, &m, &cfg, &liked);
    assert_eq!(lines.len(), 1);
    assert_eq!(lines[0].spans.len(), 2);
    let text = line_text(&lines[0]);
    assert_eq!(text, "ab");
    assert!(!text.contains("bogus"));
}

#[test]
fn liked_icon_shown_only_for_liked_track() {
    let cfg = base_config("{liked}", &[]);
    let item = track("T", false, &[]);
    let m = meta();
    let liked = vec![String::from("spotify:track:1")];
    let lines = construct_playback_text(&item, &m, &cfg, &liked);
    assert_eq!(lines.len(), 1);
    assert_eq!(line_text(&lines[0]), "<3");

    let unliked = vec![String::from("spotify:track:2")];
    let lines = construct_playback_text(&item, &m, &cfg, &unliked);
    assert_eq!(lines.len(), 0);
}

#[test]
fn liked_never_matches_episode() {
    let cfg = base_config("{liked}", &[]);
    let item = PlayableItem::Episode(EpisodeInfo {
        name: String::from("Ep"),
        explicit: false,
        publisher: String::from("Pub"),
        show_name: String::from("Show"),
        duration_secs: 60,
        image_url: None,
    });
    let m = meta();
    let liked = vec![String::from("spotify:track:1")];
    let lines = construct_playback_text(&item, &m, &cfg, &liked);
    assert_eq!(lines.len(), 0);
}

#[test]
fn episode_uses_publisher_and_show_name() {
    let cfg = base_config("{track}|{artists}|{album}", &[]);
    let item = PlayableItem::Episode(EpisodeInfo {
        name: String::from("Ep"),
        explicit: true,
        publisher: String::from("Pub"),
        show_name: String::from("Show"),
        duration_secs: 60,
        image_url: None,
    });
    let m = meta();
    let liked: Vec<String> = Vec::new();
    let lines = construct_playback_text(&item, &m, &cfg, &liked);
    assert_eq!(lines.len(), 1);
    assert_eq!(line_text(&lines[0]), "Ep (E)|Pub|Show");
}

#[test]
fn status_icon_follows_playing_state() {
    let cfg = base_config("{status}", &[]);
    let item = track("T", false, &[]);
    let mut m = meta();
    let liked: Vec<String> = Vec::new();
    let lines = construct_playback_text(&item, &m, &cfg, &liked);
    assert_eq!(line_text(&lines[0]), ">");
    m.is_playing = false;
    let lines = construct_playback_text(&item, &m, &cfg, &liked);
    assert_eq!(line_text(&lines[0]), "||");
}

#[test]
fn metadata_repeat_fake_and_muted_volume() {
    let cfg = base_config("{metadata}", &["repeat", "shuffle", "volume"]);
    let item = track("T", false, &[]);
    let mut m = meta();
    m.fake_track_repeat_state = true;
    m.shuffle_state = true;
    m.mute_state = Some(30);
    let liked: Vec<String> = Vec::new();
    let lines = construct_playback_text(&item, &m, &cfg, &liked);
    assert_eq!(
        line_text(&lines[0]),
        "repeat: track (fake) | shuffle: true | volume: 30% (muted)"
    );
}

#[test]
fn metadata_volume_defaults_to_zero() {
    let cfg = base_config("{metadata}", &["repeat", "volume", "nonsense"]);
    let item = track("T", false, &[]);
    let mut m = meta();
    m.volume = None;
    let liked: Vec<String> = Vec::new();
    let lines = construct_playback_text(&item, &m, &cfg, &liked);
    assert_eq!(line_text(&lines[0]), "repeat: off | volume: 0%");
}

#[test]
fn empty_format_gives_no_lines() {
    let cfg = base_config("", &[]);
    let item = track("T", false, &[]);
    let m = meta();
    let liked: Vec<String> = Vec::new();
    let lines = construct_playback_text(&item, &m, &cfg, &liked);
    assert_eq!(lines.len(), 0);
}

#[test]
fn lone_newline_gives_one_empty_line() {
    let cfg = base_config("\n", &[]);
    let item = track("T", false, &[]);
    let m = meta();
    let liked: Vec<String> = Vec::new();
    let lines = construct_playback_text(&item, &m, &cfg, &liked);
    assert_eq!(lines.len(), 1);
    assert_eq!(lines[0].spans.len(), 0);
}

#[test]
fn unclosed_brace_is_literal_text() {
    let cfg = base_config("x{track\ny", &[]);
    let item = track("T", false, &[]);
    let m = meta();
    let liked: Vec<String> = Vec::new();
    let lines = construct_playback_text(&item, &m, &cfg, &liked);
    assert_eq!(lines.len(), 2);
    assert_eq!(line_text(&lines[0]), "x{track");
    assert_eq!(line_text(&lines[1]), "y");
}

#[test]
fn rtl_track_name_is_reordered_for_display() {
    let cfg = base_config("{track}", &[]);
    let item = track("\u{05D0}\u{05D1}", false, &[]);
    let m = meta();
    let liked: Vec<String> = Vec::new();
    let lines = construct_playback_text(&item, &m, &cfg, &liked);
    assert_eq!(lines.len(), 1);
    assert_eq!(line_text(&lines[0]), "\u{05D1}\u{05D0}");
}
