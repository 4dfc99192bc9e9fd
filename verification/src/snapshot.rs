//! Read-only views of the current playback the panel renders from.

use vstd::prelude::*;

verus! {

/// Repeat mode of the player.
#[derive(Clone, Copy, Debug, PartialEq, Eq, Structural)]
pub enum RepeatState {
    Off,
    Track,
    Context,
}

/// The display name of a repeat state.
pub open spec fn repeat_text(r: RepeatState) -> Seq<char> {
    match r {
        RepeatState::Off => seq!['o', 'f', 'f'],
        RepeatState::Track => seq!['t', 'r', 'a', 'c', 'k'],
        RepeatState::Context => seq!['c', 'o', 'n', 't', 'e', 'x', 't'],
    }
}

impl RepeatState {
    /// The name this state prints as.
    pub fn name(&self) -> (r: &'static str)
        ensures
            r@ == repeat_text(*self),
    {
        proof {
            reveal_strlit("off");
            reveal_strlit("track");
            reveal_strlit("context");
        }
        match self {
            RepeatState::Off => {
                proof {
                    assert("off"@ =~= repeat_text(RepeatState::Off));
                }
                "off"
            },
            RepeatState::Track => {
                proof {
                    assert("track"@ =~= repeat_text(RepeatState::Track));
                }
                "track"
            },
            RepeatState::Context => {
                proof {
                    assert("context"@ =~= repeat_text(RepeatState::Context));
                }
                "context"
            },
        }
    }
}

/// A track, as the panel needs it: plain values only.
pub struct TrackInfo {
    pub name: String,
    pub explicit: bool,
    pub artists: Vec<String>,
    pub album: String,
    /// The key the liked-tracks set is looked up with (the track's
    /// URI), when the track has an identifier.
    pub liked_key: Option<String>,
    pub duration_secs: i64,
    pub image_url: Option<String>,
}

/// An episode, as the panel needs it.
pub struct EpisodeInfo {
    pub name: String,
    pub explicit: bool,
    pub publisher: String,
    pub show_name: String,
    pub duration_secs: i64,
    pub image_url: Option<String>,
}

/// The item currently playing.
pub enum PlayableItem {
    Track(TrackInfo),
    Episode(EpisodeInfo),
}

impl PlayableItem {
    /// Total duration of the item, in seconds.
    pub fn duration_secs(&self) -> (r: i64)
        ensures
            r == self.spec_duration_secs(),
    {
        match self {
            PlayableItem::Track(t) => t.duration_secs,
            PlayableItem::Episode(e) => e.duration_secs,
        }
    }

    pub open spec fn spec_duration_secs(&self) -> i64 {
        match self {
            PlayableItem::Track(t) => t.duration_secs,
            PlayableItem::Episode(e) => e.duration_secs,
        }
    }

    /// The cover-image URL the item resolves to, if any: the track's
    /// album image or the episode's show image.
    pub fn image_url(&self) -> (r: &Option<String>)
        ensures
            r == self.spec_image_url(),
    {
        match self {
            PlayableItem::Track(t) => &t.image_url,
            PlayableItem::Episode(e) => &e.image_url,
        }
    }

    pub open spec fn spec_image_url(&self) -> Option<String> {
        match self {
            PlayableItem::Track(t) => t.image_url,
            PlayableItem::Episode(e) => e.image_url,
        }
    }
}

/// Playback session metadata shown by the `{status}` and `{metadata}`
/// placeholders.
pub struct PlaybackMetadata {
    pub is_playing: bool,
    pub repeat_state: RepeatState,
    /// Set when track repeat is emulated by the client rather than the
    /// device.
    pub fake_track_repeat_state: bool,
    pub shuffle_state: bool,
    /// Current volume, when the device reports one.
    pub volume: Option<u32>,
    /// When muted, the volume to restore afterwards.
    pub mute_state: Option<u32>,
    pub device_name: String,
}

} // verus!
