use vstd::prelude::*;
use crate::details_page::{PageControl, sync_play_button, HeaderImageShape, HeaderSetup};
use crate::events::{playback_event, AppEvent, BrowserEvent, LoginEvent, PlaybackEvent};
use crate::i18n::{fill_count, spec_decimal, spec_fill};

verus! {

/// What the page of saved tracks updates after an event.
#[derive(Debug, PartialEq, Eq)]
pub enum SavedTracksUpdate {
    /// Fetch the first page of saved tracks.
    LoadInitial,
    /// Show how many tracks are saved.
    UpdateTrackCount,
    /// Show the play button as playing or not, given whether playback runs.
    UpdatePlaying(bool),
}

/// How the page of saved tracks reacts to an event (it then hands the event on to its
/// children).
pub open spec fn saved_tracks_reaction(event: AppEvent) -> Seq<SavedTracksUpdate> {
    match event {
        AppEvent::LoginEvent(LoginEvent::LoginCompleted) => seq![SavedTracksUpdate::LoadInitial],
        AppEvent::BrowserEvent(BrowserEvent::SavedTracksUpdated) => seq![SavedTracksUpdate::UpdateTrackCount],
        AppEvent::PlaybackEvent(PlaybackEvent::PlaybackPaused) => seq![SavedTracksUpdate::UpdatePlaying(false)],
        AppEvent::PlaybackEvent(PlaybackEvent::PlaybackResumed) => seq![SavedTracksUpdate::UpdatePlaying(true)],
        _ => Seq::empty(),
    }
}

/// What the controls of the page of saved tracks ask of its model.
#[derive(Clone, Copy, Debug, PartialEq, Eq, Structural)]
pub enum SavedTracksOperation {
    /// Play the saved tracks, or pause or resume them.
    TogglePlay,
    /// Fetch more saved tracks.
    LoadMore,
}

/// The operation that each control of the page of saved tracks triggers, if any.
pub open spec fn saved_tracks_control_operation(control: PageControl) -> Option<SavedTracksOperation> {
    match control {
        PageControl::Play => Some(SavedTracksOperation::TogglePlay),
        PageControl::Like => None,
        PageControl::Info => None,
        PageControl::Subtitle => None,
        PageControl::BottomEdge => Some(SavedTracksOperation::LoadMore),
    }
}

/// The page of saved tracks.
#[derive(Debug, PartialEq, Eq)]
pub struct SavedTracks {}

impl SavedTracks {
    /// The page of saved tracks; what its controls do is `on_control`.
    pub fn new() -> (page: Self)
        ensures
            page == (SavedTracks {}),
    {
        SavedTracks {}
    }

    /// The operation of the model that acting on `control` triggers, once per action.
    pub fn on_control(&self, control: PageControl) -> (op: Option<SavedTracksOperation>)
        ensures
            op == saved_tracks_control_operation(control),
    {
        match control {
            PageControl::Play => Some(SavedTracksOperation::TogglePlay),
            PageControl::Like => None,
            PageControl::Info => None,
            PageControl::Subtitle => None,
            PageControl::BottomEdge => Some(SavedTracksOperation::LoadMore),
        }
    }

    /// The header: square artwork, shown at once, titled "All Tracks" with a subtitle
    /// (the track count), and a heart while there is no artwork.
    pub fn header_setup(&self) -> (h: HeaderSetup)
        ensures
            h.shape == HeaderImageShape::Square,
            h.caption is None,
            !h.caption_visible,
            h.subtitle_visible,
            h.default_icon is Some && h.default_icon.unwrap()@ == "emote-love-symbolic"@,
            h.details is Some && h.details.unwrap().0@ == "All Tracks"@ && h.details.unwrap().1@.len() == 0,
            h.loaded,
    {
        HeaderSetup {
            shape: HeaderImageShape::Square,
            caption: None,
            caption_visible: false,
            subtitle_visible: true,
            default_icon: Some("emote-love-symbolic".to_string()),
            details: Some(("All Tracks".to_string(), String::new())),
            loaded: true,
        }
    }

    pub fn on_event(&self, event: &AppEvent) -> (updates: Vec<SavedTracksUpdate>)
        ensures
            updates@ == saved_tracks_reaction(*event),
    {
        let mut updates: Vec<SavedTracksUpdate> = Vec::new();
        match event {
            AppEvent::LoginEvent(LoginEvent::LoginCompleted) => {
                updates.push(SavedTracksUpdate::LoadInitial);
            },
            AppEvent::BrowserEvent(BrowserEvent::SavedTracksUpdated) => {
                updates.push(SavedTracksUpdate::UpdateTrackCount);
            },
            AppEvent::PlaybackEvent(PlaybackEvent::PlaybackPaused) => {
                updates.push(SavedTracksUpdate::UpdatePlaying(false));
            },
            AppEvent::PlaybackEvent(PlaybackEvent::PlaybackResumed) => {
                updates.push(SavedTracksUpdate::UpdatePlaying(true));
            },
            _ => {},
        }
        assert(updates@ =~= saved_tracks_reaction(*event));
        updates
    }

    /// The message that counts the saved tracks: its singular and plural message ids
    /// and the count that picks the form (the count taken modulo 2^32).
    pub fn track_count_message(&self, count: usize) -> (m: (&'static str, &'static str, u32))
        ensures
            m.0@ == "{} Track"@,
            m.1@ == "{} Tracks"@,
            m.2 == count as u32,
    {
        ("{} Track", "{} Tracks", count as u32)
    }

    /// The subtitle that counts the saved tracks: `template` is the catalog's form of
    /// `track_count_message(count)`, and its first "{}" is replaced by `count` in decimal.
    pub fn update_track_count(&self, template: &str, count: usize) -> (subtitle: String)
        ensures
            subtitle@ == spec_fill(template@, spec_decimal(count as nat)),
    {
        fill_count(template, count)
    }

    /// Whether the play button shows "playing", given whether the saved tracks are the
    /// source of what plays and whether playback runs.
    pub fn update_playing(&self, saved_tracks_playing: bool, is_playing: bool) -> (shows_playing: bool)
        ensures
            shows_playing == (saved_tracks_playing && is_playing),
    {
        sync_play_button(saved_tracks_playing, is_playing)
    }
}


/// The play button of the page of saved tracks follows playback: pausing or resuming
/// it updates the button to whether playback runs.
pub proof fn lemma_saved_tracks_play_button_follows_playback(running: bool)
    ensures
        saved_tracks_reaction(playback_event(running)) == seq![SavedTracksUpdate::UpdatePlaying(running)],
{
}


/// The page of saved tracks fetches them once the user has logged in, and shows their
/// number again whenever they change.
pub proof fn lemma_saved_tracks_follow_login_and_library()
    ensures
        saved_tracks_reaction(AppEvent::LoginEvent(LoginEvent::LoginCompleted))
            == seq![SavedTracksUpdate::LoadInitial],
        saved_tracks_reaction(AppEvent::BrowserEvent(BrowserEvent::SavedTracksUpdated))
            == seq![SavedTracksUpdate::UpdateTrackCount],
{
}

} // verus!
