use vstd::prelude::*;
use crate::details_page::{PageControl, sync_play_button, HeaderImageShape, HeaderSetup};
use crate::events::{playback_event, AppEvent, BrowserEvent, PlaybackEvent};
use crate::models::{join_names, ImageSet, SongDescription};
use crate::state::opt_ref_is;

verus! {

/// What the "Now playing" page updates after an event.
#[derive(Debug, PartialEq, Eq)]
pub enum NowPlayingUpdate {
    /// Fetch more of the queue.
    LoadMore,
    /// Show the current song in the header.
    UpdateDetails,
    /// Show the play button as playing or not.
    SetPlaying(bool),
    /// Show whether the current song is saved.
    UpdateLiked,
}

/// How the "Now playing" page reacts to an event (it then hands the event on to its
/// children). Its own songs are always the ones playing.
pub open spec fn now_playing_reaction(event: AppEvent) -> Seq<NowPlayingUpdate> {
    match event {
        AppEvent::PlaybackEvent(PlaybackEvent::TrackChanged(_)) => seq![NowPlayingUpdate::LoadMore, NowPlayingUpdate::UpdateDetails],
        AppEvent::PlaybackEvent(PlaybackEvent::PlaybackPaused) => seq![NowPlayingUpdate::SetPlaying(false)],
        AppEvent::PlaybackEvent(PlaybackEvent::PlaybackResumed) => seq![NowPlayingUpdate::SetPlaying(true)],
        AppEvent::BrowserEvent(BrowserEvent::SavedTracksUpdated) => seq![NowPlayingUpdate::UpdateLiked],
        _ => Seq::empty(),
    }
}

/// What the header of the "Now playing" page shows.
#[derive(Debug, PartialEq, Eq)]
pub struct NowPlayingHeader<'a> {
    pub title: String,
    pub subtitle: String,
    /// The like button, when it is set: filled when the song is saved.
    pub liked: Option<bool>,
    /// The play button, when it is set: showing "playing" or not.
    pub playing: Option<bool>,
    /// The picture whose image the header fetches (see `details_page::artwork_step`).
    pub art: Option<&'a ImageSet>,
    /// There is no picture to wait for: the page is shown at once.
    pub loaded_at_once: bool,
}

/// What the controls of the "Now playing" page ask of its model.
#[derive(Clone, Copy, Debug, PartialEq, Eq, Structural)]
pub enum NowPlayingOperation {
    /// Pause or resume playback.
    TogglePlay,
    /// Save the current song, or remove it from the library.
    ToggleLike,
    /// Open the page of the current song's album.
    ViewAlbum,
    /// Fetch more of the queue.
    LoadMore,
}

/// The operation that each control of the "Now playing" page triggers, if any.
pub open spec fn now_playing_control_operation(control: PageControl) -> Option<NowPlayingOperation> {
    match control {
        PageControl::Play => Some(NowPlayingOperation::TogglePlay),
        PageControl::Like => Some(NowPlayingOperation::ToggleLike),
        PageControl::Info => Some(NowPlayingOperation::ViewAlbum),
        PageControl::Subtitle => None,
        PageControl::BottomEdge => Some(NowPlayingOperation::LoadMore),
    }
}

/// The "Now playing" page.
#[derive(Debug, PartialEq, Eq)]
pub struct NowPlaying {
    /// The page offers to switch the playing device.
    pub device_selector: bool,
}

impl NowPlaying {
    /// The device selector is shown when its feature flag is switched on.
    /// What the page's controls do is `on_control`.
    pub fn new(device_selector_enabled: bool) -> (page: Self)
        ensures
            page.device_selector == device_selector_enabled,
    {
        NowPlaying { device_selector: device_selector_enabled }
    }

    /// The operation of the model that acting on `control` triggers, once per action.
    pub fn on_control(&self, control: PageControl) -> (op: Option<NowPlayingOperation>)
        ensures
            op == now_playing_control_operation(control),
    {
        match control {
            PageControl::Play => Some(NowPlayingOperation::TogglePlay),
            PageControl::Like => Some(NowPlayingOperation::ToggleLike),
            PageControl::Info => Some(NowPlayingOperation::ViewAlbum),
            PageControl::Subtitle => None,
            PageControl::BottomEdge => Some(NowPlayingOperation::LoadMore),
        }
    }

    /// The header: square artwork, shown at once, with the caption "Now playing" and a
    /// subtitle (the artists of the current song).
    pub fn header_setup(&self) -> (h: HeaderSetup)
        ensures
            h.shape == HeaderImageShape::Square,
            h.caption is Some && h.caption.unwrap()@ == "Now playing"@,
            h.caption_visible,
            h.subtitle_visible,
            h.default_icon is None,
            h.details is None,
            h.loaded,
    {
        HeaderSetup {
            shape: HeaderImageShape::Square,
            caption: Some("Now playing".to_string()),
            caption_visible: true,
            subtitle_visible: true,
            default_icon: None,
            details: None,
            loaded: true,
        }
    }

    /// The message id of the title above the queue, which is shown in the user's language.
    pub fn queue_label(&self) -> (label: String)
        ensures
            label@ == "Queue"@,
    {
        "Queue".to_string()
    }

    /// The header for the current song: its title, its artists, whether it is saved,
    /// whether it plays, and its cover; a song without a cover is shown at once. With no
    /// current song the title and subtitle are emptied, the buttons are left as they are,
    /// and the page is shown at once. The page
    /// does this when it is created and after the track changes.
    pub fn update_details<'a>(&self, current: Option<&'a SongDescription>, liked: bool, is_playing: bool) -> (h: NowPlayingHeader<'a>)
        ensures
            match current {
                Some(song) => {
                    &&& h.title == song.title
                    &&& h.subtitle@ == join_names(song.artists@)
                    &&& h.liked == Some(liked)
                    &&& h.playing == Some(is_playing)
                    &&& opt_ref_is(h.art, song.art)
                    &&& h.loaded_at_once == song.art is None
                },
                None => {
                    &&& h.title@.len() == 0
                    &&& h.subtitle@.len() == 0
                    &&& h.liked is None
                    &&& h.playing is None
                    &&& h.art is None
                    &&& h.loaded_at_once
                },
            },
    {
        match current {
            Some(song) => NowPlayingHeader {
                title: song.title.clone(),
                subtitle: song.artists_name(),
                liked: Some(liked),
                playing: Some(sync_play_button(true, is_playing)),
                art: match &song.art {
                    Some(a) => Some(a),
                    None => None,
                },
                loaded_at_once: song.art.is_none(),
            },
            None => NowPlayingHeader {
                title: String::new(),
                subtitle: String::new(),
                liked: None,
                playing: None,
                art: None,
                loaded_at_once: true,
            },
        }
    }

    pub fn on_event(&self, event: &AppEvent) -> (updates: Vec<NowPlayingUpdate>)
        ensures
            updates@ == now_playing_reaction(*event),
    {
        let mut updates: Vec<NowPlayingUpdate> = Vec::new();
        match event {
            AppEvent::PlaybackEvent(PlaybackEvent::TrackChanged(_)) => {
                updates.push(NowPlayingUpdate::LoadMore);
                updates.push(NowPlayingUpdate::UpdateDetails);
            },
            AppEvent::PlaybackEvent(PlaybackEvent::PlaybackPaused) => {
                updates.push(NowPlayingUpdate::SetPlaying(sync_play_button(true, false)));
            },
            AppEvent::PlaybackEvent(PlaybackEvent::PlaybackResumed) => {
                updates.push(NowPlayingUpdate::SetPlaying(sync_play_button(true, true)));
            },
            AppEvent::BrowserEvent(BrowserEvent::SavedTracksUpdated) => {
                updates.push(NowPlayingUpdate::UpdateLiked);
            },
            _ => {},
        }
        assert(updates@ =~= now_playing_reaction(*event));
        updates
    }
}


/// The play button of the "Now playing" page follows playback: pausing or resuming it
/// sets the button to whether playback runs.
pub proof fn lemma_now_playing_button_follows_playback(running: bool)
    ensures
        now_playing_reaction(playback_event(running)) == seq![NowPlayingUpdate::SetPlaying(running)],
{
}


/// When the track changes the "Now playing" page fetches more of the queue and shows the
/// new song; when the saved tracks change it refreshes the like button.
pub proof fn lemma_now_playing_follows_track_and_library(track: String)
    ensures
        now_playing_reaction(AppEvent::PlaybackEvent(PlaybackEvent::TrackChanged(track)))
            == seq![NowPlayingUpdate::LoadMore, NowPlayingUpdate::UpdateDetails],
        now_playing_reaction(AppEvent::BrowserEvent(BrowserEvent::SavedTracksUpdated))
            == seq![NowPlayingUpdate::UpdateLiked],
{
}

} // verus!
