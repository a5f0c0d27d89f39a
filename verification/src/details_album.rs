use vstd::prelude::*;
use crate::details_page::{PageControl, sync_play_button, HeaderImageShape, HeaderSetup};
use crate::models::{join_names, AlbumFullDescription, ImageSet};
use crate::state::opt_ref_is;
use crate::events::{browser_event_id, playback_event, AppEvent, BrowserEvent, PlaybackEvent};

verus! {

/// What an album's page updates after an event.
#[derive(Debug, PartialEq, Eq)]
pub enum AlbumPageUpdate {
    /// Show the loaded album in the header.
    UpdateDetails,
    /// Show the play button as playing or not, given whether playback runs.
    UpdatePlaying(bool),
    /// Show whether the album is saved.
    UpdateLiked,
}

/// How the page of the album with the given id reacts to an event (it then hands the
/// event on to its children).
pub open spec fn album_page_reaction(id: Seq<char>, event: AppEvent) -> Seq<AlbumPageUpdate> {
    match event {
        AppEvent::BrowserEvent(b) => match b {
            BrowserEvent::AlbumDetailsLoaded(i) => if i@ == id {
                seq![AlbumPageUpdate::UpdateDetails, AlbumPageUpdate::UpdatePlaying(true)]
            } else {
                Seq::empty()
            },
            BrowserEvent::AlbumSaved(i) => if i@ == id {
                seq![AlbumPageUpdate::UpdateLiked]
            } else {
                Seq::empty()
            },
            BrowserEvent::AlbumUnsaved(i) => if i@ == id {
                seq![AlbumPageUpdate::UpdateLiked]
            } else {
                Seq::empty()
            },
            _ => Seq::empty(),
        },
        AppEvent::PlaybackEvent(PlaybackEvent::PlaybackPaused) => seq![AlbumPageUpdate::UpdatePlaying(false)],
        AppEvent::PlaybackEvent(PlaybackEvent::PlaybackResumed) => seq![AlbumPageUpdate::UpdatePlaying(true)],
        _ => Seq::empty(),
    }
}

/// An album's page does not react to news about any other item than its album.
pub proof fn lemma_album_page_ignores_other_items(id: Seq<char>, b: BrowserEvent)
    requires
        browser_event_id(b) != Some(id),
    ensures
        album_page_reaction(id, AppEvent::BrowserEvent(b)) == Seq::<AlbumPageUpdate>::empty(),
{
}

/// What the controls of an album's page ask of its model.
#[derive(Clone, Copy, Debug, PartialEq, Eq, Structural)]
pub enum AlbumOperation {
    /// Save the album to the library, or remove it.
    ToggleSave,
    /// Play the album, or pause or resume it.
    TogglePlay,
    /// Show the dialog with the album's release details.
    ShowReleaseDetails,
    /// Open the page of the album's artist (once the album is loaded).
    ViewArtist,
    /// Fetch more of the album's tracks.
    LoadMore,
}

/// The operation that each control of an album's page triggers, if any.
pub open spec fn album_control_operation(control: PageControl) -> Option<AlbumOperation> {
    match control {
        PageControl::Play => Some(AlbumOperation::TogglePlay),
        PageControl::Like => Some(AlbumOperation::ToggleSave),
        PageControl::Info => Some(AlbumOperation::ShowReleaseDetails),
        PageControl::Subtitle => Some(AlbumOperation::ViewArtist),
        PageControl::BottomEdge => Some(AlbumOperation::LoadMore),
    }
}

/// What the release-details dialog of an album's page shows.
#[derive(Debug, PartialEq, Eq)]
pub struct ReleaseDetailsDialog {
    pub title: String,
    pub artists: String,
    pub label: String,
    pub release_date: String,
    pub total_tracks: usize,
    pub copyright_text: String,
}

/// What the header of an album's page shows once the album is loaded.
#[derive(Debug, PartialEq, Eq)]
pub struct AlbumHeader<'a> {
    pub title: String,
    /// The album's artists, separated by ", "; clicking them opens the artist's page.
    pub subtitle: String,
    /// The like button is filled when the album is saved.
    pub liked: bool,
    pub dialog: ReleaseDetailsDialog,
    /// The cover whose image the header fetches (see `details_page::artwork_step`).
    pub art: Option<&'a ImageSet>,
    /// There is no cover to wait for: the page is shown at once.
    pub loaded_at_once: bool,
}

/// An album's page.
#[derive(Debug, PartialEq, Eq)]
pub struct Details {
    /// The album's id.
    pub id: String,
}

impl Details {
    /// The page of the album with this id; what its controls do is `on_control`.
    pub fn new(id: String) -> (page: Self)
        ensures
            page.id == id,
    {
        Details { id }
    }

    /// The operation of the model that acting on `control` triggers, once per action.
    pub fn on_control(&self, control: PageControl) -> (op: Option<AlbumOperation>)
        ensures
            op == album_control_operation(control),
    {
        match control {
            PageControl::Play => Some(AlbumOperation::TogglePlay),
            PageControl::Like => Some(AlbumOperation::ToggleSave),
            PageControl::Info => Some(AlbumOperation::ShowReleaseDetails),
            PageControl::Subtitle => Some(AlbumOperation::ViewArtist),
            PageControl::BottomEdge => Some(AlbumOperation::LoadMore),
        }
    }

    /// The header: square artwork and a subtitle (the artists, which open the artist's page).
    pub fn header_setup(&self) -> (h: HeaderSetup)
        ensures
            h == (HeaderSetup {
                shape: HeaderImageShape::Square,
                caption: None,
                caption_visible: false,
                subtitle_visible: true,
                default_icon: None,
                details: None,
                loaded: false,
            }),
    {
        HeaderSetup {
            shape: HeaderImageShape::Square,
            caption: None,
            caption_visible: false,
            subtitle_visible: true,
            default_icon: None,
            details: None,
            loaded: false,
        }
    }

    /// The page asks for the album when it opens, unless the album is loaded already.
    pub fn initial_request(&self, album_loaded: bool) -> (load_album_info: bool)
        ensures
            load_album_info == !album_loaded,
    {
        !album_loaded
    }

    pub fn on_event(&self, event: &AppEvent) -> (updates: Vec<AlbumPageUpdate>)
        ensures
            updates@ == album_page_reaction(self.id@, *event),
    {
        let mut updates: Vec<AlbumPageUpdate> = Vec::new();
        match event {
            AppEvent::BrowserEvent(BrowserEvent::AlbumDetailsLoaded(id)) => {
                if *id == self.id {
                    updates.push(AlbumPageUpdate::UpdateDetails);
                    updates.push(AlbumPageUpdate::UpdatePlaying(true));
                }
            },
            AppEvent::BrowserEvent(BrowserEvent::AlbumSaved(id)) => {
                if *id == self.id {
                    updates.push(AlbumPageUpdate::UpdateLiked);
                }
            },
            AppEvent::BrowserEvent(BrowserEvent::AlbumUnsaved(id)) => {
                if *id == self.id {
                    updates.push(AlbumPageUpdate::UpdateLiked);
                }
            },
            AppEvent::PlaybackEvent(PlaybackEvent::PlaybackPaused) => {
                updates.push(AlbumPageUpdate::UpdatePlaying(false));
            },
            AppEvent::PlaybackEvent(PlaybackEvent::PlaybackResumed) => {
                updates.push(AlbumPageUpdate::UpdatePlaying(true));
            },
            _ => {},
        }
        assert(updates@ =~= album_page_reaction(self.id@, *event));
        updates
    }

    /// The header once the album is loaded; `info` is the loaded album, which has a
    /// release date.
    pub fn update_details<'a>(&self, info: Option<&'a AlbumFullDescription>) -> (h: Option<AlbumHeader<'a>>)
        requires
            info matches Some(i) ==> i.description.release_date is Some,
        ensures
            match info {
                None => h is None,
                Some(i) => {
                    let a = i.description;
                    let d = i.release_details;
                    &&& h is Some
                    &&& h.unwrap().title == a.title
                    &&& h.unwrap().subtitle@ == join_names(a.artists@)
                    &&& h.unwrap().liked == a.is_liked
                    &&& h.unwrap().dialog.title == a.title
                    &&& h.unwrap().dialog.artists@ == join_names(a.artists@)
                    &&& h.unwrap().dialog.label == d.label
                    &&& h.unwrap().dialog.release_date == a.release_date.unwrap()
                    &&& h.unwrap().dialog.total_tracks == d.total_tracks
                    &&& h.unwrap().dialog.copyright_text == d.copyright_text
                    &&& opt_ref_is(h.unwrap().art, a.art)
                    &&& h.unwrap().loaded_at_once == a.art is None
                },
            },
    {
        match info {
            None => None,
            Some(i) => {
                let a = &i.description;
                let d = &i.release_details;
                let release_date = match &a.release_date {
                    Some(r) => r.clone(),
                    None => {
                        proof {
                            assert(false);
                        }
                        String::new()
                    },
                };
                let dialog = ReleaseDetailsDialog {
                    title: a.title.clone(),
                    artists: a.artists_name(),
                    label: d.label.clone(),
                    release_date,
                    total_tracks: d.total_tracks,
                    copyright_text: d.copyright_text.clone(),
                };
                Some(AlbumHeader {
                    title: a.title.clone(),
                    subtitle: a.artists_name(),
                    liked: a.is_liked,
                    dialog,
                    art: match &a.art {
                        Some(c) => Some(c),
                        None => None,
                    },
                    loaded_at_once: a.art.is_none(),
                })
            },
        }
    }

    /// The like button after the album was saved or removed: filled when it is saved;
    /// nothing changes while the album is not loaded.
    pub fn update_liked(&self, info: Option<&AlbumFullDescription>) -> (liked: Option<bool>)
        ensures
            match info {
                None => liked is None,
                Some(i) => liked == Some(i.description.is_liked),
            },
    {
        match info {
            None => None,
            Some(i) => Some(i.description.is_liked),
        }
    }

    /// Whether the play button shows "playing", given whether the album is the source
    /// of what plays and whether playback runs.
    pub fn update_playing(&self, album_is_playing: bool, is_playing: bool) -> (shows_playing: bool)
        ensures
            shows_playing == (album_is_playing && is_playing),
    {
        sync_play_button(album_is_playing, is_playing)
    }
}


/// The play button of an album's page follows playback: pausing or resuming it
/// updates the button to whether playback runs.
pub proof fn lemma_album_page_play_button_follows_playback(id: Seq<char>, running: bool)
    ensures
        album_page_reaction(id, playback_event(running)) == seq![AlbumPageUpdate::UpdatePlaying(running)],
{
}

/// Saving the page's own album and removing it from the library both refresh the like
/// button, and nothing else.
pub proof fn lemma_album_page_like_button_follows_saving(id: Seq<char>, album: String)
    requires
        album@ == id,
    ensures
        album_page_reaction(id, AppEvent::BrowserEvent(BrowserEvent::AlbumSaved(album)))
            == album_page_reaction(id, AppEvent::BrowserEvent(BrowserEvent::AlbumUnsaved(album))),
        album_page_reaction(id, AppEvent::BrowserEvent(BrowserEvent::AlbumSaved(album)))
            == seq![AlbumPageUpdate::UpdateLiked],
{
}

/// Once the page's own album is loaded the page shows it, with the play button as playing.
pub proof fn lemma_album_page_shows_loaded_album(id: Seq<char>, album: String)
    requires
        album@ == id,
    ensures
        album_page_reaction(id, AppEvent::BrowserEvent(BrowserEvent::AlbumDetailsLoaded(album)))
            == seq![AlbumPageUpdate::UpdateDetails, AlbumPageUpdate::UpdatePlaying(true)],
{
}

} // verus!
