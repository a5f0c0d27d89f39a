use vstd::prelude::*;
use crate::card::ImageShape;
use crate::details_page::{PageControl, HeaderImageShape, HeaderSetup, SimpleHeaderBarModelWrapper};
use crate::events::{
    ApiCall, AppAction, AppEvent, BrowserAction, BrowserEvent, Command, LoadedAction, PaginationTarget, PlaybackAction,
    SelectionAction, SpotifyApiError,
};
use crate::menus::{entries_view, song_menu, song_menu_spec, MenuEntry};
use crate::models::{clone_songs, songs_view, CardModel, ImageSet, SongDescription};
use crate::state::{find_song, latest, opt_ref_is, AppState, ArtistState, SelectionContext};

verus! {

/// The state of the page of the artist with the given id, if it is open.
pub open spec fn artist_details(state: AppState, id: Seq<char>) -> Option<ArtistState> {
    latest(state.browser.artists@, id)
}

/// The user follows the artist (as far as its page knows).
pub open spec fn spec_is_followed(state: AppState, id: Seq<char>) -> bool {
    match artist_details(state, id) {
        Some(a) => a.is_followed,
        None => false,
    }
}

/// The model behind an artist's page.
#[derive(Debug, PartialEq, Eq)]
pub struct ArtistDetailsModel {
    pub id: String,
}

impl ArtistDetailsModel {
    pub fn new(id: String) -> (m: Self)
        ensures
            m.id == id,
    {
        ArtistDetailsModel { id }
    }

    fn artist_state<'a>(&self, state: &'a AppState) -> (r: Option<&'a ArtistState>)
        ensures
            opt_ref_is(r, artist_details(*state, self.id@)),
    {
        state.browser.artist_state(&self.id)
    }

    /// The artist's name, once it is loaded.
    pub fn get_artist_name<'a>(&self, state: &'a AppState) -> (r: Option<&'a String>)
        ensures
            opt_ref_is(r, match artist_details(*state, self.id@) {
                Some(a) => a.artist,
                None => None,
            }),
    {
        match self.artist_state(state) {
            Some(a) => match &a.artist {
                Some(n) => Some(n),
                None => None,
            },
            None => None,
        }
    }

    /// The artist's photo, once it is loaded.
    pub fn get_artist_photo<'a>(&self, state: &'a AppState) -> (r: Option<&'a ImageSet>)
        ensures
            opt_ref_is(r, match artist_details(*state, self.id@) {
                Some(a) => a.photo,
                None => None,
            }),
    {
        match self.artist_state(state) {
            Some(a) => match &a.photo {
                Some(p) => Some(p),
                None => None,
            },
            None => None,
        }
    }

    /// The cards of the artist's releases.
    pub fn get_list_store<'a>(&self, state: &'a AppState) -> (r: Option<&'a Vec<CardModel>>)
        ensures
            match artist_details(*state, self.id@) {
                Some(a) => r == Some(&a.albums),
                None => r is None,
            },
    {
        match self.artist_state(state) {
            Some(a) => Some(&a.albums),
            None => None,
        }
    }

    /// The request for the artist with this id; its reply goes through
    /// `events::details_reply`, which leaves the page when the artist does not exist.
    pub fn load_artist_details(&self, id: String) -> (c: Command)
        ensures
            c == Command::Call(ApiCall::GetArtist(id)),
    {
        Command::Call(ApiCall::GetArtist(id))
    }

    pub fn open_album(&self, id: String) -> (a: AppAction)
        ensures
            a == AppAction::ViewAlbum(id),
    {
        AppAction::ViewAlbum(id)
    }

    pub fn is_followed(&self, state: &AppState) -> (r: bool)
        ensures
            r == spec_is_followed(*state, self.id@),
    {
        match self.artist_state(state) {
            Some(a) => a.is_followed,
            None => false,
        }
    }

    /// The call that follows the artist, or unfollows it when it is followed.
    pub fn toggle_follow_artist(&self, state: &AppState) -> (c: Command)
        ensures
            c == Command::Call(
                if spec_is_followed(*state, self.id@) {
                    ApiCall::UnfollowArtist(self.id)
                } else {
                    ApiCall::FollowArtist(self.id)
                },
            ),
    {
        let id = self.id.clone();
        if self.is_followed(state) {
            Command::Call(ApiCall::UnfollowArtist(id))
        } else {
            Command::Call(ApiCall::FollowArtist(id))
        }
    }

    /// What follows the call of `toggle_follow_artist`, made when `was_followed` held.
    pub fn follow_toggled(&self, was_followed: bool, res: Result<(), SpotifyApiError>) -> (r: Result<AppAction, SpotifyApiError>)
        ensures
            match res {
                Ok(_) => r == Ok::<AppAction, SpotifyApiError>(AppAction::BrowserAction(
                    if was_followed {
                        BrowserAction::UnfollowArtist(self.id)
                    } else {
                        BrowserAction::FollowArtist(self.id)
                    },
                )),
                Err(e) => r == Err::<AppAction, SpotifyApiError>(e),
            },
    {
        match res {
            Ok(_) => {
                let id = self.id.clone();
                if was_followed {
                    Ok(AppAction::BrowserAction(BrowserAction::UnfollowArtist(id)))
                } else {
                    Ok(AppAction::BrowserAction(BrowserAction::FollowArtist(id)))
                }
            },
            Err(e) => Err(e),
        }
    }

    /// Marks the next page of the artist's releases as requested and asks for it;
    /// nothing when the page is not open or all releases are loaded.
    pub fn load_more(&self, state: &AppState) -> (r: Option<Vec<Command>>)
        ensures
            match artist_details(*state, self.id@) {
                None => r is None,
                Some(a) => match a.next_page.next_offset {
                    None => r is None,
                    Some(offset) => r is Some && r.unwrap()@ == seq![
                        Command::UpdateState(BrowserAction::ConsumeNextPage(PaginationTarget::ArtistReleases(a.next_page.data))),
                        Command::Call(ApiCall::GetArtistAlbums {
                            id: a.next_page.data,
                            offset,
                            limit: a.next_page.batch_size,
                        }),
                    ],
                },
            },
    {
        let a = match self.artist_state(state) {
            Some(a) => a,
            None => {
                return None;
            },
        };
        let batch_size = a.next_page.batch_size;
        let offset = match a.next_page.next_offset {
            Some(o) => o,
            None => {
                return None;
            },
        };
        let id = &a.next_page.data;
        let mut cmds: Vec<Command> = Vec::new();
        cmds.push(Command::UpdateState(BrowserAction::ConsumeNextPage(PaginationTarget::ArtistReleases(id.clone()))));
        cmds.push(Command::Call(ApiCall::GetArtistAlbums { id: id.clone(), offset, limit: batch_size }));
        assert(cmds@ =~= seq![
            Command::UpdateState(BrowserAction::ConsumeNextPage(PaginationTarget::ArtistReleases(*id))),
            Command::Call(ApiCall::GetArtistAlbums { id: *id, offset, limit: batch_size }),
        ]);
        Some(cmds)
    }

    /// What follows `load_more`: the releases are added to the page of the artist `id` that the request named.
    pub fn releases_loaded<T>(&self, id: String, res: Result<T, SpotifyApiError>) -> (r: Result<LoadedAction<T>, SpotifyApiError>)
        ensures
            match res {
                Ok(t) => r == Ok::<LoadedAction<T>, SpotifyApiError>(LoadedAction::AppendArtistReleases(id, t)),
                Err(e) => r == Err::<LoadedAction<T>, SpotifyApiError>(e),
            },
    {
        match res {
            Ok(t) => Ok(LoadedAction::AppendArtistReleases(id, t)),
            Err(e) => Err(e),
        }
    }

    /// The model of the page's top bar, which reads this page's model.
    pub fn to_headerbar_model(&self) -> (m: SimpleHeaderBarModelWrapper<ArtistDetailsModel>)
        ensures
            m.model.id == self.id,
    {
        SimpleHeaderBarModelWrapper { model: ArtistDetailsModel { id: self.id.clone() } }
    }

    pub fn has_items(&self, state: &AppState) -> (r: bool)
        ensures
            r == match artist_details(*state, self.id@) {
                Some(a) => a.albums@.len() > 0,
                None => false,
            },
    {
        match self.get_list_store(state) {
            Some(s) => s.len() > 0,
            None => false,
        }
    }

    pub fn open_item(&self, id: String) -> (a: AppAction)
        ensures
            a == AppAction::ViewAlbum(id),
    {
        self.open_album(id)
    }

    pub fn image_shape(&self) -> (s: ImageShape)
        ensures
            s == ImageShape::Square,
    {
        ImageShape::Square
    }

    /// The artist's top tracks. The page must be open.
    pub fn song_list_model<'a>(&self, state: &'a AppState) -> (songs: &'a Vec<SongDescription>)
        requires
            artist_details(*state, self.id@) is Some,
        ensures
            *songs == artist_details(*state, self.id@).unwrap().top_tracks,
    {
        match self.artist_state(state) {
            Some(a) => &a.top_tracks,
            None => {
                proof {
                    assert(false);
                }
                &state.browser.artists[0].top_tracks
            },
        }
    }

    pub fn is_paused(&self, state: &AppState) -> (r: bool)
        ensures
            r == !state.playback.is_playing,
    {
        !state.playback.is_playing
    }

    pub fn current_song_id(&self, state: &AppState) -> (r: Option<String>)
        ensures
            r == state.playback.current_song_id,
    {
        crate::models::clone_opt_string(&state.playback.current_song_id)
    }

    /// Loads the top tracks into the player and plays song `id`.
    pub fn play_song_at(&self, state: &AppState, id: &str) -> (actions: Vec<AppAction>)
        requires
            artist_details(*state, self.id@) is Some,
        ensures
            actions@.len() == 2,
            actions@[0] matches AppAction::PlaybackAction(PlaybackAction::LoadSongs(tracks))
                && songs_view(tracks@) == songs_view(artist_details(*state, self.id@).unwrap().top_tracks@),
            actions@[1] matches AppAction::PlaybackAction(PlaybackAction::Load(s)) && s@ == id@,
    {
        let tracks = clone_songs(self.song_list_model(state));
        let mut actions: Vec<AppAction> = Vec::new();
        actions.push(AppAction::PlaybackAction(PlaybackAction::LoadSongs(tracks)));
        actions.push(AppAction::PlaybackAction(PlaybackAction::Load(id.to_string())));
        actions
    }

    /// The context menu of a top track; it links every artist of the song but this one.
    pub fn menu_for(&self, state: &AppState, id: &String) -> (menu: Option<Vec<MenuEntry>>)
        requires
            artist_details(*state, self.id@) is Some,
        ensures
            match latest(artist_details(*state, self.id@).unwrap().top_tracks@, id@) {
                None => menu is None,
                Some(song) => menu is Some
                    && entries_view(menu.unwrap()@) == song_menu_spec(song, Some(self.id@)),
            },
    {
        let songs = self.song_list_model(state);
        match find_song(songs, id) {
            Some(song) => Some(song_menu(song, Some(&self.id))),
            None => None,
        }
    }

    /// Selects the top track with this id.
    pub fn select_song(&self, state: &AppState, id: &String) -> (r: Option<AppAction>)
        requires
            artist_details(*state, self.id@) is Some,
        ensures
            match latest(artist_details(*state, self.id@).unwrap().top_tracks@, id@) {
                None => r is None,
                Some(song) => r matches Some(AppAction::SelectionAction(SelectionAction::Select(v)))
                    && songs_view(v@) == seq![song@],
            },
    {
        let songs = self.song_list_model(state);
        match find_song(songs, id) {
            Some(song) => {
                let mut v: Vec<SongDescription> = Vec::new();
                v.push(song.clone());
                assert(songs_view(v@) =~= seq![song@]);
                Some(AppAction::SelectionAction(SelectionAction::Select(v)))
            },
            None => None,
        }
    }

    pub fn deselect_song(&self, id: &str) -> (a: AppAction)
        ensures
            a matches AppAction::SelectionAction(SelectionAction::Deselect(v))
                && v@.len() == 1 && v@[0]@ == id@,
    {
        let mut v: Vec<String> = Vec::new();
        v.push(id.to_string());
        AppAction::SelectionAction(SelectionAction::Deselect(v))
    }

    /// Entering selection mode on an artist's page always works.
    pub fn enable_selection(&self) -> (a: AppAction)
        ensures
            a == AppAction::EnableSelection(SelectionContext::Default),
    {
        AppAction::EnableSelection(SelectionContext::Default)
    }

    /// The artist's name, once it is loaded.
    pub fn title(&self, state: &AppState) -> (r: Option<String>)
        ensures
            r == match artist_details(*state, self.id@) {
                Some(a) => a.artist,
                None => None,
            },
    {
        match self.get_artist_name(state) {
            Some(n) => Some(n.clone()),
            None => None,
        }
    }

    /// The top bar's title changes when an artist has been loaded.
    pub fn title_updated(&self, event: &AppEvent) -> (r: bool)
        ensures
            r == (*event matches AppEvent::BrowserEvent(BrowserEvent::ArtistDetailsUpdated(_))),
    {
        match event {
            AppEvent::BrowserEvent(BrowserEvent::ArtistDetailsUpdated(_)) => true,
            _ => false,
        }
    }

    /// The top bar offers no selection on an artist's page.
    pub fn selection_context(&self) -> (r: Option<SelectionContext>)
        ensures
            r is None,
    {
        None
    }
}

/// What the header of an artist's page shows once the artist is loaded.
#[derive(Debug, PartialEq, Eq)]
pub struct ArtistHeader<'a> {
    /// The artist's name, once it is loaded; the subtitle is left empty.
    pub title: Option<String>,
    /// The like button is filled when the user follows the artist.
    pub liked: bool,
    /// The photo whose image the header fetches (see `details_page::artwork_step`);
    /// without one the page is shown at once.
    pub photo: Option<&'a ImageSet>,
}

/// What the controls of an artist's page ask of its model.
#[derive(Clone, Copy, Debug, PartialEq, Eq, Structural)]
pub enum ArtistOperation {
    /// `ArtistDetailsModel::toggle_follow_artist`
    ToggleFollow,
    /// `ArtistDetailsModel::load_more` (more releases)
    LoadMore,
}

/// The operation that each control of an artist's page triggers, if any.
pub open spec fn artist_control_operation(control: PageControl) -> Option<ArtistOperation> {
    match control {
        PageControl::Play => None,
        PageControl::Like => Some(ArtistOperation::ToggleFollow),
        PageControl::Info => None,
        PageControl::Subtitle => None,
        PageControl::BottomEdge => Some(ArtistOperation::LoadMore),
    }
}

/// An artist's page.
#[derive(Debug, PartialEq, Eq)]
pub struct ArtistDetails {
    pub model: ArtistDetailsModel,
}

impl ArtistDetails {
    /// What the page's controls do is `on_control`.
    pub fn new(model: ArtistDetailsModel) -> (page: Self)
        ensures
            page.model == model,
    {
        ArtistDetails { model }
    }

    /// The operation of the model that acting on `control` triggers, once per action.
    pub fn on_control(&self, control: PageControl) -> (op: Option<ArtistOperation>)
        ensures
            op == artist_control_operation(control),
    {
        match control {
            PageControl::Play => None,
            PageControl::Like => Some(ArtistOperation::ToggleFollow),
            PageControl::Info => None,
            PageControl::Subtitle => None,
            PageControl::BottomEdge => Some(ArtistOperation::LoadMore),
        }
    }

    /// The header: round artwork (the artist's photo).
    pub fn header_setup(&self) -> (h: HeaderSetup)
        ensures
            h == (HeaderSetup {
                shape: HeaderImageShape::Circle,
                caption: None,
                caption_visible: false,
                subtitle_visible: false,
                default_icon: None,
                details: None,
                loaded: false,
            }),
    {
        HeaderSetup {
            shape: HeaderImageShape::Circle,
            caption: None,
            caption_visible: false,
            subtitle_visible: false,
            default_icon: None,
            details: None,
            loaded: false,
        }
    }

    /// The request made when the page opens: the artist.
    pub fn initial_request(&self) -> (c: Command)
        ensures
            c == Command::Call(ApiCall::GetArtist(self.model.id)),
    {
        self.model.load_artist_details(self.model.id.clone())
    }

    /// The page updates its header when its own artist has been loaded (it then hands
    /// every event on to its children).
    pub fn on_event(&self, event: &AppEvent) -> (update: bool)
        ensures
            update == (*event matches AppEvent::BrowserEvent(BrowserEvent::ArtistDetailsUpdated(id))
                && id@ == self.model.id@),
    {
        match event {
            AppEvent::BrowserEvent(BrowserEvent::ArtistDetailsUpdated(id)) => *id == self.model.id,
            _ => false,
        }
    }

    pub fn update_details<'a>(&self, state: &'a AppState) -> (h: ArtistHeader<'a>)
        ensures
            opt_ref_is(h.photo, match artist_details(*state, self.model.id@) {
                Some(a) => a.photo,
                None => None,
            }),
            h.title == match artist_details(*state, self.model.id@) {
                Some(a) => a.artist,
                None => None,
            },
            h.liked == spec_is_followed(*state, self.model.id@),
    {
        ArtistHeader {
            title: self.model.title(state),
            liked: self.model.is_followed(state),
            photo: self.model.get_artist_photo(state),
        }
    }
}

} // verus!
