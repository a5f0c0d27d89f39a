use vstd::prelude::*;
use crate::details_page::{PageControl, HeaderImageShape, HeaderSetup, SimpleHeaderBarModelWrapper};
use crate::events::{
    browser_event_id, details_reply, playback_event, spec_details_reply, is_not_found, ApiCall, PlaybackEvent, SelectionEvent, AppAction, AppEvent, BrowserAction, BrowserEvent, Command,
    DetailsReply, LoadedAction, PaginationTarget, PlaybackAction, PlaylistSummary, SelectionAction, SpotifyApiError,
};
use crate::menus::{entries_view, song_menu, song_menu_spec, MenuEntry};
use crate::models::{clone_songs, songs_view, ImageSet, PlaylistDescription, SongBatch, SongDescription};
use crate::state::{
    contains_id, find_song, has_id, is_latest, latest, opt_ref_is, AppState, PlaybackState, PlaylistDetailsState,
    SelectionContext, SongsSource,
};

verus! {

/// The state of the playlist page with the given id, if it is open.
pub open spec fn playlist_details(state: AppState, id: Seq<char>) -> Option<PlaylistDetailsState> {
    latest(state.browser.playlists@, id)
}

/// The loaded description of the playlist with the given id.
pub open spec fn playlist_info(state: AppState, id: Seq<char>) -> Option<PlaylistDescription> {
    match playlist_details(state, id) {
        Some(ps) => ps.playlist,
        None => None,
    }
}

/// A playlist can be edited by the logged-in user when that user owns it.
pub open spec fn spec_editable(state: AppState, id: Seq<char>) -> bool {
    match state.logged_user.user {
        None => false,
        Some(u) => match playlist_info(state, id) {
            Some(p) => p.owner.id@ == u@,
            None => false,
        },
    }
}

/// The playlist is saved in the logged-in user's library.
pub open spec fn spec_saved(state: AppState, id: Seq<char>) -> bool {
    has_id(state.logged_user.playlist_ids@, id)
}

/// The songs that are playing come from the playlist with the given id.
pub open spec fn spec_source_is_playlist(playback: PlaybackState, id: Seq<char>) -> bool {
    match playback.current_source {
        Some(SongsSource::Playlist(p)) => p@ == id,
        _ => false,
    }
}

/// The message id of the notice shown when a playlist has no song to start with.
pub open spec fn empty_playlist_message() -> Seq<char> {
    "An error occured. Check logs for details!"@
}

/// A step of starting or pausing a playlist.
#[derive(Debug, PartialEq, Eq)]
pub enum PlaylistStep {
    Dispatch(AppAction),
    /// Tell the user, in their language, the message with this message id.
    ShowNotification(String),
    /// Play the song at this position of the playlist, which has this id.
    PlaySongAt(usize, String),
}

/// What the play button of a playlist page does. `note` is the message id of the notice
/// shown when the playlist has no song to start with.
pub open spec fn toggle_play_spec(id: String, state: AppState, note: String) -> Seq<PlaylistStep> {
    if playlist_info(state, id@) is None {
        Seq::empty()
    } else if !spec_source_is_playlist(state.playback, id@) {
        let shuffle = if state.playback.is_shuffled {
            seq![PlaylistStep::Dispatch(AppAction::PlaybackAction(PlaybackAction::ToggleShuffle))]
        } else {
            Seq::empty()
        };
        let songs = playlist_details(state, id@).unwrap().songs@;
        shuffle + if songs.len() > 0 {
            seq![PlaylistStep::PlaySongAt(0, songs[0].id)]
        } else {
            seq![PlaylistStep::ShowNotification(note)]
        }
    } else if state.playback.is_playing {
        seq![PlaylistStep::Dispatch(AppAction::PlaybackAction(PlaybackAction::Pause))]
    } else {
        seq![PlaylistStep::Dispatch(AppAction::PlaybackAction(PlaybackAction::Play))]
    }
}

/// What a playlist page does with the replies to its request for the playlist and for
/// the first page of its tracks: a failure to get the tracks is reported first; then
/// the playlist is shown, or the page is left when the playlist does not exist.
pub open spec fn spec_playlist_info_reply<P, T>(
    playlist: Result<P, SpotifyApiError>,
    tracks: Result<T, SpotifyApiError>,
) -> Result<DetailsReply<(P, T)>, SpotifyApiError> {
    match tracks {
        Err(e) => Err(e),
        Ok(t) => match playlist {
            Ok(p) => Ok(DetailsReply::Show((p, t))),
            Err(e) => if is_not_found(e) {
                Ok(DetailsReply::Pop)
            } else {
                Err(e)
            },
        },
    }
}

pub fn playlist_info_reply<P, T>(
    playlist: Result<P, SpotifyApiError>,
    tracks: Result<T, SpotifyApiError>,
) -> (r: Result<DetailsReply<(P, T)>, SpotifyApiError>)
    ensures
        r == spec_playlist_info_reply(playlist, tracks),
{
    let t = match tracks {
        Ok(t) => t,
        Err(e) => {
            return Err(e);
        },
    };
    match details_reply(playlist) {
        Ok(DetailsReply::Show(p)) => Ok(DetailsReply::Show((p, t))),
        Ok(DetailsReply::Pop) => Ok(DetailsReply::Pop),
        Err(e) => Err(e),
    }
}

/// The model behind a playlist page.
#[derive(Debug, PartialEq, Eq)]
pub struct PlaylistDetailsModel {
    pub id: String,
}

impl PlaylistDetailsModel {
    pub fn new(id: String) -> (m: Self)
        ensures
            m.id == id,
    {
        PlaylistDetailsModel { id }
    }

    /// The state of this playlist's page.
    pub fn state<'a>(&self, state: &'a AppState) -> (r: Option<&'a PlaylistDetailsState>)
        ensures
            is_latest(r, state.browser.playlists@, self.id@),
    {
        state.browser.playlist_details_state(&self.id)
    }

    pub fn get_playlist_info<'a>(&self, state: &'a AppState) -> (r: Option<&'a PlaylistDescription>)
        ensures
            match r {
                Some(p) => playlist_info(*state, self.id@) == Some(*p),
                None => playlist_info(*state, self.id@) is None,
            },
    {
        match self.state(state) {
            Some(ps) => match &ps.playlist {
                Some(p) => Some(p),
                None => None,
            },
            None => None,
        }
    }

    pub fn is_playlist_editable(&self, state: &AppState) -> (r: bool)
        ensures
            r == spec_editable(*state, self.id@),
    {
        let user = match &state.logged_user.user {
            Some(u) => u,
            None => {
                return false;
            },
        };
        match self.get_playlist_info(state) {
            Some(p) => p.owner.id == *user,
            None => false,
        }
    }

    pub fn is_playlist_saved(&self, state: &AppState) -> (r: bool)
        ensures
            r == spec_saved(*state, self.id@),
    {
        contains_id(&state.logged_user.playlist_ids, &self.id)
    }

    /// The call that saves the playlist to the library, or removes it when it is saved.
    pub fn toggle_save_playlist(&self, state: &AppState) -> (c: Command)
        ensures
            c == Command::Call(
                if spec_saved(*state, self.id@) {
                    ApiCall::UnfollowPlaylist(self.id)
                } else {
                    ApiCall::FollowPlaylist(self.id)
                },
            ),
    {
        let id = self.id.clone();
        if self.is_playlist_saved(state) {
            Command::Call(ApiCall::UnfollowPlaylist(id))
        } else {
            Command::Call(ApiCall::FollowPlaylist(id))
        }
    }

    /// What follows the call of `toggle_save_playlist`, made when `was_saved` held.
    pub fn save_toggled(&self, was_saved: bool, res: Result<(), SpotifyApiError>) -> (r: Result<AppAction, SpotifyApiError>)
        ensures
            match res {
                Ok(_) => r == Ok::<AppAction, SpotifyApiError>(AppAction::BrowserAction(
                    if was_saved {
                        BrowserAction::UnsavePlaylist(self.id)
                    } else {
                        BrowserAction::SavePlaylist(self.id)
                    },
                )),
                Err(e) => r == Err::<AppAction, SpotifyApiError>(e),
            },
    {
        match res {
            Ok(_) => {
                let id = self.id.clone();
                if was_saved {
                    Ok(AppAction::BrowserAction(BrowserAction::UnsavePlaylist(id)))
                } else {
                    Ok(AppAction::BrowserAction(BrowserAction::SavePlaylist(id)))
                }
            },
            Err(e) => Err(e),
        }
    }

    pub fn playlist_is_playing(&self, state: &AppState) -> (r: bool)
        ensures
            r == spec_source_is_playlist(state.playback, self.id@),
    {
        match &state.playback.current_source {
            Some(SongsSource::Playlist(p)) => *p == self.id,
            _ => false,
        }
    }

    /// Starts the playlist from its first song (turning shuffle off first), or pauses or
    /// resumes it when it is the one playing. Nothing happens before it is loaded.
    pub fn toggle_play_playlist(&self, state: &AppState) -> (steps: Vec<PlaylistStep>)
        ensures
            exists|note: String| note@ == empty_playlist_message()
                && steps@ == #[trigger] toggle_play_spec(self.id, *state, note),
    {
        let mut steps: Vec<PlaylistStep> = Vec::new();
        let note = "An error occured. Check logs for details!".to_string();
        let ghost witness = note;
        let ps = match self.state(state) {
            Some(ps) => ps,
            None => {
                assert(steps@ == toggle_play_spec(self.id, *state, witness));
                return steps;
            },
        };
        if ps.playlist.is_none() {
            assert(steps@ == toggle_play_spec(self.id, *state, witness));
            return steps;
        }
        if !self.playlist_is_playing(state) {
            if state.playback.is_shuffled {
                steps.push(PlaylistStep::Dispatch(AppAction::PlaybackAction(PlaybackAction::ToggleShuffle)));
            }
            if ps.songs.len() == 0 {
                steps.push(PlaylistStep::ShowNotification(note));
                assert(steps@ =~= toggle_play_spec(self.id, *state, witness));
                return steps;
            }
            let first = ps.songs[0].id.clone();
            steps.push(PlaylistStep::PlaySongAt(0, first));
            assert(steps@ =~= toggle_play_spec(self.id, *state, witness));
            return steps;
        }
        if state.playback.is_playing {
            steps.push(PlaylistStep::Dispatch(AppAction::PlaybackAction(PlaybackAction::Pause)));
        } else {
            steps.push(PlaylistStep::Dispatch(AppAction::PlaybackAction(PlaybackAction::Play)));
        }
        assert(steps@ =~= toggle_play_spec(self.id, *state, witness));
        steps
    }

    pub open spec fn load_playlist_info_spec(&self) -> Command {
        Command::Call(ApiCall::GetPlaylist { id: self.id, tracks_offset: 0, tracks_limit: 100 })
    }

    /// The request for the playlist and the first hundred of its tracks.
    pub fn load_playlist_info(&self) -> (c: Command)
        ensures
            c == self.load_playlist_info_spec(),
    {
        Command::Call(ApiCall::GetPlaylist { id: self.id.clone(), tracks_offset: 0, tracks_limit: 100 })
    }

    /// Marks the next page of tracks as requested and asks for it; nothing when the
    /// page is not open or all tracks are loaded.
    pub fn load_more_tracks(&self, state: &AppState) -> (r: Option<Vec<Command>>)
        ensures
            match playlist_details(*state, self.id@) {
                None => r is None,
                Some(ps) => match ps.next_tracks_page.next_offset {
                    None => r is None,
                    Some(offset) => r is Some && r.unwrap()@ == seq![
                        Command::UpdateState(BrowserAction::ConsumeNextPage(PaginationTarget::PlaylistTracks(self.id))),
                        Command::Call(ApiCall::GetPlaylistTracks {
                            id: self.id,
                            offset,
                            limit: ps.next_tracks_page.batch_size,
                        }),
                    ],
                },
            },
    {
        let ps = match self.state(state) {
            Some(ps) => ps,
            None => {
                return None;
            },
        };
        let batch_size = ps.next_tracks_page.batch_size;
        let offset = match ps.next_tracks_page.next_offset {
            Some(o) => o,
            None => {
                return None;
            },
        };
        let mut cmds: Vec<Command> = Vec::new();
        cmds.push(Command::UpdateState(BrowserAction::ConsumeNextPage(PaginationTarget::PlaylistTracks(self.id.clone()))));
        cmds.push(Command::Call(ApiCall::GetPlaylistTracks { id: self.id.clone(), offset, limit: batch_size }));
        assert(cmds@ =~= seq![
            Command::UpdateState(BrowserAction::ConsumeNextPage(PaginationTarget::PlaylistTracks(self.id))),
            Command::Call(ApiCall::GetPlaylistTracks { id: self.id, offset, limit: batch_size }),
        ]);
        Some(cmds)
    }

    /// What follows `load_more_tracks`: the tracks are added to this playlist's page.
    pub fn tracks_loaded<T>(&self, res: Result<T, SpotifyApiError>) -> (r: Result<LoadedAction<T>, SpotifyApiError>)
        ensures
            match res {
                Ok(t) => r == Ok::<LoadedAction<T>, SpotifyApiError>(LoadedAction::AppendPlaylistTracks(self.id, t)),
                Err(e) => r == Err::<LoadedAction<T>, SpotifyApiError>(e),
            },
    {
        match res {
            Ok(t) => Ok(LoadedAction::AppendPlaylistTracks(self.id.clone(), t)),
            Err(e) => Err(e),
        }
    }

    /// The request that renames the playlist.
    pub fn update_playlist_details(&self, title: String) -> (c: Command)
        ensures
            c == Command::Call(ApiCall::UpdatePlaylistDetails { id: self.id, title }),
    {
        Command::Call(ApiCall::UpdatePlaylistDetails { id: self.id.clone(), title })
    }

    /// What follows the renaming request: the new name is recorded, or the failure reported.
    pub fn playlist_renamed(&self, title: String, res: Result<(), SpotifyApiError>) -> (r: Result<AppAction, SpotifyApiError>)
        ensures
            match res {
                Ok(_) => r == Ok::<AppAction, SpotifyApiError>(
                    AppAction::UpdatePlaylistName(PlaylistSummary { id: self.id, title }),
                ),
                Err(e) => r == Err::<AppAction, SpotifyApiError>(e),
            },
    {
        match res {
            Ok(_) => Ok(AppAction::UpdatePlaylistName(PlaylistSummary { id: self.id.clone(), title })),
            Err(e) => Err(e),
        }
    }

    /// Opens the page of the playlist's owner, once the playlist is loaded.
    pub fn view_owner(&self, state: &AppState) -> (r: Option<AppAction>)
        ensures
            match playlist_info(*state, self.id@) {
                Some(p) => r == Some(AppAction::ViewUser(p.owner.id)),
                None => r is None,
            },
    {
        match self.get_playlist_info(state) {
            Some(p) => Some(AppAction::ViewUser(p.owner.id.clone())),
            None => None,
        }
    }

    /// The model of the page's top bar, which reads this page's model.
    pub fn to_headerbar_model(&self) -> (m: SimpleHeaderBarModelWrapper<PlaylistDetailsModel>)
        ensures
            m.model.id == self.id,
    {
        SimpleHeaderBarModelWrapper { model: PlaylistDetailsModel { id: self.id.clone() } }
    }

    /// The title of the top bar: the playlist's title once it is loaded.
    pub fn title(&self, state: &AppState) -> (r: Option<String>)
        ensures
            match playlist_info(*state, self.id@) {
                Some(p) => r == Some(p.title),
                None => r is None,
            },
    {
        match self.get_playlist_info(state) {
            Some(p) => Some(p.title.clone()),
            None => None,
        }
    }

    /// The top bar's title changes when a playlist has been loaded.
    pub fn title_updated(&self, event: &AppEvent) -> (r: bool)
        ensures
            r == (*event matches AppEvent::BrowserEvent(BrowserEvent::PlaylistDetailsLoaded(_))),
    {
        match event {
            AppEvent::BrowserEvent(BrowserEvent::PlaylistDetailsLoaded(_)) => true,
            _ => false,
        }
    }

    /// How songs are selected on this page: not at all unless selection mode is
    /// switched on; the playlist can be edited when the user owns it.
    pub fn selection_context(&self, state: &AppState, select_mode_enabled: bool) -> (r: Option<SelectionContext>)
        ensures
            !select_mode_enabled ==> r is None,
            select_mode_enabled ==> r == Some(
                if spec_editable(*state, self.id@) {
                    SelectionContext::EditablePlaylist(self.id)
                } else {
                    SelectionContext::Playlist
                },
            ),
    {
        if !select_mode_enabled {
            return None;
        }
        if self.is_playlist_editable(state) {
            Some(SelectionContext::EditablePlaylist(self.id.clone()))
        } else {
            Some(SelectionContext::Playlist)
        }
    }

    /// Selects every loaded song of the playlist.
    pub fn select_all(&self, state: &AppState) -> (a: AppAction)
        requires
            playlist_details(*state, self.id@) is Some,
        ensures
            a matches AppAction::SelectionAction(SelectionAction::Select(songs))
                && songs_view(songs@) == songs_view(playlist_details(*state, self.id@).unwrap().songs@),
    {
        let songs = clone_songs(self.song_list_model(state));
        AppAction::SelectionAction(SelectionAction::Select(songs))
    }

    /// The loaded songs of the playlist. The page must be open.
    pub fn song_list_model<'a>(&self, state: &'a AppState) -> (songs: &'a Vec<SongDescription>)
        requires
            playlist_details(*state, self.id@) is Some,
        ensures
            *songs == playlist_details(*state, self.id@).unwrap().songs,
    {
        match self.state(state) {
            Some(ps) => &ps.songs,
            None => {
                proof {
                    assert(false);
                }
                &state.browser.playlists[0].songs
            },
        }
    }

    pub fn is_paused(&self, state: &AppState) -> (r: bool)
        ensures
            r == !state.playback.is_playing,
    {
        !state.playback.is_playing
    }

    pub fn current_song_id(&self, state: &AppState) -> (r: Option<String>)
        ensures
            r == state.playback.current_song_id,
    {
        crate::models::clone_opt_string(&state.playback.current_song_id)
    }

    /// Plays song `id` with this playlist as the source; `batch` is the loaded page of
    /// the playlist that holds the song's position, if that page is loaded.
    pub fn play_song_at(&self, id: &str, batch: Option<SongBatch>) -> (actions: Vec<AppAction>)
        ensures
            match batch {
                None => actions@.len() == 0,
                Some(b) => {
                    &&& actions@.len() == 2
                    &&& actions@[0] == AppAction::PlaybackAction(
                        PlaybackAction::LoadPagedSongs(SongsSource::Playlist(self.id), b),
                    )
                    &&& actions@[1] matches AppAction::PlaybackAction(PlaybackAction::Load(s))
                    &&& s@ == id@
                },
            },
    {
        let mut actions: Vec<AppAction> = Vec::new();
        if let Some(b) = batch {
            let source = SongsSource::Playlist(self.id.clone());
            actions.push(AppAction::PlaybackAction(PlaybackAction::LoadPagedSongs(source, b)));
            actions.push(AppAction::PlaybackAction(PlaybackAction::Load(id.to_string())));
        }
        actions
    }

    /// The context menu of a song of the playlist.
    pub fn menu_for(&self, state: &AppState, id: &String) -> (menu: Option<Vec<MenuEntry>>)
        requires
            playlist_details(*state, self.id@) is Some,
        ensures
            match latest(playlist_details(*state, self.id@).unwrap().songs@, id@) {
                None => menu is None,
                Some(song) => menu is Some && entries_view(menu.unwrap()@) == song_menu_spec(song, None),
            },
    {
        let songs = self.song_list_model(state);
        match find_song(songs, id) {
            Some(song) => Some(song_menu(song, None)),
            None => None,
        }
    }

    /// Selects the song with this id, when the playlist has it.
    pub fn select_song(&self, state: &AppState, id: &String) -> (r: Option<AppAction>)
        requires
            playlist_details(*state, self.id@) is Some,
        ensures
            match latest(playlist_details(*state, self.id@).unwrap().songs@, id@) {
                None => r is None,
                Some(song) => r matches Some(AppAction::SelectionAction(SelectionAction::Select(v)))
                    && songs_view(v@) == seq![song@],
            },
    {
        let songs = self.song_list_model(state);
        match find_song(songs, id) {
            Some(song) => {
                let mut v: Vec<SongDescription> = Vec::new();
                v.push(song.clone());
                assert(songs_view(v@) =~= seq![song@]);
                Some(AppAction::SelectionAction(SelectionAction::Select(v)))
            },
            None => None,
        }
    }

    pub fn deselect_song(&self, id: &str) -> (a: AppAction)
        ensures
            a matches AppAction::SelectionAction(SelectionAction::Deselect(v))
                && v@.len() == 1 && v@[0]@ == id@,
    {
        let mut v: Vec<String> = Vec::new();
        v.push(id.to_string());
        AppAction::SelectionAction(SelectionAction::Deselect(v))
    }

    /// Enters selection mode: nothing (and `None`) unless selection mode is switched on.
    pub fn enable_selection(&self, state: &AppState, select_mode_enabled: bool) -> (r: Option<AppAction>)
        ensures
            !select_mode_enabled ==> r is None,
            select_mode_enabled ==> r == Some(AppAction::EnableSelection(
                if spec_editable(*state, self.id@) {
                    SelectionContext::EditablePlaylist(self.id)
                } else {
                    SelectionContext::Playlist
                },
            )),
    {
        match self.selection_context(state, select_mode_enabled) {
            Some(c) => Some(AppAction::EnableSelection(c)),
            None => None,
        }
    }
}

/// What the playlist page updates after an event.
#[derive(Debug, PartialEq, Eq)]
pub enum PlaylistPageUpdate {
    /// Show the loaded playlist in the header.
    UpdateDetails,
    /// Show the play button as playing or not, given whether playback runs.
    UpdatePlaying(bool),
    /// Show whether the playlist is saved.
    UpdateLiked,
    /// Selection mode was turned on or off.
    SetEditing(bool),
}

/// The like button of a page.
#[derive(Debug, PartialEq, Eq)]
pub enum LikeButton {
    Hidden,
    /// Shown, filled when the item is saved.
    Shown(bool),
}

/// What the header of a playlist page shows.
#[derive(Debug, PartialEq, Eq)]
pub struct PlaylistHeader<'a> {
    pub title: String,
    pub subtitle: String,
    pub like: LikeButton,
    /// The picture whose image the header fetches (see `details_page::artwork_step`);
    /// without one the page is shown at once.
    pub art: Option<&'a ImageSet>,
}

/// What leaving or entering edit mode does to the playlist's name.
#[derive(Debug, PartialEq, Eq)]
pub enum EditOutcome {
    Keep,
    /// Rename the playlist to this name.
    Rename(String),
    /// Put this title back in the header.
    RestoreTitle(String),
}

/// How the playlist page with the given id reacts to an event (it then hands the
/// event on to its children).
pub open spec fn playlist_page_reaction(id: Seq<char>, event: AppEvent) -> Seq<PlaylistPageUpdate> {
    match event {
        AppEvent::BrowserEvent(b) => match b {
            BrowserEvent::PlaylistDetailsLoaded(i) => if i@ == id {
                seq![PlaylistPageUpdate::UpdateDetails, PlaylistPageUpdate::UpdatePlaying(true)]
            } else {
                Seq::empty()
            },
            BrowserEvent::PlaylistSaved(i) => if i@ == id {
                seq![PlaylistPageUpdate::UpdateLiked]
            } else {
                Seq::empty()
            },
            BrowserEvent::PlaylistUnsaved(i) => if i@ == id {
                seq![PlaylistPageUpdate::UpdateLiked]
            } else {
                Seq::empty()
            },
            _ => Seq::empty(),
        },
        AppEvent::PlaybackEvent(PlaybackEvent::PlaybackPaused) => seq![PlaylistPageUpdate::UpdatePlaying(false)],
        AppEvent::PlaybackEvent(PlaybackEvent::PlaybackResumed) => seq![PlaylistPageUpdate::UpdatePlaying(true)],
        AppEvent::SelectionEvent(SelectionEvent::SelectionModeChanged(active)) => seq![PlaylistPageUpdate::SetEditing(active)],
        _ => Seq::empty(),
    }
}

/// A playlist page does not react to news about any other item than its playlist.
pub proof fn lemma_playlist_page_ignores_other_items(id: Seq<char>, b: BrowserEvent)
    requires
        browser_event_id(b) != Some(id),
    ensures
        playlist_page_reaction(id, AppEvent::BrowserEvent(b)) == Seq::<PlaylistPageUpdate>::empty(),
{
}

/// The like button of a playlist page: hidden on the user's own playlists, else
/// showing whether the playlist is saved.
pub open spec fn spec_like_button(state: AppState, id: Seq<char>) -> LikeButton {
    if spec_editable(state, id) {
        LikeButton::Hidden
    } else {
        LikeButton::Shown(spec_saved(state, id))
    }
}

/// What leaving or entering edit mode does: on leaving it, a new non-empty name
/// that differs from the title renames the playlist, else the title is put back.
pub open spec fn spec_edit_outcome(state: AppState, id: Seq<char>, editing: bool, new_name: String) -> EditOutcome {
    if !spec_editable(state, id) || editing {
        EditOutcome::Keep
    } else {
        match playlist_info(state, id) {
            None => EditOutcome::Keep,
            Some(p) => if new_name@ != p.title@ && new_name@.len() > 0 {
                EditOutcome::Rename(new_name)
            } else {
                EditOutcome::RestoreTitle(p.title)
            },
        }
    }
}

/// What the controls of a playlist page ask of its model.
#[derive(Clone, Copy, Debug, PartialEq, Eq, Structural)]
pub enum PlaylistOperation {
    /// `PlaylistDetailsModel::load_more_tracks`
    LoadMoreTracks,
    /// `PlaylistDetailsModel::view_owner`
    ViewOwner,
    /// `PlaylistDetailsModel::toggle_play_playlist`
    TogglePlay,
    /// `PlaylistDetailsModel::toggle_save_playlist`
    ToggleSave,
}

/// The operation that each control of a playlist page triggers, if any.
pub open spec fn playlist_control_operation(control: PageControl) -> Option<PlaylistOperation> {
    match control {
        PageControl::Play => Some(PlaylistOperation::TogglePlay),
        PageControl::Like => Some(PlaylistOperation::ToggleSave),
        PageControl::Info => None,
        PageControl::Subtitle => Some(PlaylistOperation::ViewOwner),
        PageControl::BottomEdge => Some(PlaylistOperation::LoadMoreTracks),
    }
}

/// The playlist page.
#[derive(Debug, PartialEq, Eq)]
pub struct PlaylistDetails {
    pub model: PlaylistDetailsModel,
}

impl PlaylistDetails {
    /// What the page's controls do is `on_control`.
    pub fn new(model: PlaylistDetailsModel) -> (page: Self)
        ensures
            page.model == model,
    {
        PlaylistDetails { model }
    }

    /// The operation of the model that acting on `control` triggers, once per action.
    pub fn on_control(&self, control: PageControl) -> (op: Option<PlaylistOperation>)
        ensures
            op == playlist_control_operation(control),
    {
        match control {
            PageControl::Play => Some(PlaylistOperation::TogglePlay),
            PageControl::Like => Some(PlaylistOperation::ToggleSave),
            PageControl::Info => None,
            PageControl::Subtitle => Some(PlaylistOperation::ViewOwner),
            PageControl::BottomEdge => Some(PlaylistOperation::LoadMoreTracks),
        }
    }

    /// The header: square artwork and a subtitle (the owner's name, which opens the
    /// owner's page).
    pub fn header_setup(&self) -> (h: HeaderSetup)
        ensures
            h == (HeaderSetup {
                shape: HeaderImageShape::Square,
                caption: None,
                caption_visible: false,
                subtitle_visible: true,
                default_icon: None,
                details: None,
                loaded: false,
            }),
    {
        HeaderSetup {
            shape: HeaderImageShape::Square,
            caption: None,
            caption_visible: false,
            subtitle_visible: true,
            default_icon: None,
            details: None,
            loaded: false,
        }
    }

    /// The request made when the page opens: the playlist, unless it is loaded already.
    pub fn initial_request(&self, state: &AppState) -> (r: Option<Command>)
        ensures
            match playlist_info(*state, self.model.id@) {
                Some(_) => r is None,
                None => r == Some(self.model.load_playlist_info_spec()),
            },
    {
        if self.model.get_playlist_info(state).is_none() {
            Some(self.model.load_playlist_info())
        } else {
            None
        }
    }

    pub fn on_event(&self, event: &AppEvent) -> (updates: Vec<PlaylistPageUpdate>)
        ensures
            updates@ == playlist_page_reaction(self.model.id@, *event),
    {
        let mut updates: Vec<PlaylistPageUpdate> = Vec::new();
        match event {
            AppEvent::BrowserEvent(BrowserEvent::PlaylistDetailsLoaded(id)) => {
                if *id == self.model.id {
                    updates.push(PlaylistPageUpdate::UpdateDetails);
                    updates.push(PlaylistPageUpdate::UpdatePlaying(true));
                }
            },
            AppEvent::BrowserEvent(BrowserEvent::PlaylistSaved(id)) => {
                if *id == self.model.id {
                    updates.push(PlaylistPageUpdate::UpdateLiked);
                }
            },
            AppEvent::BrowserEvent(BrowserEvent::PlaylistUnsaved(id)) => {
                if *id == self.model.id {
                    updates.push(PlaylistPageUpdate::UpdateLiked);
                }
            },
            AppEvent::PlaybackEvent(PlaybackEvent::PlaybackPaused) => {
                updates.push(PlaylistPageUpdate::UpdatePlaying(false));
            },
            AppEvent::PlaybackEvent(PlaybackEvent::PlaybackResumed) => {
                updates.push(PlaylistPageUpdate::UpdatePlaying(true));
            },
            AppEvent::SelectionEvent(SelectionEvent::SelectionModeChanged(active)) => {
                updates.push(PlaylistPageUpdate::SetEditing(*active));
            },
            _ => {},
        }
        assert(updates@ =~= playlist_page_reaction(self.model.id@, *event));
        updates
    }

    /// The header once the playlist is loaded: its title, its owner's name and the like button.
    pub fn update_details<'a>(&self, state: &'a AppState) -> (h: Option<PlaylistHeader<'a>>)
        ensures
            match playlist_info(*state, self.model.id@) {
                None => h is None,
                Some(p) => {
                    &&& h is Some
                    &&& h.unwrap().title == p.title
                    &&& h.unwrap().subtitle == p.owner.display_name
                    &&& h.unwrap().like == spec_like_button(*state, self.model.id@)
                    &&& opt_ref_is(h.unwrap().art, p.art)
                },
            },
    {
        match self.model.get_playlist_info(state) {
            Some(p) => Some(PlaylistHeader {
                title: p.title.clone(),
                subtitle: p.owner.display_name.clone(),
                like: self.update_liked(state),
                art: match &p.art {
                    Some(a) => Some(a),
                    None => None,
                },
            }),
            None => None,
        }
    }

    pub fn update_liked(&self, state: &AppState) -> (b: LikeButton)
        ensures
            b == spec_like_button(*state, self.model.id@),
    {
        if !self.model.is_playlist_editable(state) {
            LikeButton::Shown(self.model.is_playlist_saved(state))
        } else {
            LikeButton::Hidden
        }
    }

    /// Whether the play button shows "playing".
    pub fn update_playing(&self, state: &AppState, is_playing: bool) -> (shows_playing: bool)
        ensures
            shows_playing == (spec_source_is_playlist(state.playback, self.model.id@) && is_playing),
    {
        crate::details_page::sync_play_button(self.model.playlist_is_playing(state), is_playing)
    }

    /// Entering or leaving edit mode; `new_name` is the title typed in the header.
    pub fn set_editing(&self, state: &AppState, editing: bool, new_name: String) -> (o: EditOutcome)
        ensures
            o == spec_edit_outcome(*state, self.model.id@, editing, new_name),
    {
        if !self.model.is_playlist_editable(state) {
            return EditOutcome::Keep;
        }
        if !editing {
            match self.model.get_playlist_info(state) {
                Some(info) => {
                    if !(new_name == info.title) && !new_name.as_str().is_empty() {
                        EditOutcome::Rename(new_name)
                    } else {
                        EditOutcome::RestoreTitle(info.title.clone())
                    }
                },
                None => EditOutcome::Keep,
            }
        } else {
            EditOutcome::Keep
        }
    }
}


/// The play button of a playlist page follows playback: pausing or resuming it
/// updates the button to whether playback runs.
pub proof fn lemma_playlist_page_play_button_follows_playback(id: Seq<char>, running: bool)
    ensures
        playlist_page_reaction(id, playback_event(running)) == seq![PlaylistPageUpdate::UpdatePlaying(running)],
{
}

/// Entering or leaving edit mode hands the new mode to the page, whichever it is: on
/// leaving it the page renames the playlist or puts its title back (`set_editing`).
pub proof fn lemma_playlist_page_follows_edit_mode(id: Seq<char>, active: bool)
    ensures
        playlist_page_reaction(id, AppEvent::SelectionEvent(SelectionEvent::SelectionModeChanged(active)))
            == seq![PlaylistPageUpdate::SetEditing(active)],
{
}

/// Saving the page's own playlist and removing it from the library both refresh the
/// like button, and nothing else.
pub proof fn lemma_playlist_page_like_button_follows_saving(id: Seq<char>, playlist: String)
    requires
        playlist@ == id,
    ensures
        playlist_page_reaction(id, AppEvent::BrowserEvent(BrowserEvent::PlaylistSaved(playlist)))
            == playlist_page_reaction(id, AppEvent::BrowserEvent(BrowserEvent::PlaylistUnsaved(playlist))),
        playlist_page_reaction(id, AppEvent::BrowserEvent(BrowserEvent::PlaylistSaved(playlist)))
            == seq![PlaylistPageUpdate::UpdateLiked],
{
}

/// Once the page's own playlist is loaded the page shows it, with the play button as playing.
pub proof fn lemma_playlist_page_shows_loaded_playlist(id: Seq<char>, playlist: String)
    requires
        playlist@ == id,
    ensures
        playlist_page_reaction(id, AppEvent::BrowserEvent(BrowserEvent::PlaylistDetailsLoaded(playlist)))
            == seq![PlaylistPageUpdate::UpdateDetails, PlaylistPageUpdate::UpdatePlaying(true)],
{
}


/// Renaming a playlist the user owns: entering edit mode changes nothing; leaving it
/// renames the playlist to any typed name that is not empty and differs from the
/// title, and puts the title back when the typed name is empty or unchanged.
pub proof fn lemma_leaving_edit_mode_renames_or_restores(state: AppState, id: Seq<char>, typed: String)
    requires
        spec_editable(state, id),
    ensures
        spec_edit_outcome(state, id, true, typed) == EditOutcome::Keep,
        typed@.len() > 0 && typed@ != playlist_info(state, id).unwrap().title@
            ==> spec_edit_outcome(state, id, false, typed) == EditOutcome::Rename(typed),
        typed@.len() == 0 ==> spec_edit_outcome(state, id, false, typed)
            == EditOutcome::RestoreTitle(playlist_info(state, id).unwrap().title),
        typed@ == playlist_info(state, id).unwrap().title@ ==> spec_edit_outcome(state, id, false, typed)
            == EditOutcome::RestoreTitle(playlist_info(state, id).unwrap().title),
{
}

/// Only the owner's playlists can be renamed: on any other playlist edit mode changes
/// nothing, whatever was typed.
pub proof fn lemma_edit_mode_keeps_other_playlists(state: AppState, id: Seq<char>, editing: bool, typed: String)
    requires
        !spec_editable(state, id),
    ensures
        spec_edit_outcome(state, id, editing, typed) == EditOutcome::Keep,
{
}

/// The play button of a loaded playlist that is the one playing pauses playback while
/// it runs and resumes it while it is paused.
pub proof fn lemma_toggle_play_pauses_or_resumes(id: String, state: AppState, note: String)
    requires
        playlist_info(state, id@) is Some,
        spec_source_is_playlist(state.playback, id@),
    ensures
        toggle_play_spec(id, state, note) == seq![PlaylistStep::Dispatch(AppAction::PlaybackAction(
            if state.playback.is_playing { PlaybackAction::Pause } else { PlaybackAction::Play },
        ))],
{
}

/// The play button of a loaded playlist that is not playing starts it from its first
/// song, turning shuffle off first when it is on.
pub proof fn lemma_toggle_play_starts_first_song(id: String, state: AppState, note: String)
    requires
        playlist_info(state, id@) is Some,
        !spec_source_is_playlist(state.playback, id@),
        playlist_details(state, id@).unwrap().songs@.len() > 0,
    ensures
        toggle_play_spec(id, state, note).last()
            == PlaylistStep::PlaySongAt(0, playlist_details(state, id@).unwrap().songs@[0].id),
        toggle_play_spec(id, state, note).len() == if state.playback.is_shuffled { 2nat } else { 1nat },
        state.playback.is_shuffled ==> toggle_play_spec(id, state, note)[0]
            == PlaylistStep::Dispatch(AppAction::PlaybackAction(PlaybackAction::ToggleShuffle)),
{
}

/// The play button does nothing before the playlist is loaded.
pub proof fn lemma_toggle_play_waits_for_playlist(id: String, state: AppState, note: String)
    requires
        playlist_info(state, id@) is None,
    ensures
        toggle_play_spec(id, state, note) == Seq::<PlaylistStep>::empty(),
{
}


/// A failure to get the playlist's tracks is reported as it came, whatever the reply
/// about the playlist; once the tracks came, the playlist's reply decides as for any
/// details page.
pub proof fn lemma_playlist_reply_reports_tracks_failure_first<P, T>(
    playlist: Result<P, SpotifyApiError>,
    tracks: Result<T, SpotifyApiError>,
)
    ensures
        tracks is Err ==> spec_playlist_info_reply(playlist, tracks) == Err::<DetailsReply<(P, T)>, SpotifyApiError>(tracks->Err_0),
        tracks is Ok ==> spec_playlist_info_reply(playlist, tracks) == match spec_details_reply(playlist) {
            Ok(DetailsReply::Show(p)) => Ok::<DetailsReply<(P, T)>, SpotifyApiError>(DetailsReply::Show((p, tracks->Ok_0))),
            Ok(DetailsReply::Pop) => Ok::<DetailsReply<(P, T)>, SpotifyApiError>(DetailsReply::Pop),
            Err(e) => Err::<DetailsReply<(P, T)>, SpotifyApiError>(e),
        },
{
}

/// The like button is hidden on the user's own playlists; on any other playlist it
/// shows whether the playlist is saved in the library.
pub proof fn lemma_like_button_hidden_on_own_playlists(state: AppState, id: Seq<char>)
    ensures
        spec_editable(state, id) ==> spec_like_button(state, id) == LikeButton::Hidden,
        !spec_editable(state, id) ==> spec_like_button(state, id) == LikeButton::Shown(spec_saved(state, id)),
{
}

} // verus!
