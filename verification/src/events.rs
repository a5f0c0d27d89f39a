//! What the pages are told (events) and what they ask for (actions, state updates and
//! calls to the Spotify web API), and how a details page treats the API's reply.

use vstd::prelude::*;
use crate::models::{SongBatch, SongDescription};
use crate::state::{SelectionContext, SongsSource};

verus! {

#[derive(Debug, PartialEq, Eq)]
pub enum LoginEvent {
    LoginCompleted,
}

#[derive(Debug, PartialEq, Eq)]
pub enum BrowserEvent {
    LibraryUpdated,
    SavedArtistsUpdated,
    SavedTracksUpdated,
    ArtistDetailsUpdated(String),
    UserDetailsUpdated(String),
    AlbumDetailsLoaded(String),
    AlbumSaved(String),
    AlbumUnsaved(String),
    PlaylistDetailsLoaded(String),
    PlaylistSaved(String),
    PlaylistUnsaved(String),
}

#[derive(Debug, PartialEq, Eq)]
pub enum PlaybackEvent {
    PlaybackPaused,
    PlaybackResumed,
    TrackChanged(String),
}

#[derive(Debug, PartialEq, Eq)]
pub enum SelectionEvent {
    SelectionModeChanged(bool),
}

/// What happened in the application, as the pages are told of it.
#[derive(Debug, PartialEq, Eq)]
pub enum AppEvent {
    Started,
    LoginEvent(LoginEvent),
    BrowserEvent(BrowserEvent),
    PlaybackEvent(PlaybackEvent),
    SelectionEvent(SelectionEvent),
}

/// The id of the item an event of the browser is about, if it is about one.
pub open spec fn browser_event_id(b: BrowserEvent) -> Option<Seq<char>> {
    match b {
        BrowserEvent::ArtistDetailsUpdated(i) => Some(i@),
        BrowserEvent::UserDetailsUpdated(i) => Some(i@),
        BrowserEvent::AlbumDetailsLoaded(i) => Some(i@),
        BrowserEvent::AlbumSaved(i) => Some(i@),
        BrowserEvent::AlbumUnsaved(i) => Some(i@),
        BrowserEvent::PlaylistDetailsLoaded(i) => Some(i@),
        BrowserEvent::PlaylistSaved(i) => Some(i@),
        BrowserEvent::PlaylistUnsaved(i) => Some(i@),
        _ => None,
    }
}

/// The event that tells the pages that playback has resumed (`running`) or paused.
pub open spec fn playback_event(running: bool) -> AppEvent {
    if running {
        AppEvent::PlaybackEvent(PlaybackEvent::PlaybackResumed)
    } else {
        AppEvent::PlaybackEvent(PlaybackEvent::PlaybackPaused)
    }
}

/// A paginated list whose next page is being fetched.
#[derive(Debug, PartialEq, Eq)]
pub enum PaginationTarget {
    SavedAlbums,
    SavedArtists,
    ArtistReleases(String),
    UserPlaylists(String),
    PlaylistTracks(String),
}

#[derive(Debug, PartialEq, Eq)]
pub enum BrowserAction {
    ConsumeNextPage(PaginationTarget),
    NavigationPop,
    FollowArtist(String),
    UnfollowArtist(String),
    SavePlaylist(String),
    UnsavePlaylist(String),
}

#[derive(Debug, PartialEq, Eq)]
pub enum PlaybackAction {
    Play,
    Pause,
    ToggleShuffle,
    Load(String),
    LoadSongs(Vec<SongDescription>),
    LoadPagedSongs(SongsSource, SongBatch),
}

#[derive(Debug, PartialEq, Eq)]
pub enum SelectionAction {
    Select(Vec<SongDescription>),
    Deselect(Vec<String>),
}

/// A change to the application state that carries what the web API sent (`T`).
#[derive(Debug, PartialEq, Eq)]
pub enum LoadedAction<T> {
    /// Replace the saved albums of the library.
    SetLibraryContent(T),
    /// Add saved albums after those of the library.
    AppendLibraryContent(T),
    /// Replace the followed artists, with the cursor after them.
    SetSavedArtists(T, Option<String>),
    /// Add followed artists, with the cursor after them.
    AppendSavedArtists(T, Option<String>),
    /// Add releases to the page of the artist with this id.
    AppendArtistReleases(String, T),
    /// Show a user on that user's page.
    SetUserDetails(T),
    /// Add playlists to the page of the user with this id.
    AppendUserPlaylists(String, T),
    /// Add tracks to the page of the playlist with this id.
    AppendPlaylistTracks(String, T),
}

/// A playlist's id and title.
#[derive(Debug, PartialEq, Eq)]
pub struct PlaylistSummary {
    pub id: String,
    pub title: String,
}

/// What the pages ask the application to do.
#[derive(Debug, PartialEq, Eq)]
pub enum AppAction {
    ViewAlbum(String),
    ViewArtist(String),
    ViewPlaylist(String),
    ViewUser(String),
    EnableSelection(SelectionContext),
    ShowNotification(String),
    UpdatePlaylistName(PlaylistSummary),
    PlaybackAction(PlaybackAction),
    SelectionAction(SelectionAction),
    BrowserAction(BrowserAction),
}

/// Why a call to the Spotify web API failed.
#[derive(Debug, PartialEq, Eq)]
pub enum SpotifyApiError {
    NoToken,
    InvalidToken,
    BadStatus(u16, String),
    Other(String),
}

/// A call to the Spotify web API.
#[derive(Debug, PartialEq, Eq)]
pub enum ApiCall {
    GetSavedAlbums { offset: usize, limit: usize },
    GetFollowedArtists { after: Option<String>, limit: usize },
    GetArtist(String),
    FollowArtist(String),
    UnfollowArtist(String),
    GetArtistAlbums { id: String, offset: usize, limit: usize },
    GetUser(String),
    GetUserPlaylists { id: String, offset: usize, limit: usize },
    /// The playlist and the first page of its tracks.
    GetPlaylist { id: String, tracks_offset: usize, tracks_limit: usize },
    GetPlaylistTracks { id: String, offset: usize, limit: usize },
    FollowPlaylist(String),
    UnfollowPlaylist(String),
    UpdatePlaylistDetails { id: String, title: String },
}

/// A step that a page asks its host to carry out, in order.
#[derive(Debug, PartialEq, Eq)]
pub enum Command {
    /// Hand an action to the dispatcher.
    Dispatch(AppAction),
    /// Apply an action to the application state at once.
    UpdateState(BrowserAction),
    /// Call the web API; what follows is decided from its reply.
    Call(ApiCall),
}

/// The reply to a request for a details page.
#[derive(Debug, PartialEq, Eq)]
pub enum DetailsReply<T> {
    /// Show what was loaded.
    Show(T),
    /// The item does not exist: leave the page.
    Pop,
}

/// The API said the item does not exist (bad request or not found).
pub open spec fn is_not_found(e: SpotifyApiError) -> bool {
    e matches SpotifyApiError::BadStatus(code, _) && (code == 400 || code == 404)
}

/// What a details page does with the reply to its request.
pub open spec fn spec_details_reply<T>(res: Result<T, SpotifyApiError>) -> Result<DetailsReply<T>, SpotifyApiError> {
    match res {
        Ok(t) => Ok(DetailsReply::Show(t)),
        Err(e) => if is_not_found(e) {
            Ok(DetailsReply::Pop)
        } else {
            Err(e)
        },
    }
}

/// Turns the reply to a details request into what the page does: show the item,
/// leave the page when the item does not exist, or report any other failure.
pub fn details_reply<T>(res: Result<T, SpotifyApiError>) -> (r: Result<DetailsReply<T>, SpotifyApiError>)
    ensures
        r == spec_details_reply(res),
{
    match res {
        Ok(t) => Ok(DetailsReply::Show(t)),
        Err(SpotifyApiError::BadStatus(400, msg)) => {
            Ok(DetailsReply::Pop)
        },
        Err(SpotifyApiError::BadStatus(404, msg)) => {
            Ok(DetailsReply::Pop)
        },
        Err(e) => Err(e),
    }
}


/// A details page shows whatever was loaded, leaves exactly when the API answers that
/// the item does not exist (status 400 or 404), and reports any other failure as it came.
pub proof fn lemma_details_reply_pops_only_missing_items<T>(t: T, msg: String, e: SpotifyApiError)
    ensures
        spec_details_reply(Ok::<T, SpotifyApiError>(t)) == Ok::<DetailsReply<T>, SpotifyApiError>(DetailsReply::Show(t)),
        spec_details_reply(Err::<T, SpotifyApiError>(SpotifyApiError::BadStatus(400, msg)))
            == Ok::<DetailsReply<T>, SpotifyApiError>(DetailsReply::Pop),
        spec_details_reply(Err::<T, SpotifyApiError>(SpotifyApiError::BadStatus(404, msg)))
            == Ok::<DetailsReply<T>, SpotifyApiError>(DetailsReply::Pop),
        !(e matches SpotifyApiError::BadStatus(code, _) && (code == 400 || code == 404))
            ==> spec_details_reply(Err::<T, SpotifyApiError>(e)) == Err::<DetailsReply<T>, SpotifyApiError>(e),
{
}

} // verus!
