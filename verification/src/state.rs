//! The parts of the application state that the pages read: the pages that have been
//! opened (each with what it has loaded and where its next page starts), the library,
//! the logged-in user and the player. A page looks up its own state by the id of its
//! item; when the same item was opened more than once, the most recent page counts.

use vstd::prelude::*;
use crate::models::{CardModel, ImageSet, Pagination, PlaylistDescription, SongDescription};

verus! {

/// A piece of page state that belongs to the item with a given id.
pub trait Keyed {
    spec fn key_view(&self) -> Seq<char>;

    fn key(&self) -> (k: &String)
        ensures
            k@ == self.key_view(),
    ;
}

/// Index of the most recently opened entry with the given id, or -1 when there is none.
pub open spec fn latest_index<T: Keyed>(s: Seq<T>, id: Seq<char>) -> int
    decreases s.len(),
{
    if s.len() == 0 {
        -1
    } else if s.last().key_view() == id {
        s.len() - 1
    } else {
        latest_index(s.drop_last(), id)
    }
}

/// The most recently opened entry with the given id.
pub open spec fn latest<T: Keyed>(s: Seq<T>, id: Seq<char>) -> Option<T> {
    let i = latest_index(s, id);
    if i >= 0 {
        Some(s[i])
    } else {
        None
    }
}

/// The lookup finds the most recently opened entry with the id: that entry has the id
/// and no later entry has it; -1 means that no entry has it.
pub proof fn lemma_latest_index_bounds<T: Keyed>(s: Seq<T>, id: Seq<char>)
    ensures
        -1 <= latest_index(s, id) < s.len(),
        latest_index(s, id) >= 0 ==> s[latest_index(s, id)].key_view() == id,
        forall|j: int| latest_index(s, id) < j < s.len() ==> s[j].key_view() != id,
    decreases s.len(),
{
    if s.len() > 0 && s.last().key_view() != id {
        lemma_latest_index_bounds(s.drop_last(), id);
        assert forall|j: int| latest_index(s, id) < j < s.len() implies s[j].key_view() != id by {
            if j < s.len() - 1 {
                assert(s[j] == s.drop_last()[j]);
            }
        }
    }
}

/// Looks up the most recently opened entry with the given id.
pub fn find_latest<T: Keyed>(items: &Vec<T>, id: &String) -> (r: Option<usize>)
    ensures
        match r {
            Some(i) => i as int == latest_index(items@, id@) && i < items@.len(),
            None => latest_index(items@, id@) == -1,
        },
{
    let mut i = items.len();
    proof {
        assert(items@.take(i as int) =~= items@);
    }
    while i > 0
        invariant
            i <= items@.len(),
            latest_index(items@, id@) == latest_index(items@.take(i as int), id@),
        decreases i,
    {
        let k = items[i - 1].key();
        proof {
            assert(items@.take(i as int).last() == items@[i - 1]);
            assert(items@.take(i as int).drop_last() =~= items@.take(i - 1));
        }
        if *k == *id {
            proof {
                lemma_latest_index_bounds(items@, id@);
            }
            return Some(i - 1);
        }
        i = i - 1;
    }
    proof {
        assert(items@.take(0) =~= Seq::<T>::empty());
    }
    None
}

/// A reference to the entry that `latest` names.
pub open spec fn is_latest<T: Keyed>(r: Option<&T>, s: Seq<T>, id: Seq<char>) -> bool {
    match r {
        Some(a) => latest(s, id) == Some(*a),
        None => latest(s, id) == None::<T>,
    }
}

fn get_latest<'a, T: Keyed>(items: &'a Vec<T>, id: &String) -> (r: Option<&'a T>)
    ensures
        is_latest(r, items@, id@),
{
    match find_latest(items, id) {
        Some(i) => Some(&items[i]),
        None => None,
    }
}

/// What the artist page shows of an artist.
#[derive(Debug)]
pub struct ArtistState {
    pub id: String,
    pub artist: Option<String>,
    pub photo: Option<ImageSet>,
    pub albums: Vec<CardModel>,
    pub top_tracks: Vec<SongDescription>,
    pub next_page: Pagination<String>,
    pub is_followed: bool,
}

/// What the user page shows of a user.
#[derive(Debug)]
pub struct UserState {
    pub id: String,
    pub user: Option<String>,
    pub photo: Option<ImageSet>,
    pub playlists: Vec<CardModel>,
    pub next_page: Pagination<String>,
}

/// What the playlist page shows of a playlist.
#[derive(Debug)]
pub struct PlaylistDetailsState {
    pub id: String,
    pub playlist: Option<PlaylistDescription>,
    pub songs: Vec<SongDescription>,
    pub next_tracks_page: Pagination<()>,
}

/// The library: saved albums and followed artists.
#[derive(Debug)]
pub struct HomeState {
    pub albums: Vec<CardModel>,
    pub artists: Vec<CardModel>,
    pub next_albums_page: Pagination<()>,
    pub artists_cursor: Option<String>,
}

impl Keyed for ArtistState {
    open spec fn key_view(&self) -> Seq<char> {
        self.id@
    }

    fn key(&self) -> (k: &String) {
        &self.id
    }
}

impl Keyed for UserState {
    open spec fn key_view(&self) -> Seq<char> {
        self.id@
    }

    fn key(&self) -> (k: &String) {
        &self.id
    }
}

impl Keyed for PlaylistDetailsState {
    open spec fn key_view(&self) -> Seq<char> {
        self.id@
    }

    fn key(&self) -> (k: &String) {
        &self.id
    }
}

/// The pages that have been opened, in the order they were opened.
#[derive(Debug)]
pub struct BrowserState {
    pub home: Option<HomeState>,
    pub artists: Vec<ArtistState>,
    pub users: Vec<UserState>,
    pub playlists: Vec<PlaylistDetailsState>,
}

impl BrowserState {
    pub fn home_state(&self) -> (r: Option<&HomeState>)
        ensures
            match r {
                Some(h) => self.home == Some(*h),
                None => self.home is None,
            },
    {
        match &self.home {
            Some(h) => Some(h),
            None => None,
        }
    }

    pub fn artist_state(&self, id: &String) -> (r: Option<&ArtistState>)
        ensures
            is_latest(r, self.artists@, id@),
    {
        get_latest(&self.artists, id)
    }

    pub fn user_state(&self, id: &String) -> (r: Option<&UserState>)
        ensures
            is_latest(r, self.users@, id@),
    {
        get_latest(&self.users, id)
    }

    pub fn playlist_details_state(&self, id: &String) -> (r: Option<&PlaylistDetailsState>)
        ensures
            is_latest(r, self.playlists@, id@),
    {
        get_latest(&self.playlists, id)
    }
}

/// The logged-in user and the playlists saved in their library.
#[derive(Debug)]
pub struct LoggedUserState {
    pub user: Option<String>,
    pub playlist_ids: Vec<String>,
}

/// Whether `id` occurs in a list of ids.
pub open spec fn has_id(ids: Seq<String>, id: Seq<char>) -> bool {
    exists|i: int| 0 <= i < ids.len() && #[trigger] ids[i]@ == id
}

pub fn contains_id(ids: &Vec<String>, id: &String) -> (r: bool)
    ensures
        r == has_id(ids@, id@),
{
    let mut i: usize = 0;
    while i < ids.len()
        invariant
            i <= ids@.len(),
            forall|j: int| 0 <= j < i ==> #[trigger] ids@[j]@ != id@,
        decreases ids@.len() - i,
    {
        if ids[i] == *id {
            return true;
        }
        i = i + 1;
    }
    false
}

/// Where the songs that are playing come from.
#[derive(Debug, PartialEq, Eq)]
pub enum SongsSource {
    Playlist(String),
    Album(String),
    SavedTracks,
}

/// The state of the player.
#[derive(Debug)]
pub struct PlaybackState {
    pub is_playing: bool,
    pub is_shuffled: bool,
    pub current_source: Option<SongsSource>,
    pub current_song_id: Option<String>,
}

/// The parts of the application state that the pages read.
#[derive(Debug)]
pub struct AppState {
    pub browser: BrowserState,
    pub logged_user: LoggedUserState,
    pub playback: PlaybackState,
}

/// The context in which songs are selected.
#[derive(Debug, PartialEq, Eq)]
pub enum SelectionContext {
    Default,
    Playlist,
    EditablePlaylist(String),
}

} // verus!

verus! {

impl Keyed for crate::models::SongDescription {
    open spec fn key_view(&self) -> Seq<char> {
        self.id@
    }

    fn key(&self) -> (k: &String) {
        &self.id
    }
}

/// The song of a list that has the given id; when several have it, the last of them.
pub fn find_song<'a>(songs: &'a Vec<SongDescription>, id: &String) -> (r: Option<&'a SongDescription>)
    ensures
        is_latest(r, songs@, id@),
{
    get_latest(songs, id)
}

} // verus!

verus! {

/// `r` refers to the value that `v` holds, or both are empty.
pub open spec fn opt_ref_is<T>(r: Option<&T>, v: Option<T>) -> bool {
    match r {
        Some(x) => v == Some(*x),
        None => v is None,
    }
}

} // verus!
