use vstd::prelude::*;
use crate::card::{CardListPage, CardListPageConfig, ImageShape, PageUpdateTrigger};
use crate::events::{ApiCall, AppAction, BrowserAction, Command, LoadedAction, PaginationTarget, SpotifyApiError};
use crate::models::CardModel;
use crate::state::{AppState, HomeState};

verus! {

/// Number of followed artists fetched at a time.
pub const FOLLOWED_ARTISTS_BATCH: usize = 30;

/// The model behind the page of saved albums.
#[derive(Debug, PartialEq, Eq)]
pub struct SavedAlbumsModel {}

impl SavedAlbumsModel {
    pub fn new() -> (m: Self)
        ensures
            m == (SavedAlbumsModel {}),
    {
        SavedAlbumsModel {}
    }

    /// The library, once it is loaded.
    pub fn state<'a>(&self, state: &'a AppState) -> (r: Option<&'a HomeState>)
        ensures
            crate::state::opt_ref_is(r, state.browser.home),
    {
        state.browser.home_state()
    }

    /// The cards of the saved albums.
    pub fn get_store<'a>(&self, state: &'a AppState) -> (r: Option<&'a Vec<CardModel>>)
        ensures
            match state.browser.home {
                Some(h) => r == Some(&h.albums),
                None => r is None,
            },
    {
        match self.state(state) {
            Some(h) => Some(&h.albums),
            None => None,
        }
    }

    /// Fetches the first page of saved albums again.
    pub fn refresh(&self, state: &AppState) -> (r: Option<Command>)
        ensures
            match state.browser.home {
                Some(h) => r == Some(Command::Call(ApiCall::GetSavedAlbums {
                    offset: 0,
                    limit: h.next_albums_page.batch_size,
                })),
                None => r is None,
            },
    {
        match self.state(state) {
            Some(h) => Some(Command::Call(ApiCall::GetSavedAlbums { offset: 0, limit: h.next_albums_page.batch_size })),
            None => None,
        }
    }

    pub fn has_items(&self, state: &AppState) -> (r: bool)
        ensures
            r == match state.browser.home {
                Some(h) => h.albums@.len() > 0,
                None => false,
            },
    {
        match self.get_store(state) {
            Some(s) => s.len() > 0,
            None => false,
        }
    }

    /// Marks the next page of saved albums as requested and asks for it; nothing when
    /// the library is not loaded or all albums are.
    pub fn load_more(&self, state: &AppState) -> (r: Option<Vec<Command>>)
        ensures
            match state.browser.home {
                None => r is None,
                Some(h) => match h.next_albums_page.next_offset {
                    None => r is None,
                    Some(offset) => r is Some && r.unwrap()@ == seq![
                        Command::UpdateState(BrowserAction::ConsumeNextPage(PaginationTarget::SavedAlbums)),
                        Command::Call(ApiCall::GetSavedAlbums { offset, limit: h.next_albums_page.batch_size }),
                    ],
                },
            },
    {
        let h = match self.state(state) {
            Some(h) => h,
            None => {
                return None;
            },
        };
        let batch_size = h.next_albums_page.batch_size;
        let offset = match h.next_albums_page.next_offset {
            Some(o) => o,
            None => {
                return None;
            },
        };
        let mut cmds: Vec<Command> = Vec::new();
        cmds.push(Command::UpdateState(BrowserAction::ConsumeNextPage(PaginationTarget::SavedAlbums)));
        cmds.push(Command::Call(ApiCall::GetSavedAlbums { offset, limit: batch_size }));
        assert(cmds@ =~= seq![
            Command::UpdateState(BrowserAction::ConsumeNextPage(PaginationTarget::SavedAlbums)),
            Command::Call(ApiCall::GetSavedAlbums { offset, limit: batch_size }),
        ]);
        Some(cmds)
    }

    /// What follows `refresh`: the first page of saved albums replaces the library's albums.
    pub fn albums_refreshed<T>(&self, res: Result<T, SpotifyApiError>) -> (r: Result<LoadedAction<T>, SpotifyApiError>)
        ensures
            match res {
                Ok(t) => r == Ok::<LoadedAction<T>, SpotifyApiError>(LoadedAction::SetLibraryContent(t)),
                Err(e) => r == Err::<LoadedAction<T>, SpotifyApiError>(e),
            },
    {
        match res {
            Ok(t) => Ok(LoadedAction::SetLibraryContent(t)),
            Err(e) => Err(e),
        }
    }

    /// What follows `load_more`: the next page of saved albums is added after the others.
    pub fn more_albums_loaded<T>(&self, res: Result<T, SpotifyApiError>) -> (r: Result<LoadedAction<T>, SpotifyApiError>)
        ensures
            match res {
                Ok(t) => r == Ok::<LoadedAction<T>, SpotifyApiError>(LoadedAction::AppendLibraryContent(t)),
                Err(e) => r == Err::<LoadedAction<T>, SpotifyApiError>(e),
            },
    {
        match res {
            Ok(t) => Ok(LoadedAction::AppendLibraryContent(t)),
            Err(e) => Err(e),
        }
    }

    pub fn open_item(&self, id: String) -> (a: AppAction)
        ensures
            a == AppAction::ViewAlbum(id),
    {
        AppAction::ViewAlbum(id)
    }

    pub fn image_shape(&self) -> (s: ImageShape)
        ensures
            s == ImageShape::Square,
    {
        ImageShape::Square
    }
}

/// The model behind the page of followed artists.
#[derive(Debug, PartialEq, Eq)]
pub struct SavedArtistsModel {}

impl SavedArtistsModel {
    pub fn new() -> (m: Self)
        ensures
            m == (SavedArtistsModel {}),
    {
        SavedArtistsModel {}
    }

    /// The library, once it is loaded.
    pub fn state<'a>(&self, state: &'a AppState) -> (r: Option<&'a HomeState>)
        ensures
            crate::state::opt_ref_is(r, state.browser.home),
    {
        state.browser.home_state()
    }

    /// The cards of the followed artists.
    pub fn get_store<'a>(&self, state: &'a AppState) -> (r: Option<&'a Vec<CardModel>>)
        ensures
            match state.browser.home {
                Some(h) => r == Some(&h.artists),
                None => r is None,
            },
    {
        match self.state(state) {
            Some(h) => Some(&h.artists),
            None => None,
        }
    }

    /// Fetches the first page of followed artists again.
    pub fn refresh(&self) -> (c: Command)
        ensures
            c == Command::Call(ApiCall::GetFollowedArtists { after: None, limit: FOLLOWED_ARTISTS_BATCH }),
    {
        Command::Call(ApiCall::GetFollowedArtists { after: None, limit: FOLLOWED_ARTISTS_BATCH })
    }

    pub fn has_items(&self, state: &AppState) -> (r: bool)
        ensures
            r == match state.browser.home {
                Some(h) => h.artists@.len() > 0,
                None => false,
            },
    {
        match self.state(state) {
            Some(h) => h.artists.len() != 0,
            None => false,
        }
    }

    /// Marks the next page of followed artists as requested and asks for the artists
    /// after the cursor; nothing when the library is not loaded or the cursor is
    /// missing or empty (all artists are loaded).
    pub fn load_more(&self, state: &AppState) -> (r: Option<Vec<Command>>)
        ensures
            match state.browser.home {
                None => r is None,
                Some(h) => match h.artists_cursor {
                    None => r is None,
                    Some(c) => if c@.len() == 0 {
                        r is None
                    } else {
                        r is Some && r.unwrap()@ == seq![
                            Command::UpdateState(BrowserAction::ConsumeNextPage(PaginationTarget::SavedArtists)),
                            Command::Call(ApiCall::GetFollowedArtists { after: Some(c), limit: FOLLOWED_ARTISTS_BATCH }),
                        ]
                    },
                },
            },
    {
        let h = match self.state(state) {
            Some(h) => h,
            None => {
                return None;
            },
        };
        let after = match &h.artists_cursor {
            Some(c) => {
                if c.as_str().is_empty() {
                    return None;
                }
                c.clone()
            },
            None => {
                return None;
            },
        };
        let mut cmds: Vec<Command> = Vec::new();
        cmds.push(Command::UpdateState(BrowserAction::ConsumeNextPage(PaginationTarget::SavedArtists)));
        cmds.push(Command::Call(ApiCall::GetFollowedArtists { after: Some(after), limit: FOLLOWED_ARTISTS_BATCH }));
        assert(cmds@ =~= seq![
            Command::UpdateState(BrowserAction::ConsumeNextPage(PaginationTarget::SavedArtists)),
            Command::Call(ApiCall::GetFollowedArtists { after: Some(after), limit: FOLLOWED_ARTISTS_BATCH }),
        ]);
        Some(cmds)
    }

    /// What follows `refresh`: the first followed artists replace the others, with the cursor after them.
    pub fn artists_refreshed<T>(&self, res: Result<(T, Option<String>), SpotifyApiError>) -> (r: Result<LoadedAction<T>, SpotifyApiError>)
        ensures
            match res {
                Ok((t, cursor)) => r == Ok::<LoadedAction<T>, SpotifyApiError>(LoadedAction::SetSavedArtists(t, cursor)),
                Err(e) => r == Err::<LoadedAction<T>, SpotifyApiError>(e),
            },
    {
        match res {
            Ok((t, cursor)) => Ok(LoadedAction::SetSavedArtists(t, cursor)),
            Err(e) => Err(e),
        }
    }

    /// What follows `load_more`: the next followed artists are added, with the cursor after them.
    pub fn more_artists_loaded<T>(&self, res: Result<(T, Option<String>), SpotifyApiError>) -> (r: Result<LoadedAction<T>, SpotifyApiError>)
        ensures
            match res {
                Ok((t, cursor)) => r == Ok::<LoadedAction<T>, SpotifyApiError>(LoadedAction::AppendSavedArtists(t, cursor)),
                Err(e) => r == Err::<LoadedAction<T>, SpotifyApiError>(e),
            },
    {
        match res {
            Ok((t, cursor)) => Ok(LoadedAction::AppendSavedArtists(t, cursor)),
            Err(e) => Err(e),
        }
    }

    pub fn open_item(&self, id: String) -> (a: AppAction)
        ensures
            a == AppAction::ViewArtist(id),
    {
        AppAction::ViewArtist(id)
    }

    pub fn image_shape(&self) -> (s: ImageShape)
        ensures
            s == ImageShape::Round,
    {
        ImageShape::Round
    }
}

/// A library page of cards with the notice `config` and the update event `trigger`.
pub fn make_saved_page(config: CardListPageConfig, trigger: PageUpdateTrigger) -> (page: CardListPage)
    ensures
        page == CardListPage::new_spec(config, trigger),
{
    CardListPage::new(config, trigger)
}

/// The page of saved albums: it says "You have no saved albums." and "Your library
/// will be shown here." with a music icon while empty, and looks at its cards again
/// once the library is updated.
pub fn make_saved_albums() -> (page: CardListPage)
    ensures
        page.config.empty_title@ == "You have no saved albums."@,
        page.config.empty_description@ == "Your library will be shown here."@,
        page.config.empty_icon@ == "emblem-music-symbolic"@,
        page.trigger == PageUpdateTrigger::LibraryUpdated,
        page.status_visible,
{
    let config = CardListPageConfig {
        empty_title: "You have no saved albums.".to_string(),
        empty_description: "Your library will be shown here.".to_string(),
        empty_icon: "emblem-music-symbolic".to_string(),
    };
    make_saved_page(config, PageUpdateTrigger::LibraryUpdated)
}

/// The page of followed artists: it says "You have no saved artists." and "Your
/// followed artists will be shown here." with an avatar icon while empty, and looks at
/// its cards again once the followed artists are updated.
pub fn make_saved_artists() -> (page: CardListPage)
    ensures
        page.config.empty_title@ == "You have no saved artists."@,
        page.config.empty_description@ == "Your followed artists will be shown here."@,
        page.config.empty_icon@ == "avatar-default-symbolic"@,
        page.trigger == PageUpdateTrigger::SavedArtistsUpdated,
        page.status_visible,
{
    let config = CardListPageConfig {
        empty_title: "You have no saved artists.".to_string(),
        empty_description: "Your followed artists will be shown here.".to_string(),
        empty_icon: "avatar-default-symbolic".to_string(),
    };
    make_saved_page(config, PageUpdateTrigger::SavedArtistsUpdated)
}

} // verus!
