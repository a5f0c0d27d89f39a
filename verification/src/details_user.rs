use vstd::prelude::*;
use crate::card::ImageShape;
use crate::details_page::{PageControl, HeaderImageShape, HeaderSetup, SimpleHeaderBarModelWrapper};
use crate::events::{
    ApiCall, AppAction, AppEvent, BrowserAction, BrowserEvent, Command, LoadedAction, PaginationTarget, SpotifyApiError,
};
use crate::models::{CardModel, ImageSet};
use crate::state::{latest, opt_ref_is, AppState, SelectionContext, UserState};

verus! {

/// The state of the page of the user with the given id, if it is open.
pub open spec fn user_details(state: AppState, id: Seq<char>) -> Option<UserState> {
    latest(state.browser.users@, id)
}

/// The title of a user's top bar: "Profile — " and the user's name.
pub open spec fn profile_title(name: Seq<char>) -> Seq<char> {
    "Profile \u{2014} "@ + name
}

/// The model behind a user's page.
#[derive(Debug, PartialEq, Eq)]
pub struct UserDetailsModel {
    pub id: String,
}

impl UserDetailsModel {
    pub fn new(id: String) -> (m: Self)
        ensures
            m.id == id,
    {
        UserDetailsModel { id }
    }

    fn user_state<'a>(&self, state: &'a AppState) -> (r: Option<&'a UserState>)
        ensures
            opt_ref_is(r, user_details(*state, self.id@)),
    {
        state.browser.user_state(&self.id)
    }

    /// The user's name, once it is loaded.
    pub fn get_user_name<'a>(&self, state: &'a AppState) -> (r: Option<&'a String>)
        ensures
            opt_ref_is(r, match user_details(*state, self.id@) {
                Some(u) => u.user,
                None => None,
            }),
    {
        match self.user_state(state) {
            Some(u) => match &u.user {
                Some(n) => Some(n),
                None => None,
            },
            None => None,
        }
    }

    /// The user's picture, once it is loaded.
    pub fn get_user_photo<'a>(&self, state: &'a AppState) -> (r: Option<&'a ImageSet>)
        ensures
            opt_ref_is(r, match user_details(*state, self.id@) {
                Some(u) => u.photo,
                None => None,
            }),
    {
        match self.user_state(state) {
            Some(u) => match &u.photo {
                Some(p) => Some(p),
                None => None,
            },
            None => None,
        }
    }

    /// The cards of the user's playlists.
    pub fn get_list_store<'a>(&self, state: &'a AppState) -> (r: Option<&'a Vec<CardModel>>)
        ensures
            match user_details(*state, self.id@) {
                Some(u) => r == Some(&u.playlists),
                None => r is None,
            },
    {
        match self.user_state(state) {
            Some(u) => Some(&u.playlists),
            None => None,
        }
    }

    /// The request for the user with this id.
    pub fn load_user_details(&self, id: String) -> (c: Command)
        ensures
            c == Command::Call(ApiCall::GetUser(id)),
    {
        Command::Call(ApiCall::GetUser(id))
    }

    pub fn open_playlist(&self, id: String) -> (a: AppAction)
        ensures
            a == AppAction::ViewPlaylist(id),
    {
        AppAction::ViewPlaylist(id)
    }

    /// Marks the next page of the user's playlists as requested and asks for it;
    /// nothing when the page is not open or all playlists are loaded.
    pub fn load_more(&self, state: &AppState) -> (r: Option<Vec<Command>>)
        ensures
            match user_details(*state, self.id@) {
                None => r is None,
                Some(u) => match u.next_page.next_offset {
                    None => r is None,
                    Some(offset) => r is Some && r.unwrap()@ == seq![
                        Command::UpdateState(BrowserAction::ConsumeNextPage(PaginationTarget::UserPlaylists(u.next_page.data))),
                        Command::Call(ApiCall::GetUserPlaylists {
                            id: u.next_page.data,
                            offset,
                            limit: u.next_page.batch_size,
                        }),
                    ],
                },
            },
    {
        let u = match self.user_state(state) {
            Some(u) => u,
            None => {
                return None;
            },
        };
        let batch_size = u.next_page.batch_size;
        let offset = match u.next_page.next_offset {
            Some(o) => o,
            None => {
                return None;
            },
        };
        let id = &u.next_page.data;
        let mut cmds: Vec<Command> = Vec::new();
        cmds.push(Command::UpdateState(BrowserAction::ConsumeNextPage(PaginationTarget::UserPlaylists(id.clone()))));
        cmds.push(Command::Call(ApiCall::GetUserPlaylists { id: id.clone(), offset, limit: batch_size }));
        assert(cmds@ =~= seq![
            Command::UpdateState(BrowserAction::ConsumeNextPage(PaginationTarget::UserPlaylists(*id))),
            Command::Call(ApiCall::GetUserPlaylists { id: *id, offset, limit: batch_size }),
        ]);
        Some(cmds)
    }

    /// What follows `load_user_details`: the user is shown on its page.
    pub fn user_details_loaded<T>(&self, res: Result<T, SpotifyApiError>) -> (r: Result<LoadedAction<T>, SpotifyApiError>)
        ensures
            match res {
                Ok(t) => r == Ok::<LoadedAction<T>, SpotifyApiError>(LoadedAction::SetUserDetails(t)),
                Err(e) => r == Err::<LoadedAction<T>, SpotifyApiError>(e),
            },
    {
        match res {
            Ok(t) => Ok(LoadedAction::SetUserDetails(t)),
            Err(e) => Err(e),
        }
    }

    /// What follows `load_more`: the playlists are added to the page of the user `id` that the request named.
    pub fn playlists_loaded<T>(&self, id: String, res: Result<T, SpotifyApiError>) -> (r: Result<LoadedAction<T>, SpotifyApiError>)
        ensures
            match res {
                Ok(t) => r == Ok::<LoadedAction<T>, SpotifyApiError>(LoadedAction::AppendUserPlaylists(id, t)),
                Err(e) => r == Err::<LoadedAction<T>, SpotifyApiError>(e),
            },
    {
        match res {
            Ok(t) => Ok(LoadedAction::AppendUserPlaylists(id, t)),
            Err(e) => Err(e),
        }
    }

    /// The model of the page's top bar, which reads this page's model.
    pub fn to_headerbar_model(&self) -> (m: SimpleHeaderBarModelWrapper<UserDetailsModel>)
        ensures
            m.model.id == self.id,
    {
        SimpleHeaderBarModelWrapper { model: UserDetailsModel { id: self.id.clone() } }
    }

    pub fn has_items(&self, state: &AppState) -> (r: bool)
        ensures
            r == match user_details(*state, self.id@) {
                Some(u) => u.playlists@.len() > 0,
                None => false,
            },
    {
        match self.get_list_store(state) {
            Some(s) => s.len() > 0,
            None => false,
        }
    }

    pub fn open_item(&self, id: String) -> (a: AppAction)
        ensures
            a == AppAction::ViewPlaylist(id),
    {
        self.open_playlist(id)
    }

    pub fn image_shape(&self) -> (s: ImageShape)
        ensures
            s == ImageShape::Square,
    {
        ImageShape::Square
    }

    /// "Profile — " and the user's name, once it is loaded.
    pub fn title(&self, state: &AppState) -> (r: Option<String>)
        ensures
            match user_details(*state, self.id@) {
                Some(u) => match u.user {
                    Some(n) => r is Some && r.unwrap()@ == profile_title(n@),
                    None => r is None,
                },
                None => r is None,
            },
    {
        match self.get_user_name(state) {
            Some(name) => {
                let mut t = "Profile \u{2014} ".to_string();
                t.append(name.as_str());
                Some(t)
            },
            None => None,
        }
    }

    /// The top bar's title changes when a user has been loaded.
    pub fn title_updated(&self, event: &AppEvent) -> (r: bool)
        ensures
            r == (*event matches AppEvent::BrowserEvent(BrowserEvent::UserDetailsUpdated(_))),
    {
        match event {
            AppEvent::BrowserEvent(BrowserEvent::UserDetailsUpdated(_)) => true,
            _ => false,
        }
    }

    /// Songs are not selected on a user's page.
    pub fn selection_context(&self) -> (r: Option<SelectionContext>)
        ensures
            r is None,
    {
        None
    }
}

/// What the header of a user's page shows once the user is loaded.
#[derive(Debug, PartialEq, Eq)]
pub struct UserHeader<'a> {
    /// The caption above the title: "Profile", once the name is loaded.
    pub caption: Option<String>,
    /// The user's name, once it is loaded.
    pub title: Option<String>,
    /// The icon shown in place of a picture, when the user has none.
    pub default_icon: Option<String>,
    /// The picture whose image the header fetches (see `details_page::artwork_step`).
    pub photo: Option<&'a ImageSet>,
    /// There is no picture to wait for: the page is shown at once.
    pub loaded_at_once: bool,
}

/// What the controls of a user's page ask of its model.
#[derive(Clone, Copy, Debug, PartialEq, Eq, Structural)]
pub enum UserOperation {
    /// `UserDetailsModel::load_more` (more playlists)
    LoadMore,
}

/// The operation that each control of a user's page triggers, if any.
pub open spec fn user_control_operation(control: PageControl) -> Option<UserOperation> {
    match control {
        PageControl::Play => None,
        PageControl::Like => None,
        PageControl::Info => None,
        PageControl::Subtitle => None,
        PageControl::BottomEdge => Some(UserOperation::LoadMore),
    }
}

/// A user's page.
#[derive(Debug, PartialEq, Eq)]
pub struct UserDetails {
    pub model: UserDetailsModel,
}

impl UserDetails {
    /// What the page's controls do is `on_control`.
    pub fn new(model: UserDetailsModel) -> (page: Self)
        ensures
            page.model == model,
    {
        UserDetails { model }
    }

    /// The operation of the model that acting on `control` triggers, once per action.
    pub fn on_control(&self, control: PageControl) -> (op: Option<UserOperation>)
        ensures
            op == user_control_operation(control),
    {
        match control {
            PageControl::Play => None,
            PageControl::Like => None,
            PageControl::Info => None,
            PageControl::Subtitle => None,
            PageControl::BottomEdge => Some(UserOperation::LoadMore),
        }
    }

    /// The header: round artwork (the user's picture) and a visible caption.
    pub fn header_setup(&self) -> (h: HeaderSetup)
        ensures
            h == (HeaderSetup {
                shape: HeaderImageShape::Circle,
                caption: None,
                caption_visible: true,
                subtitle_visible: false,
                default_icon: None,
                details: None,
                loaded: false,
            }),
    {
        HeaderSetup {
            shape: HeaderImageShape::Circle,
            caption: None,
            caption_visible: true,
            subtitle_visible: false,
            default_icon: None,
            details: None,
            loaded: false,
        }
    }

    /// The request made when the page opens: the user.
    pub fn initial_request(&self) -> (c: Command)
        ensures
            c == Command::Call(ApiCall::GetUser(self.model.id)),
    {
        self.model.load_user_details(self.model.id.clone())
    }

    /// The page updates its header when its own user has been loaded (it then hands
    /// every event on to its children).
    pub fn on_event(&self, event: &AppEvent) -> (update: bool)
        ensures
            update == (*event matches AppEvent::BrowserEvent(BrowserEvent::UserDetailsUpdated(id))
                && id@ == self.model.id@),
    {
        match event {
            AppEvent::BrowserEvent(BrowserEvent::UserDetailsUpdated(id)) => *id == self.model.id,
            _ => false,
        }
    }

    pub fn update_details<'a>(&self, state: &'a AppState) -> (h: UserHeader<'a>)
        ensures
            h.title == match user_details(*state, self.model.id@) {
                Some(u) => u.user,
                None => None,
            },
            h.title is Some ==> h.caption is Some && h.caption.unwrap()@ == "Profile"@,
            h.title is None ==> h.caption is None,
            opt_ref_is(h.photo, match user_details(*state, self.model.id@) {
                Some(u) => u.photo,
                None => None,
            }),
            h.photo is None ==> h.default_icon is Some && h.default_icon.unwrap()@ == "avatar-default-symbolic"@,
            h.photo is Some ==> h.default_icon is None,
            h.loaded_at_once == h.photo is None,
    {
        let (caption, title) = match self.model.get_user_name(state) {
            Some(n) => (Some("Profile".to_string()), Some(n.clone())),
            None => (None, None),
        };
        let photo = self.model.get_user_photo(state);
        let default_icon = if photo.is_none() {
            Some("avatar-default-symbolic".to_string())
        } else {
            None
        };
        UserHeader { caption, title, default_icon, photo, loaded_at_once: photo.is_none() }
    }
}

} // verus!
