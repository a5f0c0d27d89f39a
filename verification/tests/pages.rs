use riff::card::{CardListPageConfig, CardListPage, CardListPageStep, ImageShape, PageUpdateTrigger, ScrollEdge};
use riff::details_album::{AlbumPageUpdate, Details};
use riff::details_artist::{ArtistDetails, ArtistDetailsModel};
use riff::details_page::{HeaderImageShape, HeaderSetup, artwork_step, headerbar_style, sync_play_button, ArtworkStep, HEADER_IMAGE_SIZE};
use riff::details_playlist::{
    playlist_info_reply, EditOutcome, LikeButton, PlaylistDetails, PlaylistDetailsModel, PlaylistHeader,
    PlaylistPageUpdate, PlaylistStep,
};
use riff::details_user::{UserDetails, UserDetailsModel};
use riff::events::{
    details_reply, ApiCall, AppAction, AppEvent, BrowserAction, BrowserEvent, Command, DetailsReply, LoginEvent,
    LoadedAction, PaginationTarget, PlaybackAction, PlaybackEvent, PlaylistSummary, SelectionAction, SelectionEvent,
    SpotifyApiError,
};
use riff::menus::{MenuEntry, MenuLabel};
use riff::models::{ArtistRef, CardModel, Image, ImageSet, Pagination, PlaylistDescription, SongBatch, SongDescription, UserRef};
use riff::now_playing::{NowPlaying, NowPlayingUpdate};
use riff::saved_items::{make_saved_albums, make_saved_page, make_saved_artists, SavedAlbumsModel, SavedArtistsModel};
use riff::saved_tracks::{SavedTracks, SavedTracksUpdate};
use riff::state::{
    AppState, ArtistState, BrowserState, HomeState, LoggedUserState, PlaybackState, PlaylistDetailsState,
    SelectionContext, SongsSource, UserState,
};

fn s(x: &str) -> String {
    x.to_string()
}

fn song(id: &str, artists: &[(&str, &str)]) -> SongDescription {
    SongDescription {
        id: s(id),
        title: format!("Title {}", id),
        artists: artists.iter().map(|(i, n)| ArtistRef { id: s(i), name: s(n) }).collect(),
        art: None,
    }
}

fn empty_state() -> AppState {
    AppState {
        browser: BrowserState { home: None, artists: vec![], users: vec![], playlists: vec![] },
        logged_user: LoggedUserState { user: None, playlist_ids: vec![] },
        playback: PlaybackState { is_playing: false, is_shuffled: false, current_source: None, current_song_id: None },
    }
}

fn playlist_state(id: &str, owner: &str, songs: Vec<SongDescription>, next: Option<usize>) -> PlaylistDetailsState {
    PlaylistDetailsState {
        id: s(id),
        playlist: Some(PlaylistDescription {
            id: s(id),
            title: s("My Playlist"),
            art: None,
            owner: UserRef { id: s(owner), display_name: s("John") },
        }),
        songs,
        next_tracks_page: Pagination { data: (), next_offset: next, batch_size: 50 },
    }
}

fn artist_state(id: &str, followed: bool, next: Option<usize>) -> ArtistState {
    ArtistState {
        id: s(id),
        artist: Some(s("Cool Artist")),
        photo: None,
        albums: vec![CardModel::new("al1", None, "Album", "")],
        top_tracks: vec![song("t1", &[("art1", "Cool Artist"), ("art2", "Guest")]), song("t2", &[("art1", "Cool Artist")])],
        next_page: Pagination { data: s(id), next_offset: next, batch_size: 20 },
        is_followed: followed,
    }
}

fn user_state(id: &str, name: Option<&str>, next: Option<usize>) -> UserState {
    UserState {
        id: s(id),
        user: name.map(s),
        photo: None,
        playlists: vec![],
        next_page: Pagination { data: s(id), next_offset: next, batch_size: 30 },
    }
}

fn home_state(next: Option<usize>, cursor: Option<&str>, albums: usize) -> HomeState {
    HomeState {
        albums: (0..albums).map(|i| CardModel::new(&format!("a{}", i), None, "A", "")).collect(),
        artists: vec![],
        next_albums_page: Pagination { data: (), next_offset: next, batch_size: 25 },
        artists_cursor: cursor.map(s),
    }
}

// ---- replies ----

#[test]
fn details_reply_pops_on_missing_item() {
    assert_eq!(details_reply::<u8>(Ok(7)), Ok(DetailsReply::Show(7)));
    assert_eq!(details_reply::<u8>(Err(SpotifyApiError::BadStatus(404, s("x")))), Ok(DetailsReply::Pop));
    assert_eq!(details_reply::<u8>(Err(SpotifyApiError::BadStatus(400, s("x")))), Ok(DetailsReply::Pop));
    assert_eq!(
        details_reply::<u8>(Err(SpotifyApiError::BadStatus(500, s("x")))),
        Err(SpotifyApiError::BadStatus(500, s("x")))
    );
    assert_eq!(details_reply::<u8>(Err(SpotifyApiError::NoToken)), Err(SpotifyApiError::NoToken));
}

#[test]
fn playlist_reply_reports_track_failure_first() {
    let r = playlist_info_reply::<u8, u8>(Err(SpotifyApiError::BadStatus(404, s("x"))), Err(SpotifyApiError::InvalidToken));
    assert_eq!(r, Err(SpotifyApiError::InvalidToken));
    assert_eq!(playlist_info_reply::<u8, u8>(Err(SpotifyApiError::BadStatus(404, s("x"))), Ok(1)), Ok(DetailsReply::Pop));
    assert_eq!(playlist_info_reply::<u8, u8>(Ok(2), Ok(1)), Ok(DetailsReply::Show((2, 1))));
    assert_eq!(
        playlist_info_reply::<u8, u8>(Err(SpotifyApiError::Other(s("e"))), Ok(1)),
        Err(SpotifyApiError::Other(s("e")))
    );
}

// ---- playlist ----

#[test]
fn playlist_editable_only_for_owner() {
    let mut st = empty_state();
    st.browser.playlists.push(playlist_state("pl1", "user1", vec![], None));
    let m = PlaylistDetailsModel::new(s("pl1"));
    assert!(!m.is_playlist_editable(&st));
    st.logged_user.user = Some(s("user2"));
    assert!(!m.is_playlist_editable(&st));
    st.logged_user.user = Some(s("user1"));
    assert!(m.is_playlist_editable(&st));
    let other = PlaylistDetailsModel::new(s("pl2"));
    assert!(!other.is_playlist_editable(&st));
}

#[test]
fn playlist_saved_and_save_toggle() {
    let mut st = empty_state();
    let m = PlaylistDetailsModel::new(s("pl1"));
    assert!(!m.is_playlist_saved(&st));
    assert_eq!(m.toggle_save_playlist(&st), Command::Call(ApiCall::FollowPlaylist(s("pl1"))));
    st.logged_user.playlist_ids = vec![s("x"), s("pl1")];
    assert!(m.is_playlist_saved(&st));
    assert_eq!(m.toggle_save_playlist(&st), Command::Call(ApiCall::UnfollowPlaylist(s("pl1"))));
    assert_eq!(m.save_toggled(true, Ok(())), Ok(AppAction::BrowserAction(BrowserAction::UnsavePlaylist(s("pl1")))));
    assert_eq!(m.save_toggled(false, Ok(())), Ok(AppAction::BrowserAction(BrowserAction::SavePlaylist(s("pl1")))));
    assert_eq!(m.save_toggled(false, Err(SpotifyApiError::NoToken)), Err(SpotifyApiError::NoToken));
}

#[test]
fn latest_opened_page_state_is_used() {
    let mut st = empty_state();
    st.browser.playlists.push(playlist_state("pl1", "old", vec![], None));
    st.browser.playlists.push(playlist_state("pl9", "other", vec![], None));
    st.browser.playlists.push(playlist_state("pl1", "new", vec![], None));
    let m = PlaylistDetailsModel::new(s("pl1"));
    assert_eq!(m.get_playlist_info(&st).unwrap().owner.id, "new");
    assert_eq!(m.view_owner(&st), Some(AppAction::ViewUser(s("new"))));
}

#[test]
fn toggle_play_playlist_cases() {
    let m = PlaylistDetailsModel::new(s("pl1"));
    let mut st = empty_state();
    assert_eq!(m.toggle_play_playlist(&st), vec![]);
    st.browser.playlists.push(playlist_state("pl1", "u", vec![song("s1", &[]), song("s2", &[])], None));
    st.playback.is_shuffled = true;
    assert_eq!(
        m.toggle_play_playlist(&st),
        vec![
            PlaylistStep::Dispatch(AppAction::PlaybackAction(PlaybackAction::ToggleShuffle)),
            PlaylistStep::PlaySongAt(0, s("s1")),
        ]
    );
    st.playback.is_shuffled = false;
    assert_eq!(m.toggle_play_playlist(&st), vec![PlaylistStep::PlaySongAt(0, s("s1"))]);
    st.playback.current_source = Some(SongsSource::Playlist(s("pl1")));
    st.playback.is_playing = true;
    assert_eq!(
        m.toggle_play_playlist(&st),
        vec![PlaylistStep::Dispatch(AppAction::PlaybackAction(PlaybackAction::Pause))]
    );
    st.playback.is_playing = false;
    assert_eq!(
        m.toggle_play_playlist(&st),
        vec![PlaylistStep::Dispatch(AppAction::PlaybackAction(PlaybackAction::Play))]
    );
    st.playback.current_source = Some(SongsSource::Playlist(s("other")));
    assert_eq!(m.toggle_play_playlist(&st), vec![PlaylistStep::PlaySongAt(0, s("s1"))]);
}

#[test]
fn toggle_play_empty_playlist_notifies() {
    let m = PlaylistDetailsModel::new(s("pl1"));
    let mut st = empty_state();
    st.browser.playlists.push(playlist_state("pl1", "u", vec![], None));
    let steps = m.toggle_play_playlist(&st);
    assert_eq!(steps.len(), 1);
    assert_eq!(steps, vec![PlaylistStep::ShowNotification(s("An error occured. Check logs for details!"))]);
}

#[test]
fn playlist_load_more_tracks() {
    let m = PlaylistDetailsModel::new(s("pl1"));
    let mut st = empty_state();
    assert_eq!(m.load_more_tracks(&st), None);
    st.browser.playlists.push(playlist_state("pl1", "u", vec![], None));
    assert_eq!(m.load_more_tracks(&st), None);
    st.browser.playlists[0].next_tracks_page.next_offset = Some(100);
    assert_eq!(
        m.load_more_tracks(&st),
        Some(vec![
            Command::UpdateState(BrowserAction::ConsumeNextPage(PaginationTarget::PlaylistTracks(s("pl1")))),
            Command::Call(ApiCall::GetPlaylistTracks { id: s("pl1"), offset: 100, limit: 50 }),
        ])
    );
    assert_eq!(
        m.load_playlist_info(),
        Command::Call(ApiCall::GetPlaylist { id: s("pl1"), tracks_offset: 0, tracks_limit: 100 })
    );
}

#[test]
fn playlist_selection() {
    let m = PlaylistDetailsModel::new(s("pl1"));
    let mut st = empty_state();
    st.browser.playlists.push(playlist_state("pl1", "me", vec![song("s1", &[]), song("s2", &[])], None));
    assert_eq!(m.selection_context(&st, false), None);
    assert_eq!(m.enable_selection(&st, false), None);
    assert_eq!(m.selection_context(&st, true), Some(SelectionContext::Playlist));
    st.logged_user.user = Some(s("me"));
    assert_eq!(m.selection_context(&st, true), Some(SelectionContext::EditablePlaylist(s("pl1"))));
    assert_eq!(
        m.enable_selection(&st, true),
        Some(AppAction::EnableSelection(SelectionContext::EditablePlaylist(s("pl1"))))
    );
    assert_eq!(
        m.select_all(&st),
        AppAction::SelectionAction(SelectionAction::Select(vec![song("s1", &[]), song("s2", &[])]))
    );
    assert_eq!(
        m.select_song(&st, &s("s2")),
        Some(AppAction::SelectionAction(SelectionAction::Select(vec![song("s2", &[])])))
    );
    assert_eq!(m.select_song(&st, &s("nope")), None);
    assert_eq!(m.deselect_song("s1"), AppAction::SelectionAction(SelectionAction::Deselect(vec![s("s1")])));
}

#[test]
fn playlist_menu_lists_every_artist() {
    let m = PlaylistDetailsModel::new(s("pl1"));
    let mut st = empty_state();
    st.browser.playlists.push(playlist_state("pl1", "u", vec![song("s1", &[("a1", "Ann"), ("a2", "Bob")])], None));
    let menu = m.menu_for(&st, &s("s1")).unwrap();
    assert_eq!(
        menu,
        vec![
            MenuEntry { label: MenuLabel::ViewAlbum, action: s("song.view_album") },
            MenuEntry { label: MenuLabel::MoreFrom(s("Ann")), action: s("song.view_artist_a1") },
            MenuEntry { label: MenuLabel::MoreFrom(s("Bob")), action: s("song.view_artist_a2") },
            MenuEntry { label: MenuLabel::CopyLink, action: s("song.copy_link") },
            MenuEntry { label: MenuLabel::AddToQueue, action: s("song.queue") },
        ]
    );
    assert_eq!(m.menu_for(&st, &s("missing")), None);
}

#[test]
fn playlist_play_song_at_needs_loaded_batch() {
    let m = PlaylistDetailsModel::new(s("pl1"));
    assert_eq!(m.play_song_at("s1", None), vec![]);
    let batch = SongBatch { songs: vec![song("s1", &[])], offset: 0, batch_size: 50, total: 1 };
    let batch2 = SongBatch { songs: vec![song("s1", &[])], offset: 0, batch_size: 50, total: 1 };
    assert_eq!(
        m.play_song_at("s1", Some(batch)),
        vec![
            AppAction::PlaybackAction(PlaybackAction::LoadPagedSongs(SongsSource::Playlist(s("pl1")), batch2)),
            AppAction::PlaybackAction(PlaybackAction::Load(s("s1"))),
        ]
    );
}

#[test]
fn playlist_rename() {
    let m = PlaylistDetailsModel::new(s("pl1"));
    assert_eq!(
        m.update_playlist_details(s("New")),
        Command::Call(ApiCall::UpdatePlaylistDetails { id: s("pl1"), title: s("New") })
    );
    assert_eq!(
        m.playlist_renamed(s("New"), Ok(())),
        Ok(AppAction::UpdatePlaylistName(PlaylistSummary { id: s("pl1"), title: s("New") }))
    );
    assert_eq!(m.playlist_renamed(s("New"), Err(SpotifyApiError::NoToken)), Err(SpotifyApiError::NoToken));
}

#[test]
fn playlist_page_events() {
    let page = PlaylistDetails::new(PlaylistDetailsModel::new(s("pl1")));
    let ev = |b| AppEvent::BrowserEvent(b);
    assert_eq!(
        page.on_event(&ev(BrowserEvent::PlaylistDetailsLoaded(s("pl1")))),
        vec![PlaylistPageUpdate::UpdateDetails, PlaylistPageUpdate::UpdatePlaying(true)]
    );
    assert_eq!(page.on_event(&ev(BrowserEvent::PlaylistDetailsLoaded(s("pl2")))), vec![]);
    assert_eq!(page.on_event(&ev(BrowserEvent::PlaylistSaved(s("pl1")))), vec![PlaylistPageUpdate::UpdateLiked]);
    assert_eq!(page.on_event(&ev(BrowserEvent::PlaylistUnsaved(s("pl1")))), vec![PlaylistPageUpdate::UpdateLiked]);
    assert_eq!(page.on_event(&ev(BrowserEvent::PlaylistUnsaved(s("pl3")))), vec![]);
    assert_eq!(
        page.on_event(&AppEvent::PlaybackEvent(PlaybackEvent::PlaybackPaused)),
        vec![PlaylistPageUpdate::UpdatePlaying(false)]
    );
    assert_eq!(
        page.on_event(&AppEvent::PlaybackEvent(PlaybackEvent::PlaybackResumed)),
        vec![PlaylistPageUpdate::UpdatePlaying(true)]
    );
    assert_eq!(
        page.on_event(&AppEvent::SelectionEvent(SelectionEvent::SelectionModeChanged(true))),
        vec![PlaylistPageUpdate::SetEditing(true)]
    );
    assert_eq!(page.on_event(&AppEvent::Started), vec![]);
}

#[test]
fn playlist_page_header_and_editing() {
    let page = PlaylistDetails::new(PlaylistDetailsModel::new(s("pl1")));
    let mut st = empty_state();
    assert_eq!(page.update_details(&st), None);
    assert_eq!(page.initial_request(&st), Some(page.model.load_playlist_info()));
    st.browser.playlists.push(playlist_state("pl1", "owner", vec![], None));
    assert_eq!(page.initial_request(&st), None);
    assert_eq!(
        page.update_details(&st),
        Some(PlaylistHeader { title: s("My Playlist"), subtitle: s("John"), like: LikeButton::Shown(false), art: None })
    );
    let cover = ImageSet { images: vec![Image { url: s("https://img/pl.jpg"), width: Some(300) }] };
    st.browser.playlists[0].playlist.as_mut().unwrap().art = Some(cover.clone());
    assert_eq!(page.update_details(&st).unwrap().art, Some(&cover));
    st.logged_user.playlist_ids.push(s("pl1"));
    assert_eq!(page.update_liked(&st), LikeButton::Shown(true));
    // not the owner: editing changes nothing
    assert_eq!(page.set_editing(&st, false, s("Other")), EditOutcome::Keep);
    st.logged_user.user = Some(s("owner"));
    assert_eq!(page.update_liked(&st), LikeButton::Hidden);
    assert_eq!(page.set_editing(&st, true, s("Other")), EditOutcome::Keep);
    assert_eq!(page.set_editing(&st, false, s("Other")), EditOutcome::Rename(s("Other")));
    assert_eq!(page.set_editing(&st, false, s("")), EditOutcome::RestoreTitle(s("My Playlist")));
    assert_eq!(page.set_editing(&st, false, s("My Playlist")), EditOutcome::RestoreTitle(s("My Playlist")));
    st.playback.current_source = Some(SongsSource::Playlist(s("pl1")));
    assert!(page.update_playing(&st, true));
    assert!(!page.update_playing(&st, false));
    assert_eq!(page.model.title(&st), Some(s("My Playlist")));
    assert_eq!(page.model.to_headerbar_model().model.id, "pl1");
    assert!(page.model.title_updated(&AppEvent::BrowserEvent(BrowserEvent::PlaylistDetailsLoaded(s("x")))));
    assert!(!page.model.title_updated(&AppEvent::Started));
}

// ---- artist ----

#[test]
fn artist_follow_toggle() {
    let m = ArtistDetailsModel::new(s("art1"));
    let mut st = empty_state();
    assert!(!m.is_followed(&st));
    assert_eq!(m.toggle_follow_artist(&st), Command::Call(ApiCall::FollowArtist(s("art1"))));
    st.browser.artists.push(artist_state("art1", true, None));
    assert!(m.is_followed(&st));
    assert_eq!(m.toggle_follow_artist(&st), Command::Call(ApiCall::UnfollowArtist(s("art1"))));
    assert_eq!(m.follow_toggled(true, Ok(())), Ok(AppAction::BrowserAction(BrowserAction::UnfollowArtist(s("art1")))));
    assert_eq!(m.follow_toggled(false, Ok(())), Ok(AppAction::BrowserAction(BrowserAction::FollowArtist(s("art1")))));
    assert_eq!(m.follow_toggled(true, Err(SpotifyApiError::NoToken)), Err(SpotifyApiError::NoToken));
}

#[test]
fn artist_load_more_releases() {
    let m = ArtistDetailsModel::new(s("art1"));
    let mut st = empty_state();
    assert_eq!(m.load_more(&st), None);
    st.browser.artists.push(artist_state("art1", false, None));
    assert_eq!(m.load_more(&st), None);
    st.browser.artists[0].next_page.next_offset = Some(40);
    assert_eq!(
        m.load_more(&st),
        Some(vec![
            Command::UpdateState(BrowserAction::ConsumeNextPage(PaginationTarget::ArtistReleases(s("art1")))),
            Command::Call(ApiCall::GetArtistAlbums { id: s("art1"), offset: 40, limit: 20 }),
        ])
    );
    assert!(m.has_items(&st));
    assert_eq!(m.image_shape(), ImageShape::Square);
    assert_eq!(m.open_item(s("al1")), AppAction::ViewAlbum(s("al1")));
}

#[test]
fn artist_menu_skips_own_artist() {
    let m = ArtistDetailsModel::new(s("art1"));
    let mut st = empty_state();
    st.browser.artists.push(artist_state("art1", false, None));
    let menu = m.menu_for(&st, &s("t1")).unwrap();
    assert_eq!(
        menu,
        vec![
            MenuEntry { label: MenuLabel::ViewAlbum, action: s("song.view_album") },
            MenuEntry { label: MenuLabel::MoreFrom(s("Guest")), action: s("song.view_artist_art2") },
            MenuEntry { label: MenuLabel::CopyLink, action: s("song.copy_link") },
            MenuEntry { label: MenuLabel::AddToQueue, action: s("song.queue") },
        ]
    );
    let only_own = m.menu_for(&st, &s("t2")).unwrap();
    assert_eq!(only_own.len(), 3);
}

#[test]
fn artist_play_and_titles() {
    let m = ArtistDetailsModel::new(s("art1"));
    let mut st = empty_state();
    assert_eq!(m.title(&st), None);
    st.browser.artists.push(artist_state("art1", false, None));
    let tracks = st.browser.artists[0].top_tracks.clone();
    assert_eq!(
        m.play_song_at(&st, "t2"),
        vec![
            AppAction::PlaybackAction(PlaybackAction::LoadSongs(tracks)),
            AppAction::PlaybackAction(PlaybackAction::Load(s("t2"))),
        ]
    );
    assert_eq!(m.title(&st), Some(s("Cool Artist")));
    assert_eq!(m.get_artist_name(&st), Some(&s("Cool Artist")));
    assert_eq!(m.enable_selection(), AppAction::EnableSelection(SelectionContext::Default));
    assert_eq!(m.selection_context(), None);
    assert_eq!(m.load_artist_details(s("art1")), Command::Call(ApiCall::GetArtist(s("art1"))));
}

#[test]
fn artist_page_updates_only_for_its_artist() {
    let page = ArtistDetails::new(ArtistDetailsModel::new(s("art1")));
    assert!(page.on_event(&AppEvent::BrowserEvent(BrowserEvent::ArtistDetailsUpdated(s("art1")))));
    assert!(!page.on_event(&AppEvent::BrowserEvent(BrowserEvent::ArtistDetailsUpdated(s("art2")))));
    assert!(!page.on_event(&AppEvent::BrowserEvent(BrowserEvent::UserDetailsUpdated(s("art1")))));
    assert_eq!(page.initial_request(), Command::Call(ApiCall::GetArtist(s("art1"))));
    let mut st = empty_state();
    st.browser.artists.push(artist_state("art1", true, None));
    let h = page.update_details(&st);
    assert_eq!(h.title, Some(s("Cool Artist")));
    assert!(h.liked);
    assert_eq!(h.photo, None);
}

// ---- user ----

#[test]
fn user_model_title_and_pages() {
    let m = UserDetailsModel::new(s("user1"));
    let mut st = empty_state();
    assert_eq!(m.title(&st), None);
    assert_eq!(m.get_user_name(&st), None);
    assert!(!m.has_items(&st));
    st.browser.users.push(user_state("user1", Some("John"), Some(30)));
    assert_eq!(m.title(&st), Some(s("Profile \u{2014} John")));
    assert_eq!(m.get_user_name(&st), Some(&s("John")));
    assert!(m.get_user_photo(&st).is_none());
    assert_eq!(
        m.load_more(&st),
        Some(vec![
            Command::UpdateState(BrowserAction::ConsumeNextPage(PaginationTarget::UserPlaylists(s("user1")))),
            Command::Call(ApiCall::GetUserPlaylists { id: s("user1"), offset: 30, limit: 30 }),
        ])
    );
    assert_eq!(m.open_playlist(s("p")), AppAction::ViewPlaylist(s("p")));
    assert_eq!(m.load_user_details(s("user1")), Command::Call(ApiCall::GetUser(s("user1"))));
    assert_eq!(m.to_headerbar_model().model.id, "user1");
    assert!(m.title_updated(&AppEvent::BrowserEvent(BrowserEvent::UserDetailsUpdated(s("z")))));
    assert_eq!(m.selection_context(), None);
}

#[test]
fn user_page_events_and_header() {
    let page = UserDetails::new(UserDetailsModel::new(s("user1")));
    assert!(page.on_event(&AppEvent::BrowserEvent(BrowserEvent::UserDetailsUpdated(s("user1")))));
    assert!(!page.on_event(&AppEvent::BrowserEvent(BrowserEvent::UserDetailsUpdated(s("user2")))));
    let mut st = empty_state();
    st.browser.users.push(user_state("user1", Some("John"), None));
    let h = page.update_details(&st);
    assert_eq!(h.title, Some(s("John")));
    assert_eq!(h.caption, Some(s("Profile")));
    assert_eq!(h.default_icon, Some(s("avatar-default-symbolic")));
    assert_eq!(h.photo, None);
    assert!(h.loaded_at_once);
    let photo = ImageSet { images: vec![Image { url: s("https://img/u.jpg"), width: None }] };
    st.browser.users[0].photo = Some(photo.clone());
    st.browser.users[0].user = None;
    let h = page.update_details(&st);
    assert_eq!(h.title, None);
    assert_eq!(h.caption, None);
    assert_eq!(h.default_icon, None);
    assert_eq!(h.photo, Some(&photo));
    assert!(!h.loaded_at_once);
    assert_eq!(page.initial_request(), Command::Call(ApiCall::GetUser(s("user1"))));
}

// ---- library ----

#[test]
fn saved_albums_pagination() {
    let m = SavedAlbumsModel::new();
    let mut st = empty_state();
    assert_eq!(m.load_more(&st), None);
    assert_eq!(m.refresh(&st), None);
    assert!(!m.has_items(&st));
    st.browser.home = Some(home_state(None, None, 0));
    assert_eq!(m.load_more(&st), None);
    assert!(!m.has_items(&st));
    st.browser.home = Some(home_state(Some(50), None, 2));
    assert!(m.has_items(&st));
    assert_eq!(m.refresh(&st), Some(Command::Call(ApiCall::GetSavedAlbums { offset: 0, limit: 25 })));
    assert_eq!(
        m.load_more(&st),
        Some(vec![
            Command::UpdateState(BrowserAction::ConsumeNextPage(PaginationTarget::SavedAlbums)),
            Command::Call(ApiCall::GetSavedAlbums { offset: 50, limit: 25 }),
        ])
    );
    assert_eq!(m.open_item(s("al")), AppAction::ViewAlbum(s("al")));
    assert_eq!(m.image_shape(), ImageShape::Square);
}

#[test]
fn saved_artists_follow_the_cursor() {
    let m = SavedArtistsModel::new();
    let mut st = empty_state();
    assert_eq!(m.load_more(&st), None);
    st.browser.home = Some(home_state(None, None, 0));
    assert_eq!(m.load_more(&st), None);
    st.browser.home = Some(home_state(None, Some(""), 0));
    assert_eq!(m.load_more(&st), None);
    st.browser.home = Some(home_state(None, Some("cur"), 0));
    assert_eq!(
        m.load_more(&st),
        Some(vec![
            Command::UpdateState(BrowserAction::ConsumeNextPage(PaginationTarget::SavedArtists)),
            Command::Call(ApiCall::GetFollowedArtists { after: Some(s("cur")), limit: 30 }),
        ])
    );
    assert_eq!(m.refresh(), Command::Call(ApiCall::GetFollowedArtists { after: None, limit: 30 }));
    assert!(!m.has_items(&st));
    assert_eq!(m.image_shape(), ImageShape::Round);
    assert_eq!(m.open_item(s("ar")), AppAction::ViewArtist(s("ar")));
}

#[test]
fn saved_pages_config() {
    let page = make_saved_albums();
    assert_eq!(page.config.empty_title, "You have no saved albums.");
    assert_eq!(page.config.empty_description, "Your library will be shown here.");
    assert_eq!(page.config.empty_icon, "emblem-music-symbolic");
    assert_eq!(page.trigger, PageUpdateTrigger::LibraryUpdated);
    assert!(page.status_visible);
    let page = make_saved_artists();
    assert_eq!(page.config.empty_title, "You have no saved artists.");
    assert_eq!(page.config.empty_description, "Your followed artists will be shown here.");
    assert_eq!(page.config.empty_icon, "avatar-default-symbolic");
    assert_eq!(page.trigger, PageUpdateTrigger::SavedArtistsUpdated);
    assert!(page.status_visible);
    let config = CardListPageConfig { empty_title: s("t"), empty_description: s("d"), empty_icon: s("i") };
    let page = make_saved_page(config, PageUpdateTrigger::LibraryUpdated);
    assert_eq!(page.config, CardListPageConfig { empty_title: s("t"), empty_description: s("d"), empty_icon: s("i") });
    assert!(page.status_visible);
}

#[test]
fn card_list_page_reactions() {
    let config = CardListPageConfig { empty_title: s("t"), empty_description: s("d"), empty_icon: s("i") };
    let mut page = CardListPage::new(config, PageUpdateTrigger::LibraryUpdated);
    assert!(page.status_visible);
    assert_eq!(
        page.on_event(&AppEvent::LoginEvent(LoginEvent::LoginCompleted), false, true),
        vec![CardListPageStep::Refresh]
    );
    assert!(page.status_visible);
    assert_eq!(
        page.on_event(&AppEvent::BrowserEvent(BrowserEvent::LibraryUpdated), false, true),
        vec![CardListPageStep::SetStatusVisible(true)]
    );
    assert!(page.status_visible);
    assert_eq!(
        page.on_event(&AppEvent::BrowserEvent(BrowserEvent::LibraryUpdated), true, false),
        vec![CardListPageStep::SetStatusVisible(false), CardListPageStep::LoadMore]
    );
    assert!(!page.status_visible);
    assert_eq!(page.on_event(&AppEvent::BrowserEvent(BrowserEvent::SavedArtistsUpdated), true, false), vec![]);
    assert!(!page.status_visible);
    assert_eq!(page.on_event(&AppEvent::Started, true, false), vec![]);
    assert!(page.on_edge_reached(ScrollEdge::Bottom));
    assert!(!page.on_edge_reached(ScrollEdge::Top));
}

// ---- other pages ----

#[test]
fn album_page_events() {
    let page = Details::new(s("al1"));
    assert_eq!(
        page.on_event(&AppEvent::BrowserEvent(BrowserEvent::AlbumDetailsLoaded(s("al1")))),
        vec![AlbumPageUpdate::UpdateDetails, AlbumPageUpdate::UpdatePlaying(true)]
    );
    assert_eq!(page.on_event(&AppEvent::BrowserEvent(BrowserEvent::AlbumSaved(s("al2")))), vec![]);
    assert_eq!(page.on_event(&AppEvent::BrowserEvent(BrowserEvent::AlbumUnsaved(s("al1")))), vec![AlbumPageUpdate::UpdateLiked]);
    assert_eq!(
        page.on_event(&AppEvent::PlaybackEvent(PlaybackEvent::PlaybackPaused)),
        vec![AlbumPageUpdate::UpdatePlaying(false)]
    );
    assert!(page.update_playing(true, true));
    assert!(!page.update_playing(false, true));
}

#[test]
fn now_playing_events() {
    let page = NowPlaying::new(false);
    assert!(!page.device_selector);
    assert!(NowPlaying::new(true).device_selector);
    assert_eq!(
        page.on_event(&AppEvent::PlaybackEvent(PlaybackEvent::TrackChanged(s("x")))),
        vec![NowPlayingUpdate::LoadMore, NowPlayingUpdate::UpdateDetails]
    );
    assert_eq!(
        page.on_event(&AppEvent::PlaybackEvent(PlaybackEvent::PlaybackPaused)),
        vec![NowPlayingUpdate::SetPlaying(false)]
    );
    assert_eq!(
        page.on_event(&AppEvent::PlaybackEvent(PlaybackEvent::PlaybackResumed)),
        vec![NowPlayingUpdate::SetPlaying(true)]
    );
    assert_eq!(
        page.on_event(&AppEvent::BrowserEvent(BrowserEvent::SavedTracksUpdated)),
        vec![NowPlayingUpdate::UpdateLiked]
    );
    assert_eq!(page.on_event(&AppEvent::Started), vec![]);
}

#[test]
fn saved_tracks_events() {
    let page = SavedTracks::new();
    assert_eq!(
        page.on_event(&AppEvent::LoginEvent(LoginEvent::LoginCompleted)),
        vec![SavedTracksUpdate::LoadInitial]
    );
    assert_eq!(
        page.on_event(&AppEvent::BrowserEvent(BrowserEvent::SavedTracksUpdated)),
        vec![SavedTracksUpdate::UpdateTrackCount]
    );
    assert_eq!(
        page.on_event(&AppEvent::PlaybackEvent(PlaybackEvent::PlaybackResumed)),
        vec![SavedTracksUpdate::UpdatePlaying(true)]
    );
    assert!(page.update_playing(true, true));
    assert!(!page.update_playing(true, false));
}

#[test]
fn details_page_helpers() {
    assert!(sync_play_button(true, true));
    assert!(!sync_play_button(true, false));
    assert!(!sync_play_button(false, true));
    let open = headerbar_style(true);
    assert!(!open.title_visible && open.flat);
    let scrolled = headerbar_style(false);
    assert!(scrolled.title_visible && !scrolled.flat);
    assert_eq!(artwork_step(Some(s("u"))), ArtworkStep::Load(s("u")));
    assert_eq!(artwork_step(None), ArtworkStep::Finish);
    assert_eq!(HEADER_IMAGE_SIZE, 200);
}

#[test]
fn header_setups() {
    let plain = |shape, caption_visible, subtitle_visible| HeaderSetup {
        shape,
        caption: None,
        caption_visible,
        subtitle_visible,
        default_icon: None,
        details: None,
        loaded: false,
    };
    assert_eq!(
        PlaylistDetails::new(PlaylistDetailsModel::new(s("p"))).header_setup(),
        plain(HeaderImageShape::Square, false, true)
    );
    assert_eq!(Details::new(s("a")).header_setup(), plain(HeaderImageShape::Square, false, true));
    assert_eq!(
        ArtistDetails::new(ArtistDetailsModel::new(s("a"))).header_setup(),
        plain(HeaderImageShape::Circle, false, false)
    );
    assert_eq!(
        UserDetails::new(UserDetailsModel::new(s("u"))).header_setup(),
        plain(HeaderImageShape::Circle, true, false)
    );
    let np = NowPlaying::new(false).header_setup();
    assert_eq!(np.caption, Some(s("Now playing")));
    assert!(np.loaded && np.caption_visible && np.subtitle_visible);
    assert_eq!(NowPlaying::new(false).queue_label(), "Queue");
    let st = SavedTracks::new().header_setup();
    assert_eq!(st.details, Some((s("All Tracks"), s(""))));
    assert_eq!(st.default_icon, Some(s("emote-love-symbolic")));
    assert!(st.loaded && st.subtitle_visible && !st.caption_visible);
}

// ---- replies of the web API ----

#[test]
fn replies_become_state_changes() {
    let albums = SavedAlbumsModel::new();
    assert_eq!(albums.albums_refreshed::<u8>(Ok(1)), Ok(LoadedAction::SetLibraryContent(1)));
    assert_eq!(albums.more_albums_loaded::<u8>(Ok(2)), Ok(LoadedAction::AppendLibraryContent(2)));
    assert_eq!(albums.more_albums_loaded::<u8>(Err(SpotifyApiError::NoToken)), Err(SpotifyApiError::NoToken));
    let artists = SavedArtistsModel::new();
    assert_eq!(
        artists.artists_refreshed::<u8>(Ok((3, Some(s("c"))))),
        Ok(LoadedAction::SetSavedArtists(3, Some(s("c"))))
    );
    assert_eq!(artists.more_artists_loaded::<u8>(Ok((4, None))), Ok(LoadedAction::AppendSavedArtists(4, None)));
    assert_eq!(
        artists.more_artists_loaded::<u8>(Err(SpotifyApiError::InvalidToken)),
        Err(SpotifyApiError::InvalidToken)
    );
    let artist = ArtistDetailsModel::new(s("art1"));
    assert_eq!(artist.releases_loaded::<u8>(s("art1"), Ok(5)), Ok(LoadedAction::AppendArtistReleases(s("art1"), 5)));
    assert_eq!(artist.releases_loaded::<u8>(s("art1"), Err(SpotifyApiError::NoToken)), Err(SpotifyApiError::NoToken));
    let user = UserDetailsModel::new(s("u1"));
    assert_eq!(user.user_details_loaded::<u8>(Ok(6)), Ok(LoadedAction::SetUserDetails(6)));
    assert_eq!(user.playlists_loaded::<u8>(s("u1"), Ok(7)), Ok(LoadedAction::AppendUserPlaylists(s("u1"), 7)));
    assert_eq!(
        user.playlists_loaded::<u8>(s("u1"), Err(SpotifyApiError::Other(s("x")))),
        Err(SpotifyApiError::Other(s("x")))
    );
    let playlist = PlaylistDetailsModel::new(s("pl1"));
    assert_eq!(playlist.tracks_loaded::<u8>(Ok(8)), Ok(LoadedAction::AppendPlaylistTracks(s("pl1"), 8)));
    assert_eq!(playlist.tracks_loaded::<u8>(Err(SpotifyApiError::NoToken)), Err(SpotifyApiError::NoToken));
}

#[test]
fn album_page_requests_album_only_when_missing() {
    let page = Details::new(s("al1"));
    assert!(page.initial_request(false));
    assert!(!page.initial_request(true));
}

#[test]
fn now_playing_header() {
    let page = NowPlaying::new(false);
    let bare = song("s0", &[("a1", "Artist A")]);
    let h = page.update_details(Some(&bare), false, true);
    assert_eq!(h.art, None);
    assert!(h.loaded_at_once);
    let empty = page.update_details(None, true, true);
    assert_eq!(empty.title, "");
    assert_eq!(empty.subtitle, "");
    assert_eq!(empty.liked, None);
    assert_eq!(empty.playing, None);
    assert_eq!(empty.art, None);
    assert!(empty.loaded_at_once);
    let mut current = song("s1", &[("a1", "Artist A"), ("a2", "Artist B")]);
    let cover = ImageSet { images: vec![Image { url: s("https://img/c.jpg"), width: Some(640) }] };
    current.art = Some(cover.clone());
    let h = page.update_details(Some(&current), true, false);
    assert_eq!(h.title, "Title s1");
    assert_eq!(h.subtitle, "Artist A, Artist B");
    assert_eq!(h.liked, Some(true));
    assert_eq!(h.playing, Some(false));
    assert_eq!(h.art, Some(&cover));
    assert!(!h.loaded_at_once);
}

#[test]
fn artists_names_are_joined() {
    assert_eq!(song("s", &[]).artists_name(), "");
    assert_eq!(song("s", &[("a", "Ann")]).artists_name(), "Ann");
    assert_eq!(song("s", &[("a", "Ann"), ("b", "Bob"), ("c", "Cy")]).artists_name(), "Ann, Bob, Cy");
}
