use riff::card::{cover_fetched, CoverFetched};
use riff::details_album::{AlbumOperation, Details, ReleaseDetailsDialog};
use riff::details_artist::{ArtistDetails, ArtistDetailsModel, ArtistOperation};
use riff::details_page::{artwork_fetched, ArtworkFetched, PageControl};
use riff::details_playlist::{PlaylistDetails, PlaylistDetailsModel, PlaylistOperation};
use riff::details_user::{UserDetails, UserDetailsModel, UserOperation};
use riff::models::{artists_name, AlbumDescription, AlbumFullDescription, AlbumReleaseDetails, ArtistRef, Image, ImageSet};
use riff::now_playing::{NowPlaying, NowPlayingOperation};
use riff::saved_items::{SavedAlbumsModel, SavedArtistsModel};
use riff::saved_tracks::{SavedTracks, SavedTracksOperation};

const ALL: [PageControl; 5] =
    [PageControl::Play, PageControl::Like, PageControl::Info, PageControl::Subtitle, PageControl::BottomEdge];

fn s(x: &str) -> String {
    x.to_string()
}

#[test]
fn playlist_controls() {
    let page = PlaylistDetails::new(PlaylistDetailsModel::new(s("pl")));
    let ops: Vec<_> = ALL.iter().map(|c| page.on_control(*c)).collect();
    assert_eq!(
        ops,
        vec![
            Some(PlaylistOperation::TogglePlay),
            Some(PlaylistOperation::ToggleSave),
            None,
            Some(PlaylistOperation::ViewOwner),
            Some(PlaylistOperation::LoadMoreTracks),
        ]
    );
}

#[test]
fn artist_controls() {
    let page = ArtistDetails::new(ArtistDetailsModel::new(s("a")));
    let ops: Vec<_> = ALL.iter().map(|c| page.on_control(*c)).collect();
    assert_eq!(ops, vec![None, Some(ArtistOperation::ToggleFollow), None, None, Some(ArtistOperation::LoadMore)]);
}

#[test]
fn user_controls() {
    let page = UserDetails::new(UserDetailsModel::new(s("u")));
    let ops: Vec<_> = ALL.iter().map(|c| page.on_control(*c)).collect();
    assert_eq!(ops, vec![None, None, None, None, Some(UserOperation::LoadMore)]);
}

#[test]
fn album_controls() {
    let page = Details::new(s("al"));
    let ops: Vec<_> = ALL.iter().map(|c| page.on_control(*c)).collect();
    assert_eq!(
        ops,
        vec![
            Some(AlbumOperation::TogglePlay),
            Some(AlbumOperation::ToggleSave),
            Some(AlbumOperation::ShowReleaseDetails),
            Some(AlbumOperation::ViewArtist),
            Some(AlbumOperation::LoadMore),
        ]
    );
}

#[test]
fn saved_tracks_controls() {
    let page = SavedTracks::new();
    assert_eq!(page, SavedTracks {});
    let ops: Vec<_> = ALL.iter().map(|c| page.on_control(*c)).collect();
    assert_eq!(ops, vec![Some(SavedTracksOperation::TogglePlay), None, None, None, Some(SavedTracksOperation::LoadMore)]);
}

#[test]
fn now_playing_controls() {
    let page = NowPlaying::new(false);
    let ops: Vec<_> = ALL.iter().map(|c| page.on_control(*c)).collect();
    assert_eq!(
        ops,
        vec![
            Some(NowPlayingOperation::TogglePlay),
            Some(NowPlayingOperation::ToggleLike),
            Some(NowPlayingOperation::ViewAlbum),
            None,
            Some(NowPlayingOperation::LoadMore),
        ]
    );
}

#[test]
fn unit_models() {
    assert_eq!(SavedAlbumsModel::new(), SavedAlbumsModel {});
    assert_eq!(SavedArtistsModel::new(), SavedArtistsModel {});
}

#[test]
fn after_fetches() {
    assert_eq!(artwork_fetched(true), ArtworkFetched::ShowAndFinish);
    assert_eq!(artwork_fetched(false), ArtworkFetched::Unchanged);
    assert_eq!(
        cover_fetched(false, s("T"), s("S")),
        CoverFetched { show_cover: false, title: s("T"), subtitle: s("S"), loaded: true }
    );
    assert_eq!(
        cover_fetched(true, s("T"), s("S")),
        CoverFetched { show_cover: true, title: s("T"), subtitle: s("S"), loaded: true }
    );
}

fn album(art: Option<ImageSet>) -> AlbumFullDescription {
    AlbumFullDescription {
        description: AlbumDescription {
            id: s("album1"),
            title: s("Album Title"),
            artists: vec![
                ArtistRef { id: s("a1"), name: s("Artist A") },
                ArtistRef { id: s("a2"), name: s("Artist B") },
            ],
            release_date: Some(s("2023-05-01")),
            art,
            is_liked: true,
        },
        release_details: AlbumReleaseDetails { label: s("Label"), copyright_text: s("(c) 2023"), total_tracks: 12 },
    }
}

#[test]
fn album_header() {
    let page = Details::new(s("album1"));
    assert_eq!(page.update_details(None), None);
    assert_eq!(page.update_liked(None), None);
    let info = album(None);
    let h = page.update_details(Some(&info)).unwrap();
    assert_eq!(h.title, "Album Title");
    assert_eq!(h.subtitle, "Artist A, Artist B");
    assert!(h.liked);
    assert_eq!(
        h.dialog,
        ReleaseDetailsDialog {
            title: s("Album Title"),
            artists: s("Artist A, Artist B"),
            label: s("Label"),
            release_date: s("2023-05-01"),
            total_tracks: 12,
            copyright_text: s("(c) 2023"),
        }
    );
    assert_eq!(h.art, None);
    assert!(h.loaded_at_once);
    assert_eq!(page.update_liked(Some(&info)), Some(true));
    let cover = ImageSet { images: vec![Image { url: s("https://img.com/cover.jpg"), width: Some(300) }] };
    let info = album(Some(cover.clone()));
    let h = page.update_details(Some(&info)).unwrap();
    assert_eq!(h.art, Some(&cover));
    assert!(!h.loaded_at_once);
}

#[test]
fn artist_names() {
    assert_eq!(artists_name(&vec![]), "");
    assert_eq!(artists_name(&vec![ArtistRef { id: s("x"), name: s("Solo") }]), "Solo");
}
