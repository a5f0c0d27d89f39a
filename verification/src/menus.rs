use vstd::prelude::*;
use crate::models::{ArtistRef, SongDescription};

verus! {

/// The label of an entry of a song's context menu.
#[derive(Debug, PartialEq, Eq)]
pub enum MenuLabel {
    ViewAlbum,
    /// "More from" the named artist.
    MoreFrom(String),
    CopyLink,
    AddToQueue,
}

/// An entry of a song's context menu: a label and the name of the action it triggers.
#[derive(Debug, PartialEq, Eq)]
pub struct MenuEntry {
    pub label: MenuLabel,
    pub action: String,
}

impl View for MenuEntry {
    type V = (MenuLabel, Seq<char>);

    open spec fn view(&self) -> (MenuLabel, Seq<char>) {
        (self.label, self.action@)
    }
}

/// The entries of a menu, each as a label and an action name.
pub open spec fn entries_view(s: Seq<MenuEntry>) -> Seq<(MenuLabel, Seq<char>)> {
    s.map_values(|e: MenuEntry| e@)
}

/// The action that opens an artist's page from a song's menu.
pub open spec fn view_artist_action(id: Seq<char>) -> Seq<char> {
    "song.view_artist_"@ + id
}

/// One "More from" entry per artist, in order, leaving out the artist with id `skip`.
pub open spec fn artist_entries(artists: Seq<ArtistRef>, skip: Option<Seq<char>>) -> Seq<(MenuLabel, Seq<char>)>
    decreases artists.len(),
{
    if artists.len() == 0 {
        Seq::empty()
    } else {
        let rest = artist_entries(artists.drop_last(), skip);
        let a = artists.last();
        if skip == Some(a.id@) {
            rest
        } else {
            rest.push((MenuLabel::MoreFrom(a.name), view_artist_action(a.id@)))
        }
    }
}

/// The context menu of a song: view its album, one entry per artist (but the one
/// with id `skip`), copy its link, add it to the queue.
pub open spec fn song_menu_spec(song: SongDescription, skip: Option<Seq<char>>) -> Seq<(MenuLabel, Seq<char>)> {
    seq![(MenuLabel::ViewAlbum, "song.view_album"@)]
        + artist_entries(song.artists@, skip)
        + seq![(MenuLabel::CopyLink, "song.copy_link"@), (MenuLabel::AddToQueue, "song.queue"@)]
}

fn entry(label: MenuLabel, action: &str) -> (e: MenuEntry)
    ensures
        e@ == (label, action@),
{
    MenuEntry { label, action: action.to_string() }
}

/// Builds the context menu of `song`, leaving out the artist whose id is `skip`.
pub fn song_menu(song: &SongDescription, skip: Option<&String>) -> (menu: Vec<MenuEntry>)
    ensures
        entries_view(menu@) == song_menu_spec(*song, match skip {
            Some(s) => Some(s@),
            None => None,
        }),
{
    let ghost skip_view = match skip {
        Some(s) => Some(s@),
        None => None::<Seq<char>>,
    };
    let mut menu: Vec<MenuEntry> = Vec::new();
    menu.push(entry(MenuLabel::ViewAlbum, "song.view_album"));
    let mut i: usize = 0;
    while i < song.artists.len()
        invariant
            i <= song.artists@.len(),
            skip_view == match skip {
                Some(s) => Some(s@),
                None => None::<Seq<char>>,
            },
            entries_view(menu@) == seq![(MenuLabel::ViewAlbum, "song.view_album"@)]
                + artist_entries(song.artists@.take(i as int), skip_view),
        decreases song.artists@.len() - i,
    {
        let artist = &song.artists[i];
        proof {
            assert(song.artists@.take(i + 1).drop_last() =~= song.artists@.take(i as int));
            assert(song.artists@.take(i + 1).last() == song.artists@[i as int]);
        }
        let skipped = match skip {
            Some(s) => *s == artist.id,
            None => false,
        };
        let ghost before = menu@;
        if !skipped {
            let mut action = "song.view_artist_".to_string();
            action.append(artist.id.as_str());
            menu.push(MenuEntry { label: MenuLabel::MoreFrom(artist.name.clone()), action });
            proof {
                assert(entries_view(menu@) =~= entries_view(before).push(menu@.last()@));
                assert(entries_view(menu@) =~= seq![(MenuLabel::ViewAlbum, "song.view_album"@)]
                    + artist_entries(song.artists@.take(i + 1), skip_view));
            }
        } else {
            proof {
                assert(skip_view == Some(artist.id@));
            }
        }
        i = i + 1;
    }
    proof {
        assert(song.artists@.take(song.artists@.len() as int) =~= song.artists@);
    }
    let ghost before = menu@;
    menu.push(entry(MenuLabel::CopyLink, "song.copy_link"));
    menu.push(entry(MenuLabel::AddToQueue, "song.queue"));
    proof {
        assert(entries_view(menu@) =~= entries_view(before) + seq![
            (MenuLabel::CopyLink, "song.copy_link"@),
            (MenuLabel::AddToQueue, "song.queue"@),
        ]);
    }
    menu
}

} // verus!

verus! {

proof fn lemma_view_artist_action_injective(a: Seq<char>, b: Seq<char>)
    requires
        view_artist_action(a) == view_artist_action(b),
    ensures
        a == b,
{
    reveal_strlit("song.view_artist_");
    let n = "song.view_artist_"@.len() as int;
    assert(view_artist_action(a).subrange(n, view_artist_action(a).len() as int) =~= a);
    assert(view_artist_action(b).subrange(n, view_artist_action(b).len() as int) =~= b);
}

proof fn lemma_artist_entries_skip(artists: Seq<ArtistRef>, id: Seq<char>)
    ensures
        forall|k: int| 0 <= k < artist_entries(artists, Some(id)).len()
            ==> #[trigger] artist_entries(artists, Some(id))[k].1 != view_artist_action(id),
    decreases artists.len(),
{
    if artists.len() > 0 {
        lemma_artist_entries_skip(artists.drop_last(), id);
        let a = artists.last();
        let rest = artist_entries(artists.drop_last(), Some(id));
        if Some(id) != Some(a.id@) {
            if view_artist_action(a.id@) == view_artist_action(id) {
                lemma_view_artist_action_injective(a.id@, id);
            }
            let all = rest.push((MenuLabel::MoreFrom(a.name), view_artist_action(a.id@)));
            assert(artist_entries(artists, Some(id)) == all);
            assert forall|k: int| 0 <= k < all.len() implies #[trigger] all[k].1 != view_artist_action(id) by {
                if k < rest.len() {
                    assert(all[k] == rest[k]);
                }
            }
        }
    }
}

/// The menu of a song on an artist's page never offers to open that artist's page
/// again: no entry of it triggers the action that opens the artist with id `id`.
pub proof fn lemma_artist_menu_skips_own_artist(song: SongDescription, id: Seq<char>)
    ensures
        forall|k: int| 0 <= k < song_menu_spec(song, Some(id)).len()
            ==> #[trigger] song_menu_spec(song, Some(id))[k].1 != view_artist_action(id),
{
    reveal_strlit("song.view_artist_");
    reveal_strlit("song.view_album");
    reveal_strlit("song.copy_link");
    reveal_strlit("song.queue");
    lemma_artist_entries_skip(song.artists@, id);
    let first = seq![(MenuLabel::ViewAlbum, "song.view_album"@)];
    let mid = artist_entries(song.artists@, Some(id));
    let last = seq![(MenuLabel::CopyLink, "song.copy_link"@), (MenuLabel::AddToQueue, "song.queue"@)];
    assert forall|k: int| 0 <= k < song_menu_spec(song, Some(id)).len()
        implies #[trigger] song_menu_spec(song, Some(id))[k].1 != view_artist_action(id) by {
        let m = song_menu_spec(song, Some(id));
        assert(m == first + mid + last);
        if k == 0 {
            assert(m[k].1.len() != view_artist_action(id).len());
        } else if k < 1 + mid.len() {
            assert(m[k] == mid[k - 1]);
        } else {
            assert(m[k] == last[k - 1 - mid.len()]);
            assert(m[k].1.len() != view_artist_action(id).len());
        }
    }
}

/// The "More from" entry of an artist: its name, opening its page.
pub open spec fn more_from_entry(a: ArtistRef) -> (MenuLabel, Seq<char>) {
    (MenuLabel::MoreFrom(a.name), view_artist_action(a.id@))
}

/// The artists of a song that get an entry in its menu when the artist with id
/// `skip` is left out.
pub open spec fn listed_artists(artists: Seq<ArtistRef>, skip: Option<Seq<char>>) -> Seq<ArtistRef> {
    artists.filter(|a: ArtistRef| skip != Some(a.id@))
}

/// The artist entries of a song's menu are exactly its artists whose id is not
/// `skip`, in their order, each as a "More from" entry that opens its page.
pub proof fn lemma_artist_entries_are_listed_artists(artists: Seq<ArtistRef>, skip: Option<Seq<char>>)
    ensures
        artist_entries(artists, skip) == listed_artists(artists, skip).map_values(|a: ArtistRef| more_from_entry(a)),
    decreases artists.len(),
{
    reveal(Seq::filter);
    if artists.len() > 0 {
        lemma_artist_entries_are_listed_artists(artists.drop_last(), skip);
        let rest = listed_artists(artists.drop_last(), skip);
        assert(artists.filter(|a: ArtistRef| skip != Some(a.id@))
            == if skip != Some(artists.last().id@) { rest.push(artists.last()) } else { rest });
        if skip != Some(artists.last().id@) {
            assert(rest.push(artists.last()).map_values(|a: ArtistRef| more_from_entry(a))
                =~= rest.map_values(|a: ArtistRef| more_from_entry(a)).push(more_from_entry(artists.last())));
        }
    } else {
        assert(listed_artists(artists, skip) =~= Seq::<ArtistRef>::empty());
    }
}

/// Without an artist to leave out, a song's menu has one "More from" entry per artist,
/// in order.
pub proof fn lemma_artist_entries_without_skip(artists: Seq<ArtistRef>)
    ensures
        artist_entries(artists, None) == artists.map_values(|a: ArtistRef| more_from_entry(a)),
        artist_entries(artists, None).len() == artists.len(),
    decreases artists.len(),
{
    if artists.len() > 0 {
        lemma_artist_entries_without_skip(artists.drop_last());
        assert(artists.map_values(|a: ArtistRef| more_from_entry(a))
            =~= artists.drop_last().map_values(|a: ArtistRef| more_from_entry(a)).push(more_from_entry(artists.last())));
    } else {
        assert(artists.map_values(|a: ArtistRef| more_from_entry(a)) =~= Seq::<(MenuLabel, Seq<char>)>::empty());
    }
}

/// Leaving out the artist with id `id` gives the entries of the other artists: the
/// same as the menu of the song without that artist.
pub proof fn lemma_artist_entries_skip_is_filter(artists: Seq<ArtistRef>, id: Seq<char>)
    ensures
        artist_entries(artists, Some(id)) == artist_entries(artists.filter(|a: ArtistRef| a.id@ != id), None),
{
    lemma_artist_entries_are_listed_artists(artists, Some(id));
    let kept = artists.filter(|a: ArtistRef| a.id@ != id);
    lemma_artist_entries_without_skip(kept);
    assert((|a: ArtistRef| Some(id) != Some(a.id@)) =~= (|a: ArtistRef| a.id@ != id));
    assert(listed_artists(artists, Some(id)) == kept);
}

/// A song's menu is "View album", then a "More from" entry for each of its artists
/// whose id is not `skip`, in order, then "Copy link" and "Add to queue".
pub proof fn lemma_song_menu_lists_other_artists(song: SongDescription, skip: Option<Seq<char>>)
    ensures
        song_menu_spec(song, skip) == seq![(MenuLabel::ViewAlbum, "song.view_album"@)]
            + listed_artists(song.artists@, skip).map_values(|a: ArtistRef| more_from_entry(a))
            + seq![(MenuLabel::CopyLink, "song.copy_link"@), (MenuLabel::AddToQueue, "song.queue"@)],
        song_menu_spec(song, skip).len() == 3 + listed_artists(song.artists@, skip).len(),
{
    lemma_artist_entries_are_listed_artists(song.artists@, skip);
}

} // verus!
