use vstd::prelude::*;

verus! {

/// What a card shows: an id to open, an optional cover image, a title and a subtitle.
#[derive(Debug)]
pub struct CardModel {
    id: String,
    image: Option<String>,
    title: String,
    subtitle: String,
}

/// The contents of a card, as plain text.
pub struct CardView {
    pub id: Seq<char>,
    pub image: Option<Seq<char>>,
    pub title: Seq<char>,
    pub subtitle: Seq<char>,
}

pub open spec fn opt_view(s: Option<String>) -> Option<Seq<char>> {
    match s {
        Some(v) => Some(v@),
        None => None,
    }
}

pub fn clone_opt_string(s: &Option<String>) -> (r: Option<String>)
    ensures
        r == *s,
{
    match s {
        Some(v) => Some(v.clone()),
        None => None,
    }
}

impl View for CardModel {
    type V = CardView;

    closed spec fn view(&self) -> CardView {
        CardView {
            id: self.id@,
            image: opt_view(self.image),
            title: self.title@,
            subtitle: self.subtitle@,
        }
    }
}

impl CardModel {
    pub fn new(id: &str, image: Option<&String>, title: &str, subtitle: &str) -> (card: CardModel)
        ensures
            card@.id == id@,
            card@.image == match image {
                Some(i) => Some(i@),
                None => None::<Seq<char>>,
            },
            card@.title == title@,
            card@.subtitle == subtitle@,
    {
        let image = match image {
            Some(i) => Some(i.clone()),
            None => None,
        };
        CardModel {
            id: id.to_string(),
            image,
            title: title.to_string(),
            subtitle: subtitle.to_string(),
        }
    }

    pub fn id(&self) -> (r: String)
        ensures
            r@ == self@.id,
    {
        self.id.clone()
    }

    pub fn image(&self) -> (r: Option<String>)
        ensures
            opt_view(r) == self@.image,
    {
        clone_opt_string(&self.image)
    }

    pub fn title(&self) -> (r: String)
        ensures
            r@ == self@.title,
    {
        self.title.clone()
    }

    pub fn subtitle(&self) -> (r: String)
        ensures
            r@ == self@.subtitle,
    {
        self.subtitle.clone()
    }

    pub fn set_id(&mut self, id: String)
        ensures
            final(self)@ == (CardView { id: id@, ..old(self)@ }),
    {
        self.id = id;
    }

    pub fn set_image(&mut self, image: Option<String>)
        ensures
            final(self)@ == (CardView { image: opt_view(image), ..old(self)@ }),
    {
        self.image = image;
    }

    pub fn set_title(&mut self, title: String)
        ensures
            final(self)@ == (CardView { title: title@, ..old(self)@ }),
    {
        self.title = title;
    }

    pub fn set_subtitle(&mut self, subtitle: String)
        ensures
            final(self)@ == (CardView { subtitle: subtitle@, ..old(self)@ }),
    {
        self.subtitle = subtitle;
    }
}

/// One image of a picture, at one width when the width is known.
#[derive(Debug, PartialEq, Eq)]
pub struct Image {
    pub url: String,
    pub width: Option<u32>,
}

impl Clone for Image {
    fn clone(&self) -> (r: Self)
        ensures
            r == *self,
    {
        Image { url: self.url.clone(), width: self.width }
    }
}

/// The same picture at several sizes.
#[derive(Debug, PartialEq, Eq)]
pub struct ImageSet {
    pub images: Vec<Image>,
}

impl View for ImageSet {
    type V = Seq<Image>;

    open spec fn view(&self) -> Seq<Image> {
        self.images@
    }
}

impl Clone for ImageSet {
    fn clone(&self) -> (r: Self)
        ensures
            r@ == self@,
    {
        let images = self.images.clone();
        proof {
            assert(images@ =~= self.images@);
        }
        ImageSet { images }
    }
}

/// A picture, if there is one, as the list of its images.
pub open spec fn art_view(art: Option<ImageSet>) -> Option<Seq<Image>> {
    match art {
        Some(a) => Some(a@),
        None => None,
    }
}

/// A reference to an artist: its id and its name.
#[derive(Debug, PartialEq, Eq)]
pub struct ArtistRef {
    pub id: String,
    pub name: String,
}

impl Clone for ArtistRef {
    fn clone(&self) -> (r: Self)
        ensures
            r == *self,
    {
        ArtistRef { id: self.id.clone(), name: self.name.clone() }
    }
}

/// A reference to a user: its id and the name it shows.
#[derive(Debug)]
pub struct UserRef {
    pub id: String,
    pub display_name: String,
}

/// A song as the pages list it.
#[derive(Debug, PartialEq, Eq)]
pub struct SongDescription {
    pub id: String,
    pub title: String,
    pub artists: Vec<ArtistRef>,
    /// The cover of the song's album.
    pub art: Option<ImageSet>,
}

/// A song as plain values: its id, title, artists and cover.
pub struct SongView {
    pub id: String,
    pub title: String,
    pub artists: Seq<ArtistRef>,
    pub art: Option<Seq<Image>>,
}

/// The names of the artists, in order, separated by ", ".
pub open spec fn join_names(artists: Seq<ArtistRef>) -> Seq<char>
    decreases artists.len(),
{
    if artists.len() == 0 {
        Seq::empty()
    } else if artists.len() == 1 {
        artists[0].name@
    } else {
        join_names(artists.drop_last()) + ", "@ + artists.last().name@
    }
}

/// No artists have no names; one artist has its name; one more artist adds ", " and
/// its name at the end.
pub proof fn lemma_join_names_appends(artists: Seq<ArtistRef>, a: ArtistRef)
    ensures
        join_names(Seq::<ArtistRef>::empty()) == Seq::<char>::empty(),
        join_names(seq![a]) == a.name@,
        artists.len() > 0 ==> join_names(artists.push(a)) == join_names(artists) + ", "@ + a.name@,
{
    assert(artists.push(a).drop_last() =~= artists);
}

/// The names of a list of artists, separated by ", ".
pub fn artists_name(artists: &Vec<ArtistRef>) -> (names: String)
    ensures
        names@ == join_names(artists@),
{
    let mut names = String::new();
    let mut i: usize = 0;
    while i < artists.len()
        invariant
            i <= artists@.len(),
            names@ == join_names(artists@.take(i as int)),
        decreases artists@.len() - i,
    {
        proof {
            assert(artists@.take(i + 1).drop_last() =~= artists@.take(i as int));
            assert(artists@.take(i + 1).last() == artists@[i as int]);
            if i == 0 {
                assert(artists@.take(0) =~= Seq::<ArtistRef>::empty());
            }
        }
        if i > 0 {
            names.append(", ");
        }
        names.append(artists[i].name.as_str());
        i = i + 1;
    }
    proof {
        assert(artists@.take(artists@.len() as int) =~= artists@);
    }
    names
}

impl SongDescription {
    /// The names of the song's artists, separated by ", ".
    pub fn artists_name(&self) -> (names: String)
        ensures
            names@ == join_names(self.artists@),
    {
        artists_name(&self.artists)
    }
}

/// An album: its id, title, artists, release date, cover, and whether it is saved.
#[derive(Debug, PartialEq, Eq)]
pub struct AlbumDescription {
    pub id: String,
    pub title: String,
    pub artists: Vec<ArtistRef>,
    pub release_date: Option<String>,
    pub art: Option<ImageSet>,
    pub is_liked: bool,
}

impl AlbumDescription {
    /// The names of the album's artists, separated by ", ".
    pub fn artists_name(&self) -> (names: String)
        ensures
            names@ == join_names(self.artists@),
    {
        artists_name(&self.artists)
    }
}

/// How an album was released: its label, its copyright notice and its number of tracks.
#[derive(Debug, PartialEq, Eq)]
pub struct AlbumReleaseDetails {
    pub label: String,
    pub copyright_text: String,
    pub total_tracks: usize,
}

/// An album with its release details.
#[derive(Debug, PartialEq, Eq)]
pub struct AlbumFullDescription {
    pub description: AlbumDescription,
    pub release_details: AlbumReleaseDetails,
}

impl View for SongDescription {
    type V = SongView;

    open spec fn view(&self) -> SongView {
        SongView { id: self.id, title: self.title, artists: self.artists@, art: art_view(self.art) }
    }
}

impl Clone for SongDescription {
    fn clone(&self) -> (r: Self)
        ensures
            r@ == self@,
    {
        let artists = self.artists.clone();
        proof {
            assert(artists@ =~= self.artists@);
        }
        let art = match &self.art {
            Some(a) => Some(a.clone()),
            None => None,
        };
        SongDescription { id: self.id.clone(), title: self.title.clone(), artists, art }
    }
}

/// The songs of a list, each as plain values.
pub open spec fn songs_view(s: Seq<SongDescription>) -> Seq<SongView> {
    s.map_values(|x: SongDescription| x@)
}

/// Copies a list of songs.
pub fn clone_songs(songs: &Vec<SongDescription>) -> (r: Vec<SongDescription>)
    ensures
        songs_view(r@) == songs_view(songs@),
{
    let r = songs.clone();
    proof {
        assert(songs_view(r@) =~= songs_view(songs@));
    }
    r
}

/// A playlist: its id, title, cover and owner.
#[derive(Debug)]
pub struct PlaylistDescription {
    pub id: String,
    pub title: String,
    pub art: Option<ImageSet>,
    pub owner: UserRef,
}

/// A page of songs, with the place of the page in the whole list.
#[derive(Debug, PartialEq, Eq)]
pub struct SongBatch {
    pub songs: Vec<SongDescription>,
    pub offset: usize,
    pub batch_size: usize,
    pub total: usize,
}

/// Where the next page of a paginated list starts, if there is one, and how large pages are.
#[derive(Debug)]
pub struct Pagination<T> {
    pub data: T,
    pub next_offset: Option<usize>,
    pub batch_size: usize,
}

} // verus!
