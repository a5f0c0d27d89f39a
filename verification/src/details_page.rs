use vstd::prelude::*;

verus! {

/// Size in pixels at which the header artwork is fetched and shown.
pub const HEADER_IMAGE_SIZE: i32 = 200;

/// Whether the play button of a details page shows "playing": only when the page's
/// own songs are the ones playing and playback is running.
pub fn sync_play_button(source_is_playing: bool, is_playing: bool) -> (shows_playing: bool)
    ensures
        shows_playing == (source_is_playing && is_playing),
{
    source_is_playing && is_playing
}

/// How the top bar of a details page looks.
#[derive(Debug, PartialEq, Eq)]
pub struct HeaderbarStyle {
    /// The title is shown in the top bar.
    pub title_visible: bool,
    /// The top bar is transparent.
    pub flat: bool,
}

/// The top bar while the big header is in view is flat and shows no title; once the
/// header has scrolled away the bar gets a background and shows the title.
pub open spec fn spec_headerbar_style(header_visible: bool) -> HeaderbarStyle {
    HeaderbarStyle { title_visible: !header_visible, flat: header_visible }
}

pub fn headerbar_style(header_visible: bool) -> (style: HeaderbarStyle)
    ensures
        style == spec_headerbar_style(header_visible),
{
    HeaderbarStyle { title_visible: !header_visible, flat: header_visible }
}

/// The top bar shows the title exactly when it has a background, and it is flat
/// exactly while the header is in view.
pub proof fn lemma_headerbar_title_iff_solid(header_visible: bool)
    ensures
        spec_headerbar_style(header_visible).title_visible == !spec_headerbar_style(header_visible).flat,
        spec_headerbar_style(header_visible).flat == header_visible,
{
}

/// What the header artwork of a details page does.
#[derive(Debug, PartialEq, Eq)]
pub enum ArtworkStep {
    /// Fetch the image at this address, then show the page.
    Load(String),
    /// There is no image: show the page at once.
    Finish,
}

/// Fetch the artwork when an address for it was found, else show the page as it is.
pub fn artwork_step(url: Option<String>) -> (step: ArtworkStep)
    ensures
        match url {
            Some(u) => step == ArtworkStep::Load(u),
            None => step == ArtworkStep::Finish,
        },
{
    match url {
        Some(u) => ArtworkStep::Load(u),
        None => ArtworkStep::Finish,
    }
}

} // verus!

verus! {

/// What a details page does once the fetch of its artwork has ended.
#[derive(Debug, PartialEq, Eq)]
pub enum ArtworkFetched {
    /// Show the image in the header, drop the placeholder style and show the page.
    ShowAndFinish,
    /// No image came back: leave the page as it is.
    Unchanged,
}

/// The image is shown, and the page with it, only when an image came back.
pub fn artwork_fetched(got_image: bool) -> (step: ArtworkFetched)
    ensures
        step == if got_image {
            ArtworkFetched::ShowAndFinish
        } else {
            ArtworkFetched::Unchanged
        },
{
    if got_image {
        ArtworkFetched::ShowAndFinish
    } else {
        ArtworkFetched::Unchanged
    }
}

/// A control of a details page that the user can act on.
#[derive(Clone, Copy, Debug, PartialEq, Eq, Structural)]
pub enum PageControl {
    /// The play button of the header.
    Play,
    /// The like button of the header.
    Like,
    /// The information button of the header.
    Info,
    /// The subtitle of the header.
    Subtitle,
    /// Scrolling to the bottom of the page.
    BottomEdge,
}

/// The model of a page's top bar: it reads the model of the page it belongs to.
#[derive(Debug)]
pub struct SimpleHeaderBarModelWrapper<M> {
    pub model: M,
}

} // verus!

verus! {

/// The shape of the artwork in the header of a details page.
#[derive(Clone, Copy, Debug, PartialEq, Eq, Structural)]
pub enum HeaderImageShape {
    Square,
    Circle,
}

/// How a details page sets up its header when it is created.
#[derive(Debug, PartialEq, Eq)]
pub struct HeaderSetup {
    pub shape: HeaderImageShape,
    /// The caption above the title, when one is set at once.
    pub caption: Option<String>,
    pub caption_visible: bool,
    pub subtitle_visible: bool,
    /// The icon shown while there is no artwork, when one is set at once.
    pub default_icon: Option<String>,
    /// The title and subtitle, when they are set at once.
    pub details: Option<(String, String)>,
    /// The page is shown at once, without waiting for artwork.
    pub loaded: bool,
}

} // verus!
