use vstd::prelude::*;
use crate::events::{AppEvent, BrowserEvent, LoginEvent};
use crate::models::CardModel;

verus! {

/// The shape of the cover image of a card.
#[derive(Clone, Copy, Debug, PartialEq, Eq, Structural)]
pub enum ImageShape {
    Round,
    Square,
}

/// The style class that gives a card's cover its shape.
pub fn shape_css_class(shape: ImageShape) -> (class: &'static str)
    ensures
        class@ == match shape {
            ImageShape::Round => "card--round"@,
            ImageShape::Square => "card--square"@,
        },
{
    match shape {
        ImageShape::Round => "card--round",
        ImageShape::Square => "card--square",
    }
}

/// How a card widget is filled from its model.
#[derive(Debug, PartialEq, Eq)]
pub enum CardBinding {
    /// Fetch the cover at this address, then show the title and subtitle.
    LoadCover { url: String, title: String, subtitle: String },
    /// No cover: show the title and subtitle at once and follow their changes.
    BindLabels,
}

/// A card with a cover waits for the image; a card without one is shown at once.
pub fn card_binding(card: &CardModel) -> (b: CardBinding)
    ensures
        match card@.image {
            Some(url) => b matches CardBinding::LoadCover { url: u, title: t, subtitle: s }
                && u@ == url && t@ == card@.title && s@ == card@.subtitle,
            None => b is BindLabels,
        },
{
    match card.image() {
        Some(url) => CardBinding::LoadCover { url, title: card.title(), subtitle: card.subtitle() },
        None => CardBinding::BindLabels,
    }
}

/// What a card shows once the fetch of its cover has ended.
#[derive(Debug, PartialEq, Eq)]
pub struct CoverFetched {
    /// Show the fetched image as the cover.
    pub show_cover: bool,
    pub title: String,
    pub subtitle: String,
    /// Show the card.
    pub loaded: bool,
}

/// After the fetch of a `CardBinding::LoadCover`: the cover is shown when an image came
/// back; the title and subtitle read when binding are shown and the card is shown in
/// either case.
pub fn cover_fetched(got_image: bool, title: String, subtitle: String) -> (c: CoverFetched)
    ensures
        c == (CoverFetched { show_cover: got_image, title, subtitle, loaded: true }),
{
    CoverFetched { show_cover: got_image, title, subtitle, loaded: true }
}

/// The id of the card at `index` of a card list, which is opened when it is activated.
pub fn activated_card_id(store: &Vec<CardModel>, index: usize) -> (r: Option<String>)
    ensures
        index < store@.len() ==> r is Some && r.unwrap()@ == store@[index as int]@.id,
        index >= store@.len() ==> r is None,
{
    if index < store.len() {
        Some(store[index].id())
    } else {
        None
    }
}

/// What a card page shows while it has no cards.
#[derive(Debug, PartialEq, Eq)]
pub struct CardListPageConfig {
    /// Message id of the notice's title, shown in the user's language.
    pub empty_title: String,
    /// Message id of the notice's description, shown in the user's language.
    pub empty_description: String,
    /// Name of the notice's icon.
    pub empty_icon: String,
}

/// The event after which a card page looks again at its cards.
#[derive(Clone, Copy, Debug, PartialEq, Eq, Structural)]
pub enum PageUpdateTrigger {
    LibraryUpdated,
    SavedArtistsUpdated,
}

pub open spec fn spec_triggers(trigger: PageUpdateTrigger, event: AppEvent) -> bool {
    match trigger {
        PageUpdateTrigger::LibraryUpdated => event matches AppEvent::BrowserEvent(BrowserEvent::LibraryUpdated),
        PageUpdateTrigger::SavedArtistsUpdated => event matches AppEvent::BrowserEvent(BrowserEvent::SavedArtistsUpdated),
    }
}

pub fn triggers(trigger: PageUpdateTrigger, event: &AppEvent) -> (r: bool)
    ensures
        r == spec_triggers(trigger, *event),
{
    match trigger {
        PageUpdateTrigger::LibraryUpdated => match event {
            AppEvent::BrowserEvent(BrowserEvent::LibraryUpdated) => true,
            _ => false,
        },
        PageUpdateTrigger::SavedArtistsUpdated => match event {
            AppEvent::BrowserEvent(BrowserEvent::SavedArtistsUpdated) => true,
            _ => false,
        },
    }
}

/// What a card page does after an event.
#[derive(Debug, PartialEq, Eq)]
pub enum CardListPageStep {
    /// Fetch the cards again.
    Refresh,
    /// Show or hide the "nothing here" notice.
    SetStatusVisible(bool),
    /// Fetch the next page of cards.
    LoadMore,
}

/// A card page refreshes once the user has logged in. After its update event it shows
/// the "nothing here" notice exactly when it has no cards, and fetches more cards
/// while they do not fill the window.
pub open spec fn card_list_page_reaction(
    trigger: PageUpdateTrigger,
    event: AppEvent,
    has_items: bool,
    content_fills_viewport: bool,
) -> Seq<CardListPageStep> {
    let refresh = if event matches AppEvent::LoginEvent(LoginEvent::LoginCompleted) {
        seq![CardListPageStep::Refresh]
    } else {
        Seq::empty()
    };
    let update = if spec_triggers(trigger, event) {
        seq![CardListPageStep::SetStatusVisible(!has_items)] + if content_fills_viewport {
            Seq::empty()
        } else {
            seq![CardListPageStep::LoadMore]
        }
    } else {
        Seq::empty()
    };
    refresh + update
}

/// An edge of a scrolled window.
#[derive(Clone, Copy, Debug, PartialEq, Eq, Structural)]
pub enum ScrollEdge {
    Top,
    Bottom,
    Left,
    Right,
}

/// A page that shows cards in a grid, with a notice over it while it has no cards.
#[derive(Debug, PartialEq, Eq)]
pub struct CardListPage {
    /// The notice's title, description and icon.
    pub config: CardListPageConfig,
    /// The event after which the page looks again at its cards.
    pub trigger: PageUpdateTrigger,
    /// The notice is shown.
    pub status_visible: bool,
}

impl CardListPage {
    pub open spec fn new_spec(config: CardListPageConfig, trigger: PageUpdateTrigger) -> CardListPage {
        CardListPage { config, trigger, status_visible: true }
    }

    /// A new page shows its notice until it learns that it has cards.
    pub fn new(config: CardListPageConfig, trigger: PageUpdateTrigger) -> (page: Self)
        ensures
            page == CardListPage::new_spec(config, trigger),
    {
        CardListPage { config, trigger, status_visible: true }
    }

    /// Reaching the bottom of the scrolled window fetches the next page of cards.
    pub fn on_edge_reached(&self, edge: ScrollEdge) -> (load_more: bool)
        ensures
            load_more == (edge == ScrollEdge::Bottom),
    {
        match edge {
            ScrollEdge::Bottom => true,
            _ => false,
        }
    }

    /// `has_items` tells whether the page has cards, `content_fills_viewport` whether
    /// they fill the scrolled window. The page shows or hides its notice as the steps say.
    pub fn on_event(&mut self, event: &AppEvent, has_items: bool, content_fills_viewport: bool) -> (steps: Vec<CardListPageStep>)
        ensures
            steps@ == card_list_page_reaction(old(self).trigger, *event, has_items, content_fills_viewport),
            final(self).config == old(self).config,
            final(self).trigger == old(self).trigger,
            final(self).status_visible == if spec_triggers(old(self).trigger, *event) {
                !has_items
            } else {
                old(self).status_visible
            },
    {
        let mut steps: Vec<CardListPageStep> = Vec::new();
        match event {
            AppEvent::LoginEvent(LoginEvent::LoginCompleted) => {
                steps.push(CardListPageStep::Refresh);
            },
            _ => {},
        }
        if triggers(self.trigger, event) {
            self.status_visible = !has_items;
            steps.push(CardListPageStep::SetStatusVisible(!has_items));
            if !content_fills_viewport {
                steps.push(CardListPageStep::LoadMore);
            }
        }
        assert(steps@ =~= card_list_page_reaction(self.trigger, *event, has_items, content_fills_viewport));
        steps
    }
}


/// A card page's trigger fires on exactly the event it is named after.
pub proof fn lemma_trigger_fires_on_its_event(event: AppEvent)
    ensures
        spec_triggers(PageUpdateTrigger::SavedArtistsUpdated, event)
            <==> event == AppEvent::BrowserEvent(BrowserEvent::SavedArtistsUpdated),
        spec_triggers(PageUpdateTrigger::LibraryUpdated, event)
            <==> event == AppEvent::BrowserEvent(BrowserEvent::LibraryUpdated),
{
}

/// After the event its trigger is named after, a card page shows its "nothing here"
/// notice exactly when it has no cards, and fetches more cards exactly when they do
/// not fill the window.
pub proof fn lemma_card_page_update_shows_notice_iff_empty(has_items: bool, content_fills_viewport: bool)
    ensures
        card_list_page_reaction(
            PageUpdateTrigger::SavedArtistsUpdated,
            AppEvent::BrowserEvent(BrowserEvent::SavedArtistsUpdated),
            has_items,
            content_fills_viewport,
        ) == card_list_page_reaction(
            PageUpdateTrigger::LibraryUpdated,
            AppEvent::BrowserEvent(BrowserEvent::LibraryUpdated),
            has_items,
            content_fills_viewport,
        ),
        card_list_page_reaction(
            PageUpdateTrigger::LibraryUpdated,
            AppEvent::BrowserEvent(BrowserEvent::LibraryUpdated),
            has_items,
            content_fills_viewport,
        ) == if content_fills_viewport {
            seq![CardListPageStep::SetStatusVisible(!has_items)]
        } else {
            seq![CardListPageStep::SetStatusVisible(!has_items), CardListPageStep::LoadMore]
        },
{
    assert(card_list_page_reaction(
        PageUpdateTrigger::LibraryUpdated,
        AppEvent::BrowserEvent(BrowserEvent::LibraryUpdated),
        has_items,
        content_fills_viewport,
    ) =~= if content_fills_viewport {
        seq![CardListPageStep::SetStatusVisible(!has_items)]
    } else {
        seq![CardListPageStep::SetStatusVisible(!has_items), CardListPageStep::LoadMore]
    });
    assert(card_list_page_reaction(
        PageUpdateTrigger::SavedArtistsUpdated,
        AppEvent::BrowserEvent(BrowserEvent::SavedArtistsUpdated),
        has_items,
        content_fills_viewport,
    ) =~= if content_fills_viewport {
        seq![CardListPageStep::SetStatusVisible(!has_items)]
    } else {
        seq![CardListPageStep::SetStatusVisible(!has_items), CardListPageStep::LoadMore]
    });
}

/// A card page only refreshes after the user has logged in, and touches its notice only
/// after its own trigger's event: other events leave it alone.
pub proof fn lemma_card_page_ignores_other_events(
    trigger: PageUpdateTrigger,
    event: AppEvent,
    has_items: bool,
    content_fills_viewport: bool,
)
    requires
        !spec_triggers(trigger, event),
        event != AppEvent::LoginEvent(LoginEvent::LoginCompleted),
    ensures
        card_list_page_reaction(trigger, event, has_items, content_fills_viewport) == Seq::<CardListPageStep>::empty(),
{
    assert(card_list_page_reaction(trigger, event, has_items, content_fills_viewport) =~= Seq::<CardListPageStep>::empty());
}


/// Every card page fetches its cards again once the user has logged in, and does
/// nothing else then.
pub proof fn lemma_card_page_refreshes_on_login(
    trigger: PageUpdateTrigger,
    has_items: bool,
    content_fills_viewport: bool,
)
    ensures
        card_list_page_reaction(trigger, AppEvent::LoginEvent(LoginEvent::LoginCompleted), has_items, content_fills_viewport)
            == seq![CardListPageStep::Refresh],
{
    assert(card_list_page_reaction(trigger, AppEvent::LoginEvent(LoginEvent::LoginCompleted), has_items, content_fills_viewport)
        =~= seq![CardListPageStep::Refresh]);
}

} // verus!
