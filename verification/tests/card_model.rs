use riff::card::{activated_card_id, card_binding, shape_css_class, CardBinding, ImageShape};
use riff::models::CardModel;

#[test]
fn test_new_with_all_fields() {
    let img = "https://example.com/img.jpg".to_string();
    let card = CardModel::new("abc123", Some(&img), "My Title", "My Subtitle");
    assert_eq!(card.id(), "abc123");
    assert_eq!(card.image(), Some(img));
    assert_eq!(card.title(), "My Title");
    assert_eq!(card.subtitle(), "My Subtitle");
}

#[test]
fn test_new_without_image() {
    let card = CardModel::new("id1", None, "Title", "Sub");
    assert_eq!(card.image(), None);
}

#[test]
fn test_set_properties() {
    let mut card = CardModel::new("id", None, "old", "old");
    card.set_title("new title".to_string());
    card.set_subtitle("new sub".to_string());
    assert_eq!(card.title(), "new title");
    assert_eq!(card.subtitle(), "new sub");
}

#[test]
fn set_id_and_image_are_read_back() {
    let mut card = CardModel::new("id", None, "t", "s");
    card.set_id("other".to_string());
    card.set_image(Some("u".to_string()));
    assert_eq!(card.id(), "other");
    assert_eq!(card.image(), Some("u".to_string()));
    assert_eq!(card.title(), "t");
    assert_eq!(card.subtitle(), "s");
    card.set_image(None);
    assert_eq!(card.image(), None);
}

#[test]
fn card_with_cover_waits_for_image() {
    let url = "https://img/x.jpg".to_string();
    let card = CardModel::new("a", Some(&url), "T", "S");
    assert_eq!(
        card_binding(&card),
        CardBinding::LoadCover { url: url.clone(), title: "T".to_string(), subtitle: "S".to_string() }
    );
    let bare = CardModel::new("a", None, "T", "S");
    assert_eq!(card_binding(&bare), CardBinding::BindLabels);
}

#[test]
fn activated_card_opens_its_id() {
    let store = vec![CardModel::new("a", None, "A", ""), CardModel::new("b", None, "B", "")];
    assert_eq!(activated_card_id(&store, 1), Some("b".to_string()));
    assert_eq!(activated_card_id(&store, 0), Some("a".to_string()));
    assert_eq!(activated_card_id(&store, 2), None);
}

#[test]
fn shape_classes() {
    assert_eq!(shape_css_class(ImageShape::Round), "card--round");
    assert_eq!(shape_css_class(ImageShape::Square), "card--square");
}
