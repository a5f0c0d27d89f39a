//! Decision logic of the Riff music client: feature flags, card models, and the
//! behaviour of the album, artist, playlist, user and library pages, expressed as
//! functions from state and events to the commands and widget updates they cause.

pub mod feature_flags;
pub mod models;
pub mod state;
pub mod events;
pub mod i18n;
pub mod menus;
pub mod details_page;
pub mod details_playlist;
pub mod card;
pub mod saved_items;
pub mod details_user;
pub mod details_artist;
pub mod details_album;
pub mod now_playing;
pub mod saved_tracks;
