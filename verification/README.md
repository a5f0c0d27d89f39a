# riff

The decision logic of the Riff music client's library pages (saved albums and
artists, album, artist, playlist and user pages, "Now playing", saved tracks),
verified with Verus.

- `src/` — the verified library. Each page's model reads a snapshot of the
  application state (`state`), and answers with plain values: the commands to
  carry out (`events::Command`: actions to dispatch, state updates, web API calls),
  what to do with the API's replies, and which widget updates an event causes.
  `feature_flags`, `models` (cards, songs, playlists), `menus` (song context menus)
  and `i18n` (message ids, filling a message's placeholder, decimal counts)
  support them.
- `app/` — what needs GLib or gettext: reading feature flags from GSettings, looking
  messages up in the catalog (in UTF-8), and the GObject form of a card.
- `tests/` — tests of the library on concrete values.
