# spotify_tui

A terminal controller for Spotify playback. The library (`src/`) holds the
player's logic with Verus contracts and proofs:

- `backend_handler`: the decisions of the playback backend — what each user
  action does to the shown state and which request it sends to the service,
  and how a playback report is taken in.
- `tracked_player_info`, `expiring_value`: player fields that keep a value the
  user just chose for a few seconds before falling back to the reported one.
- `data`, `player_info`, `track_info`: the shown data and how it is built from
  a playback report.
- `format_duration`, `renderer`, `app`: the text on screen and the key map.
- `util`: rounding to a multiple of a step (used for volume steps).

`app/` is the program around it: the terminal, the Spotify client, the
channels and the threads.
