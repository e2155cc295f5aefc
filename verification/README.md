# bobby_tabots

The decision logic of a self-hosted Discord music bot, verified with Verus.

- `src/` — the verified library: link rules for YouTube videos and playlists
  (`preplay`, `youtube_playlist`, over the URL parts in `url_parts`), the
  per-guild playback queue (`guild_state`), `/play` request building and reply
  texts (`play`, `replies`), pre-play configuration and chance (`preplay`), and
  the empty-voice-channel timer registry (`voice_idle`). `text` holds the
  character-sequence helpers they share.
- `tests/` — behaviour tests run against the compiled library.
- `app/` — the Discord, voice and `yt-dlp` plumbing that calls the library.
