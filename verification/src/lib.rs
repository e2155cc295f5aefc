//! Core logic of a self-hosted Discord music bot.

pub mod text;
pub mod url_parts;
pub mod youtube_playlist;
pub mod preplay;
pub mod guild_state;
pub mod play;
pub mod voice_idle;
pub mod replies;
