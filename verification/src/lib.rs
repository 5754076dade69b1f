//! Song records of a song recognizer: identifiers, the song model and its builder.

pub mod date_time;
pub mod external_links;
pub mod song_id;

pub use date_time::DateTime;
pub use external_links::{ExternalLink, ExternalLinkKey, ExternalLinks};
pub use song_id::SongId;
pub mod song;
pub use song::{Song, SongBuilder, SongError, SongRecord};
