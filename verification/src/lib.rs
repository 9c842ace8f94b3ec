//! A feed relay: RSS channels are read, new entries are detected per feed and
//! turned into chat messages and embeds.

pub mod channel;
pub mod config;
pub mod handler;
pub mod item;
pub mod logger;
pub mod number;
pub mod str_map;
pub mod text;

pub use channel::{feed_read, FeedError};
pub use config::{load_feeds_from, ConfigError};
pub use handler::{FeedPost, Handler};
pub use item::{entry_id, feed_embed, feed_format, FeedEmbed, FeedItem};
pub use logger::{log_error, log_info, LogLevel, LogRecord};
pub use number::{parse_u64, ParseIntErrorKind};
pub use str_map::StrMap;
