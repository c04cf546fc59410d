//! Pure playback-state and presentation logic for a Spotify command-line
//! client: the repeat-state cycle with its external mapping and token
//! grammar, the sharing-URL to URI convertor, the duration pretty-printer,
//! and the configuration defaulting rules.

pub mod config;
pub mod error;
pub mod pretty_duration;
pub mod repeat_state;
pub mod shuffle_state;
pub mod url_convert;
