//! Score performance resolution for an osu! chat bot: argument and selector
//! resolution, the beatmap cache, accuracy and performance figures.

pub mod text;
pub mod mode;
pub mod args;
pub mod score;
pub mod error;
pub mod link;
pub mod selector;
pub mod cache;
pub mod performance;
pub mod message;
pub mod profile;
