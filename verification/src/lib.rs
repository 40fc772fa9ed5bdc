pub mod config;
pub mod embeds;
pub mod payload;
pub mod text;
pub mod utils;
