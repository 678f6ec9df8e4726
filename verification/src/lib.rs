//! Mirrors posts of subreddits to Mastodon accounts.
//!
//! The library holds the rules of the mirror: which posts are new, how a
//! gfycat link is reduced to its name, how a configuration becomes a mirror,
//! and the addresses of the Mastodon endpoints. Network, files and clocks are
//! left to the program around it.

pub mod config;
pub mod error;
pub mod mastodon;
pub mod reddit;
pub mod sync_data;
pub mod text;
