//! Data model, response handling, text layout and shell-completion logic of
//! the `ani` command-line client for AniList.

pub mod text;
pub mod graphql;
pub mod models;
pub mod anilist;
pub mod pattern;
pub mod display;
pub mod completion;
