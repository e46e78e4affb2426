//! The data that the AniList GraphQL queries of the client answer with, as
//! plain values, one module per query.

pub mod anime_characters;
pub mod anime_completion_search;
pub mod anime_info;
pub mod anime_search;
pub mod character_info;
pub mod response;
