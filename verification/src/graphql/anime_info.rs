//! The answer to the `AnimeInfo` query: one anime by its id.

use vstd::prelude::*;

verus! {

#[derive(Clone, Debug)]
pub struct Variables {
    pub id: i64,
}

#[derive(Clone, Debug)]
pub struct ResponseData {
    pub media: Option<AnimeInfoMedia>,
}

#[allow(non_camel_case_types)]
#[derive(Clone, Debug)]
pub enum MediaSeason {
    WINTER,
    SPRING,
    SUMMER,
    FALL,
    Other(String),
}

#[allow(non_camel_case_types)]
#[derive(Clone, Debug)]
pub enum MediaFormat {
    TV,
    TV_SHORT,
    MOVIE,
    SPECIAL,
    OVA,
    ONA,
    MUSIC,
    MANGA,
    NOVEL,
    ONE_SHOT,
    Other(String),
}

#[allow(non_camel_case_types)]
#[derive(Clone, Debug)]
pub enum MediaStatus {
    FINISHED,
    RELEASING,
    NOT_YET_RELEASED,
    CANCELLED,
    HIATUS,
    Other(String),
}

#[derive(Clone, Debug)]
pub struct AnimeInfoMediaTitle {
    pub romaji: Option<String>,
    pub native: Option<String>,
}

#[derive(Clone, Debug)]
pub struct AnimeInfoMediaCoverImage {
    pub extra_large: Option<String>,
}

#[derive(Clone, Debug)]
pub struct AnimeInfoMedia {
    pub id: i64,
    pub title: Option<AnimeInfoMediaTitle>,
    pub genres: Option<Vec<Option<String>>>,
    pub format: Option<MediaFormat>,
    pub status: Option<MediaStatus>,
    pub season: Option<MediaSeason>,
    pub episodes: Option<i64>,
    pub site_url: Option<String>,
    pub cover_image: Option<AnimeInfoMediaCoverImage>,
    pub season_year: Option<i64>,
    pub description: Option<String>,
    pub average_score: Option<i64>,
}

} // verus!
