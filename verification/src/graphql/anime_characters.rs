//! The answer to the `AnimeCharacters` query: one page of the characters of
//! an anime, each with its voice actors.

use vstd::prelude::*;

use super::character_info;

verus! {

#[derive(Clone, Debug)]
pub struct Variables {
    pub page: i64,
    pub anime_id: i64,
    pub per_page: i64,
}

#[derive(Clone, Debug)]
pub struct ResponseData {
    pub media: Option<AnimeCharactersMedia>,
}

#[derive(Clone, Debug)]
pub struct AnimeCharactersMedia {
    pub characters: Option<AnimeCharactersMediaCharacters>,
}

#[derive(Clone, Debug)]
pub struct AnimeCharactersMediaCharacters {
    pub page_info: Option<AnimeCharactersMediaCharactersPageInfo>,
    pub edges: Option<Vec<Option<AnimeCharactersMediaCharactersEdges>>>,
}

#[derive(Clone, Debug)]
pub struct AnimeCharactersMediaCharactersPageInfo {
    pub has_next_page: Option<bool>,
}

/// A character's name has the same shape in both character queries.
pub type AnimeCharactersMediaCharactersEdgesNodeName = character_info::CharacterInfoCharacterName;

pub type AnimeCharactersMediaCharactersEdgesNodeImage = character_info::CharacterInfoCharacterImage;

pub type AnimeCharactersMediaCharactersEdgesNodeDateOfBirth =
    character_info::CharacterInfoCharacterDateOfBirth;

#[derive(Clone, Debug)]
pub struct AnimeCharactersMediaCharactersEdgesNode {
    pub id: i64,
    pub name: Option<AnimeCharactersMediaCharactersEdgesNodeName>,
    pub image: Option<AnimeCharactersMediaCharactersEdgesNodeImage>,
    pub age: Option<String>,
    pub gender: Option<String>,
    pub description: Option<String>,
    pub date_of_birth: Option<AnimeCharactersMediaCharactersEdgesNodeDateOfBirth>,
}

/// A voice actor role has the same shape in both character queries.
pub type AnimeCharactersMediaCharactersEdgesVoiceActorRoles =
    character_info::CharacterInfoCharacterMediaEdgesVoiceActorRoles;

#[derive(Clone, Debug)]
pub struct AnimeCharactersMediaCharactersEdges {
    pub node: Option<AnimeCharactersMediaCharactersEdgesNode>,
    pub voice_actor_roles: Option<Vec<Option<AnimeCharactersMediaCharactersEdgesVoiceActorRoles>>>,
}

} // verus!
