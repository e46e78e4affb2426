//! The answer to the `CharacterInfo` query: one character by its id, with
//! the media it appears in and the voice actors of each.

use vstd::prelude::*;

verus! {

#[derive(Clone, Debug)]
pub struct Variables {
    pub id: i64,
}

#[derive(Clone, Debug)]
pub struct ResponseData {
    pub character: Option<CharacterInfoCharacter>,
}

#[derive(Clone, Debug)]
pub struct CharacterInfoCharacterName {
    pub first: Option<String>,
    pub last: Option<String>,
    pub native: Option<String>,
}

#[derive(Clone, Debug)]
pub struct CharacterInfoCharacterImage {
    pub large: Option<String>,
    pub medium: Option<String>,
}

#[derive(Clone, Debug)]
pub struct CharacterInfoCharacterDateOfBirth {
    pub year: Option<i64>,
    pub month: Option<i64>,
    pub day: Option<i64>,
}

#[derive(Clone, Debug)]
pub struct CharacterInfoCharacterMediaEdgesNodeTitle {
    pub romaji: Option<String>,
}

#[derive(Debug)]
pub struct CharacterInfoCharacterMediaEdgesNode {
    pub id: i64,
    pub title: Option<CharacterInfoCharacterMediaEdgesNodeTitle>,
}

/// The romaji title of a medium, where it has one.
pub open spec fn node_romaji(node: CharacterInfoCharacterMediaEdgesNode) -> Option<String> {
    match node.title {
        Some(t) => t.romaji,
        None => None,
    }
}

/// A copy of a medium keeps its id and its romaji title; the copy always has
/// a title, empty where the medium had none.
impl Clone for CharacterInfoCharacterMediaEdgesNode {
    fn clone(&self) -> (c: Self)
        ensures
            c.id == self.id,
            c.title == Some(CharacterInfoCharacterMediaEdgesNodeTitle { romaji: node_romaji(*self) }),
    {
        let romaji = match &self.title {
            Some(title) => match &title.romaji {
                Some(r) => Some(r.clone()),
                None => None,
            },
            None => None,
        };
        CharacterInfoCharacterMediaEdgesNode {
            id: self.id,
            title: Some(CharacterInfoCharacterMediaEdgesNodeTitle { romaji }),
        }
    }
}

#[derive(Clone, Debug)]
pub struct CharacterInfoCharacterMediaEdgesVoiceActorRolesVoiceActorName {
    pub first: Option<String>,
    pub last: Option<String>,
}

#[derive(Clone, Debug)]
pub struct CharacterInfoCharacterMediaEdgesVoiceActorRolesVoiceActor {
    pub id: i64,
    pub name: Option<CharacterInfoCharacterMediaEdgesVoiceActorRolesVoiceActorName>,
}

#[derive(Clone, Debug)]
pub struct CharacterInfoCharacterMediaEdgesVoiceActorRoles {
    pub voice_actor: Option<CharacterInfoCharacterMediaEdgesVoiceActorRolesVoiceActor>,
}

#[derive(Clone, Debug)]
pub struct CharacterInfoCharacterMediaEdges {
    pub node: Option<CharacterInfoCharacterMediaEdgesNode>,
    pub voice_actor_roles: Option<Vec<Option<CharacterInfoCharacterMediaEdgesVoiceActorRoles>>>,
}

#[derive(Clone, Debug)]
pub struct CharacterInfoCharacterMedia {
    pub edges: Option<Vec<Option<CharacterInfoCharacterMediaEdges>>>,
}

#[derive(Clone, Debug)]
pub struct CharacterInfoCharacter {
    pub id: i64,
    pub name: Option<CharacterInfoCharacterName>,
    pub image: Option<CharacterInfoCharacterImage>,
    pub age: Option<String>,
    pub gender: Option<String>,
    pub description: Option<String>,
    pub date_of_birth: Option<CharacterInfoCharacterDateOfBirth>,
    pub media: Option<CharacterInfoCharacterMedia>,
}

} // verus!
