use ani::graphql::anime_characters::{
    AnimeCharactersMediaCharactersEdgesNode,
};
use ani::graphql::anime_info::{
    AnimeInfoMedia, AnimeInfoMediaCoverImage, AnimeInfoMediaTitle, MediaFormat as InfoFormat,
    MediaSeason as InfoSeason, MediaStatus as InfoStatus,
};
use ani::graphql::anime_search::{
    AnimeSearchPageResults, AnimeSearchPageResultsCoverImage, AnimeSearchPageResultsTitle,
    MediaFormat as SearchFormat, MediaSeason as SearchSeason,
};
use ani::graphql::character_info::{
    CharacterInfoCharacter, CharacterInfoCharacterDateOfBirth, CharacterInfoCharacterImage,
    CharacterInfoCharacterMedia, CharacterInfoCharacterMediaEdges,
    CharacterInfoCharacterMediaEdgesNode, CharacterInfoCharacterMediaEdgesNodeTitle,
    CharacterInfoCharacterMediaEdgesVoiceActorRoles,
    CharacterInfoCharacterMediaEdgesVoiceActorRolesVoiceActor,
    CharacterInfoCharacterMediaEdgesVoiceActorRolesVoiceActorName, CharacterInfoCharacterName,
};
use ani::models::{Anime, Character, MediaFormat, MediaSeason, MediaStatus};

fn s(x: &str) -> Option<String> {
    Some(x.to_string())
}

fn role(id: i64, last: &str) -> Option<CharacterInfoCharacterMediaEdgesVoiceActorRoles> {
    Some(CharacterInfoCharacterMediaEdgesVoiceActorRoles {
        voice_actor: Some(CharacterInfoCharacterMediaEdgesVoiceActorRolesVoiceActor {
            id,
            name: Some(CharacterInfoCharacterMediaEdgesVoiceActorRolesVoiceActorName {
                first: None,
                last: s(last),
            }),
        }),
    })
}

fn node(id: i64, romaji: Option<String>) -> Option<CharacterInfoCharacterMediaEdgesNode> {
    Some(CharacterInfoCharacterMediaEdgesNode {
        id,
        title: Some(CharacterInfoCharacterMediaEdgesNodeTitle { romaji }),
    })
}

pub fn claire() -> CharacterInfoCharacter {
    CharacterInfoCharacter {
        id: 138101,
        name: Some(CharacterInfoCharacterName {
            first: s("Claire"),
            last: s("Fran\u{e7}ois"),
            native: s("\u{30af}\u{30ec}\u{30a2}"),
        }),
        image: Some(CharacterInfoCharacterImage { large: s("large.png"), medium: s("medium.png") }),
        age: s("15-17"),
        gender: s("Female"),
        description: s("A noble."),
        date_of_birth: Some(CharacterInfoCharacterDateOfBirth { year: None, month: Some(3), day: Some(28) }),
        media: Some(CharacterInfoCharacterMedia {
            edges: Some(vec![
                Some(CharacterInfoCharacterMediaEdges {
                    node: node(158704, s("Watashi no Oshi wa Akuyaku Reijou")),
                    voice_actor_roles: Some(vec![role(122695, "Nanami"), None, role(5, "Other")]),
                }),
                None,
                Some(CharacterInfoCharacterMediaEdges {
                    node: None,
                    voice_actor_roles: Some(vec![role(122695, "Nanami again")]),
                }),
                Some(CharacterInfoCharacterMediaEdges {
                    node: node(168999, None),
                    voice_actor_roles: Some(vec![role(7, "Third"), role(5, "Other again")]),
                }),
            ]),
        }),
    }
}

#[test]
fn character_keeps_each_voice_actor_once_in_first_order() {
    let c = Character::from_character_info(claire());
    let ids: Vec<i64> = c.voice_actors.iter().map(|va| va.id).collect();
    assert_eq!(ids, vec![122695, 5, 7]);
    assert_eq!(c.voice_actors[0].name.as_ref().unwrap().last.as_deref(), Some("Nanami"));
    assert_eq!(c.voice_actors[0].name.as_ref().unwrap().native, None);
    assert_eq!(c.voice_actors[1].name.as_ref().unwrap().last.as_deref(), Some("Other"));
    let appears: Vec<(i64, Option<String>)> = c.appears_in.iter().map(|a| (a.id, a.title.clone())).collect();
    assert_eq!(appears, vec![(158704, s("Watashi no Oshi wa Akuyaku Reijou")), (168999, None)]);
    assert_eq!(c.id, 138101);
    assert_eq!(c.age.as_deref(), Some("15-17"));
    assert_eq!(c.name.as_ref().unwrap().first.as_deref(), Some("Claire"));
    assert_eq!(c.image.as_ref().unwrap().large.as_deref(), Some("large.png"));
    assert_eq!(c.date_of_birth.as_ref().unwrap().month, Some(3));
}

#[test]
fn character_without_media() {
    let mut info = claire();
    info.media = None;
    let c = Character::from_character_info(info);
    assert!(c.voice_actors.is_empty());
    assert!(c.appears_in.is_empty());
    let mut info = claire();
    info.media = Some(CharacterInfoCharacterMedia { edges: None });
    let c = Character::from_character_info(info);
    assert!(c.voice_actors.is_empty());
}

#[test]
fn character_of_anime_characters_edge() {
    let n = AnimeCharactersMediaCharactersEdgesNode {
        id: 40,
        name: Some(CharacterInfoCharacterName { first: s("Riko"), last: None, native: None }),
        image: None,
        age: None,
        gender: s("Female"),
        description: None,
        date_of_birth: None,
    };
    let c = Character::from_anime_characters_edge(n, Some(vec![role(9, "A"), role(9, "B"), None, role(8, "C")]));
    let ids: Vec<i64> = c.voice_actors.iter().map(|va| va.id).collect();
    assert_eq!(ids, vec![9, 8]);
    assert!(c.appears_in.is_empty());
    assert_eq!(c.id, 40);
    assert_eq!(c.gender.as_deref(), Some("Female"));
    let n2 = AnimeCharactersMediaCharactersEdgesNode {
        id: 41, name: None, image: None, age: None, gender: None, description: None, date_of_birth: None,
    };
    assert!(Character::from_anime_characters_edge(n2, None).voice_actors.is_empty());
}

pub fn abyss() -> AnimeInfoMedia {
    AnimeInfoMedia {
        id: 97986,
        title: Some(AnimeInfoMediaTitle { romaji: s("Made in Abyss"), native: s("\u{30e1}\u{30a4}\u{30c9}") }),
        genres: Some(vec![s("Adventure"), s("Drama")]),
        format: Some(InfoFormat::TV),
        status: Some(InfoStatus::FINISHED),
        season: Some(InfoSeason::SUMMER),
        episodes: Some(13),
        site_url: s("https://anilist.co/anime/97986"),
        cover_image: Some(AnimeInfoMediaCoverImage { extra_large: s("xl.png") }),
        season_year: Some(2017),
        description: s("An enormous cave<br>system."),
        average_score: Some(86),
    }
}

#[test]
fn anime_of_info_answer() {
    let a = Anime::from_info_media(abyss());
    assert_eq!(a.id, 97986);
    assert_eq!(a.genres, Some(vec!["Adventure".to_string(), "Drama".to_string()]));
    assert!(matches!(a.format, Some(MediaFormat::TV)));
    assert!(matches!(a.status, Some(MediaStatus::FINISHED)));
    assert!(matches!(a.season, Some(MediaSeason::SUMMER)));
    let cover = a.cover_image.unwrap();
    assert_eq!(cover.extra_large.as_deref(), Some("xl.png"));
    assert_eq!(cover.medium, None);
}

#[test]
fn genres_are_all_or_nothing() {
    let mut m = abyss();
    m.genres = None;
    assert_eq!(Anime::from_info_media(m).genres, Some(Vec::new()));
    let mut m = abyss();
    m.genres = Some(vec![s("Drama"), None]);
    assert_eq!(Anime::from_info_media(m).genres, None);
    let mut m = abyss();
    m.genres = Some(Vec::new());
    assert_eq!(Anime::from_info_media(m).genres, Some(Vec::new()));
}

#[test]
fn anime_of_search_result() {
    let r = AnimeSearchPageResults {
        id: 1,
        title: Some(AnimeSearchPageResultsTitle { romaji: s("R"), native: None }),
        format: Some(SearchFormat::TV_SHORT),
        season: Some(SearchSeason::Other("LATER".to_string())),
        episodes: Some(1),
        season_year: None,
        cover_image: Some(AnimeSearchPageResultsCoverImage { medium: s("m.png") }),
    };
    let a = Anime::from_search_result(r);
    assert!(a.genres.is_none() && a.status.is_none() && a.site_url.is_none());
    assert!(a.description.is_none() && a.average_score.is_none());
    assert_eq!(a.format.as_ref().unwrap().label(), "TV Short");
    assert_eq!(a.season.as_ref().unwrap().label(), "Unknown");
    let cover = a.cover_image.unwrap();
    assert_eq!(cover.medium.as_deref(), Some("m.png"));
    assert_eq!(cover.extra_large, None);
}

#[test]
fn labels() {
    assert_eq!(MediaSeason::FALL.label(), "Fall");
    assert_eq!(MediaSeason::WINTER.label(), "Winter");
    assert_eq!(MediaSeason::SPRING.label(), "Spring");
    assert_eq!(MediaSeason::SUMMER.label(), "Summer");
    assert_eq!(MediaFormat::TV.label(), "TV");
    assert_eq!(MediaFormat::OVA.label(), "OVA");
    assert_eq!(MediaFormat::ONA.label(), "ONA");
    assert_eq!(MediaFormat::MANGA.label(), "Manga");
    assert_eq!(MediaFormat::MOVIE.label(), "Movie");
    assert_eq!(MediaFormat::NOVEL.label(), "Novel");
    assert_eq!(MediaFormat::MUSIC.label(), "Music");
    assert_eq!(MediaFormat::SPECIAL.label(), "Special");
    assert_eq!(MediaFormat::OneShot.label(), "One Shot");
    assert_eq!(MediaFormat::TvShort.label(), "TV Short");
    assert_eq!(MediaFormat::Other("X".to_string()).label(), "Unknown");
    assert_eq!(MediaStatus::HIATUS.label(), "Hiatus");
    assert_eq!(MediaStatus::FINISHED.label(), "Finished");
    assert_eq!(MediaStatus::RELEASING.label(), "Releasing");
    assert_eq!(MediaStatus::CANCELLED.label(), "Cancelled");
    assert_eq!(MediaStatus::NotYetReleased.label(), "Not Yet Released");
    assert_eq!(MediaStatus::Other("X".to_string()).label(), "Unknown");
    assert!(matches!(MediaStatus::from_info(InfoStatus::NOT_YET_RELEASED), MediaStatus::NotYetReleased));
    assert!(matches!(MediaFormat::from_info(InfoFormat::ONE_SHOT), MediaFormat::OneShot));
    assert!(matches!(MediaSeason::from_search(SearchSeason::FALL), MediaSeason::FALL));
}

#[test]
fn copied_node_always_has_a_title() {
    let n = CharacterInfoCharacterMediaEdgesNode { id: 3, title: None };
    let c = n.clone();
    assert_eq!(c.id, 3);
    assert!(c.title.is_some());
    assert_eq!(c.title.unwrap().romaji, None);
    let n = CharacterInfoCharacterMediaEdgesNode {
        id: 4,
        title: Some(CharacterInfoCharacterMediaEdgesNodeTitle { romaji: s("R") }),
    };
    let c = n.clone();
    assert_eq!(c.title.unwrap().romaji.as_deref(), Some("R"));
    let a = ani::models::CharacterAppearsIn::from_node(n.clone());
    assert_eq!((a.id, a.title.as_deref()), (4, Some("R")));
}
