//! The client's own model of anime and characters, and how the answers of
//! the GraphQL queries turn into it.

use vstd::prelude::*;
use std::collections::HashSet;

use crate::graphql::{anime_characters, anime_info, anime_search, character_info};

verus! {

broadcast use vstd::std_specs::hash::group_hash_axioms;

// ---------------------------------------------------------------------------
// Sequences of optional items
// ---------------------------------------------------------------------------

/// The items of an optional list; none when the list is absent.
pub open spec fn listed<T>(o: Option<Vec<T>>) -> Seq<T> {
    match o {
        Some(v) => v@,
        None => Seq::empty(),
    }
}

/// The items that are present, in order, skipping the absent ones.
pub open spec fn present<T>(s: Seq<Option<T>>) -> Seq<T>
    decreases s.len(),
{
    if s.len() == 0 {
        Seq::empty()
    } else {
        present(s.drop_last()) + match s.last() {
            Some(x) => seq![x],
            None => Seq::empty(),
        }
    }
}

proof fn lemma_present_push<T>(s: Seq<Option<T>>, x: Option<T>)
    ensures
        present(s.push(x)) == present(s) + match x {
            Some(y) => seq![y],
            None => Seq::<T>::empty(),
        },
{
    assert(s.push(x).drop_last() =~= s);
}

/// All items of a list when every one of them is present, otherwise nothing:
/// what collecting an iterator of `Option`s into an `Option<Vec<_>>` gives.
pub open spec fn collected<T>(s: Seq<Option<T>>) -> Option<Seq<T>> {
    if forall|i: int| 0 <= i < s.len() ==> (#[trigger] s[i]) is Some {
        Some(present(s))
    } else {
        None
    }
}

/// The view of an optional list of strings.
pub open spec fn strings_view(o: Option<Vec<String>>) -> Option<Seq<String>> {
    match o {
        Some(v) => Some(v@),
        None => None,
    }
}

/// Collects a list of optional strings into a list when every one of them
/// is present.
fn collect_present(list: Vec<Option<String>>) -> (res: Option<Vec<String>>)
    ensures
        strings_view(res) == collected(list@),
{
    let ghost all = list@;
    let mut out: Vec<String> = Vec::new();
    let mut complete = true;
    for item in it: list.into_iter()
        invariant
            it.seq() == all,
            complete == (forall|i: int| 0 <= i < it.index() ==> (#[trigger] all[i]) is Some),
            complete ==> out@ == present(all.take(it.index() as int)),
    {
        proof {
            assert(all.take(it.index() + 1) =~= all.take(it.index() as int).push(
                all[it.index() as int],
            ));
            lemma_present_push(all.take(it.index() as int), all[it.index() as int]);
        }
        match item {
            Some(x) => {
                if complete {
                    out.push(x);
                }
            },
            None => {
                complete = false;
            },
        }
    }
    assert(all.take(all.len() as int) =~= all);
    if complete {
        Some(out)
    } else {
        None
    }
}

// ---------------------------------------------------------------------------
// Titles, cover images, seasons, formats, statuses
// ---------------------------------------------------------------------------

#[derive(Debug)]
pub struct MediaTitle {
    pub romaji: Option<String>,
    pub native: Option<String>,
}

impl MediaTitle {
    pub fn from_info_title(value: anime_info::AnimeInfoMediaTitle) -> (t: MediaTitle)
        ensures
            t == (MediaTitle { romaji: value.romaji, native: value.native }),
    {
        MediaTitle { romaji: value.romaji, native: value.native }
    }

    pub fn from_search_title(value: anime_search::AnimeSearchPageResultsTitle) -> (t: MediaTitle)
        ensures
            t == (MediaTitle { romaji: value.romaji, native: value.native }),
    {
        MediaTitle { romaji: value.romaji, native: value.native }
    }
}

#[derive(Debug)]
pub struct MediaCoverImage {
    pub medium: Option<String>,
    pub extra_large: Option<String>,
}

impl MediaCoverImage {
    /// The cover of an `AnimeInfo` answer: the extra large image only.
    pub fn from_info_cover(value: anime_info::AnimeInfoMediaCoverImage) -> (c: MediaCoverImage)
        ensures
            c == (MediaCoverImage { medium: None, extra_large: value.extra_large }),
    {
        MediaCoverImage { medium: None, extra_large: value.extra_large }
    }

    /// The cover of an `AnimeSearch` answer: the medium image only.
    pub fn from_search_cover(value: anime_search::AnimeSearchPageResultsCoverImage) -> (c:
        MediaCoverImage)
        ensures
            c == (MediaCoverImage { medium: value.medium, extra_large: None }),
    {
        MediaCoverImage { medium: value.medium, extra_large: None }
    }
}

#[derive(Debug)]
pub enum MediaSeason {
    FALL,
    WINTER,
    SPRING,
    SUMMER,
    Other(String),
}

/// How a season reads when shown.
pub open spec fn season_label(s: MediaSeason) -> Seq<char> {
    match s {
        MediaSeason::FALL => "Fall"@,
        MediaSeason::WINTER => "Winter"@,
        MediaSeason::SPRING => "Spring"@,
        MediaSeason::SUMMER => "Summer"@,
        MediaSeason::Other(_) => "Unknown"@,
    }
}

pub open spec fn season_of_info(s: anime_info::MediaSeason) -> MediaSeason {
    match s {
        anime_info::MediaSeason::FALL => MediaSeason::FALL,
        anime_info::MediaSeason::WINTER => MediaSeason::WINTER,
        anime_info::MediaSeason::SPRING => MediaSeason::SPRING,
        anime_info::MediaSeason::SUMMER => MediaSeason::SUMMER,
        anime_info::MediaSeason::Other(o) => MediaSeason::Other(o),
    }
}

pub open spec fn season_of_search(s: anime_search::MediaSeason) -> MediaSeason {
    match s {
        anime_search::MediaSeason::FALL => MediaSeason::FALL,
        anime_search::MediaSeason::WINTER => MediaSeason::WINTER,
        anime_search::MediaSeason::SPRING => MediaSeason::SPRING,
        anime_search::MediaSeason::SUMMER => MediaSeason::SUMMER,
        anime_search::MediaSeason::Other(o) => MediaSeason::Other(o),
    }
}

impl MediaSeason {
    /// The season's name as it is shown ("Fall", ..., or "Unknown").
    pub fn label(&self) -> (l: &'static str)
        ensures
            l@ == season_label(*self),
    {
        match self {
            MediaSeason::FALL => "Fall",
            MediaSeason::WINTER => "Winter",
            MediaSeason::SPRING => "Spring",
            MediaSeason::SUMMER => "Summer",
            MediaSeason::Other(_) => "Unknown",
        }
    }

    pub fn from_info(value: anime_info::MediaSeason) -> (s: MediaSeason)
        ensures
            s == season_of_info(value),
    {
        match value {
            anime_info::MediaSeason::FALL => MediaSeason::FALL,
            anime_info::MediaSeason::WINTER => MediaSeason::WINTER,
            anime_info::MediaSeason::SPRING => MediaSeason::SPRING,
            anime_info::MediaSeason::SUMMER => MediaSeason::SUMMER,
            anime_info::MediaSeason::Other(o) => MediaSeason::Other(o),
        }
    }

    pub fn from_search(value: anime_search::MediaSeason) -> (s: MediaSeason)
        ensures
            s == season_of_search(value),
    {
        match value {
            anime_search::MediaSeason::FALL => MediaSeason::FALL,
            anime_search::MediaSeason::WINTER => MediaSeason::WINTER,
            anime_search::MediaSeason::SPRING => MediaSeason::SPRING,
            anime_search::MediaSeason::SUMMER => MediaSeason::SUMMER,
            anime_search::MediaSeason::Other(o) => MediaSeason::Other(o),
        }
    }
}

#[derive(Debug)]
pub enum MediaFormat {
    TV,
    OVA,
    ONA,
    MANGA,
    MOVIE,
    NOVEL,
    MUSIC,
    SPECIAL,
    OneShot,
    TvShort,
    Other(String),
}

/// How a format reads when shown.
pub open spec fn format_label(f: MediaFormat) -> Seq<char> {
    match f {
        MediaFormat::TV => "TV"@,
        MediaFormat::OVA => "OVA"@,
        MediaFormat::ONA => "ONA"@,
        MediaFormat::MANGA => "Manga"@,
        MediaFormat::MOVIE => "Movie"@,
        MediaFormat::NOVEL => "Novel"@,
        MediaFormat::MUSIC => "Music"@,
        MediaFormat::SPECIAL => "Special"@,
        MediaFormat::OneShot => "One Shot"@,
        MediaFormat::TvShort => "TV Short"@,
        MediaFormat::Other(_) => "Unknown"@,
    }
}

pub open spec fn format_of_info(f: anime_info::MediaFormat) -> MediaFormat {
    match f {
        anime_info::MediaFormat::TV => MediaFormat::TV,
        anime_info::MediaFormat::OVA => MediaFormat::OVA,
        anime_info::MediaFormat::ONA => MediaFormat::ONA,
        anime_info::MediaFormat::MOVIE => MediaFormat::MOVIE,
        anime_info::MediaFormat::MUSIC => MediaFormat::MUSIC,
        anime_info::MediaFormat::MANGA => MediaFormat::MANGA,
        anime_info::MediaFormat::NOVEL => MediaFormat::NOVEL,
        anime_info::MediaFormat::SPECIAL => MediaFormat::SPECIAL,
        anime_info::MediaFormat::TV_SHORT => MediaFormat::TvShort,
        anime_info::MediaFormat::ONE_SHOT => MediaFormat::OneShot,
        anime_info::MediaFormat::Other(o) => MediaFormat::Other(o),
    }
}

pub open spec fn format_of_search(f: anime_search::MediaFormat) -> MediaFormat {
    match f {
        anime_search::MediaFormat::TV => MediaFormat::TV,
        anime_search::MediaFormat::OVA => MediaFormat::OVA,
        anime_search::MediaFormat::ONA => MediaFormat::ONA,
        anime_search::MediaFormat::MOVIE => MediaFormat::MOVIE,
        anime_search::MediaFormat::MUSIC => MediaFormat::MUSIC,
        anime_search::MediaFormat::MANGA => MediaFormat::MANGA,
        anime_search::MediaFormat::NOVEL => MediaFormat::NOVEL,
        anime_search::MediaFormat::SPECIAL => MediaFormat::SPECIAL,
        anime_search::MediaFormat::TV_SHORT => MediaFormat::TvShort,
        anime_search::MediaFormat::ONE_SHOT => MediaFormat::OneShot,
        anime_search::MediaFormat::Other(o) => MediaFormat::Other(o),
    }
}

impl MediaFormat {
    /// The format's name as it is shown ("TV", "TV Short", ..., or "Unknown").
    pub fn label(&self) -> (l: &'static str)
        ensures
            l@ == format_label(*self),
    {
        match self {
            MediaFormat::TV => "TV",
            MediaFormat::OVA => "OVA",
            MediaFormat::ONA => "ONA",
            MediaFormat::MANGA => "Manga",
            MediaFormat::MOVIE => "Movie",
            MediaFormat::NOVEL => "Novel",
            MediaFormat::MUSIC => "Music",
            MediaFormat::SPECIAL => "Special",
            MediaFormat::OneShot => "One Shot",
            MediaFormat::TvShort => "TV Short",
            MediaFormat::Other(_) => "Unknown",
        }
    }

    pub fn from_info(value: anime_info::MediaFormat) -> (f: MediaFormat)
        ensures
            f == format_of_info(value),
    {
        match value {
            anime_info::MediaFormat::TV => MediaFormat::TV,
            anime_info::MediaFormat::OVA => MediaFormat::OVA,
            anime_info::MediaFormat::ONA => MediaFormat::ONA,
            anime_info::MediaFormat::MOVIE => MediaFormat::MOVIE,
            anime_info::MediaFormat::MUSIC => MediaFormat::MUSIC,
            anime_info::MediaFormat::MANGA => MediaFormat::MANGA,
            anime_info::MediaFormat::NOVEL => MediaFormat::NOVEL,
            anime_info::MediaFormat::SPECIAL => MediaFormat::SPECIAL,
            anime_info::MediaFormat::TV_SHORT => MediaFormat::TvShort,
            anime_info::MediaFormat::ONE_SHOT => MediaFormat::OneShot,
            anime_info::MediaFormat::Other(o) => MediaFormat::Other(o),
        }
    }

    pub fn from_search(value: anime_search::MediaFormat) -> (f: MediaFormat)
        ensures
            f == format_of_search(value),
    {
        match value {
            anime_search::MediaFormat::TV => MediaFormat::TV,
            anime_search::MediaFormat::OVA => MediaFormat::OVA,
            anime_search::MediaFormat::ONA => MediaFormat::ONA,
            anime_search::MediaFormat::MOVIE => MediaFormat::MOVIE,
            anime_search::MediaFormat::MUSIC => MediaFormat::MUSIC,
            anime_search::MediaFormat::MANGA => MediaFormat::MANGA,
            anime_search::MediaFormat::NOVEL => MediaFormat::NOVEL,
            anime_search::MediaFormat::SPECIAL => MediaFormat::SPECIAL,
            anime_search::MediaFormat::TV_SHORT => MediaFormat::TvShort,
            anime_search::MediaFormat::ONE_SHOT => MediaFormat::OneShot,
            anime_search::MediaFormat::Other(o) => MediaFormat::Other(o),
        }
    }
}

#[derive(Debug)]
pub enum MediaStatus {
    HIATUS,
    FINISHED,
    RELEASING,
    CANCELLED,
    NotYetReleased,
    Other(String),
}

/// How a status reads when shown.
pub open spec fn status_label(s: MediaStatus) -> Seq<char> {
    match s {
        MediaStatus::HIATUS => "Hiatus"@,
        MediaStatus::FINISHED => "Finished"@,
        MediaStatus::RELEASING => "Releasing"@,
        MediaStatus::CANCELLED => "Cancelled"@,
        MediaStatus::NotYetReleased => "Not Yet Released"@,
        MediaStatus::Other(_) => "Unknown"@,
    }
}

pub open spec fn status_of_info(s: anime_info::MediaStatus) -> MediaStatus {
    match s {
        anime_info::MediaStatus::HIATUS => MediaStatus::HIATUS,
        anime_info::MediaStatus::FINISHED => MediaStatus::FINISHED,
        anime_info::MediaStatus::RELEASING => MediaStatus::RELEASING,
        anime_info::MediaStatus::CANCELLED => MediaStatus::CANCELLED,
        anime_info::MediaStatus::Other(o) => MediaStatus::Other(o),
        anime_info::MediaStatus::NOT_YET_RELEASED => MediaStatus::NotYetReleased,
    }
}

impl MediaStatus {
    /// The status as it is shown ("Finished", ..., or "Unknown").
    pub fn label(&self) -> (l: &'static str)
        ensures
            l@ == status_label(*self),
    {
        match self {
            MediaStatus::HIATUS => "Hiatus",
            MediaStatus::FINISHED => "Finished",
            MediaStatus::RELEASING => "Releasing",
            MediaStatus::CANCELLED => "Cancelled",
            MediaStatus::NotYetReleased => "Not Yet Released",
            MediaStatus::Other(_) => "Unknown",
        }
    }

    pub fn from_info(value: anime_info::MediaStatus) -> (s: MediaStatus)
        ensures
            s == status_of_info(value),
    {
        match value {
            anime_info::MediaStatus::HIATUS => MediaStatus::HIATUS,
            anime_info::MediaStatus::FINISHED => MediaStatus::FINISHED,
            anime_info::MediaStatus::RELEASING => MediaStatus::RELEASING,
            anime_info::MediaStatus::CANCELLED => MediaStatus::CANCELLED,
            anime_info::MediaStatus::Other(o) => MediaStatus::Other(o),
            anime_info::MediaStatus::NOT_YET_RELEASED => MediaStatus::NotYetReleased,
        }
    }
}

// ---------------------------------------------------------------------------
// Anime
// ---------------------------------------------------------------------------

#[derive(Debug)]
pub struct Anime {
    pub id: i64,
    pub title: Option<MediaTitle>,
    pub genres: Option<Vec<String>>,
    pub format: Option<MediaFormat>,
    pub status: Option<MediaStatus>,
    pub season: Option<MediaSeason>,
    pub episodes: Option<i64>,
    pub site_url: Option<String>,
    pub cover_image: Option<MediaCoverImage>,
    pub season_year: Option<i64>,
    pub description: Option<String>,
    pub average_score: Option<i64>,
}

/// The genres of an `AnimeInfo` answer in the client's model: an absent list
/// reads as no genres; a list with an absent genre reads as unknown genres.
pub open spec fn info_genres(g: Option<Vec<Option<String>>>) -> Option<Seq<String>> {
    match g {
        None => Some(Seq::empty()),
        Some(v) => collected(v@),
    }
}

/// Whether `anime` is the anime of the `AnimeInfo` answer `media`.
pub open spec fn is_info_anime(anime: Anime, media: anime_info::AnimeInfoMedia) -> bool {
    &&& anime.id == media.id
    &&& anime.title == match media.title {
        Some(t) => Some(MediaTitle { romaji: t.romaji, native: t.native }),
        None => None,
    }
    &&& strings_view(anime.genres) == info_genres(media.genres)
    &&& anime.format == match media.format {
        Some(f) => Some(format_of_info(f)),
        None => None,
    }
    &&& anime.status == match media.status {
        Some(s) => Some(status_of_info(s)),
        None => None,
    }
    &&& anime.season == match media.season {
        Some(s) => Some(season_of_info(s)),
        None => None,
    }
    &&& anime.episodes == media.episodes
    &&& anime.site_url == media.site_url
    &&& anime.cover_image == match media.cover_image {
        Some(c) => Some(MediaCoverImage { medium: None, extra_large: c.extra_large }),
        None => None,
    }
    &&& anime.season_year == media.season_year
    &&& anime.description == media.description
    &&& anime.average_score == media.average_score
}

/// The anime of one `AnimeSearch` result; a search result carries no
/// genres, status, site, description or score.
pub open spec fn anime_of_search(anime: anime_search::AnimeSearchPageResults) -> Anime {
    Anime {
        id: anime.id,
        title: match anime.title {
            Some(t) => Some(MediaTitle { romaji: t.romaji, native: t.native }),
            None => None,
        },
        genres: None,
        format: match anime.format {
            Some(f) => Some(format_of_search(f)),
            None => None,
        },
        status: None,
        season: match anime.season {
            Some(s) => Some(season_of_search(s)),
            None => None,
        },
        episodes: anime.episodes,
        site_url: None,
        cover_image: match anime.cover_image {
            Some(c) => Some(MediaCoverImage { medium: c.medium, extra_large: None }),
            None => None,
        },
        season_year: anime.season_year,
        description: None,
        average_score: None,
    }
}

impl Anime {
    /// The anime of an `AnimeInfo` answer.
    pub fn from_info_media(media: anime_info::AnimeInfoMedia) -> (anime: Anime)
        ensures
            is_info_anime(anime, media),
    {
        let genres = match media.genres {
            None => Some(Vec::new()),
            Some(list) => collect_present(list),
        };
        proof {
            if media.genres is None {
                assert(strings_view(genres) =~= info_genres(media.genres));
            }
        }
        Anime {
            id: media.id,
            title: match media.title {
                Some(t) => Some(MediaTitle::from_info_title(t)),
                None => None,
            },
            status: match media.status {
                Some(s) => Some(MediaStatus::from_info(s)),
                None => None,
            },
            season: match media.season {
                Some(s) => Some(MediaSeason::from_info(s)),
                None => None,
            },
            format: match media.format {
                Some(f) => Some(MediaFormat::from_info(f)),
                None => None,
            },
            genres,
            site_url: media.site_url,
            episodes: media.episodes,
            season_year: media.season_year,
            description: media.description,
            cover_image: match media.cover_image {
                Some(c) => Some(MediaCoverImage::from_info_cover(c)),
                None => None,
            },
            average_score: media.average_score,
        }
    }

    /// The anime of one `AnimeSearch` result; a search result carries no
    /// genres, status, site, description or score.
    pub fn from_search_result(anime: anime_search::AnimeSearchPageResults) -> (a: Anime)
        ensures
            a == anime_of_search(anime),
    {
        Anime {
            id: anime.id,
            genres: None,
            status: None,
            site_url: None,
            description: None,
            average_score: None,
            episodes: anime.episodes,
            season_year: anime.season_year,
            title: match anime.title {
                Some(t) => Some(MediaTitle::from_search_title(t)),
                None => None,
            },
            season: match anime.season {
                Some(s) => Some(MediaSeason::from_search(s)),
                None => None,
            },
            format: match anime.format {
                Some(f) => Some(MediaFormat::from_search(f)),
                None => None,
            },
            cover_image: match anime.cover_image {
                Some(c) => Some(MediaCoverImage::from_search_cover(c)),
                None => None,
            },
        }
    }
}

// ---------------------------------------------------------------------------
// Names, images, dates
// ---------------------------------------------------------------------------

#[derive(Debug)]
pub struct Name {
    pub last: Option<String>,
    pub first: Option<String>,
    pub native: Option<String>,
}

impl Name {
    pub fn from_character_name(value: character_info::CharacterInfoCharacterName) -> (name: Name)
        ensures
            name == (Name { last: value.last, first: value.first, native: value.native }),
    {
        Name { last: value.last, first: value.first, native: value.native }
    }

    /// A voice actor's name; it has no native form.
    pub fn from_voice_actor_name(
        value: character_info::CharacterInfoCharacterMediaEdgesVoiceActorRolesVoiceActorName,
    ) -> (name: Name)
        ensures
            name == (Name { last: value.last, first: value.first, native: None }),
    {
        Name { last: value.last, first: value.first, native: None }
    }
}

#[derive(Debug)]
pub struct FuzzyDate {
    pub day: Option<i64>,
    pub year: Option<i64>,
    pub month: Option<i64>,
}

impl FuzzyDate {
    pub fn from_date_of_birth(value: character_info::CharacterInfoCharacterDateOfBirth) -> (date:
        FuzzyDate)
        ensures
            date == (FuzzyDate { day: value.day, year: value.year, month: value.month }),
    {
        FuzzyDate { day: value.day, year: value.year, month: value.month }
    }
}

#[derive(Debug)]
pub struct CharacterImage {
    pub large: Option<String>,
    pub medium: Option<String>,
}

impl CharacterImage {
    pub fn from_character_image(value: character_info::CharacterInfoCharacterImage) -> (image:
        CharacterImage)
        ensures
            image == (CharacterImage { large: value.large, medium: value.medium }),
    {
        CharacterImage { large: value.large, medium: value.medium }
    }
}

// ---------------------------------------------------------------------------
// Characters
// ---------------------------------------------------------------------------

#[derive(Debug)]
pub struct CharacterAppearsIn {
    pub id: i64,
    pub title: Option<String>,
}

#[derive(Debug)]
pub struct CharacterVoiceActor {
    pub id: i64,
    pub name: Option<Name>,
}

#[derive(Debug)]
pub struct Character {
    pub id: i64,
    pub age: Option<String>,
    pub name: Option<Name>,
    pub image: Option<CharacterImage>,
    pub gender: Option<String>,
    pub appears_in: Vec<CharacterAppearsIn>,
    pub description: Option<String>,
    pub voice_actors: Vec<CharacterVoiceActor>,
    pub date_of_birth: Option<FuzzyDate>,
}

/// The medium that a `CharacterInfo` edge leads to: its id and its romaji
/// title, where there is one.
pub open spec fn appearance(node: character_info::CharacterInfoCharacterMediaEdgesNode) -> CharacterAppearsIn {
    CharacterAppearsIn {
        id: node.id,
        title: match node.title {
            Some(t) => t.romaji,
            None => None,
        },
    }
}

pub open spec fn voice_actor_name(
    n: Option<character_info::CharacterInfoCharacterMediaEdgesVoiceActorRolesVoiceActorName>,
) -> Option<Name> {
    match n {
        Some(n) => Some(Name { last: n.last, first: n.first, native: None }),
        None => None,
    }
}

/// A voice actor of a `CharacterInfo` answer in the client's model.
pub open spec fn voice_actor(
    a: character_info::CharacterInfoCharacterMediaEdgesVoiceActorRolesVoiceActor,
) -> CharacterVoiceActor {
    CharacterVoiceActor { id: a.id, name: voice_actor_name(a.name) }
}

impl CharacterAppearsIn {
    pub fn from_node(node: character_info::CharacterInfoCharacterMediaEdgesNode) -> (r: CharacterAppearsIn)
        ensures
            r == appearance(node),
    {
        let title = match node.title {
            Some(t) => t.romaji,
            None => None,
        };
        CharacterAppearsIn { id: node.id, title }
    }
}

impl CharacterVoiceActor {
    pub fn from_voice_actor(
        value: character_info::CharacterInfoCharacterMediaEdgesVoiceActorRolesVoiceActor,
    ) -> (r: CharacterVoiceActor)
        ensures
            r == voice_actor(value),
    {
        let name = match value.name {
            Some(n) => Some(Name::from_voice_actor_name(n)),
            None => None,
        };
        CharacterVoiceActor { id: value.id, name }
    }
}

/// The ids of a list of voice actors, in order.
pub open spec fn actor_ids(actors: Seq<CharacterVoiceActor>) -> Seq<i64> {
    actors.map_values(|a: CharacterVoiceActor| a.id)
}

/// The voice actors of a list, each id kept at its first occurrence only,
/// in the order of those first occurrences.
pub open spec fn first_by_id(actors: Seq<CharacterVoiceActor>) -> Seq<CharacterVoiceActor>
    decreases actors.len(),
{
    if actors.len() == 0 {
        Seq::empty()
    } else if actor_ids(actors.drop_last()).contains(actors.last().id) {
        first_by_id(actors.drop_last())
    } else {
        first_by_id(actors.drop_last()).push(actors.last())
    }
}

/// The edges of a `CharacterInfo` character that are present.
pub open spec fn character_edges(c: character_info::CharacterInfoCharacter) -> Seq<
    character_info::CharacterInfoCharacterMediaEdges,
> {
    match c.media {
        Some(m) => present(listed(m.edges)),
        None => Seq::empty(),
    }
}

/// The media that the edges lead to, in order.
pub open spec fn appearances(edges: Seq<character_info::CharacterInfoCharacterMediaEdges>) -> Seq<
    CharacterAppearsIn,
>
    decreases edges.len(),
{
    if edges.len() == 0 {
        Seq::empty()
    } else {
        appearances(edges.drop_last()) + match edges.last().node {
            Some(n) => seq![appearance(n)],
            None => Seq::empty(),
        }
    }
}

/// The voice actors named by a list of roles, in order.
pub open spec fn role_actors(
    roles: Seq<character_info::CharacterInfoCharacterMediaEdgesVoiceActorRoles>,
) -> Seq<CharacterVoiceActor>
    decreases roles.len(),
{
    if roles.len() == 0 {
        Seq::empty()
    } else {
        role_actors(roles.drop_last()) + match roles.last().voice_actor {
            Some(a) => seq![voice_actor(a)],
            None => Seq::empty(),
        }
    }
}

/// All voice actors of all edges, in order, repetitions included.
pub open spec fn edge_actors(edges: Seq<character_info::CharacterInfoCharacterMediaEdges>) -> Seq<
    CharacterVoiceActor,
>
    decreases edges.len(),
{
    if edges.len() == 0 {
        Seq::empty()
    } else {
        edge_actors(edges.drop_last()) + role_actors(
            present(listed(edges.last().voice_actor_roles)),
        )
    }
}

proof fn lemma_first_by_id_push(actors: Seq<CharacterVoiceActor>, a: CharacterVoiceActor)
    ensures
        first_by_id(actors.push(a)) == if actor_ids(actors).contains(a.id) {
            first_by_id(actors)
        } else {
            first_by_id(actors).push(a)
        },
{
    assert(actors.push(a).drop_last() =~= actors);
}

proof fn lemma_push_contains(s: Seq<i64>, x: i64, y: i64)
    ensures
        s.push(x).contains(y) <==> (s.contains(y) || x == y),
{
    if s.contains(y) {
        let i = choose|i: int| 0 <= i < s.len() && s[i] == y;
        assert(s.push(x)[i] == y);
    }
    if x == y {
        assert(s.push(x)[s.len() as int] == y);
    }
    if s.push(x).contains(y) {
        let i = choose|i: int| 0 <= i < s.len() + 1 && s.push(x)[i] == y;
        if i < s.len() {
            assert(s[i] == y);
        }
    }
}

/// The ids that `first_by_id` keeps are those of the list.
proof fn lemma_first_by_id_ids(actors: Seq<CharacterVoiceActor>, id: i64)
    ensures
        actor_ids(first_by_id(actors)).contains(id) <==> actor_ids(actors).contains(id),
    decreases actors.len(),
{
    if actors.len() > 0 {
        let prev = actors.drop_last();
        lemma_first_by_id_ids(prev, id);
        assert(actors =~= prev.push(actors.last()));
        assert(actor_ids(actors) =~= actor_ids(prev).push(actors.last().id));
        lemma_push_contains(actor_ids(prev), actors.last().id, id);
        if !actor_ids(prev).contains(actors.last().id) {
            assert(actor_ids(first_by_id(actors)) =~= actor_ids(first_by_id(prev)).push(
                actors.last().id,
            ));
            lemma_push_contains(actor_ids(first_by_id(prev)), actors.last().id, id);
        }
    }
}

pub open spec fn name_of(n: Option<character_info::CharacterInfoCharacterName>) -> Option<Name> {
    match n {
        Some(n) => Some(Name { last: n.last, first: n.first, native: n.native }),
        None => None,
    }
}

pub open spec fn image_of(i: Option<character_info::CharacterInfoCharacterImage>) -> Option<
    CharacterImage,
> {
    match i {
        Some(i) => Some(CharacterImage { large: i.large, medium: i.medium }),
        None => None,
    }
}

pub open spec fn date_of(d: Option<character_info::CharacterInfoCharacterDateOfBirth>) -> Option<
    FuzzyDate,
> {
    match d {
        Some(d) => Some(FuzzyDate { day: d.day, year: d.year, month: d.month }),
        None => None,
    }
}

/// Whether `c` is the character of the `CharacterInfo` answer `character`:
/// the media of all its edges, and its voice actors over all edges, each
/// voice actor once, where it first appears.
pub open spec fn is_info_character(c: Character, character: character_info::CharacterInfoCharacter) -> bool {
    &&& c.id == character.id
    &&& c.age == character.age
    &&& c.name == name_of(character.name)
    &&& c.image == image_of(character.image)
    &&& c.gender == character.gender
    &&& c.description == character.description
    &&& c.date_of_birth == date_of(character.date_of_birth)
    &&& c.appears_in@ == appearances(character_edges(character))
    &&& c.voice_actors@ == first_by_id(edge_actors(character_edges(character)))
}

/// Whether `c` is the character of an `AnimeCharacters` edge with `node` and
/// `roles`: the node, with the voice actors of its roles, each once, where it
/// first appears, and no media.
pub open spec fn is_edge_character(
    c: Character,
    node: anime_characters::AnimeCharactersMediaCharactersEdgesNode,
    roles: Option<Vec<Option<anime_characters::AnimeCharactersMediaCharactersEdgesVoiceActorRoles>>>,
) -> bool {
    &&& c.id == node.id
    &&& c.age == node.age
    &&& c.name == name_of(node.name)
    &&& c.image == image_of(node.image)
    &&& c.gender == node.gender
    &&& c.description == node.description
    &&& c.date_of_birth == date_of(node.date_of_birth)
    &&& c.appears_in@.len() == 0
    &&& c.voice_actors@ == first_by_id(role_actors(present(listed(roles))))
}

/// No two voice actors that `first_by_id` keeps share an id.
proof fn lemma_first_by_id_distinct(actors: Seq<CharacterVoiceActor>)
    ensures
        forall|i: int, j: int|
            0 <= i < j < first_by_id(actors).len() ==> first_by_id(actors)[i].id != first_by_id(
                actors,
            )[j].id,
    decreases actors.len(),
{
    if actors.len() > 0 {
        let prev = actors.drop_last();
        let a = actors.last();
        lemma_first_by_id_distinct(prev);
        if !actor_ids(prev).contains(a.id) {
            let kept = first_by_id(prev);
            lemma_first_by_id_ids(prev, a.id);
            assert forall|i: int| 0 <= i < kept.len() implies kept[i].id != a.id by {
                assert(actor_ids(kept)[i] == kept[i].id);
            }
        }
    }
}

/// Adds the voice actors of `roles` whose ids `seen` does not hold yet to
/// `voice_actors`, in order, and their ids to `seen`.
fn add_role_actors(
    roles: Vec<Option<character_info::CharacterInfoCharacterMediaEdgesVoiceActorRoles>>,
    seen: &mut HashSet<i64>,
    voice_actors: &mut Vec<CharacterVoiceActor>,
    heard: Ghost<Seq<CharacterVoiceActor>>,
)
    requires
        old(voice_actors)@ == first_by_id(heard@),
        forall|id: i64| old(seen)@.contains(id) <==> actor_ids(heard@).contains(id),
    ensures
        final(voice_actors)@ == first_by_id(heard@ + role_actors(present(roles@))),
        forall|id: i64|
            final(seen)@.contains(id) <==> actor_ids(heard@ + role_actors(present(roles@))).contains(
                id,
            ),
{
    let ghost before = heard@;
    let ghost all_roles = roles@;
    let ghost mut done_roles: Seq<character_info::CharacterInfoCharacterMediaEdgesVoiceActorRoles> =
        Seq::empty();
    let ghost mut heard = before;
    for role in rit: roles.into_iter()
        invariant
            rit.seq() == all_roles,
            done_roles == present(all_roles.take(rit.index() as int)),
            heard == before + role_actors(done_roles),
            voice_actors@ == first_by_id(heard),
            forall|id: i64| seen@.contains(id) <==> actor_ids(heard).contains(id),
    {
        proof {
            assert(all_roles.take(rit.index() + 1) =~= all_roles.take(rit.index() as int).push(
                all_roles[rit.index() as int],
            ));
            lemma_present_push(all_roles.take(rit.index() as int), all_roles[rit.index() as int]);
        }
        if let Some(role) = role {
            let ghost r = role;
            if let Some(actor) = role.voice_actor {
                let ghost prev = heard;
                let va = CharacterVoiceActor::from_voice_actor(actor);
                proof {
                    heard = heard.push(va);
                    lemma_first_by_id_push(prev, va);
                    assert(actor_ids(heard) =~= actor_ids(prev).push(va.id));
                    assert forall|id: i64|
                        actor_ids(heard).contains(id) <==> (actor_ids(prev).contains(id) || va.id
                            == id) by {
                        lemma_push_contains(actor_ids(prev), va.id, id);
                    }
                }
                if seen.insert(va.id) {
                    voice_actors.push(va);
                }
            }
            proof {
                let dr = done_roles.push(r);
                assert(dr.drop_last() =~= done_roles);
                done_roles = dr;
            }
        }
        assert(heard =~= before + role_actors(done_roles));
    }
    assert(all_roles.take(all_roles.len() as int) =~= all_roles);
}

impl Character {
    /// The character of a `CharacterInfo` answer: the media of all its edges,
    /// and its voice actors over all edges, each voice actor once, where it
    /// first appears.
    pub fn from_character_info(character: character_info::CharacterInfoCharacter) -> (c: Character)
        ensures
            is_info_character(c, character),
    {
        let mut seen: HashSet<i64> = HashSet::new();
        let mut appears_in: Vec<CharacterAppearsIn> = Vec::new();
        let mut voice_actors: Vec<CharacterVoiceActor> = Vec::new();
        let ghost mut done_edges: Seq<character_info::CharacterInfoCharacterMediaEdges> = Seq::empty();
        let ghost mut heard: Seq<CharacterVoiceActor> = Seq::empty();
        if let Some(media) = character.media {
            if let Some(edge_list) = media.edges {
                let ghost all = edge_list@;
                for edge in it: edge_list.into_iter()
                    invariant
                        it.seq() == all,
                        done_edges == present(all.take(it.index() as int)),
                        appears_in@ == appearances(done_edges),
                        heard == edge_actors(done_edges),
                        voice_actors@ == first_by_id(heard),
                        forall|id: i64| seen@.contains(id) <==> actor_ids(heard).contains(id),
                {
                    proof {
                        assert(all.take(it.index() + 1) =~= all.take(it.index() as int).push(
                            all[it.index() as int],
                        ));
                        lemma_present_push(all.take(it.index() as int), all[it.index() as int]);
                    }
                    if let Some(edge) = edge {
                        let ghost e = edge;
                        if let Some(node) = edge.node {
                            appears_in.push(CharacterAppearsIn::from_node(node));
                        }
                        if let Some(roles) = edge.voice_actor_roles {
                            let ghost before = heard;
                            add_role_actors(roles, &mut seen, &mut voice_actors, Ghost(before));
                            proof {
                                heard = before + role_actors(present(listed(e.voice_actor_roles)));
                            }
                        } else {
                            assert(role_actors(present(listed(e.voice_actor_roles))) =~= Seq::<
                                CharacterVoiceActor,
                            >::empty());
                            assert(heard =~= heard + role_actors(present(listed(e.voice_actor_roles))));
                        }
                        proof {
                            let de = done_edges.push(e);
                            assert(de.drop_last() =~= done_edges);
                            done_edges = de;
                        }
                        assert(heard == edge_actors(done_edges));
                    }
                }
                assert(all.take(all.len() as int) =~= all);
            }
        }
        let name = match character.name {
            Some(n) => Some(Name::from_character_name(n)),
            None => None,
        };
        let image = match character.image {
            Some(i) => Some(CharacterImage::from_character_image(i)),
            None => None,
        };
        let date_of_birth = match character.date_of_birth {
            Some(d) => Some(FuzzyDate::from_date_of_birth(d)),
            None => None,
        };
        Character {
            id: character.id,
            age: character.age,
            name,
            image,
            gender: character.gender,
            appears_in,
            description: character.description,
            voice_actors,
            date_of_birth,
        }
    }
}

impl Character {
    /// The character of an `AnimeCharacters` edge: its node, with the voice
    /// actors of its roles, each voice actor once, where it first appears.
    /// Such an edge names no media, so `appears_in` is empty.
    pub fn from_anime_characters_edge(
        node: anime_characters::AnimeCharactersMediaCharactersEdgesNode,
        roles: Option<Vec<Option<anime_characters::AnimeCharactersMediaCharactersEdgesVoiceActorRoles>>>,
    ) -> (c: Character)
        ensures
            is_edge_character(c, node, roles),
    {
        let mut seen: HashSet<i64> = HashSet::new();
        let mut voice_actors: Vec<CharacterVoiceActor> = Vec::new();
        let ghost heard: Seq<CharacterVoiceActor> = Seq::empty();
        if let Some(role_list) = roles {
            add_role_actors(role_list, &mut seen, &mut voice_actors, Ghost(heard));
            assert(heard + role_actors(present(role_list@)) =~= role_actors(present(role_list@)));
        } else {
            assert(first_by_id(role_actors(present(listed(roles)))) =~= Seq::<
                CharacterVoiceActor,
            >::empty());
        }
        let name = match node.name {
            Some(n) => Some(Name::from_character_name(n)),
            None => None,
        };
        let image = match node.image {
            Some(i) => Some(CharacterImage::from_character_image(i)),
            None => None,
        };
        let date_of_birth = match node.date_of_birth {
            Some(d) => Some(FuzzyDate::from_date_of_birth(d)),
            None => None,
        };
        Character {
            id: node.id,
            age: node.age,
            name,
            image,
            gender: node.gender,
            appears_in: Vec::new(),
            description: node.description,
            voice_actors,
            date_of_birth,
        }
    }
}

/// A copy of a medium stands for the same appearance as the medium: the copy
/// that `clone` makes, with the same id and the romaji title inside a title
/// that is always there, converts to the same `CharacterAppearsIn`.
pub proof fn law_copied_node_same_appearance(
    node: character_info::CharacterInfoCharacterMediaEdgesNode,
    copy: character_info::CharacterInfoCharacterMediaEdgesNode,
)
    requires
        copy.id == node.id,
        copy.title == Some(
            character_info::CharacterInfoCharacterMediaEdgesNodeTitle {
                romaji: character_info::node_romaji(node),
            },
        ),
    ensures
        appearance(copy) == appearance(node),
{
}

/// The voice actors of a converted character are distinct: no id occurs
/// twice among them.
pub proof fn law_voice_actors_distinct(actors: Seq<CharacterVoiceActor>)
    ensures
        forall|i: int, j: int|
            0 <= i < j < first_by_id(actors).len() ==> first_by_id(actors)[i].id != first_by_id(
                actors,
            )[j].id,
{
    lemma_first_by_id_distinct(actors);
}

/// No voice actor is lost: an id occurs among the converted voice actors
/// exactly when it occurs among the voice actors of the answer.
pub proof fn law_voice_actors_complete(actors: Seq<CharacterVoiceActor>, id: i64)
    ensures
        actor_ids(first_by_id(actors)).contains(id) <==> actor_ids(actors).contains(id),
{
    lemma_first_by_id_ids(actors, id);
}

/// Each voice actor that is kept is the first one of the answer that has its
/// id.
pub proof fn law_voice_actors_first(actors: Seq<CharacterVoiceActor>, k: int)
    requires
        0 <= k < first_by_id(actors).len(),
    ensures
        exists|i: int|
            0 <= i < actors.len() && actors[i] == first_by_id(actors)[k] && forall|j: int|
                0 <= j < i ==> actors[j].id != actors[i].id,
    decreases actors.len(),
{
    let prev = actors.drop_last();
    let kept = first_by_id(actors);
    if actor_ids(prev).contains(actors.last().id) || k < first_by_id(prev).len() {
        law_voice_actors_first(prev, k);
        let i = choose|i: int|
            0 <= i < prev.len() && prev[i] == first_by_id(prev)[k] && forall|j: int|
                0 <= j < i ==> prev[j].id != prev[i].id;
        assert(actors[i] == prev[i]);
        assert(kept[k] == first_by_id(prev)[k]);
        assert(forall|j: int| 0 <= j < i ==> actors[j] == prev[j]);
        assert(0 <= i < actors.len() && actors[i] == kept[k] && forall|j: int|
            0 <= j < i ==> actors[j].id != actors[i].id);
    } else {
        let i = actors.len() - 1;
        assert forall|j: int| 0 <= j < i implies actors[j].id != actors[i].id by {
            assert(actor_ids(prev)[j] == prev[j].id);
        }
        assert(kept[k] == actors[i]);
    }
}

// ---------------------------------------------------------------------------
// Laws of the voice actors, over the answer's own voice actors
// ---------------------------------------------------------------------------

/// The voice actors that a list of roles names, as the answer gives them, in
/// order.
pub open spec fn answer_role_actors(
    roles: Seq<character_info::CharacterInfoCharacterMediaEdgesVoiceActorRoles>,
) -> Seq<character_info::CharacterInfoCharacterMediaEdgesVoiceActorRolesVoiceActor>
    decreases roles.len(),
{
    if roles.len() == 0 {
        Seq::empty()
    } else {
        answer_role_actors(roles.drop_last()) + match roles.last().voice_actor {
            Some(a) => seq![a],
            None => Seq::empty(),
        }
    }
}

/// The voice actors of all edges, as the answer gives them, in order,
/// repetitions included.
pub open spec fn answer_actors(edges: Seq<character_info::CharacterInfoCharacterMediaEdges>) -> Seq<
    character_info::CharacterInfoCharacterMediaEdgesVoiceActorRolesVoiceActor,
>
    decreases edges.len(),
{
    if edges.len() == 0 {
        Seq::empty()
    } else {
        answer_actors(edges.drop_last()) + answer_role_actors(
            present(listed(edges.last().voice_actor_roles)),
        )
    }
}

/// Whether `kept` is the answer's voice actor `a` in the client's model: the
/// same id, and the same last and first name (a voice actor has no native
/// name).
pub open spec fn keeps_actor(
    kept: CharacterVoiceActor,
    a: character_info::CharacterInfoCharacterMediaEdgesVoiceActorRolesVoiceActor,
) -> bool {
    &&& kept.id == a.id
    &&& match a.name {
        Some(n) => kept.name matches Some(m) && m.last == n.last && m.first == n.first
            && m.native is None,
        None => kept.name is None,
    }
}

proof fn lemma_role_actors_converted(
    roles: Seq<character_info::CharacterInfoCharacterMediaEdgesVoiceActorRoles>,
)
    ensures
        role_actors(roles).len() == answer_role_actors(roles).len(),
        forall|i: int|
            0 <= i < role_actors(roles).len() ==> keeps_actor(
                #[trigger] role_actors(roles)[i],
                answer_role_actors(roles)[i],
            ),
    decreases roles.len(),
{
    if roles.len() > 0 {
        lemma_role_actors_converted(roles.drop_last());
    }
}

proof fn lemma_edge_actors_converted(edges: Seq<character_info::CharacterInfoCharacterMediaEdges>)
    ensures
        edge_actors(edges).len() == answer_actors(edges).len(),
        forall|i: int|
            0 <= i < edge_actors(edges).len() ==> keeps_actor(
                #[trigger] edge_actors(edges)[i],
                answer_actors(edges)[i],
            ),
    decreases edges.len(),
{
    if edges.len() > 0 {
        let prev = edges.drop_last();
        let roles = present(listed(edges.last().voice_actor_roles));
        lemma_edge_actors_converted(prev);
        lemma_role_actors_converted(roles);
        let n = edge_actors(prev).len();
        assert forall|i: int| 0 <= i < edge_actors(edges).len() implies keeps_actor(
            #[trigger] edge_actors(edges)[i],
            answer_actors(edges)[i],
        ) by {
            if i >= n {
                assert(edge_actors(edges)[i] == role_actors(roles)[i - n]);
                assert(answer_actors(edges)[i] == answer_role_actors(roles)[i - n]);
            } else {
                assert(edge_actors(edges)[i] == edge_actors(prev)[i]);
                assert(answer_actors(edges)[i] == answer_actors(prev)[i]);
            }
        }
    }
}

/// Each voice actor that a converted character keeps is the answer's first
/// voice actor with its id, with that one's id and name.
pub proof fn law_kept_voice_actor_as_answered(
    c: Character,
    character: character_info::CharacterInfoCharacter,
    k: int,
)
    requires
        is_info_character(c, character),
        0 <= k < c.voice_actors@.len(),
    ensures
        exists|i: int|
            0 <= i < answer_actors(character_edges(character)).len() && keeps_actor(
                c.voice_actors@[k],
                #[trigger] answer_actors(character_edges(character))[i],
            ) && forall|j: int|
                0 <= j < i ==> answer_actors(character_edges(character))[j].id != answer_actors(
                    character_edges(character),
                )[i].id,
{
    let edges = character_edges(character);
    let raw = answer_actors(edges);
    let actors = edge_actors(edges);
    lemma_edge_actors_converted(edges);
    law_voice_actors_first(actors, k);
    let i = choose|i: int|
        0 <= i < actors.len() && actors[i] == first_by_id(actors)[k] && forall|j: int|
            0 <= j < i ==> actors[j].id != actors[i].id;
    assert(keeps_actor(actors[i], raw[i]));
    assert forall|j: int| 0 <= j < i implies raw[j].id != raw[i].id by {
        assert(keeps_actor(actors[j], raw[j]));
    }
    assert(keeps_actor(c.voice_actors@[k], raw[i]));
}

/// No voice actor of the answer is lost: the id of each one is among the
/// voice actors of the converted character.
pub proof fn law_answer_voice_actor_kept(
    c: Character,
    character: character_info::CharacterInfoCharacter,
    i: int,
)
    requires
        is_info_character(c, character),
        0 <= i < answer_actors(character_edges(character)).len(),
    ensures
        exists|k: int|
            0 <= k < c.voice_actors@.len() && (#[trigger] c.voice_actors@[k]).id == answer_actors(
                character_edges(character),
            )[i].id,
{
    let edges = character_edges(character);
    let raw = answer_actors(edges);
    let actors = edge_actors(edges);
    lemma_edge_actors_converted(edges);
    assert(keeps_actor(actors[i], raw[i]));
    assert(actor_ids(actors)[i] == raw[i].id);
    law_voice_actors_complete(actors, raw[i].id);
    let kept = first_by_id(actors);
    assert(actor_ids(kept).contains(raw[i].id));
    let k = choose|k: int| 0 <= k < actor_ids(kept).len() && actor_ids(kept)[k] == raw[i].id;
    assert(c.voice_actors@[k].id == raw[i].id);
}

// ---------------------------------------------------------------------------
// Laws of the enum conversions
// ---------------------------------------------------------------------------

/// The name that AniList writes for a season; an unknown one keeps the name
/// that came.
pub open spec fn season_name(s: MediaSeason) -> Seq<char> {
    match s {
        MediaSeason::FALL => "FALL"@,
        MediaSeason::WINTER => "WINTER"@,
        MediaSeason::SPRING => "SPRING"@,
        MediaSeason::SUMMER => "SUMMER"@,
        MediaSeason::Other(o) => o@,
    }
}

/// The name that AniList writes for a season of an `AnimeInfo` answer.
pub open spec fn info_season_name(s: anime_info::MediaSeason) -> Seq<char> {
    match s {
        anime_info::MediaSeason::WINTER => "WINTER"@,
        anime_info::MediaSeason::SPRING => "SPRING"@,
        anime_info::MediaSeason::SUMMER => "SUMMER"@,
        anime_info::MediaSeason::FALL => "FALL"@,
        anime_info::MediaSeason::Other(o) => o@,
    }
}

/// The name that AniList writes for a season of an `AnimeSearch` answer.
pub open spec fn search_season_name(s: anime_search::MediaSeason) -> Seq<char> {
    match s {
        anime_search::MediaSeason::WINTER => "WINTER"@,
        anime_search::MediaSeason::SPRING => "SPRING"@,
        anime_search::MediaSeason::SUMMER => "SUMMER"@,
        anime_search::MediaSeason::FALL => "FALL"@,
        anime_search::MediaSeason::Other(o) => o@,
    }
}

/// The name that AniList writes for a format; an unknown one keeps the name
/// that came.
pub open spec fn format_name(f: MediaFormat) -> Seq<char> {
    match f {
        MediaFormat::TV => "TV"@,
        MediaFormat::OVA => "OVA"@,
        MediaFormat::ONA => "ONA"@,
        MediaFormat::MANGA => "MANGA"@,
        MediaFormat::MOVIE => "MOVIE"@,
        MediaFormat::NOVEL => "NOVEL"@,
        MediaFormat::MUSIC => "MUSIC"@,
        MediaFormat::SPECIAL => "SPECIAL"@,
        MediaFormat::OneShot => "ONE_SHOT"@,
        MediaFormat::TvShort => "TV_SHORT"@,
        MediaFormat::Other(o) => o@,
    }
}

/// The name that AniList writes for a format of an `AnimeInfo` answer.
pub open spec fn info_format_name(f: anime_info::MediaFormat) -> Seq<char> {
    match f {
        anime_info::MediaFormat::TV => "TV"@,
        anime_info::MediaFormat::TV_SHORT => "TV_SHORT"@,
        anime_info::MediaFormat::MOVIE => "MOVIE"@,
        anime_info::MediaFormat::SPECIAL => "SPECIAL"@,
        anime_info::MediaFormat::OVA => "OVA"@,
        anime_info::MediaFormat::ONA => "ONA"@,
        anime_info::MediaFormat::MUSIC => "MUSIC"@,
        anime_info::MediaFormat::MANGA => "MANGA"@,
        anime_info::MediaFormat::NOVEL => "NOVEL"@,
        anime_info::MediaFormat::ONE_SHOT => "ONE_SHOT"@,
        anime_info::MediaFormat::Other(o) => o@,
    }
}

/// The name that AniList writes for a format of an `AnimeSearch` answer.
pub open spec fn search_format_name(f: anime_search::MediaFormat) -> Seq<char> {
    match f {
        anime_search::MediaFormat::TV => "TV"@,
        anime_search::MediaFormat::TV_SHORT => "TV_SHORT"@,
        anime_search::MediaFormat::MOVIE => "MOVIE"@,
        anime_search::MediaFormat::SPECIAL => "SPECIAL"@,
        anime_search::MediaFormat::OVA => "OVA"@,
        anime_search::MediaFormat::ONA => "ONA"@,
        anime_search::MediaFormat::MUSIC => "MUSIC"@,
        anime_search::MediaFormat::MANGA => "MANGA"@,
        anime_search::MediaFormat::NOVEL => "NOVEL"@,
        anime_search::MediaFormat::ONE_SHOT => "ONE_SHOT"@,
        anime_search::MediaFormat::Other(o) => o@,
    }
}

/// The name that AniList writes for a status; an unknown one keeps the name
/// that came.
pub open spec fn status_name(s: MediaStatus) -> Seq<char> {
    match s {
        MediaStatus::HIATUS => "HIATUS"@,
        MediaStatus::FINISHED => "FINISHED"@,
        MediaStatus::RELEASING => "RELEASING"@,
        MediaStatus::CANCELLED => "CANCELLED"@,
        MediaStatus::NotYetReleased => "NOT_YET_RELEASED"@,
        MediaStatus::Other(o) => o@,
    }
}

/// The name that AniList writes for a status of an `AnimeInfo` answer.
pub open spec fn info_status_name(s: anime_info::MediaStatus) -> Seq<char> {
    match s {
        anime_info::MediaStatus::FINISHED => "FINISHED"@,
        anime_info::MediaStatus::RELEASING => "RELEASING"@,
        anime_info::MediaStatus::NOT_YET_RELEASED => "NOT_YET_RELEASED"@,
        anime_info::MediaStatus::CANCELLED => "CANCELLED"@,
        anime_info::MediaStatus::HIATUS => "HIATUS"@,
        anime_info::MediaStatus::Other(o) => o@,
    }
}

/// Converting a season of an `AnimeInfo` answer keeps it: the season that
/// comes out has the name that went in, and no two seasons become one.
pub proof fn law_info_season_keeps_variant(s: anime_info::MediaSeason, t: anime_info::MediaSeason)
    ensures
        season_name(season_of_info(s)) == info_season_name(s),
        season_of_info(s) == season_of_info(t) ==> s == t,
{
}

/// Converting a season of an `AnimeSearch` answer keeps it: the season that
/// comes out has the name that went in, and no two seasons become one.
pub proof fn law_search_season_keeps_variant(
    s: anime_search::MediaSeason,
    t: anime_search::MediaSeason,
)
    ensures
        season_name(season_of_search(s)) == search_season_name(s),
        season_of_search(s) == season_of_search(t) ==> s == t,
{
}

/// Converting a format of an `AnimeInfo` answer keeps it: the format that
/// comes out has the name that went in, and no two formats become one.
pub proof fn law_info_format_keeps_variant(f: anime_info::MediaFormat, g: anime_info::MediaFormat)
    ensures
        format_name(format_of_info(f)) == info_format_name(f),
        format_of_info(f) == format_of_info(g) ==> f == g,
{
}

/// Converting a format of an `AnimeSearch` answer keeps it: the format that
/// comes out has the name that went in, and no two formats become one.
pub proof fn law_search_format_keeps_variant(
    f: anime_search::MediaFormat,
    g: anime_search::MediaFormat,
)
    ensures
        format_name(format_of_search(f)) == search_format_name(f),
        format_of_search(f) == format_of_search(g) ==> f == g,
{
}

/// Converting a status keeps it: the status that comes out has the name that
/// went in, and no two statuses become one.
pub proof fn law_info_status_keeps_variant(
    s: anime_info::MediaStatus,
    t: anime_info::MediaStatus,
)
    ensures
        status_name(status_of_info(s)) == info_status_name(s),
        status_of_info(s) == status_of_info(t) ==> s == t,
{
}

// ---------------------------------------------------------------------------
// Laws of the conversions of whole answers
// ---------------------------------------------------------------------------

proof fn lemma_present_all<T>(s: Seq<Option<T>>)
    requires
        forall|i: int| 0 <= i < s.len() ==> (#[trigger] s[i]) is Some,
    ensures
        present(s).len() == s.len(),
        forall|i: int| 0 <= i < s.len() ==> Some(#[trigger] present(s)[i]) == s[i],
    decreases s.len(),
{
    if s.len() > 0 {
        let prev = s.drop_last();
        assert forall|i: int| 0 <= i < prev.len() implies (#[trigger] prev[i]) is Some by {
            assert(prev[i] == s[i]);
        }
        lemma_present_all(prev);
        assert(s.last() is Some);
        assert forall|i: int| 0 <= i < s.len() implies Some(#[trigger] present(s)[i]) == s[i] by {
            if i < prev.len() {
                assert(present(s)[i] == present(prev)[i]);
                assert(prev[i] == s[i]);
            }
        }
    }
}

/// Converting an `AnimeInfo` answer keeps all of it that the client shows:
/// the id, both titles, format, status and season (each by its name), the
/// number of episodes, the year, the score, the description, the site and
/// the extra large cover. The genres are kept whole and in order; an absent
/// list reads as no genres, and a list with an absent genre as unknown
/// genres.
pub proof fn law_info_anime_keeps_answer(anime: Anime, media: anime_info::AnimeInfoMedia)
    requires
        is_info_anime(anime, media),
    ensures
        anime.id == media.id,
        match media.title {
            Some(t) => anime.title matches Some(u) && u.romaji == t.romaji && u.native == t.native,
            None => anime.title is None,
        },
        match media.format {
            Some(f) => anime.format matches Some(g) && format_name(g) == info_format_name(f),
            None => anime.format is None,
        },
        match media.status {
            Some(s) => anime.status matches Some(t) && status_name(t) == info_status_name(s),
            None => anime.status is None,
        },
        match media.season {
            Some(s) => anime.season matches Some(t) && season_name(t) == info_season_name(s),
            None => anime.season is None,
        },
        anime.episodes == media.episodes,
        anime.season_year == media.season_year,
        anime.average_score == media.average_score,
        anime.description == media.description,
        anime.site_url == media.site_url,
        match media.cover_image {
            Some(c) => anime.cover_image matches Some(k) && k.extra_large == c.extra_large
                && k.medium is None,
            None => anime.cover_image is None,
        },
        match media.genres {
            None => anime.genres matches Some(v) && v@.len() == 0,
            Some(gs) => if forall|i: int| 0 <= i < gs@.len() ==> (#[trigger] gs@[i]) is Some {
                anime.genres matches Some(v) && v@.len() == gs@.len() && forall|i: int|
                    0 <= i < gs@.len() ==> Some(#[trigger] v@[i]) == gs@[i]
            } else {
                anime.genres is None
            },
        },
{
    if let Some(f) = media.format {
        law_info_format_keeps_variant(f, f);
    }
    if let Some(s) = media.status {
        law_info_status_keeps_variant(s, s);
    }
    if let Some(s) = media.season {
        law_info_season_keeps_variant(s, s);
    }
    if let Some(gs) = media.genres {
        if forall|i: int| 0 <= i < gs@.len() ==> (#[trigger] gs@[i]) is Some {
            lemma_present_all(gs@);
            let v = anime.genres->0;
            assert(v@ == present(gs@));
        }
    }
}

/// Converting a search result keeps its id, both titles, format and season
/// (each by its name), the number of episodes, the year and the medium
/// cover; a search result carries nothing else, so the rest is absent.
pub proof fn law_search_anime_keeps_answer(result: anime_search::AnimeSearchPageResults)
    ensures
        ({
            let anime = anime_of_search(result);
            &&& anime.id == result.id
            &&& match result.title {
                Some(t) => anime.title matches Some(u) && u.romaji == t.romaji && u.native
                    == t.native,
                None => anime.title is None,
            }
            &&& match result.format {
                Some(f) => anime.format matches Some(g) && format_name(g) == search_format_name(f),
                None => anime.format is None,
            }
            &&& match result.season {
                Some(s) => anime.season matches Some(t) && season_name(t) == search_season_name(s),
                None => anime.season is None,
            }
            &&& anime.episodes == result.episodes
            &&& anime.season_year == result.season_year
            &&& match result.cover_image {
                Some(c) => anime.cover_image matches Some(k) && k.medium == c.medium
                    && k.extra_large is None,
                None => anime.cover_image is None,
            }
            &&& anime.genres is None && anime.status is None && anime.site_url is None
            &&& anime.description is None && anime.average_score is None
        }),
{
    if let Some(f) = result.format {
        law_search_format_keeps_variant(f, f);
    }
    if let Some(s) = result.season {
        law_search_season_keeps_variant(s, s);
    }
}

/// The media that the edges of an answer lead to, as the answer gives them,
/// in order.
pub open spec fn answer_nodes(edges: Seq<character_info::CharacterInfoCharacterMediaEdges>) -> Seq<
    character_info::CharacterInfoCharacterMediaEdgesNode,
>
    decreases edges.len(),
{
    if edges.len() == 0 {
        Seq::empty()
    } else {
        answer_nodes(edges.drop_last()) + match edges.last().node {
            Some(n) => seq![n],
            None => Seq::empty(),
        }
    }
}

proof fn lemma_appearances_of_nodes(edges: Seq<character_info::CharacterInfoCharacterMediaEdges>)
    ensures
        appearances(edges).len() == answer_nodes(edges).len(),
        forall|k: int|
            0 <= k < appearances(edges).len() ==> (#[trigger] appearances(edges)[k]).id
                == answer_nodes(edges)[k].id && appearances(edges)[k].title
                == character_info::node_romaji(answer_nodes(edges)[k]),
    decreases edges.len(),
{
    if edges.len() > 0 {
        let prev = edges.drop_last();
        lemma_appearances_of_nodes(prev);
        assert forall|k: int| 0 <= k < appearances(edges).len() implies (#[trigger] appearances(
            edges,
        )[k]).id == answer_nodes(edges)[k].id && appearances(edges)[k].title
            == character_info::node_romaji(answer_nodes(edges)[k]) by {
            if k < appearances(prev).len() {
                assert(appearances(edges)[k] == appearances(prev)[k]);
                assert(answer_nodes(edges)[k] == answer_nodes(prev)[k]);
            }
        }
    }
}

/// Converting a `CharacterInfo` answer keeps the character's id, age,
/// gender, description, all three parts of its name, both images and its
/// date of birth; and it lists each medium that an edge leads to, in order,
/// with the medium's id and romaji title.
pub proof fn law_info_character_keeps_answer(
    c: Character,
    character: character_info::CharacterInfoCharacter,
)
    requires
        is_info_character(c, character),
    ensures
        c.id == character.id,
        c.age == character.age,
        c.gender == character.gender,
        c.description == character.description,
        match character.name {
            Some(n) => c.name matches Some(m) && m.last == n.last && m.first == n.first && m.native
                == n.native,
            None => c.name is None,
        },
        match character.image {
            Some(i) => c.image matches Some(j) && j.large == i.large && j.medium == i.medium,
            None => c.image is None,
        },
        match character.date_of_birth {
            Some(d) => c.date_of_birth matches Some(e) && e.year == d.year && e.month == d.month
                && e.day == d.day,
            None => c.date_of_birth is None,
        },
        c.appears_in@.len() == answer_nodes(character_edges(character)).len(),
        forall|k: int|
            0 <= k < c.appears_in@.len() ==> (#[trigger] c.appears_in@[k]).id == answer_nodes(
                character_edges(character),
            )[k].id && c.appears_in@[k].title == character_info::node_romaji(
                answer_nodes(character_edges(character))[k],
            ),
{
    lemma_appearances_of_nodes(character_edges(character));
}

} // verus!
