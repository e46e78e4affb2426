//! The AniList queries: the request that each one sends, and how its answer
//! becomes results of the client's model or an error.

use vstd::prelude::*;

use crate::graphql::response::{GraphqlError, Response};
use crate::graphql::{anime_characters, anime_completion_search, anime_info, anime_search, character_info};
use crate::models::{
    anime_of_search, is_edge_character, is_info_anime, is_info_character, listed, present, Anime,
    Character,
};
use crate::text::{
    decimal, join_strings, joined, law_joined_parts, lemma_decimal_chars, part_start, push_char,
    push_decimal, views,
};

verus! {

/// The body of a GraphQL request: the query document, the name of its
/// operation, and the values of its variables.
#[derive(Debug)]
pub struct QueryBody<Variables> {
    pub variables: Variables,
    pub query: &'static str,
    pub operation_name: &'static str,
}

pub const ANIME_INFO_QUERY: &'static str = "query AnimeInfo($id: Int) {\n  Media(id: $id, type: ANIME) {\n    id\n    title {\n      romaji\n      native\n    }\n    genres\n    format\n    status\n    season\n    episodes\n    siteUrl\n    coverImage {\n      extraLarge\n    }\n    seasonYear\n    description\n    averageScore\n  }\n}\n";

pub const CHARACTER_INFO_QUERY: &'static str = "query CharacterInfo($id: Int) {\n  Character(id: $id) {\n    id\n    name {\n      first\n      last\n      native\n    }\n    image {\n      large\n      medium\n    }\n    age\n    gender\n    description\n    dateOfBirth {\n      year\n      month\n      day\n    }\n    media {\n      edges {\n        node {\n          id\n          title {\n            romaji\n          }\n        }\n        voiceActorRoles {\n          voiceActor {\n            id\n            name {\n              first\n              last\n            }\n          }\n        }\n      }\n    }\n  }\n}\n";

pub const ANIME_COMPLETION_SEARCH_QUERY: &'static str = "query AnimeCompletionSearch($query: String!) {\n  Page(perPage: 10) {\n    results: media(search: $query, type: ANIME) {\n      id\n      title {\n        romaji\n      }\n    }\n  }\n}\n";

pub const ANIME_SEARCH_QUERY: &'static str = "query AnimeSearch($query: String, $page: Int, $perPage: Int) {\n  Page(page: $page, perPage: $perPage) {\n    pageInfo {\n      hasNextPage\n    }\n    results: media(search: $query, type: ANIME) {\n      id\n      title {\n        romaji\n        native\n      }\n      format\n      season\n      episodes\n      seasonYear\n      coverImage {\n        medium\n      }\n    }\n  }\n}\n";

pub const ANIME_CHARACTERS_QUERY: &'static str = "query AnimeCharacters($animeId: Int, $page: Int, $perPage: Int) {\n  Media(id: $animeId, type: ANIME) {\n    characters(page: $page, perPage: $perPage) {\n      pageInfo {\n        hasNextPage\n      }\n      edges {\n        node {\n          id\n          name {\n            first\n            last\n            native\n          }\n          image {\n            large\n            medium\n          }\n          age\n          gender\n          description\n          dateOfBirth {\n            year\n            month\n            day\n          }\n        }\n        voiceActorRoles {\n          voiceActor {\n            id\n            name {\n              first\n              last\n            }\n          }\n        }\n      }\n    }\n  }\n}\n";

/// The query for one anime by its id.
#[derive(Debug)]
pub struct AnimeInfo;

/// The query for one character by its id.
#[derive(Debug)]
pub struct CharacterInfo;

/// The query for ids and titles of anime that match a text, for completion.
#[derive(Debug)]
pub struct AnimeCompletionSearch;

/// The query for one page of anime that match a text.
#[derive(Debug)]
pub struct AnimeSearch;

/// The query for one page of the characters of an anime.
#[derive(Debug)]
pub struct AnimeCharacters;

impl AnimeInfo {
    pub fn build_query(variables: anime_info::Variables) -> (body: QueryBody<anime_info::Variables>)
        ensures
            body.variables == variables,
            body.query == ANIME_INFO_QUERY,
            body.operation_name@ == "AnimeInfo"@,
    {
        QueryBody { variables, query: ANIME_INFO_QUERY, operation_name: "AnimeInfo" }
    }
}

impl CharacterInfo {
    pub fn build_query(variables: character_info::Variables) -> (body: QueryBody<
        character_info::Variables,
    >)
        ensures
            body.variables == variables,
            body.query == CHARACTER_INFO_QUERY,
            body.operation_name@ == "CharacterInfo"@,
    {
        QueryBody { variables, query: CHARACTER_INFO_QUERY, operation_name: "CharacterInfo" }
    }
}

impl AnimeCompletionSearch {
    pub fn build_query(variables: anime_completion_search::Variables) -> (body: QueryBody<
        anime_completion_search::Variables,
    >)
        ensures
            body.variables == variables,
            body.query == ANIME_COMPLETION_SEARCH_QUERY,
            body.operation_name@ == "AnimeCompletionSearch"@,
    {
        QueryBody {
            variables,
            query: ANIME_COMPLETION_SEARCH_QUERY,
            operation_name: "AnimeCompletionSearch",
        }
    }
}

impl AnimeSearch {
    pub fn build_query(variables: anime_search::Variables) -> (body: QueryBody<
        anime_search::Variables,
    >)
        ensures
            body.variables == variables,
            body.query == ANIME_SEARCH_QUERY,
            body.operation_name@ == "AnimeSearch"@,
    {
        QueryBody { variables, query: ANIME_SEARCH_QUERY, operation_name: "AnimeSearch" }
    }
}

impl AnimeCharacters {
    pub fn build_query(variables: anime_characters::Variables) -> (body: QueryBody<
        anime_characters::Variables,
    >)
        ensures
            body.variables == variables,
            body.query == ANIME_CHARACTERS_QUERY,
            body.operation_name@ == "AnimeCharacters"@,
    {
        QueryBody { variables, query: ANIME_CHARACTERS_QUERY, operation_name: "AnimeCharacters" }
    }
}

/// Why an answer yields no result.
#[derive(Debug)]
pub enum ResponseError {
    /// The server reported errors; their messages, joined with "; ".
    GraphQl(String),
    NoData,
    NoPage,
    NoPageInfo,
    NoResults,
    NoMedia,
    NoCharacter,
    NoCharacters,
}

/// The text of an error, as it is reported to the user.
pub open spec fn error_text(e: ResponseError) -> Seq<char> {
    match e {
        ResponseError::GraphQl(messages) => "GraphQL error: "@ + messages@,
        ResponseError::NoData => "response contained no data"@,
        ResponseError::NoPage => "response contained no page"@,
        ResponseError::NoPageInfo => "response contained no page info"@,
        ResponseError::NoResults => "response contained no results"@,
        ResponseError::NoMedia => "response contained no media"@,
        ResponseError::NoCharacter => "response contained no character"@,
        ResponseError::NoCharacters => "response contained no characters"@,
    }
}

impl ResponseError {
    /// The text of the error, as it is reported to the user.
    pub fn message(&self) -> (m: String)
        ensures
            m@ == error_text(*self),
    {
        match self {
            ResponseError::GraphQl(messages) => {
                let mut m = String::from_str("GraphQL error: ");
                m.append(messages.as_str());
                m
            },
            ResponseError::NoData => String::from_str("response contained no data"),
            ResponseError::NoPage => String::from_str("response contained no page"),
            ResponseError::NoPageInfo => String::from_str("response contained no page info"),
            ResponseError::NoResults => String::from_str("response contained no results"),
            ResponseError::NoMedia => String::from_str("response contained no media"),
            ResponseError::NoCharacter => String::from_str("response contained no character"),
            ResponseError::NoCharacters => String::from_str("response contained no characters"),
        }
    }
}

/// The messages of a list of GraphQL errors, in order.
pub open spec fn error_messages(errors: Seq<GraphqlError>) -> Seq<Seq<char>> {
    errors.map_values(|e: GraphqlError| e.message@)
}

/// The error for an answer whose errors are `errors`.
pub open spec fn is_graphql_error(e: ResponseError, errors: Vec<GraphqlError>) -> bool {
    e matches ResponseError::GraphQl(m) && m@ == joined(error_messages(errors@), "; "@)
}

/// The error of an answer that reported errors: their messages joined with
/// "; ".
pub fn graphql_error(errors: Vec<GraphqlError>) -> (e: ResponseError)
    ensures
        is_graphql_error(e, errors),
{
    let ghost all = errors@;
    let mut messages: Vec<String> = Vec::new();
    for error in it: errors.into_iter()
        invariant
            it.seq() == all,
            views(messages@) == error_messages(all.take(it.index() as int)),
    {
        messages.push(error.message);
        assert(error_messages(all.take(it.index() + 1)) =~= error_messages(
            all.take(it.index() as int),
        ).push(all[it.index() as int].message@));
        assert(views(messages@) =~= error_messages(all.take(it.index() + 1)));
    }
    assert(all.take(all.len() as int) =~= all);
    ResponseError::GraphQl(join_strings(&messages, "; "))
}

// ---------------------------------------------------------------------------
// AnimeSearch
// ---------------------------------------------------------------------------

#[derive(Debug)]
pub struct AnimeSearchResults {
    pub has_next_page: bool,
    pub items: Vec<Anime>,
}

/// The anime of a list of search results, skipping absent ones.
pub open spec fn search_items(results: Seq<Option<anime_search::AnimeSearchPageResults>>) -> Seq<
    Anime,
> {
    present(results).map_values(|a: anime_search::AnimeSearchPageResults| anime_of_search(a))
}

/// What an `AnimeSearch` answer yields: its errors, if the server reported
/// any; else the first of data, page, page info and results that is absent;
/// else whether a next page exists (unknown reads as no) and the results.
pub open spec fn is_search_outcome(
    response: Response<anime_search::ResponseData>,
    r: Result<AnimeSearchResults, ResponseError>,
) -> bool {
    match response.errors {
        Some(errors) => r matches Err(e) && is_graphql_error(e, errors),
        None => match response.data {
            None => r matches Err(ResponseError::NoData),
            Some(data) => match data.page {
                None => r matches Err(ResponseError::NoPage),
                Some(page) => match page.page_info {
                    None => r matches Err(ResponseError::NoPageInfo),
                    Some(info) => match page.results {
                        None => r matches Err(ResponseError::NoResults),
                        Some(results) => r matches Ok(v) && v.has_next_page == (
                        info.has_next_page == Some(true)) && v.items@ == search_items(results@),
                    },
                },
            },
        },
    }
}

/// The results of an `AnimeSearch` answer.
pub fn anime_search_results(response: Response<anime_search::ResponseData>) -> (r: Result<
    AnimeSearchResults,
    ResponseError,
>)
    ensures
        is_search_outcome(response, r),
{
    if let Some(errors) = response.errors {
        return Err(graphql_error(errors));
    }
    let data = match response.data {
        Some(d) => d,
        None => return Err(ResponseError::NoData),
    };
    let page = match data.page {
        Some(p) => p,
        None => return Err(ResponseError::NoPage),
    };
    let has_next_page = match page.page_info {
        Some(info) => match info.has_next_page {
            Some(b) => b,
            None => false,
        },
        None => return Err(ResponseError::NoPageInfo),
    };
    let results = match page.results {
        Some(r) => r,
        None => return Err(ResponseError::NoResults),
    };
    let ghost all = results@;
    let mut items: Vec<Anime> = Vec::new();
    for result in it: results.into_iter()
        invariant
            it.seq() == all,
            items@ == search_items(all.take(it.index() as int)),
    {
        proof {
            let t = all.take(it.index() as int);
            assert(all.take(it.index() + 1) =~= t.push(all[it.index() as int]));
            assert(t.push(all[it.index() as int]).drop_last() =~= t);
        }
        if let Some(anime) = result {
            items.push(Anime::from_search_result(anime));
        }
        assert(items@ =~= search_items(all.take(it.index() + 1)));
    }
    assert(all.take(all.len() as int) =~= all);
    Ok(AnimeSearchResults { items, has_next_page })
}

// ---------------------------------------------------------------------------
// AnimeCompletionSearch
// ---------------------------------------------------------------------------

#[derive(Debug)]
pub struct AnimeCompletion {
    pub id: i64,
    pub title: String,
}

/// The title offered for a completion: the romaji title, or "No Title".
pub open spec fn completion_title(r: anime_completion_search::AnimeCompletionSearchPageResults) -> Seq<
    char,
> {
    match r.title {
        Some(t) => match t.romaji {
            Some(romaji) => romaji@,
            None => "No Title"@,
        },
        None => "No Title"@,
    }
}

/// The line of a completion: its id, a tab, its title.
pub open spec fn completion_line(c: AnimeCompletion) -> Seq<char> {
    decimal(c.id as int) + seq!['\t'] + c.title@
}

impl AnimeCompletion {
    /// The completion as the shell reads it: id, a tab, title.
    pub fn to_line(&self) -> (line: String)
        ensures
            line@ == completion_line(*self),
    {
        let mut line = String::new();
        push_decimal(&mut line, self.id);
        push_char(&mut line, '\t');
        line.append(self.title.as_str());
        line
    }
}

/// A completion line reads back as its id and title the way the zsh
/// completion function splits it: the id is everything before the first
/// tab, the title everything after it.
pub proof fn law_completion_line_splits(c: AnimeCompletion)
    ensures
        ({
            let line = completion_line(c);
            let n = decimal(c.id as int).len() as int;
            &&& line[n] == '\t'
            &&& forall|k: int| 0 <= k < n ==> line[k] != '\t'
            &&& line.subrange(0, n) == decimal(c.id as int)
            &&& line.subrange(n + 1, line.len() as int) == c.title@
        }),
{
    let line = completion_line(c);
    let n = decimal(c.id as int).len() as int;
    assert forall|k: int| 0 <= k < n implies line[k] != '\t' by {
        lemma_decimal_chars(c.id as int, k);
    }
    assert(line.subrange(0, n) =~= decimal(c.id as int));
    assert(line.subrange(n + 1, line.len() as int) =~= c.title@);
}

/// The id and title of each completion, in order.
pub open spec fn completions_view(v: Seq<AnimeCompletion>) -> Seq<(i64, Seq<char>)> {
    v.map_values(|c: AnimeCompletion| (c.id, c.title@))
}

/// The completions of a list of results, skipping absent ones.
pub open spec fn completion_items(
    results: Seq<Option<anime_completion_search::AnimeCompletionSearchPageResults>>,
) -> Seq<(i64, Seq<char>)> {
    present(results).map_values(
        |r: anime_completion_search::AnimeCompletionSearchPageResults| (r.id, completion_title(r)),
    )
}

/// What an `AnimeCompletionSearch` answer yields: its errors, if the server
/// reported any; else the first of data, page and results that is absent;
/// else one completion per result.
pub open spec fn is_completion_outcome(
    response: Response<anime_completion_search::ResponseData>,
    r: Result<Vec<AnimeCompletion>, ResponseError>,
) -> bool {
    match response.errors {
        Some(errors) => r matches Err(e) && is_graphql_error(e, errors),
        None => match response.data {
            None => r matches Err(ResponseError::NoData),
            Some(data) => match data.page {
                None => r matches Err(ResponseError::NoPage),
                Some(page) => match page.results {
                    None => r matches Err(ResponseError::NoResults),
                    Some(results) => r matches Ok(v) && completions_view(v@) == completion_items(
                        results@,
                    ),
                },
            },
        },
    }
}

/// The completions of an `AnimeCompletionSearch` answer.
pub fn anime_completions(response: Response<anime_completion_search::ResponseData>) -> (r: Result<
    Vec<AnimeCompletion>,
    ResponseError,
>)
    ensures
        is_completion_outcome(response, r),
{
    if let Some(errors) = response.errors {
        return Err(graphql_error(errors));
    }
    let data = match response.data {
        Some(d) => d,
        None => return Err(ResponseError::NoData),
    };
    let page = match data.page {
        Some(p) => p,
        None => return Err(ResponseError::NoPage),
    };
    let results = match page.results {
        Some(r) => r,
        None => return Err(ResponseError::NoResults),
    };
    let ghost all = results@;
    let mut items: Vec<AnimeCompletion> = Vec::new();
    for result in it: results.into_iter()
        invariant
            it.seq() == all,
            completions_view(items@) == completion_items(all.take(it.index() as int)),
    {
        proof {
            let t = all.take(it.index() as int);
            assert(all.take(it.index() + 1) =~= t.push(all[it.index() as int]));
            assert(t.push(all[it.index() as int]).drop_last() =~= t);
        }
        if let Some(anime) = result {
            let ghost a = anime;
            let title = match anime.title {
                Some(t) => match t.romaji {
                    Some(romaji) => romaji,
                    None => String::from_str("No Title"),
                },
                None => String::from_str("No Title"),
            };
            items.push(AnimeCompletion { id: anime.id, title });
            assert(completions_view(items@) =~= completion_items(all.take(it.index() as int)).push(
                (a.id, completion_title(a)),
            ));
        }
        assert(completions_view(items@) =~= completion_items(all.take(it.index() + 1)));
    }
    assert(all.take(all.len() as int) =~= all);
    Ok(items)
}

// ---------------------------------------------------------------------------
// AnimeInfo and CharacterInfo
// ---------------------------------------------------------------------------

/// What an `AnimeInfo` answer yields: its errors, if the server reported any;
/// else the first of data and media that is absent; else the anime.
pub open spec fn is_info_outcome(
    response: Response<anime_info::ResponseData>,
    r: Result<Anime, ResponseError>,
) -> bool {
    match response.errors {
        Some(errors) => r matches Err(e) && is_graphql_error(e, errors),
        None => match response.data {
            None => r matches Err(ResponseError::NoData),
            Some(data) => match data.media {
                None => r matches Err(ResponseError::NoMedia),
                Some(media) => r matches Ok(anime) && is_info_anime(anime, media),
            },
        },
    }
}

/// The anime of an `AnimeInfo` answer.
pub fn anime_info_result(response: Response<anime_info::ResponseData>) -> (r: Result<
    Anime,
    ResponseError,
>)
    ensures
        is_info_outcome(response, r),
{
    if let Some(errors) = response.errors {
        return Err(graphql_error(errors));
    }
    let data = match response.data {
        Some(d) => d,
        None => return Err(ResponseError::NoData),
    };
    match data.media {
        Some(media) => Ok(Anime::from_info_media(media)),
        None => Err(ResponseError::NoMedia),
    }
}

/// What a `CharacterInfo` answer yields: its errors, if the server reported
/// any; else the first of data and character that is absent; else the
/// character.
pub open spec fn is_character_outcome(
    response: Response<character_info::ResponseData>,
    r: Result<Character, ResponseError>,
) -> bool {
    match response.errors {
        Some(errors) => r matches Err(e) && is_graphql_error(e, errors),
        None => match response.data {
            None => r matches Err(ResponseError::NoData),
            Some(data) => match data.character {
                None => r matches Err(ResponseError::NoCharacter),
                Some(character) => r matches Ok(c) && is_info_character(c, character),
            },
        },
    }
}

/// The character of a `CharacterInfo` answer.
pub fn character_info_result(response: Response<character_info::ResponseData>) -> (r: Result<
    Character,
    ResponseError,
>)
    ensures
        is_character_outcome(response, r),
{
    if let Some(errors) = response.errors {
        return Err(graphql_error(errors));
    }
    let data = match response.data {
        Some(d) => d,
        None => return Err(ResponseError::NoData),
    };
    match data.character {
        Some(character) => Ok(Character::from_character_info(character)),
        None => Err(ResponseError::NoCharacter),
    }
}

// ---------------------------------------------------------------------------
// AnimeCharacters
// ---------------------------------------------------------------------------

#[derive(Debug)]
pub struct AnimeCharactersResults {
    pub has_next_page: bool,
    pub items: Vec<Character>,
}

/// The node and the roles of each edge that is present and has a node.
pub open spec fn edges_with_nodes(
    edges: Seq<anime_characters::AnimeCharactersMediaCharactersEdges>,
) -> Seq<
    (
        anime_characters::AnimeCharactersMediaCharactersEdgesNode,
        Option<Vec<Option<anime_characters::AnimeCharactersMediaCharactersEdgesVoiceActorRoles>>>,
    ),
>
    decreases edges.len(),
{
    if edges.len() == 0 {
        Seq::empty()
    } else {
        edges_with_nodes(edges.drop_last()) + match edges.last().node {
            Some(node) => seq![(node, edges.last().voice_actor_roles)],
            None => Seq::empty(),
        }
    }
}

/// Whether `items` are the characters of `edges`, one per edge that is
/// present and has a node, in order.
pub open spec fn are_edge_characters(
    items: Seq<Character>,
    edges: Seq<anime_characters::AnimeCharactersMediaCharactersEdges>,
) -> bool {
    &&& items.len() == edges_with_nodes(edges).len()
    &&& forall|i: int|
        0 <= i < items.len() ==> is_edge_character(
            #[trigger] items[i],
            edges_with_nodes(edges)[i].0,
            edges_with_nodes(edges)[i].1,
        )
}

/// What an `AnimeCharacters` answer yields: its errors, if the server
/// reported any; else the first of data, media, characters and page info that
/// is absent; else whether a next page exists (unknown reads as no) and the
/// characters of the edges (an absent list of edges reads as none).
pub open spec fn is_characters_outcome(
    response: Response<anime_characters::ResponseData>,
    r: Result<AnimeCharactersResults, ResponseError>,
) -> bool {
    match response.errors {
        Some(errors) => r matches Err(e) && is_graphql_error(e, errors),
        None => match response.data {
            None => r matches Err(ResponseError::NoData),
            Some(data) => match data.media {
                None => r matches Err(ResponseError::NoMedia),
                Some(media) => match media.characters {
                    None => r matches Err(ResponseError::NoCharacters),
                    Some(page) => match page.page_info {
                        None => r matches Err(ResponseError::NoPageInfo),
                        Some(info) => r matches Ok(v) && v.has_next_page == (info.has_next_page
                            == Some(true)) && are_edge_characters(
                            v.items@,
                            present(listed(page.edges)),
                        ),
                    },
                },
            },
        },
    }
}

/// The characters of an `AnimeCharacters` answer.
pub fn anime_characters_results(response: Response<anime_characters::ResponseData>) -> (r: Result<
    AnimeCharactersResults,
    ResponseError,
>)
    ensures
        is_characters_outcome(response, r),
{
    if let Some(errors) = response.errors {
        return Err(graphql_error(errors));
    }
    let data = match response.data {
        Some(d) => d,
        None => return Err(ResponseError::NoData),
    };
    let media = match data.media {
        Some(m) => m,
        None => return Err(ResponseError::NoMedia),
    };
    let page = match media.characters {
        Some(p) => p,
        None => return Err(ResponseError::NoCharacters),
    };
    let has_next_page = match page.page_info {
        Some(info) => match info.has_next_page {
            Some(b) => b,
            None => false,
        },
        None => return Err(ResponseError::NoPageInfo),
    };
    let ghost edges = page.edges;
    let mut items: Vec<Character> = Vec::new();
    let ghost mut done: Seq<anime_characters::AnimeCharactersMediaCharactersEdges> = Seq::empty();
    if let Some(edge_list) = page.edges {
        let ghost all = edge_list@;
        for edge in it: edge_list.into_iter()
            invariant
                it.seq() == all,
                done == present(all.take(it.index() as int)),
                are_edge_characters(items@, done),
        {
            proof {
                let t = all.take(it.index() as int);
                assert(all.take(it.index() + 1) =~= t.push(all[it.index() as int]));
                assert(t.push(all[it.index() as int]).drop_last() =~= t);
            }
            if let Some(edge) = edge {
                let ghost e = edge;
                let ghost prev = done;
                proof {
                    done = done.push(e);
                    assert(done.drop_last() =~= prev);
                }
                if let Some(node) = edge.node {
                    items.push(Character::from_anime_characters_edge(node, edge.voice_actor_roles));
                }
                assert(are_edge_characters(items@, done));
            }
        }
        assert(all.take(all.len() as int) =~= all);
    }
    Ok(AnimeCharactersResults { items, has_next_page })
}

// ---------------------------------------------------------------------------
// Laws of the paged answers
// ---------------------------------------------------------------------------

/// What the page info of an `AnimeSearch` answer says of a next page, where
/// the answer has page info: `Some(true)`, `Some(false)`, or `None` when it
/// does not say.
pub open spec fn search_page_flag(response: Response<anime_search::ResponseData>) -> Option<
    Option<bool>,
> {
    match response.data {
        Some(data) => match data.page {
            Some(page) => match page.page_info {
                Some(info) => Some(info.has_next_page),
                None => None,
            },
            None => None,
        },
        None => None,
    }
}

/// What the page info of an `AnimeCharacters` answer says of a next page,
/// where the answer has page info.
pub open spec fn characters_page_flag(response: Response<anime_characters::ResponseData>) -> Option<
    Option<bool>,
> {
    match response.data {
        Some(data) => match data.media {
            Some(media) => match media.characters {
                Some(page) => match page.page_info {
                    Some(info) => Some(info.has_next_page),
                    None => None,
                },
                None => None,
            },
            None => None,
        },
        None => None,
    }
}

/// Search results say that a next page exists exactly when the answer says
/// so: an answer that says there is none, or does not say, gives no next
/// page. Results come only from an answer without errors and with page info.
pub proof fn law_search_next_page_as_answered(
    response: Response<anime_search::ResponseData>,
    r: Result<AnimeSearchResults, ResponseError>,
)
    requires
        is_search_outcome(response, r),
    ensures
        r is Ok ==> response.errors is None && search_page_flag(response) is Some,
        r matches Ok(v) ==> (v.has_next_page <==> search_page_flag(response) == Some(
            Some(true),
        )),
        r matches Ok(v) ==> (search_page_flag(response) == Some(Some(false)) ==> !v.has_next_page),
{
}

/// Character results say that a next page exists exactly when the answer
/// says so: an answer that says there is none, or does not say, gives no
/// next page. Results come only from an answer without errors and with page
/// info.
pub proof fn law_characters_next_page_as_answered(
    response: Response<anime_characters::ResponseData>,
    r: Result<AnimeCharactersResults, ResponseError>,
)
    requires
        is_characters_outcome(response, r),
    ensures
        r is Ok ==> response.errors is None && characters_page_flag(response) is Some,
        r matches Ok(v) ==> (v.has_next_page <==> characters_page_flag(response) == Some(
            Some(true),
        )),
        r matches Ok(v) ==> (characters_page_flag(response) == Some(Some(false)) ==> !v.has_next_page),
{
}

/// The error of an answer that reported errors holds every message, whole
/// and in order, with "; " between neighbours and nothing more.
pub proof fn law_graphql_error_keeps_messages(e: ResponseError, errors: Vec<GraphqlError>)
    requires
        is_graphql_error(e, errors),
    ensures
        e matches ResponseError::GraphQl(m) && ({
            let parts = error_messages(errors@);
            &&& errors@.len() == 0 ==> m@.len() == 0
            &&& errors@.len() > 0 ==> m@.len() == part_start(parts, 2, errors@.len() - 1)
                + errors@.last().message@.len()
            &&& forall|i: int|
                0 <= i < errors@.len() ==> m@.subrange(
                    part_start(parts, 2, i),
                    part_start(parts, 2, i) + errors@[i].message@.len(),
                ) == (#[trigger] errors@[i]).message@
            &&& forall|i: int|
                0 < i < errors@.len() ==> m@.subrange(
                    part_start(parts, 2, i) - 2,
                    part_start(parts, 2, i),
                ) == "; "@
        }),
{
    let parts = error_messages(errors@);
    reveal_strlit("; ");
    law_joined_parts(parts, "; "@);
    assert forall|i: int| 0 <= i < errors@.len() implies parts[i] == (
    #[trigger] errors@[i]).message@ by {}
}

/// Completions come one for each result that the answer holds, in order:
/// the result's id, and its romaji title or "No Title".
pub proof fn law_completions_one_per_result(
    response: Response<anime_completion_search::ResponseData>,
    r: Result<Vec<AnimeCompletion>, ResponseError>,
)
    requires
        is_completion_outcome(response, r),
    ensures
        r is Ok ==> response.errors is None,
        match response.data {
            Some(data) => match data.page {
                Some(page) => match page.results {
                    Some(results) => r matches Ok(v) ==> v@.len() == present(results@).len()
                        && forall|k: int|
                        0 <= k < v@.len() ==> (#[trigger] v@[k]).id == present(results@)[k].id
                            && v@[k].title@ == match present(results@)[k].title {
                            Some(t) => match t.romaji {
                                Some(romaji) => romaji@,
                                None => "No Title"@,
                            },
                            None => "No Title"@,
                        },
                    None => true,
                },
                None => true,
            },
            None => true,
        },
{
    if let (None, Some(data)) = (response.errors, response.data) {
        if let Some(page) = data.page {
            if let Some(results) = page.results {
                if let Ok(v) = r {
                    assert(completions_view(v@) == completion_items(results@));
                    assert(completion_items(results@).len() == present(results@).len());
                    assert(completions_view(v@).len() == v@.len());
                    assert forall|k: int| 0 <= k < v@.len() implies (#[trigger] v@[k]).id
                        == present(results@)[k].id && v@[k].title@ == completion_title(
                        present(results@)[k],
                    ) by {
                        assert(completions_view(v@)[k] == completion_items(results@)[k]);
                        assert(completions_view(v@)[k] == (v@[k].id, v@[k].title@));
                        assert(completion_items(results@)[k] == (
                            present(results@)[k].id,
                            completion_title(present(results@)[k]),
                        ));
                    }
                    assert(completions_view(v@).len() == v@.len());
                }
            }
        }
    }
}

/// Search results hold one anime for each result that the answer holds, in
/// order, each the anime of that result.
pub proof fn law_search_one_anime_per_result(
    response: Response<anime_search::ResponseData>,
    r: Result<AnimeSearchResults, ResponseError>,
)
    requires
        is_search_outcome(response, r),
    ensures
        match response.data {
            Some(data) => match data.page {
                Some(page) => match page.results {
                    Some(results) => r matches Ok(v) ==> v.items@.len() == present(results@).len()
                        && forall|k: int|
                        0 <= k < v.items@.len() ==> #[trigger] v.items@[k] == anime_of_search(
                            present(results@)[k],
                        ),
                    None => true,
                },
                None => true,
            },
            None => true,
        },
{
}

} // verus!
