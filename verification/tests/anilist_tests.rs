use ani::anilist::{
    anime_characters_results, anime_completions, anime_info_result, anime_search_results,
    character_info_result, AnimeCharacters, AnimeCompletion, AnimeInfo, AnimeSearch, ResponseError,
    ANIME_INFO_QUERY, ANIME_SEARCH_QUERY,
};
use ani::graphql::anime_characters::{
    AnimeCharactersMedia, AnimeCharactersMediaCharacters, AnimeCharactersMediaCharactersEdges,
    AnimeCharactersMediaCharactersEdgesNode, AnimeCharactersMediaCharactersPageInfo,
    ResponseData as CharactersData, Variables as CharactersVariables,
};
use ani::graphql::anime_completion_search::{
    AnimeCompletionSearchPage, AnimeCompletionSearchPageResults,
    AnimeCompletionSearchPageResultsTitle, ResponseData as CompletionData,
};
use ani::graphql::anime_info::{AnimeInfoMedia, ResponseData as InfoData, Variables as InfoVariables};
use ani::graphql::anime_search::{
    AnimeSearchPage, AnimeSearchPagePageInfo, AnimeSearchPageResults, ResponseData as SearchData,
    Variables as SearchVariables,
};
use ani::graphql::character_info::ResponseData as CharacterData;
use ani::graphql::response::{GraphqlError, Response};

fn result(id: i64) -> AnimeSearchPageResults {
    AnimeSearchPageResults {
        id,
        title: None,
        format: None,
        season: None,
        episodes: None,
        season_year: None,
        cover_image: None,
    }
}

fn search_page(has_next: Option<bool>) -> Response<SearchData> {
    Response {
        data: Some(SearchData {
            page: Some(AnimeSearchPage {
                page_info: Some(AnimeSearchPagePageInfo { has_next_page: has_next }),
                results: Some(vec![Some(result(1)), None, Some(result(3))]),
            }),
        }),
        errors: None,
    }
}

#[test]
fn search_results_skip_absent_items() {
    let r = anime_search_results(search_page(Some(true))).unwrap();
    assert!(r.has_next_page);
    let ids: Vec<i64> = r.items.iter().map(|a| a.id).collect();
    assert_eq!(ids, vec![1, 3]);
    let r = anime_search_results(search_page(None)).unwrap();
    assert!(!r.has_next_page);
}

#[test]
fn server_errors_come_first() {
    let mut response = search_page(Some(false));
    response.errors = Some(vec![
        GraphqlError { message: "Not Found.".to_string() },
        GraphqlError { message: "Rate limited".to_string() },
    ]);
    let e = anime_search_results(response).unwrap_err();
    assert_eq!(e.message(), "GraphQL error: Not Found.; Rate limited");
    let mut response = search_page(Some(false));
    response.errors = Some(Vec::new());
    assert_eq!(anime_search_results(response).unwrap_err().message(), "GraphQL error: ");
}

#[test]
fn search_missing_parts() {
    let r: Response<SearchData> = Response { data: None, errors: None };
    assert!(matches!(anime_search_results(r), Err(ResponseError::NoData)));
    let r = Response { data: Some(SearchData { page: None }), errors: None };
    assert!(matches!(anime_search_results(r), Err(ResponseError::NoPage)));
    let r = Response {
        data: Some(SearchData { page: Some(AnimeSearchPage { page_info: None, results: None }) }),
        errors: None,
    };
    assert!(matches!(anime_search_results(r), Err(ResponseError::NoPageInfo)));
    let r = Response {
        data: Some(SearchData {
            page: Some(AnimeSearchPage {
                page_info: Some(AnimeSearchPagePageInfo { has_next_page: Some(true) }),
                results: None,
            }),
        }),
        errors: None,
    };
    let e = anime_search_results(r).unwrap_err();
    assert!(matches!(e, ResponseError::NoResults));
    assert_eq!(e.message(), "response contained no results");
}

#[test]
fn error_messages() {
    assert_eq!(ResponseError::NoData.message(), "response contained no data");
    assert_eq!(ResponseError::NoPage.message(), "response contained no page");
    assert_eq!(ResponseError::NoPageInfo.message(), "response contained no page info");
    assert_eq!(ResponseError::NoMedia.message(), "response contained no media");
    assert_eq!(ResponseError::NoCharacter.message(), "response contained no character");
    assert_eq!(ResponseError::NoCharacters.message(), "response contained no characters");
    assert_eq!(ResponseError::GraphQl("x".to_string()).message(), "GraphQL error: x");
}

#[test]
fn completions_default_to_no_title() {
    let r = Response {
        data: Some(CompletionData {
            page: Some(AnimeCompletionSearchPage {
                results: Some(vec![
                    Some(AnimeCompletionSearchPageResults {
                        id: 97986,
                        title: Some(AnimeCompletionSearchPageResultsTitle { romaji: Some("Made in Abyss".to_string()) }),
                    }),
                    None,
                    Some(AnimeCompletionSearchPageResults {
                        id: 5,
                        title: Some(AnimeCompletionSearchPageResultsTitle { romaji: None }),
                    }),
                    Some(AnimeCompletionSearchPageResults { id: 6, title: None }),
                ]),
            }),
        }),
        errors: None,
    };
    let items = anime_completions(r).unwrap();
    let lines: Vec<String> = items.iter().map(|c| c.to_line()).collect();
    assert_eq!(lines, vec!["97986\tMade in Abyss", "5\tNo Title", "6\tNo Title"]);
    let r = Response { data: Some(CompletionData { page: Some(AnimeCompletionSearchPage { results: None }) }), errors: None };
    assert!(matches!(anime_completions(r), Err(ResponseError::NoResults)));
    let r: Response<CompletionData> = Response { data: Some(CompletionData { page: None }), errors: None };
    assert!(matches!(anime_completions(r), Err(ResponseError::NoPage)));
}

#[test]
fn completion_line() {
    let c = AnimeCompletion { id: -3, title: "T".to_string() };
    assert_eq!(c.to_line(), "-3\tT");
}

fn media(id: i64) -> AnimeInfoMedia {
    AnimeInfoMedia {
        id,
        title: None,
        genres: None,
        format: None,
        status: None,
        season: None,
        episodes: None,
        site_url: None,
        cover_image: None,
        season_year: None,
        description: None,
        average_score: None,
    }
}

#[test]
fn info_result() {
    let r = Response { data: Some(InfoData { media: Some(media(7)) }), errors: None };
    assert_eq!(anime_info_result(r).unwrap().id, 7);
    let r = Response { data: Some(InfoData { media: None }), errors: None };
    assert!(matches!(anime_info_result(r), Err(ResponseError::NoMedia)));
    let r: Response<InfoData> = Response { data: None, errors: Some(vec![GraphqlError { message: "boom".to_string() }]) };
    assert_eq!(anime_info_result(r).unwrap_err().message(), "GraphQL error: boom");
}

#[test]
fn character_result() {
    let r: Response<CharacterData> = Response { data: Some(CharacterData { character: None }), errors: None };
    assert!(matches!(character_info_result(r), Err(ResponseError::NoCharacter)));
    let r: Response<CharacterData> = Response { data: None, errors: None };
    assert!(matches!(character_info_result(r), Err(ResponseError::NoData)));
}

fn character_node(id: i64) -> AnimeCharactersMediaCharactersEdgesNode {
    AnimeCharactersMediaCharactersEdgesNode {
        id, name: None, image: None, age: None, gender: None, description: None, date_of_birth: None,
    }
}

#[test]
fn characters_of_an_anime() {
    let r = Response {
        data: Some(CharactersData {
            media: Some(AnimeCharactersMedia {
                characters: Some(AnimeCharactersMediaCharacters {
                    page_info: Some(AnimeCharactersMediaCharactersPageInfo { has_next_page: Some(true) }),
                    edges: Some(vec![
                        Some(AnimeCharactersMediaCharactersEdges { node: Some(character_node(1)), voice_actor_roles: None }),
                        None,
                        Some(AnimeCharactersMediaCharactersEdges { node: None, voice_actor_roles: None }),
                        Some(AnimeCharactersMediaCharactersEdges { node: Some(character_node(2)), voice_actor_roles: None }),
                    ]),
                }),
            }),
        }),
        errors: None,
    };
    let r = anime_characters_results(r).unwrap();
    assert!(r.has_next_page);
    let ids: Vec<i64> = r.items.iter().map(|c| c.id).collect();
    assert_eq!(ids, vec![1, 2]);
    let r = Response {
        data: Some(CharactersData {
            media: Some(AnimeCharactersMedia {
                characters: Some(AnimeCharactersMediaCharacters {
                    page_info: Some(AnimeCharactersMediaCharactersPageInfo { has_next_page: None }),
                    edges: None,
                }),
            }),
        }),
        errors: None,
    };
    let r = anime_characters_results(r).unwrap();
    assert!(!r.has_next_page && r.items.is_empty());
    let r = Response { data: Some(CharactersData { media: Some(AnimeCharactersMedia { characters: None }) }), errors: None };
    assert!(matches!(anime_characters_results(r), Err(ResponseError::NoCharacters)));
    let r = Response {
        data: Some(CharactersData {
            media: Some(AnimeCharactersMedia {
                characters: Some(AnimeCharactersMediaCharacters { page_info: None, edges: None }),
            }),
        }),
        errors: None,
    };
    assert!(matches!(anime_characters_results(r), Err(ResponseError::NoPageInfo)));
}

#[test]
fn query_bodies() {
    let body = AnimeInfo::build_query(InfoVariables { id: 97986 });
    assert_eq!(body.variables.id, 97986);
    assert_eq!(body.operation_name, "AnimeInfo");
    assert_eq!(body.query, ANIME_INFO_QUERY);
    let body = AnimeSearch::build_query(SearchVariables { query: Some("abyss".to_string()), page: 1, per_page: 8 });
    assert_eq!(body.operation_name, "AnimeSearch");
    assert_eq!(body.query, ANIME_SEARCH_QUERY);
    let body = AnimeCharacters::build_query(CharactersVariables { page: 1, anime_id: 2, per_page: 3 });
    assert_eq!(body.operation_name, "AnimeCharacters");
}

#[test]
fn completion_line_splits_at_first_tab() {
    let c = AnimeCompletion { id: 97986, title: "Made\tin Abyss".to_string() };
    let line = c.to_line();
    let (id, title) = line.split_once('\t').unwrap();
    assert_eq!(id, "97986");
    assert_eq!(title, "Made\tin Abyss");
}
