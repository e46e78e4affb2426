use ani::display::{
    anime_cover_url, anime_info_blocks, birthday, character_description_blocks,
    character_image_url, character_info_blocks, character_listing, clean_description, cover_cells,
    cover_size, decode_cover, month_name, move_below_cover, render_lines, row_below_image,
    rows_to_scroll, space_available, text_column, Block, Cover, Placement, Style,
};
use ani::models::{
    Anime, Character, CharacterAppearsIn, CharacterImage, CharacterVoiceActor, FuzzyDate,
    MediaCoverImage, MediaFormat, MediaSeason, MediaStatus, MediaTitle, Name,
};

fn s(x: &str) -> Option<String> {
    Some(x.to_string())
}

fn view(blocks: &[Block]) -> Vec<(Placement, String)> {
    blocks.iter().map(|b| (b.placement, b.text.clone())).collect()
}

fn abyss() -> Anime {
    Anime {
        id: 97986,
        title: Some(MediaTitle { romaji: s("Made in Abyss"), native: s("\u{30e1}\u{30a4}\u{30c9}\u{30a4}\u{30f3}\u{30a2}\u{30d3}\u{30b9}") }),
        genres: Some(vec!["Adventure".to_string(), "Drama".to_string()]),
        format: Some(MediaFormat::TV),
        status: Some(MediaStatus::FINISHED),
        season: Some(MediaSeason::SUMMER),
        episodes: Some(13),
        site_url: s("https://anilist.co/anime/97986"),
        cover_image: None,
        season_year: Some(2017),
        description: s("An enormous <i>cave</i> &amp; more"),
        average_score: Some(86),
    }
}

#[test]
fn cover_widths() {
    assert_eq!(Style::Large.cover_width(), 27);
    assert_eq!(Style::Small.cover_width(), 10);
}

#[test]
fn placement_arithmetic() {
    assert_eq!(cover_cells(27, 39), Some((27, 20)));
    assert_eq!(cover_cells(27, 40), Some((27, 20)));
    assert_eq!(cover_cells(70000, 2), None);
    assert_eq!(cover_cells(1, 200000), None);
    assert_eq!(rows_to_scroll(24, 20, 20), 17);
    assert_eq!(rows_to_scroll(50, 0, 20), 0);
    assert_eq!(rows_to_scroll(10, 30, 5), 5);
    assert_eq!(text_column(27), 30);
    assert_eq!(row_below_image(10, 20), 30);
    assert_eq!(row_below_image(65530, 20), 65535);
    assert_eq!(space_available(80, 30), 49);
    assert_eq!(space_available(20, 30), 0);
}

#[test]
fn large_anime_blocks() {
    let blocks = anime_info_blocks(&abyss(), Style::Large);
    let dot = " \u{b7} ";
    assert_eq!(
        view(&blocks),
        vec![
            (Placement::Wrapped, "Made in Abyss".to_string()),
            (Placement::Wrapped, "\u{30e1}\u{30a4}\u{30c9}\u{30a4}\u{30f3}\u{30a2}\u{30d3}\u{30b9}".to_string()),
            (Placement::Raw, String::new()),
            (Placement::Indented, format!("TV{dot}13 episodes{dot}2017")),
            (Placement::Indented, "Summer 2017".to_string()),
            (Placement::Indented, "Score: 86/100".to_string()),
            (Placement::Indented, "Status: Finished".to_string()),
            (Placement::Wrapped, format!("Genres: Adventure{dot}Drama")),
            (Placement::Raw, String::new()),
            (Placement::Wrapped, "An enormous cave & more".to_string()),
            (Placement::Raw, String::new()),
            (Placement::Indented, "AniList: https://anilist.co/anime/97986".to_string()),
        ]
    );
}

#[test]
fn small_anime_blocks() {
    let mut a = abyss();
    a.episodes = Some(1);
    let blocks = anime_info_blocks(&a, Style::Small);
    assert_eq!(
        view(&blocks),
        vec![
            (Placement::Wrapped, "[97986] Made in Abyss".to_string()),
            (Placement::Indented, "TV \u{b7} 1 episode \u{b7} Summer 2017".to_string()),
        ]
    );
}

#[test]
fn anime_without_title_or_details() {
    let a = Anime {
        id: 1, title: None, genres: Some(Vec::new()), format: None, status: None, season: None,
        episodes: None, site_url: None, cover_image: None, season_year: None, description: None,
        average_score: None,
    };
    assert_eq!(view(&anime_info_blocks(&a, Style::Small)), vec![(Placement::Wrapped, "[1] No Title".to_string())]);
    assert_eq!(
        view(&anime_info_blocks(&a, Style::Large)),
        vec![
            (Placement::Indented, "No Title".to_string()),
            (Placement::Raw, String::new()),
            (Placement::Raw, String::new()),
        ]
    );
    let mut same = abyss();
    same.title = Some(MediaTitle { romaji: s("Same"), native: s("Same") });
    let blocks = anime_info_blocks(&same, Style::Large);
    assert_eq!(view(&blocks[..2]), vec![(Placement::Wrapped, "Same".to_string()), (Placement::Raw, String::new())]);
}

fn claire() -> Character {
    Character {
        id: 138101,
        age: s("15-17"),
        name: Some(Name { last: s("Fran\u{e7}ois"), first: s("Claire"), native: s("\u{30af}\u{30ec}\u{30a2}") }),
        image: None,
        gender: None,
        appears_in: vec![
            CharacterAppearsIn { id: 158704, title: s("Watashi no Oshi wa Akuyaku Reijou") },
            CharacterAppearsIn { id: 1, title: None },
        ],
        description: s("**Height:** 157 cm\n[Revolution](https://anilist.co/x) __x__ ~!secret!~ end"),
        voice_actors: vec![
            CharacterVoiceActor { id: 122695, name: Some(Name { last: s("Nanami"), first: s("Karin"), native: None }) },
            CharacterVoiceActor { id: 2, name: None },
        ],
        date_of_birth: Some(FuzzyDate { day: Some(28), year: None, month: Some(3) }),
    }
}

#[test]
fn character_beside_image() {
    let mut blocks = character_info_blocks(&claire());
    blocks.extend(character_description_blocks(&claire()).unwrap());
    assert_eq!(
        view(&blocks),
        vec![
            (Placement::Indented, "Fran\u{e7}ois Claire".to_string()),
            (Placement::Indented, "\u{30af}\u{30ec}\u{30a2}".to_string()),
            (Placement::Raw, String::new()),
            (Placement::Indented, "Age: 15-17".to_string()),
            (Placement::Indented, "Gender: Unknown".to_string()),
            (Placement::Indented, "Birthday: Mar 28".to_string()),
            (Placement::Raw, String::new()),
            (Placement::Wrapped, "Height: 157 cm\nRevolution x  end".to_string()),
        ]
    );
}

#[test]
fn character_names() {
    let mut c = claire();
    c.description = None;
    assert!(character_description_blocks(&c).unwrap().is_empty());
    c.name = None;
    assert_eq!(character_info_blocks(&c)[0].text, "No Name");
    c.name = Some(Name { last: None, first: s("Claire"), native: None });
    let b = character_info_blocks(&c);
    assert_eq!(b[0].text, "Claire");
    assert_eq!(b[1].placement, Placement::Raw);
    c.name = Some(Name { last: s("L"), first: None, native: s("N") });
    let b = character_info_blocks(&c);
    assert_eq!((b[0].text.as_str(), b[1].text.as_str()), ("L", "N"));
}

#[test]
fn character_below_image() {
    let blocks = character_listing(&claire());
    assert_eq!(
        view(&blocks),
        vec![
            (Placement::Raw, String::new()),
            (Placement::Raw, "Voice".to_string()),
            (Placement::Raw, "  [122695] Nanami Karin".to_string()),
            (Placement::Raw, "  [2] No Name".to_string()),
            (Placement::Raw, String::new()),
            (Placement::Raw, "Appears in".to_string()),
            (Placement::Raw, "  [158704] Watashi no Oshi wa Akuyaku Reijou".to_string()),
            (Placement::Raw, "  [1] No Title".to_string()),
        ]
    );
    let mut c = claire();
    c.voice_actors.clear();
    c.appears_in.clear();
    assert!(character_listing(&c).is_empty());
}

#[test]
fn birthdays() {
    assert_eq!(birthday(&Some(FuzzyDate { day: Some(1), year: None, month: Some(12) })), "Dec 1");
    assert_eq!(birthday(&Some(FuzzyDate { day: Some(1), year: None, month: Some(13) })), "Unknown");
    assert_eq!(birthday(&Some(FuzzyDate { day: None, year: Some(2000), month: Some(1) })), "Unknown");
    assert_eq!(birthday(&None), "Unknown");
    assert_eq!(month_name(5), Some("May"));
    assert_eq!(month_name(0), None);
}

#[test]
fn description_cleaning() {
    assert_eq!(clean_description("[a](b) and [c](d)").unwrap(), "a and c");
    assert_eq!(clean_description("~!x!~ y ~!z!~").unwrap(), "");
    assert_eq!(clean_description("plain").unwrap(), "plain");
}

#[test]
fn rendering_wraps_only_wrapped_blocks() {
    let blocks = vec![
        Block { placement: Placement::Wrapped, text: "Memory safety without garbage collection.".to_string() },
        Block { placement: Placement::Indented, text: "Memory safety without garbage collection.".to_string() },
        Block { placement: Placement::Raw, text: String::new() },
    ];
    let lines: Vec<(bool, String)> = render_lines(&blocks, 15).into_iter().map(|l| (l.indented, l.text)).collect();
    assert_eq!(
        lines,
        vec![
            (true, "Memory safety".to_string()),
            (true, "without garbage".to_string()),
            (true, "collection.".to_string()),
            (true, "Memory safety without garbage collection.".to_string()),
            (false, String::new()),
        ]
    );
}

fn png_bytes(width: u32, height: u32) -> Vec<u8> {
    let mut png: Vec<u8> = Vec::new();
    image::DynamicImage::new_rgb8(width, height)
        .write_to(&mut std::io::Cursor::new(&mut png), image::ImageFormat::Png)
        .unwrap();
    png
}

fn cover_of(width: u32, height: u32) -> Cover {
    decode_cover(&png_bytes(width, height)).unwrap()
}

#[test]
fn cover_sizes_in_cells() {
    let cover = cover_of(54, 80);
    assert_eq!(cover.size(), (54, 80));
    assert!(cover.resizes_safely_for(Style::Large));
    assert_eq!(cover_size(&cover, Style::Large), Some((27, 20)));
    assert_eq!(cover_size(&cover, Style::Small), Some((10, 7)));
    let narrow = cover_of(8, 15);
    assert_eq!(cover_size(&narrow, Style::Large), Some((8, 8)));
    let tiny = cover_of(1, 1);
    assert!(tiny.resizes_safely_for(Style::Small));
    assert_eq!(cover_size(&tiny, Style::Small), Some((1, 1)));
}

#[test]
fn wide_cover_with_odd_height() {
    // 51 * 27 / 100 = 13 pixels, 6 whole cells, less the odd pixel: 11 pixels high
    let cover = cover_of(100, 51);
    assert_eq!(cover_size(&cover, Style::Large), Some((27, 6)));
}

#[test]
fn narrow_tall_cover_is_safe_to_resize() {
    let cover = cover_of(1, 2000);
    assert!(cover.resizes_safely_for(Style::Large));
    assert_eq!(cover_size(&cover, Style::Large), Some((1, 1000)));
}

#[test]
fn decoding_covers() {
    let cover = decode_cover(&png_bytes(3, 4)).unwrap();
    assert_eq!(cover.size(), (3, 4));
    assert!(decode_cover(b"not an image").is_err());
}

#[test]
fn moving_below_the_cover() {
    assert_eq!(move_below_cover(5, 20), Some(20));
    assert_eq!(move_below_cover(20, 20), None);
    assert_eq!(move_below_cover(30, 20), None);
}

#[test]
fn cover_urls() {
    let mut a = abyss();
    a.cover_image = Some(MediaCoverImage { medium: s("m.png"), extra_large: s("xl.png") });
    assert_eq!(anime_cover_url(&a, Style::Large).as_deref(), Some("xl.png"));
    assert_eq!(anime_cover_url(&a, Style::Small).as_deref(), Some("m.png"));
    a.cover_image = None;
    assert_eq!(anime_cover_url(&a, Style::Large), None);
    let mut c = claire();
    assert_eq!(character_image_url(&c), None);
    c.image = Some(CharacterImage { large: s("l.png"), medium: s("md.png") });
    assert_eq!(character_image_url(&c).as_deref(), Some("l.png"));
}
