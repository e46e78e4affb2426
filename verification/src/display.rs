//! What the client shows of an anime or a character, and where: the text
//! beside and below the cover image, and the terminal arithmetic that places
//! the text next to the image.

use vstd::prelude::*;

use crate::models::{
    format_label, season_label, status_label, Anime, Character, CharacterAppearsIn,
    CharacterVoiceActor, FuzzyDate, MediaSeason,
};
use crate::pattern::{compiles, replaced_all, Pattern};
use crate::text::{
    decimal, join_strings, joined, law_joined_parts, lemma_joined_bounds, part_start, push_decimal,
    views,
};

verus! {

// ---------------------------------------------------------------------------
// Styles and placement arithmetic
// ---------------------------------------------------------------------------

/// How much of an anime is shown: everything, next to a large cover, or one
/// line of details, next to a small cover.
#[derive(Clone, Copy, Debug, PartialEq, Eq, Structural)]
pub enum Style {
    Large,
    Small,
}

impl Style {
    /// The width of the cover image, in terminal cells.
    pub open spec fn spec_cover_width(self) -> u32 {
        match self {
            Style::Large => 27u32,
            Style::Small => 10u32,
        }
    }

    /// The width of the cover image, in terminal cells.
    pub fn cover_width(self) -> (w: u32)
        ensures
            w == self.spec_cover_width(),
    {
        match self {
            Style::Large => 27,
            Style::Small => 10,
        }
    }
}

/// The size in terminal cells of an image `width` by `height` pixels: its
/// width, and half its height rounded up (a cell holds two pixels on top of
/// each other); nothing when either does not fit in a `u16`.
pub open spec fn cells_of(width: u32, height: u32) -> Option<(u16, u16)> {
    if width <= u16::MAX && (height + 1) / 2 <= u16::MAX {
        Some((width as u16, ((height + 1) / 2) as u16))
    } else {
        None
    }
}

/// The size of a resized cover in terminal cells: its width in pixels and
/// half its height in pixels, rounded up (a cell holds two pixels on top of
/// each other); nothing when either does not fit in a `u16`.
pub fn cover_cells(width: u32, height: u32) -> (r: Option<(u16, u16)>)
    ensures
        r == cells_of(width, height),
{
    let rows: u32 = height / 2 + height % 2;
    assert(rows == (height + 1) / 2);
    if width <= 65535 && rows <= 65535 {
        Some((width as u16, rows as u16))
    } else {
        None
    }
}

#[verifier::external_type_specification]
#[verifier::external_body]
pub struct ExDynamicImage(image::DynamicImage);

#[verifier::external_type_specification]
#[verifier::external_body]
pub struct ExImageError(image::ImageError);

/// Whether `image::load_from_memory` decodes `bytes` as an image.
pub uninterp spec fn image_decodes(bytes: Seq<u8>) -> bool;

/// The width and height in pixels of the image that
/// `image::load_from_memory` decodes from `bytes`.
pub uninterp spec fn decoded_size(bytes: Seq<u8>) -> (u32, u32);

/// `image::load_from_memory`, then the width and height of the image it
/// gives. The contract claims that whether the bytes decode, and the size of
/// what they decode to, depend on the bytes alone (`image_decodes`,
/// `decoded_size`). What the pixels or the error hold is left unsaid.
#[verifier::external_body]
fn load_image(bytes: &[u8]) -> (r: Result<(image::DynamicImage, u32, u32), image::ImageError>)
    ensures
        r is Ok <==> image_decodes(bytes@),
        r matches Ok((_, w, h)) ==> (w, h) == decoded_size(bytes@),
{
    let img = image::load_from_memory(bytes)?;
    let (w, h) = (img.width(), img.height());
    Ok((img, w, h))
}

/// A cover image together with its size in pixels. Only `decode_cover`
/// makes one, with the size that the decoder read from the image itself, so
/// the recorded size is always the image's.
#[derive(Debug)]
pub struct Cover {
    image: image::DynamicImage,
    width: u32,
    height: u32,
}

/// Whether viuer can scale an image `width` by `height` pixels to `bound`
/// cells wide without its `u32` arithmetic overflowing: it doubles the
/// height, and, only when the image is wider than the bound, multiplies the
/// width by the doubled height and the bound by the height.
pub open spec fn resizes_safely(width: u32, height: u32, bound: u32) -> bool {
    &&& 2 * height <= u32::MAX
    &&& width > bound ==> width * (2 * height) <= u32::MAX && bound * height <= u32::MAX
}

/// The size in pixels of the image that `viuer::resize` makes of an image
/// `width` by `height` pixels for `bound` cells wide. An image that fits
/// keeps its size (an empty one becomes two pixels high); a wider one is
/// scaled down to the bound, its height to a whole number of cells, at least
/// one, less a pixel where the original height is odd.
pub open spec fn scaled_size(width: u32, height: u32, bound: u32) -> (u32, u32) {
    if width <= bound {
        (width, if height == 0 { 2u32 } else { height })
    } else {
        let cells: int = (height as int) * (bound as int) / (width as int) / 2;
        let cells: int = if cells < 1 { 1 } else { cells };
        (bound, (2 * cells - height % 2) as u32)
    }
}

/// `viuer::resize(image, Some(bound), None)`, then the width and height of
/// the image it gives. The contract claims the size that viuer's
/// `find_best_fit` and `fit_dimensions` compute from the cover's size and
/// the bound, which image's `resize_exact` then makes exactly
/// (`scaled_size`). It rests on the cover's recorded size being its image's
/// (see `Cover`). Viuer's `u32` arithmetic overflows outside
/// `resizes_safely`, which the `requires` leaves out.
#[verifier::external_body]
fn resized_size(cover: &Cover, bound: u32) -> (r: (u32, u32))
    requires
        resizes_safely(cover.width, cover.height, bound),
    ensures
        r == scaled_size(cover.width, cover.height, bound),
{
    let scaled = viuer::resize(&cover.image, Some(bound), None);
    (scaled.width(), scaled.height())
}

impl Cover {
    /// The width of the cover in pixels.
    pub closed spec fn pixel_width(&self) -> u32 {
        self.width
    }

    /// The height of the cover in pixels.
    pub closed spec fn pixel_height(&self) -> u32 {
        self.height
    }

    /// The image itself, for printing.
    pub fn image(&self) -> &image::DynamicImage {
        &self.image
    }

    /// The size of the cover in pixels.
    pub fn size(&self) -> (r: (u32, u32))
        ensures
            r == (self.pixel_width(), self.pixel_height()),
    {
        (self.width, self.height)
    }

    /// Whether the cover can be scaled for `style` (see `resizes_safely`).
    pub fn resizes_safely_for(&self, style: Style) -> (b: bool)
        ensures
            b == resizes_safely(self.pixel_width(), self.pixel_height(), style.spec_cover_width()),
    {
        let w = self.width as u64;
        let h = self.height as u64;
        let bound = style.cover_width() as u64;
        if 2 * h > 4294967295 {
            return false;
        }
        if w <= bound {
            return true;
        }
        let twice_h: u64 = 2 * h;
        assert(w * twice_h <= 4294967295 * 4294967295) by (nonlinear_arith)
            requires
                w <= 4294967295,
                twice_h <= 4294967295,
        ;
        assert(bound * h <= 4294967295 * 4294967295) by (nonlinear_arith)
            requires
                bound <= 4294967295,
                h <= 4294967295,
        ;
        w * twice_h <= 4294967295 && bound * h <= 4294967295
    }
}

/// The cover decoded from downloaded bytes, with the size of the decoded
/// image; an error exactly when the bytes do not decode as an image.
pub fn decode_cover(bytes: &[u8]) -> (r: Result<Cover, image::ImageError>)
    ensures
        r is Ok <==> image_decodes(bytes@),
        r matches Ok(c) ==> (c.pixel_width(), c.pixel_height()) == decoded_size(bytes@),
{
    match load_image(bytes) {
        Ok((image, width, height)) => Ok(Cover { image, width, height }),
        Err(e) => Err(e),
    }
}

/// The size in terminal cells of `cover` as it is printed in `style`: the
/// cover scaled to the style's width as viuer scales it, its size turned
/// into cells as `cover_cells` does. The width never exceeds the style's
/// width, and a cover that fits the style keeps its own width and height.
pub fn cover_size(cover: &Cover, style: Style) -> (r: Option<(u16, u16)>)
    requires
        resizes_safely(cover.pixel_width(), cover.pixel_height(), style.spec_cover_width()),
    ensures
        r == cells_of(
            scaled_size(cover.pixel_width(), cover.pixel_height(), style.spec_cover_width()).0,
            scaled_size(cover.pixel_width(), cover.pixel_height(), style.spec_cover_width()).1,
        ),
        r matches Some((columns, _)) ==> columns <= style.spec_cover_width(),
        cover.pixel_width() <= style.spec_cover_width() && cover.pixel_height() > 0 ==> r
            == cells_of(cover.pixel_width(), cover.pixel_height()),
{
    let (width, height) = resized_size(cover, style.cover_width());
    cover_cells(width, height)
}

/// The rows left below the cursor row, keeping the last row free.
pub open spec fn available_rows(terminal_rows: u16, current_row: u16) -> int {
    if terminal_rows > current_row + 1 {
        terminal_rows - current_row - 1
    } else {
        0
    }
}

/// How many rows the terminal must scroll up so that a cover of
/// `cover_rows` rows fits below the cursor row: none when it fits already.
pub fn rows_to_scroll(terminal_rows: u16, current_row: u16, cover_rows: u16) -> (r: u16)
    ensures
        r == if available_rows(terminal_rows, current_row) < cover_rows {
            cover_rows - available_rows(terminal_rows, current_row)
        } else {
            0
        },
        available_rows(terminal_rows, current_row) + r >= cover_rows,
{
    let available = terminal_rows.saturating_sub(current_row).saturating_sub(1);
    if available < cover_rows {
        cover_rows - available
    } else {
        0
    }
}

/// The column where text starts, right of a cover `cover_columns` wide.
pub fn text_column(cover_columns: u16) -> (c: u16)
    requires
        cover_columns + 3 <= u16::MAX,
    ensures
        c == cover_columns + 3,
{
    cover_columns + 3
}

/// The first row below a cover of `cover_rows` rows drawn from
/// `current_row`, or the last row the terminal can address.
pub fn row_below_image(current_row: u16, cover_rows: u16) -> (r: u16)
    ensures
        r == if current_row + cover_rows <= u16::MAX {
            (current_row + cover_rows) as u16
        } else {
            u16::MAX
        },
{
    current_row.saturating_add(cover_rows)
}

/// Where the cursor moves once the text beside a cover is printed: to the
/// first row below the cover when the text ended above it, nowhere when the
/// text already reaches below the cover.
pub fn move_below_cover(current_row: u16, row_below_image: u16) -> (r: Option<u16>)
    ensures
        r == if current_row < row_below_image {
            Some(row_below_image)
        } else {
            None
        },
{
    if current_row < row_below_image {
        Some(row_below_image)
    } else {
        None
    }
}

/// The width left for text that starts at `text_column`, keeping the last
/// column free.
pub fn space_available(terminal_columns: u16, text_column: u16) -> (w: usize)
    ensures
        w == if terminal_columns > text_column + 1 {
            terminal_columns - text_column - 1
        } else {
            0
        },
{
    let w = terminal_columns.saturating_sub(text_column).saturating_sub(1);
    w as usize
}

/// Where the cover of an anime is downloaded from: the extra large image for
/// the large style, the medium one for the small style.
pub fn anime_cover_url(media: &Anime, style: Style) -> (r: Option<String>)
    ensures
        r == match media.cover_image {
            Some(c) => match style {
                Style::Large => c.extra_large,
                Style::Small => c.medium,
            },
            None => None,
        },
{
    match &media.cover_image {
        Some(c) => {
            let url = match style {
                Style::Large => &c.extra_large,
                Style::Small => &c.medium,
            };
            match url {
                Some(u) => Some(u.clone()),
                None => None,
            }
        },
        None => None,
    }
}

/// Where the image of a character is downloaded from: its large image.
pub fn character_image_url(character: &Character) -> (r: Option<String>)
    ensures
        r == match character.image {
            Some(i) => i.large,
            None => None,
        },
{
    match &character.image {
        Some(i) => match &i.large {
            Some(u) => Some(u.clone()),
            None => None,
        },
        None => None,
    }
}

// ---------------------------------------------------------------------------
// Blocks of text and lines
// ---------------------------------------------------------------------------

/// Where a block of text goes.
#[derive(Clone, Copy, Debug, PartialEq, Eq, Structural)]
pub enum Placement {
    /// Wrapped to the width available, each line at the text column.
    Wrapped,
    /// One line at the text column.
    Indented,
    /// One line where the cursor stands.
    Raw,
}

/// A block of text and where it goes.
#[derive(Debug)]
pub struct Block {
    pub placement: Placement,
    pub text: String,
}

/// Placement and text of each block, in order.
pub open spec fn blocks_view(v: Seq<Block>) -> Seq<(Placement, Seq<char>)> {
    v.map_values(|b: Block| (b.placement, b.text@))
}

/// One line of output, at the text column or where the cursor stands.
#[derive(Debug)]
pub struct Line {
    pub indented: bool,
    pub text: String,
}

/// Whether each line is indented, and its text, in order.
pub open spec fn lines_view(v: Seq<Line>) -> Seq<(bool, Seq<char>)> {
    v.map_values(|l: Line| (l.indented, l.text@))
}

/// What `textwrap::wrap` gives for `text` and `width`: the lines of the text
/// wrapped to that width.
pub uninterp spec fn wrapped(text: Seq<char>, width: nat) -> Seq<Seq<char>>;

/// `textwrap::wrap(text, width)`, each line made an owned string. The
/// contract claims that the lines are `wrapped` of the text and the width.
#[verifier::external_body]
fn wrap_text(text: &str, width: usize) -> (lines: Vec<String>)
    ensures
        views(lines@) == wrapped(text@, width as nat),
{
    textwrap::wrap(text, width).into_iter().map(|line| line.into_owned()).collect()
}

/// What the text of an HTML fragment reads as: the text of all its text
/// nodes, in document order, with the markup gone and entities decoded.
pub uninterp spec fn fragment_text(html: Seq<char>) -> Seq<char>;

/// `scraper::Html::parse_fragment(html)`, then the text nodes of its root
/// element, concatenated. The contract claims that the result is
/// `fragment_text` of the HTML.
#[verifier::external_body]
fn html_text(html: &str) -> (text: String)
    ensures
        text@ == fragment_text(html@),
{
    scraper::Html::parse_fragment(html).root_element().text().collect()
}

/// The lines of a list of blocks: each wrapped block becomes its wrapped
/// lines, at the text column.
pub open spec fn rendered(blocks: Seq<(Placement, Seq<char>)>, width: nat) -> Seq<(bool, Seq<char>)>
    decreases blocks.len(),
{
    if blocks.len() == 0 {
        Seq::empty()
    } else {
        rendered(blocks.drop_last(), width) + match blocks.last().0 {
            Placement::Wrapped => wrapped(blocks.last().1, width).map_values(
                |l: Seq<char>| (true, l),
            ),
            Placement::Indented => seq![(true, blocks.last().1)],
            Placement::Raw => seq![(false, blocks.last().1)],
        }
    }
}

/// The lines to print for `blocks` when `width` columns are left for text.
pub fn render_lines(blocks: &Vec<Block>, width: usize) -> (lines: Vec<Line>)
    ensures
        lines_view(lines@) == rendered(blocks_view(blocks@), width as nat),
{
    let mut lines: Vec<Line> = Vec::new();
    let n = blocks.len();
    let mut i: usize = 0;
    while i < n
        invariant
            n == blocks@.len(),
            i <= n,
            lines_view(lines@) == rendered(blocks_view(blocks@).take(i as int), width as nat),
        decreases n - i,
    {
        let ghost before = lines_view(lines@);
        let block = &blocks[i];
        assert(blocks_view(blocks@).take(i + 1).drop_last() =~= blocks_view(blocks@).take(
            i as int,
        ));
        match block.placement {
            Placement::Wrapped => {
                let wrapped_lines = wrap_text(block.text.as_str(), width);
                let m = wrapped_lines.len();
                let mut j: usize = 0;
                while j < m
                    invariant
                        m == wrapped_lines@.len(),
                        j <= m,
                        views(wrapped_lines@) == wrapped(block.text@, width as nat),
                        lines_view(lines@) == before + wrapped(block.text@, width as nat).take(
                            j as int,
                        ).map_values(|l: Seq<char>| (true, l)),
                    decreases m - j,
                {
                    let ghost w = wrapped(block.text@, width as nat);
                    let ghost prev = lines@;
                    assert(views(wrapped_lines@)[j as int] == wrapped_lines@[j as int]@);
                    let text = wrapped_lines[j].clone();
                    assert(text@ == w[j as int]);
                    lines.push(Line { indented: true, text });
                    assert(lines_view(lines@) =~= lines_view(prev).push((true, w[j as int])));
                    assert(w.take(j + 1) =~= w.take(j as int).push(w[j as int]));
                    j = j + 1;
                    assert(lines_view(lines@) =~= before + wrapped(block.text@, width as nat).take(
                        j as int,
                    ).map_values(|l: Seq<char>| (true, l)));
                }
                assert(wrapped(block.text@, width as nat).take(m as int) =~= wrapped(
                    block.text@,
                    width as nat,
                ));
            },
            Placement::Indented => {
                lines.push(Line { indented: true, text: block.text.clone() });
            },
            Placement::Raw => {
                lines.push(Line { indented: false, text: block.text.clone() });
            },
        }
        i = i + 1;
        assert(lines_view(lines@) =~= rendered(blocks_view(blocks@).take(i as int), width as nat));
    }
    assert(blocks_view(blocks@).take(n as int) =~= blocks_view(blocks@));
    lines
}

/// Adds one block at the end of `v`.
fn push_block(v: &mut Vec<Block>, placement: Placement, text: String)
    ensures
        blocks_view(final(v)@) == blocks_view(old(v)@).push((placement, text@)),
{
    let ghost t = text@;
    v.push(Block { placement, text });
    assert(blocks_view(v@) =~= blocks_view(old(v)@).push((placement, t)));
}

/// Adds the blocks of `more` at the end of `v`.
fn append_blocks(v: &mut Vec<Block>, more: Vec<Block>)
    ensures
        blocks_view(final(v)@) == blocks_view(old(v)@) + blocks_view(more@),
{
    let ghost start = blocks_view(v@);
    let ghost all = more@;
    for b in it: more.into_iter()
        invariant
            it.seq() == all,
            blocks_view(v@) == start + blocks_view(all.take(it.index() as int)),
    {
        let ghost prev = blocks_view(v@);
        let ghost bv = (b.placement, b.text@);
        v.push(b);
        assert(blocks_view(v@) =~= prev.push(bv));
        assert(blocks_view(all.take(it.index() + 1)) =~= blocks_view(all.take(it.index() as int)).push(bv));
    }
    assert(all.take(all.len() as int) =~= all);
}

// ---------------------------------------------------------------------------
// Anime
// ---------------------------------------------------------------------------

/// The separator of details and genres: a middle dot between spaces.
pub open spec fn dot_separator() -> Seq<char> {
    " \u{b7} "@
}

pub open spec fn romaji_of(a: Anime) -> Option<String> {
    match a.title {
        Some(t) => t.romaji,
        None => None,
    }
}

pub open spec fn native_of(a: Anime) -> Option<String> {
    match a.title {
        Some(t) => t.native,
        None => None,
    }
}

/// The title lines of an anime: in the small style one line with the id and
/// the romaji title (or "No Title"); in the large style the romaji title and
/// the native one where they differ (or "No Title"), then a blank line.
pub open spec fn anime_title_blocks(a: Anime, style: Style) -> Seq<(Placement, Seq<char>)> {
    match style {
        Style::Small => seq![
            (
                Placement::Wrapped,
                "["@ + decimal(a.id as int) + "] "@ + match romaji_of(a) {
                    Some(r) => r@,
                    None => "No Title"@,
                },
            ),
        ],
        Style::Large => (match (romaji_of(a), native_of(a)) {
            (Some(r), Some(n)) => if n@ != r@ {
                seq![(Placement::Wrapped, r@), (Placement::Wrapped, n@)]
            } else {
                seq![(Placement::Wrapped, r@)]
            },
            (Some(r), None) => seq![(Placement::Wrapped, r@)],
            (None, Some(n)) => seq![(Placement::Wrapped, n@)],
            (None, None) => seq![(Placement::Indented, "No Title"@)],
        }).push((Placement::Raw, Seq::empty())),
    }
}

/// "1 episode", "12 episodes".
pub open spec fn episodes_text(n: i64) -> Seq<char> {
    decimal(n as int) + if n == 1 {
        " episode"@
    } else {
        " episodes"@
    }
}

/// "Summer 2017".
pub open spec fn season_year_text(s: MediaSeason, year: i64) -> Seq<char> {
    season_label(s) + " "@ + decimal(year as int)
}

/// The details of an anime, in order: its format, its number of episodes,
/// and in the small style its season and year (both needed), in the large
/// style its year.
pub open spec fn anime_details(a: Anime, style: Style) -> Seq<Seq<char>> {
    (match a.format {
        Some(f) => seq![format_label(f)],
        None => Seq::empty(),
    }) + (match a.episodes {
        Some(n) => seq![episodes_text(n)],
        None => Seq::empty(),
    }) + (match style {
        Style::Small => match (a.season_year, a.season) {
            (Some(y), Some(s)) => seq![season_year_text(s, y)],
            _ => Seq::empty(),
        },
        Style::Large => match a.season_year {
            Some(y) => seq![decimal(y as int)],
            None => Seq::empty(),
        },
    })
}

/// The details line, when there are details.
pub open spec fn anime_detail_blocks(a: Anime, style: Style) -> Seq<(Placement, Seq<char>)> {
    if anime_details(a, style).len() == 0 {
        Seq::empty()
    } else {
        seq![(Placement::Indented, joined(anime_details(a, style), dot_separator()))]
    }
}

pub open spec fn season_part(a: Anime) -> Seq<(Placement, Seq<char>)> {
    match (a.season, a.season_year) {
        (Some(s), Some(y)) => seq![(Placement::Indented, season_year_text(s, y))],
        _ => Seq::empty(),
    }
}

pub open spec fn score_part(a: Anime) -> Seq<(Placement, Seq<char>)> {
    match a.average_score {
        Some(score) => seq![(Placement::Indented, "Score: "@ + decimal(score as int) + "/100"@)],
        None => Seq::empty(),
    }
}

pub open spec fn status_part(a: Anime) -> Seq<(Placement, Seq<char>)> {
    match a.status {
        Some(status) => seq![(Placement::Indented, "Status: "@ + status_label(status))],
        None => Seq::empty(),
    }
}

pub open spec fn genres_part(a: Anime) -> Seq<(Placement, Seq<char>)> {
    match a.genres {
        Some(g) => if g@.len() > 0 {
            seq![(Placement::Wrapped, "Genres: "@ + joined(views(g@), dot_separator()))]
        } else {
            Seq::empty()
        },
        None => Seq::empty(),
    }
}

pub open spec fn description_part(a: Anime) -> Seq<(Placement, Seq<char>)> {
    match a.description {
        Some(d) => seq![(Placement::Wrapped, fragment_text(d@)), (Placement::Raw, Seq::empty())],
        None => Seq::empty(),
    }
}

pub open spec fn site_part(a: Anime) -> Seq<(Placement, Seq<char>)> {
    match a.site_url {
        Some(u) => seq![(Placement::Indented, "AniList: "@ + u@)],
        None => Seq::empty(),
    }
}

/// What the large style shows after the details: season and year, score,
/// status, genres (when there are any), a blank line, the description as
/// text with a blank line after it, and the AniList page.
pub open spec fn anime_extra_blocks(a: Anime) -> Seq<(Placement, Seq<char>)> {
    season_part(a) + score_part(a) + status_part(a) + genres_part(a) + seq![
        (Placement::Raw, Seq::empty()),
    ] + description_part(a) + site_part(a)
}

/// Everything shown of an anime beside its cover, in order.
pub open spec fn anime_blocks(a: Anime, style: Style) -> Seq<(Placement, Seq<char>)> {
    anime_title_blocks(a, style) + anime_detail_blocks(a, style) + if style == Style::Large {
        anime_extra_blocks(a)
    } else {
        Seq::empty()
    }
}

fn anime_title_part(media: &Anime, style: Style) -> (v: Vec<Block>)
    ensures
        blocks_view(v@) == anime_title_blocks(*media, style),
{
    let mut v: Vec<Block> = Vec::new();
    match style {
        Style::Small => {
            let mut line = String::from_str("[");
            push_decimal(&mut line, media.id);
            line.append("] ");
            match &media.title {
                Some(t) => match &t.romaji {
                    Some(r) => line.append(r.as_str()),
                    None => line.append("No Title"),
                },
                None => line.append("No Title"),
            }
            push_block(&mut v, Placement::Wrapped, line);
        },
        Style::Large => {
            let (romaji, native) = match &media.title {
                Some(t) => (t.romaji.clone(), t.native.clone()),
                None => (None, None),
            };
            assert(romaji == romaji_of(*media) && native == native_of(*media));
            match (romaji, native) {
                (Some(r), Some(n)) => {
                    let differ = n != r;
                    let ghost nv = n@;
                    push_block(&mut v, Placement::Wrapped, r);
                    if differ {
                        push_block(&mut v, Placement::Wrapped, n);
                    }
                },
                (Some(r), None) => push_block(&mut v, Placement::Wrapped, r),
                (None, Some(n)) => push_block(&mut v, Placement::Wrapped, n),
                (None, None) => push_block(
                    &mut v,
                    Placement::Indented,
                    String::from_str("No Title"),
                ),
            }
            push_block(&mut v, Placement::Raw, String::new());
        },
    }
    assert(blocks_view(v@) =~= anime_title_blocks(*media, style));
    v
}

fn anime_detail_part(media: &Anime, style: Style) -> (v: Vec<Block>)
    ensures
        blocks_view(v@) == anime_detail_blocks(*media, style),
{
    let mut details: Vec<String> = Vec::new();
    if let Some(format) = &media.format {
        details.push(String::from_str(format.label()));
    }
    if let Some(episodes) = media.episodes {
        let mut d = String::new();
        push_decimal(&mut d, episodes);
        if episodes == 1 {
            d.append(" episode");
        } else {
            d.append(" episodes");
        }
        details.push(d);
    }
    match style {
        Style::Small => {
            if let (Some(year), Some(season)) = (media.season_year, &media.season) {
                let mut d = String::from_str(season.label());
                d.append(" ");
                push_decimal(&mut d, year);
                details.push(d);
            }
        },
        Style::Large => {
            if let Some(year) = media.season_year {
                let mut d = String::new();
                push_decimal(&mut d, year);
                details.push(d);
            }
        },
    }
    assert(views(details@) =~= anime_details(*media, style));
    let mut v: Vec<Block> = Vec::new();
    if details.len() > 0 {
        let line = join_strings(&details, " \u{b7} ");
        push_block(&mut v, Placement::Indented, line);
    }
    assert(blocks_view(v@) =~= anime_detail_blocks(*media, style));
    v
}

fn season_blocks(media: &Anime) -> (v: Vec<Block>)
    ensures
        blocks_view(v@) == season_part(*media),
{
    let mut v: Vec<Block> = Vec::new();
    if let (Some(season), Some(year)) = (&media.season, media.season_year) {
        let mut line = String::from_str(season.label());
        line.append(" ");
        push_decimal(&mut line, year);
        push_block(&mut v, Placement::Indented, line);
    }
    assert(blocks_view(v@) =~= season_part(*media));
    v
}

fn score_blocks(media: &Anime) -> (v: Vec<Block>)
    ensures
        blocks_view(v@) == score_part(*media),
{
    let mut v: Vec<Block> = Vec::new();
    if let Some(score) = media.average_score {
        let mut line = String::from_str("Score: ");
        push_decimal(&mut line, score);
        line.append("/100");
        push_block(&mut v, Placement::Indented, line);
    }
    assert(blocks_view(v@) =~= score_part(*media));
    v
}

fn status_blocks(media: &Anime) -> (v: Vec<Block>)
    ensures
        blocks_view(v@) == status_part(*media),
{
    let mut v: Vec<Block> = Vec::new();
    if let Some(status) = &media.status {
        let mut line = String::from_str("Status: ");
        line.append(status.label());
        push_block(&mut v, Placement::Indented, line);
    }
    assert(blocks_view(v@) =~= status_part(*media));
    v
}

fn genres_blocks(media: &Anime) -> (v: Vec<Block>)
    ensures
        blocks_view(v@) == genres_part(*media),
{
    let mut v: Vec<Block> = Vec::new();
    if let Some(genres) = &media.genres {
        if genres.len() > 0 {
            let mut line = String::from_str("Genres: ");
            let joined_genres = join_strings(genres, " \u{b7} ");
            line.append(joined_genres.as_str());
            push_block(&mut v, Placement::Wrapped, line);
        }
    }
    assert(blocks_view(v@) =~= genres_part(*media));
    v
}

fn description_blocks(media: &Anime) -> (v: Vec<Block>)
    ensures
        blocks_view(v@) == description_part(*media),
{
    let mut v: Vec<Block> = Vec::new();
    if let Some(description) = &media.description {
        push_block(&mut v, Placement::Wrapped, html_text(description.as_str()));
        push_block(&mut v, Placement::Raw, String::new());
    }
    assert(blocks_view(v@) =~= description_part(*media));
    v
}

fn site_blocks(media: &Anime) -> (v: Vec<Block>)
    ensures
        blocks_view(v@) == site_part(*media),
{
    let mut v: Vec<Block> = Vec::new();
    if let Some(site_url) = &media.site_url {
        let mut line = String::from_str("AniList: ");
        line.append(site_url.as_str());
        push_block(&mut v, Placement::Indented, line);
    }
    assert(blocks_view(v@) =~= site_part(*media));
    v
}

fn anime_extra_part(media: &Anime) -> (v: Vec<Block>)
    ensures
        blocks_view(v@) == anime_extra_blocks(*media),
{
    let mut v = season_blocks(media);
    append_blocks(&mut v, score_blocks(media));
    append_blocks(&mut v, status_blocks(media));
    append_blocks(&mut v, genres_blocks(media));
    push_block(&mut v, Placement::Raw, String::new());
    append_blocks(&mut v, description_blocks(media));
    append_blocks(&mut v, site_blocks(media));
    assert(blocks_view(v@) =~= anime_extra_blocks(*media));
    v
}

/// What is shown of an anime beside its cover, in `style`.
pub fn anime_info_blocks(media: &Anime, style: Style) -> (v: Vec<Block>)
    ensures
        blocks_view(v@) == anime_blocks(*media, style),
{
    let mut v = anime_title_part(media, style);
    append_blocks(&mut v, anime_detail_part(media, style));
    if style == Style::Large {
        append_blocks(&mut v, anime_extra_part(media));
    }
    assert(blocks_view(v@) =~= anime_blocks(*media, style));
    v
}

// ---------------------------------------------------------------------------
// Characters
// ---------------------------------------------------------------------------

/// Links in a description, `[text](target)`: the text stays.
pub const LINK_PATTERN: &'static str = r"\[([^\]]+)\]\([^)]+\)";

/// Bold markers in a description, `**`.
pub const BOLD_PATTERN: &'static str = r"\*\*";

/// The other bold markers in a description, `__`.
pub const UNDERSCORE_BOLD_PATTERN: &'static str = r"__";

/// Spoilers in a description, `~!...!~`.
pub const SPOILER_PATTERN: &'static str = r"~!.*!~";

/// Whether the patterns that clean a description all compile.
pub open spec fn description_patterns_compile() -> bool {
    &&& compiles(LINK_PATTERN@, false, false)
    &&& compiles(BOLD_PATTERN@, false, false)
    &&& compiles(UNDERSCORE_BOLD_PATTERN@, false, false)
    &&& compiles(SPOILER_PATTERN@, false, false)
}

/// A description with links reduced to their text and bold markers and
/// spoilers removed, in that order.
pub open spec fn cleaned_description(d: Seq<char>) -> Seq<char> {
    let unlinked = replaced_all(LINK_PATTERN@, false, false, d, "$1"@);
    let unbolded = replaced_all(BOLD_PATTERN@, false, false, unlinked, ""@);
    let plain = replaced_all(UNDERSCORE_BOLD_PATTERN@, false, false, unbolded, ""@);
    replaced_all(SPOILER_PATTERN@, false, false, plain, ""@)
}

/// Last name, first name and native name of a character.
pub open spec fn name_parts(c: Character) -> (Option<String>, Option<String>, Option<String>) {
    match c.name {
        Some(n) => (n.last, n.first, n.native),
        None => (None, None, None),
    }
}

/// The name lines of a character: "last first" (or whichever is known, or
/// "No Name" when none is), then the native name on a line of its own.
pub open spec fn character_name_blocks(c: Character) -> Seq<(Placement, Seq<char>)> {
    match name_parts(c) {
        (Some(l), Some(f), Some(n)) => seq![
            (Placement::Indented, l@ + " "@ + f@),
            (Placement::Indented, n@),
        ],
        (Some(l), Some(f), None) => seq![(Placement::Indented, l@ + " "@ + f@)],
        (Some(l), None, None) => seq![(Placement::Indented, l@)],
        (None, None, None) => seq![(Placement::Indented, "No Name"@)],
        (None, None, Some(n)) => seq![(Placement::Indented, n@)],
        (None, Some(f), Some(n)) => seq![(Placement::Indented, f@), (Placement::Indented, n@)],
        (Some(l), None, Some(n)) => seq![(Placement::Indented, l@), (Placement::Indented, n@)],
        (None, Some(f), None) => seq![(Placement::Indented, f@)],
    }
}

/// The short name of a month, for 1 to 12.
pub open spec fn month_abbreviation(m: i64) -> Option<Seq<char>> {
    if m == 1 {
        Some("Jan"@)
    } else if m == 2 {
        Some("Feb"@)
    } else if m == 3 {
        Some("Mar"@)
    } else if m == 4 {
        Some("Apr"@)
    } else if m == 5 {
        Some("May"@)
    } else if m == 6 {
        Some("Jun"@)
    } else if m == 7 {
        Some("Jul"@)
    } else if m == 8 {
        Some("Aug"@)
    } else if m == 9 {
        Some("Sep"@)
    } else if m == 10 {
        Some("Oct"@)
    } else if m == 11 {
        Some("Nov"@)
    } else if m == 12 {
        Some("Dec"@)
    } else {
        None
    }
}

/// A birthday as "Mar 28"; "Unknown" unless both the day and a month from 1
/// to 12 are known.
pub open spec fn birthday_text(date: Option<FuzzyDate>) -> Seq<char> {
    match date {
        Some(d) => match (d.day, d.month) {
            (Some(day), Some(m)) => match month_abbreviation(m) {
                Some(ab) => ab + " "@ + decimal(day as int),
                None => "Unknown"@,
            },
            _ => "Unknown"@,
        },
        None => "Unknown"@,
    }
}

pub open spec fn or_unknown(o: Option<String>) -> Seq<char> {
    match o {
        Some(s) => s@,
        None => "Unknown"@,
    }
}

/// The name lines, a blank line, age, gender and birthday, and a blank line.
pub open spec fn character_header_blocks(c: Character) -> Seq<(Placement, Seq<char>)> {
    character_name_blocks(c) + seq![
        (Placement::Raw, Seq::empty()),
        (Placement::Indented, "Age: "@ + or_unknown(c.age)),
        (Placement::Indented, "Gender: "@ + or_unknown(c.gender)),
        (Placement::Indented, "Birthday: "@ + birthday_text(c.date_of_birth)),
        (Placement::Raw, Seq::empty()),
    ]
}

/// The cleaned description, when there is one.
pub open spec fn character_description_part(c: Character) -> Seq<(Placement, Seq<char>)> {
    match c.description {
        Some(d) => seq![(Placement::Wrapped, cleaned_description(d@))],
        None => Seq::empty(),
    }
}

/// A voice actor's line: id and "last first", or whichever is known, or
/// "No Name".
pub open spec fn voice_actor_text(va: CharacterVoiceActor) -> Seq<char> {
    "  ["@ + decimal(va.id as int) + "] "@ + match va.name {
        Some(n) => match (n.last, n.first) {
            (Some(l), Some(f)) => l@ + " "@ + f@,
            (Some(l), None) => l@,
            (None, Some(f)) => f@,
            (None, None) => "No Name"@,
        },
        None => "No Name"@,
    }
}

/// A medium's line: id and romaji title, or "No Title".
pub open spec fn appearance_text(a: CharacterAppearsIn) -> Seq<char> {
    "  ["@ + decimal(a.id as int) + "] "@ + match a.title {
        Some(t) => t@,
        None => "No Title"@,
    }
}

pub open spec fn voice_part(c: Character) -> Seq<(Placement, Seq<char>)> {
    if c.voice_actors@.len() == 0 {
        Seq::empty()
    } else {
        seq![(Placement::Raw, Seq::empty()), (Placement::Raw, "Voice"@)] + c.voice_actors@.map_values(
            |va: CharacterVoiceActor| (Placement::Raw, voice_actor_text(va)),
        )
    }
}

pub open spec fn appears_part(c: Character) -> Seq<(Placement, Seq<char>)> {
    if c.appears_in@.len() == 0 {
        Seq::empty()
    } else {
        seq![(Placement::Raw, Seq::empty()), (Placement::Raw, "Appears in"@)]
            + c.appears_in@.map_values(
            |a: CharacterAppearsIn| (Placement::Raw, appearance_text(a)),
        )
    }
}

/// What is shown of a character below its image: its voice actors and the
/// media it appears in, each list under a heading, when it is not empty.
pub open spec fn character_listing_blocks(c: Character) -> Seq<(Placement, Seq<char>)> {
    voice_part(c) + appears_part(c)
}

fn name_part(character: &Character) -> (v: Vec<Block>)
    ensures
        blocks_view(v@) == character_name_blocks(*character),
{
    let (last, first, native) = match &character.name {
        Some(n) => (n.last.clone(), n.first.clone(), n.native.clone()),
        None => (None, None, None),
    };
    assert((last, first, native) == name_parts(*character));
    let mut v: Vec<Block> = Vec::new();
    match (last, first, native) {
        (Some(l), Some(f), Some(n)) => {
            let mut line = l;
            line.append(" ");
            line.append(f.as_str());
            push_block(&mut v, Placement::Indented, line);
            push_block(&mut v, Placement::Indented, n);
        },
        (Some(l), Some(f), None) => {
            let mut line = l;
            line.append(" ");
            line.append(f.as_str());
            push_block(&mut v, Placement::Indented, line);
        },
        (Some(l), None, None) => push_block(&mut v, Placement::Indented, l),
        (None, None, None) => push_block(&mut v, Placement::Indented, String::from_str("No Name")),
        (None, None, Some(n)) => push_block(&mut v, Placement::Indented, n),
        (None, Some(f), Some(n)) => {
            push_block(&mut v, Placement::Indented, f);
            push_block(&mut v, Placement::Indented, n);
        },
        (Some(l), None, Some(n)) => {
            push_block(&mut v, Placement::Indented, l);
            push_block(&mut v, Placement::Indented, n);
        },
        (None, Some(f), None) => push_block(&mut v, Placement::Indented, f),
    }
    assert(blocks_view(v@) =~= character_name_blocks(*character));
    v
}

/// The short name of a month, for 1 to 12.
pub fn month_name(month: i64) -> (r: Option<&'static str>)
    ensures
        match r {
            Some(s) => month_abbreviation(month) == Some(s@),
            None => month_abbreviation(month) is None,
        },
{
    if month == 1 {
        Some("Jan")
    } else if month == 2 {
        Some("Feb")
    } else if month == 3 {
        Some("Mar")
    } else if month == 4 {
        Some("Apr")
    } else if month == 5 {
        Some("May")
    } else if month == 6 {
        Some("Jun")
    } else if month == 7 {
        Some("Jul")
    } else if month == 8 {
        Some("Aug")
    } else if month == 9 {
        Some("Sep")
    } else if month == 10 {
        Some("Oct")
    } else if month == 11 {
        Some("Nov")
    } else if month == 12 {
        Some("Dec")
    } else {
        None
    }
}

/// A birthday as "Mar 28", or "Unknown".
pub fn birthday(date: &Option<FuzzyDate>) -> (s: String)
    ensures
        s@ == birthday_text(*date),
{
    let day = match date {
        Some(d) => d.day,
        None => None,
    };
    let month = match date {
        Some(d) => match d.month {
            Some(m) => month_name(m),
            None => None,
        },
        None => None,
    };
    match (day, month) {
        (Some(day), Some(month)) => {
            let mut s = String::from_str(month);
            s.append(" ");
            push_decimal(&mut s, day);
            s
        },
        _ => String::from_str("Unknown"),
    }
}

fn labelled(label: &str, value: &Option<String>) -> (s: String)
    ensures
        s@ == label@ + or_unknown(*value),
{
    let mut s = String::from_str(label);
    match value {
        Some(v) => s.append(v.as_str()),
        None => s.append("Unknown"),
    }
    s
}

/// A description with links reduced to their text and bold markers and
/// spoilers removed.
pub fn clean_description(description: &str) -> (r: Result<String, regex::Error>)
    ensures
        r is Ok <==> description_patterns_compile(),
        r matches Ok(s) ==> s@ == cleaned_description(description@),
{
    let link = Pattern::new(LINK_PATTERN, false, false)?;
    let bold = Pattern::new(BOLD_PATTERN, false, false)?;
    let underscore_bold = Pattern::new(UNDERSCORE_BOLD_PATTERN, false, false)?;
    let spoiler = Pattern::new(SPOILER_PATTERN, false, false)?;
    let unlinked = link.replace_all(description, "$1");
    let unbolded = bold.replace_all(unlinked.as_str(), "");
    let plain = underscore_bold.replace_all(unbolded.as_str(), "");
    Ok(spoiler.replace_all(plain.as_str(), ""))
}

/// What is shown of a character beside its image before its description:
/// name lines, age, gender and birthday.
pub fn character_info_blocks(character: &Character) -> (v: Vec<Block>)
    ensures
        blocks_view(v@) == character_header_blocks(*character),
{
    let mut v = name_part(character);
    push_block(&mut v, Placement::Raw, String::new());
    push_block(&mut v, Placement::Indented, labelled("Age: ", &character.age));
    push_block(&mut v, Placement::Indented, labelled("Gender: ", &character.gender));
    let mut line = String::from_str("Birthday: ");
    let b = birthday(&character.date_of_birth);
    line.append(b.as_str());
    push_block(&mut v, Placement::Indented, line);
    push_block(&mut v, Placement::Raw, String::new());
    assert(blocks_view(v@) =~= character_header_blocks(*character));
    v
}

/// The character's cleaned description, shown after the header; an error
/// only when the character has a description and a pattern that cleans it
/// does not compile.
pub fn character_description_blocks(character: &Character) -> (r: Result<Vec<Block>, regex::Error>)
    ensures
        r is Err <==> (character.description is Some && !description_patterns_compile()),
        r matches Ok(v) ==> blocks_view(v@) == character_description_part(*character),
{
    let mut v: Vec<Block> = Vec::new();
    if let Some(description) = &character.description {
        let cleaned = clean_description(description.as_str())?;
        push_block(&mut v, Placement::Wrapped, cleaned);
    }
    assert(blocks_view(v@) =~= character_description_part(*character));
    Ok(v)
}

fn voice_actor_line(va: &CharacterVoiceActor) -> (s: String)
    ensures
        s@ == voice_actor_text(*va),
{
    let mut s = String::from_str("  [");
    push_decimal(&mut s, va.id);
    s.append("] ");
    match &va.name {
        Some(n) => match (&n.last, &n.first) {
            (Some(l), Some(f)) => {
                s.append(l.as_str());
                s.append(" ");
                s.append(f.as_str());
            },
            (Some(l), None) => s.append(l.as_str()),
            (None, Some(f)) => s.append(f.as_str()),
            (None, None) => s.append("No Name"),
        },
        None => s.append("No Name"),
    }
    s
}

fn appearance_line(a: &CharacterAppearsIn) -> (s: String)
    ensures
        s@ == appearance_text(*a),
{
    let mut s = String::from_str("  [");
    push_decimal(&mut s, a.id);
    s.append("] ");
    match &a.title {
        Some(t) => s.append(t.as_str()),
        None => s.append("No Title"),
    }
    s
}

/// What is shown of a character below its image.
pub fn character_listing(character: &Character) -> (v: Vec<Block>)
    ensures
        blocks_view(v@) == character_listing_blocks(*character),
{
    let mut v: Vec<Block> = Vec::new();
    let n = character.voice_actors.len();
    if n > 0 {
        push_block(&mut v, Placement::Raw, String::new());
        push_block(&mut v, Placement::Raw, String::from_str("Voice"));
        let ghost head = blocks_view(v@);
        let mut i: usize = 0;
        while i < n
            invariant
                n == character.voice_actors@.len(),
                i <= n,
                blocks_view(v@) == head + character.voice_actors@.take(i as int).map_values(
                    |va: CharacterVoiceActor| (Placement::Raw, voice_actor_text(va)),
                ),
            decreases n - i,
        {
            push_block(&mut v, Placement::Raw, voice_actor_line(&character.voice_actors[i]));
            i = i + 1;
            assert(character.voice_actors@.take(i as int) =~= character.voice_actors@.take(
                i - 1,
            ).push(character.voice_actors@[i - 1]));
            assert(blocks_view(v@) =~= head + character.voice_actors@.take(i as int).map_values(
                |va: CharacterVoiceActor| (Placement::Raw, voice_actor_text(va)),
            ));
        }
        assert(character.voice_actors@.take(n as int) =~= character.voice_actors@);
    }
    assert(blocks_view(v@) =~= voice_part(*character));
    let ghost voices = blocks_view(v@);
    let m = character.appears_in.len();
    if m > 0 {
        push_block(&mut v, Placement::Raw, String::new());
        push_block(&mut v, Placement::Raw, String::from_str("Appears in"));
        let ghost head = blocks_view(v@);
        let mut i: usize = 0;
        while i < m
            invariant
                m == character.appears_in@.len(),
                i <= m,
                blocks_view(v@) == head + character.appears_in@.take(i as int).map_values(
                    |a: CharacterAppearsIn| (Placement::Raw, appearance_text(a)),
                ),
            decreases m - i,
        {
            push_block(&mut v, Placement::Raw, appearance_line(&character.appears_in[i]));
            i = i + 1;
            assert(character.appears_in@.take(i as int) =~= character.appears_in@.take(i - 1).push(
                character.appears_in@[i - 1],
            ));
            assert(blocks_view(v@) =~= head + character.appears_in@.take(i as int).map_values(
                |a: CharacterAppearsIn| (Placement::Raw, appearance_text(a)),
            ));
        }
        assert(character.appears_in@.take(m as int) =~= character.appears_in@);
    }
    assert(blocks_view(v@) =~= voices + appears_part(*character));
    v
}

// ---------------------------------------------------------------------------
// Laws of what is shown
// ---------------------------------------------------------------------------

/// Whether `text` is a genres line for `genres`: "Genres: ", then every genre
/// whole, in order, each at its place with " \u{b7} " between neighbours,
/// and nothing more.
pub open spec fn shows_genres(text: Seq<char>, genres: Seq<String>) -> bool {
    let label = "Genres: "@;
    let parts = views(genres);
    &&& genres.len() > 0
    &&& text.take(label.len() as int) == label
    &&& text.len() == label.len() + part_start(parts, 3, genres.len() - 1) + genres.last()@.len()
    &&& forall|i: int|
        0 <= i < genres.len() ==> text.subrange(
            label.len() + part_start(parts, 3, i),
            label.len() + part_start(parts, 3, i) + genres[i]@.len(),
        ) == genres[i]@
    &&& forall|i: int|
        0 < i < genres.len() ==> text.subrange(
            label.len() + part_start(parts, 3, i) - 3,
            label.len() + part_start(parts, 3, i),
        ) == dot_separator()
}

proof fn lemma_labelled_join(label: Seq<char>, parts: Seq<Seq<char>>, sep: Seq<char>)
    requires
        parts.len() > 0,
    ensures
        (label + joined(parts, sep)).take(label.len() as int) == label,
        (label + joined(parts, sep)).len() == label.len() + part_start(
            parts,
            sep.len() as int,
            parts.len() - 1,
        ) + parts.last().len(),
        forall|i: int|
            0 <= i < parts.len() ==> (label + joined(parts, sep)).subrange(
                label.len() + part_start(parts, sep.len() as int, i),
                label.len() + part_start(parts, sep.len() as int, i) + parts[i].len(),
            ) == parts[i],
        forall|i: int|
            0 < i < parts.len() ==> (label + joined(parts, sep)).subrange(
                label.len() + part_start(parts, sep.len() as int, i) - sep.len(),
                label.len() + part_start(parts, sep.len() as int, i),
            ) == sep,
{
    let sl = sep.len() as int;
    let body = joined(parts, sep);
    let text = label + body;
    law_joined_parts(parts, sep);
    assert(text.take(label.len() as int) =~= label);
    assert forall|i: int| 0 <= i < parts.len() implies text.subrange(
        label.len() + part_start(parts, sl, i),
        label.len() + part_start(parts, sl, i) + parts[i].len(),
    ) == parts[i] by {
        let a = part_start(parts, sl, i);
        lemma_joined_bounds(parts, sep, i);
        assert(body.subrange(a, a + parts[i].len()) == parts[i]);
        assert(text.subrange(label.len() + a, label.len() + a + parts[i].len()) =~= body.subrange(
            a,
            a + parts[i].len(),
        ));
    }
    assert forall|i: int| 0 < i < parts.len() implies text.subrange(
        label.len() + part_start(parts, sl, i) - sl,
        label.len() + part_start(parts, sl, i),
    ) == sep by {
        let a = part_start(parts, sl, i);
        lemma_joined_bounds(parts, sep, i);
        assert(body.subrange(a - sl, a) == sep);
        assert(text.subrange(label.len() + a - sl, label.len() + a) =~= body.subrange(a - sl, a));
    }
}

proof fn lemma_genres_text(g: Seq<String>)
    requires
        g.len() > 0,
    ensures
        shows_genres("Genres: "@ + joined(views(g), dot_separator()), g),
{
    reveal_strlit(" \u{b7} ");
    reveal_strlit("Genres: ");
    let parts = views(g);
    assert(dot_separator().len() == 3);
    assert("Genres: "@.len() == 8);
    lemma_labelled_join("Genres: "@, parts, dot_separator());
    let text = "Genres: "@ + joined(parts, dot_separator());
    assert forall|i: int| 0 <= i < g.len() implies text.subrange(
        8 + part_start(parts, 3, i),
        8 + part_start(parts, 3, i) + g[i]@.len(),
    ) == g[i]@ by {
        assert(parts[i] == g[i]@);
    }
    assert(parts.last() == g.last()@);
}

/// In the large style an anime with genres shows all of them, in order, on
/// one wrapped line (see `shows_genres`); one without genres shows no such
/// line.
pub proof fn law_genres_line_shows_all(a: Anime)
    ensures
        match a.genres {
            Some(g) => g@.len() > 0 ==> exists|k: int|
                0 <= k < anime_blocks(a, Style::Large).len() && (#[trigger] anime_blocks(
                    a,
                    Style::Large,
                )[k]).0 == Placement::Wrapped && shows_genres(
                    anime_blocks(a, Style::Large)[k].1,
                    g@,
                ),
            None => true,
        },
        !(a.genres matches Some(g) && g@.len() > 0) ==> genres_part(a).len() == 0,
{
    if let Some(g) = a.genres {
        if g@.len() > 0 {
            let text = "Genres: "@ + joined(views(g@), dot_separator());
            lemma_genres_text(g@);
            let blocks = anime_blocks(a, Style::Large);
            let pre = anime_title_blocks(a, Style::Large) + anime_detail_blocks(a, Style::Large);
            let extra = anime_extra_blocks(a);
            assert(blocks == pre + extra);
            let e1 = season_part(a) + score_part(a) + status_part(a);
            let e2 = e1 + genres_part(a);
            assert(genres_part(a) == seq![(Placement::Wrapped, text)]);
            assert(e2[e1.len() as int] == (Placement::Wrapped, text));
            let e3 = e2 + seq![(Placement::Raw, Seq::<char>::empty())];
            let e4 = e3 + description_part(a);
            assert(extra == e4 + site_part(a));
            assert(e3[e1.len() as int] == e2[e1.len() as int]);
            assert(e4[e1.len() as int] == e3[e1.len() as int]);
            assert(extra[e1.len() as int] == e4[e1.len() as int]);
            let k: int = (pre.len() + e1.len()) as int;
            assert(blocks[k] == (Placement::Wrapped, text));
        }
    }
}

/// Every part of a character's name that is known is shown in the name
/// lines that open the header, and nothing else is: the last and the first
/// name on the first line, last name first, then the native name on a line
/// of its own; "No Name" alone when no part is known.
pub proof fn law_name_lines_show_every_part(c: Character)
    ensures
        ({
            let h = character_header_blocks(c);
            let lines = h.len() - 5;
            let (l, f, n) = match c.name {
                Some(x) => (x.last, x.first, x.native),
                None => (None, None, None),
            };
            &&& 1 <= lines <= 2
            &&& (lines == 2 <==> (l is Some || f is Some) && n is Some)
            &&& forall|k: int| 0 <= k < lines ==> (#[trigger] h[k]).0 == Placement::Indented
            &&& (n matches Some(x) ==> h[lines - 1].1 == x@)
            &&& (l matches Some(x) ==> h[0].1.take(x@.len() as int) == x@)
            &&& (f matches Some(x) ==> h[0].1.skip(h[0].1.len() - x@.len()) == x@)
            &&& ((l, f) matches (Some(x), Some(y)) ==> h[0].1.len() == x@.len() + 1 + y@.len()
                && h[0].1[x@.len() as int] == ' ')
            &&& (l is None && f is None && n is None ==> h[0].1 == "No Name"@)
        }),
{
    let h = character_header_blocks(c);
    let names = character_name_blocks(c);
    let rest = seq![
        (Placement::Raw, Seq::<char>::empty()),
        (Placement::Indented, "Age: "@ + or_unknown(c.age)),
        (Placement::Indented, "Gender: "@ + or_unknown(c.gender)),
        (Placement::Indented, "Birthday: "@ + birthday_text(c.date_of_birth)),
        (Placement::Raw, Seq::<char>::empty()),
    ];
    assert(h == names + rest);
    assert(h.len() == names.len() + 5);
    assert(forall|k: int| 0 <= k < names.len() ==> h[k] == names[k]);
    reveal_strlit("No Name");
    reveal_strlit(" ");
    match name_parts(c) {
        (Some(l), Some(f), _) => {
            let t = l@ + " "@ + f@;
            assert(names[0].1 == t);
            assert(t.take(l@.len() as int) =~= l@);
            assert(t.skip(t.len() - f@.len()) =~= f@);
            assert(t[l@.len() as int] == ' ');
        },
        (Some(l), None, _) => {
            assert(names[0].1 == l@);
            assert(l@.take(l@.len() as int) =~= l@);
        },
        (None, Some(f), _) => {
            assert(names[0].1 == f@);
            assert(f@.skip(0) =~= f@);
        },
        (None, None, _) => {},
    }
}

/// The bracketed id that opens a line of the listing: "  [id] ".
pub open spec fn listing_prefix(id: i64) -> Seq<char> {
    "  ["@ + decimal(id as int) + "] "@
}

/// Whether `line` shows a person's last and first name after `prefix`: last
/// name first, a space between them, whichever are known, "No Name" when
/// neither is.
pub open spec fn shows_person(
    line: Seq<char>,
    prefix: Seq<char>,
    last: Option<String>,
    first: Option<String>,
) -> bool {
    &&& line.take(prefix.len() as int) == prefix
    &&& (last matches Some(l) ==> line.subrange(
        prefix.len() as int,
        (prefix.len() + l@.len()) as int,
    ) == l@)
    &&& (first matches Some(f) ==> line.skip(line.len() - f@.len()) == f@)
    &&& line.len() == prefix.len() + match (last, first) {
        (Some(l), Some(f)) => (l@.len() + 1 + f@.len()) as int,
        (Some(l), None) => l@.len() as int,
        (None, Some(f)) => f@.len() as int,
        (None, None) => 7,
    }
    &&& (last is None && first is None ==> line == prefix + "No Name"@)
}

proof fn lemma_voice_actor_text(va: CharacterVoiceActor)
    ensures
        shows_person(
            voice_actor_text(va),
            listing_prefix(va.id),
            match va.name {
                Some(n) => n.last,
                None => None,
            },
            match va.name {
                Some(n) => n.first,
                None => None,
            },
        ),
{
    reveal_strlit("No Name");
    reveal_strlit(" ");
    let p = listing_prefix(va.id);
    let t = voice_actor_text(va);
    let (last, first) = match va.name {
        Some(n) => (n.last, n.first),
        None => (None, None),
    };
    match (last, first) {
        (Some(l), Some(f)) => {
            assert(t == p + (l@ + " "@ + f@));
            assert(t.take(p.len() as int) =~= p);
            assert(t.subrange(p.len() as int, (p.len() + l@.len()) as int) =~= l@);
            assert(t.skip(t.len() - f@.len()) =~= f@);
        },
        (Some(l), None) => {
            assert(t == p + l@);
            assert(t.take(p.len() as int) =~= p);
            assert(t.subrange(p.len() as int, (p.len() + l@.len()) as int) =~= l@);
        },
        (None, Some(f)) => {
            assert(t == p + f@);
            assert(t.take(p.len() as int) =~= p);
            assert(t.skip(t.len() - f@.len()) =~= f@);
        },
        (None, None) => {
            assert(t == p + "No Name"@);
            assert(t.take(p.len() as int) =~= p);
        },
    }
}

/// Below a character, its voice actors come first, when it has any: a blank
/// line, the heading "Voice", then one line for each voice actor, in order,
/// with its id and its last and first name (see `shows_person`). The media
/// it appears in follow in the same way under "Appears in", each line with
/// the medium's id and its title, or "No Title"; nothing else is shown.
pub proof fn law_listing_shows_everyone(c: Character)
    ensures
        ({
            let listing = character_listing_blocks(c);
            let voices = c.voice_actors@;
            let media = c.appears_in@;
            let off: int = if voices.len() == 0 {
                0
            } else {
                voices.len() + 2int
            };
            &&& listing.len() == off + if media.len() == 0 {
                0
            } else {
                media.len() + 2
            }
            &&& voices.len() > 0 ==> listing[0] == (Placement::Raw, Seq::<char>::empty())
                && listing[1] == (Placement::Raw, "Voice"@)
            &&& forall|k: int|
                0 <= k < voices.len() ==> (#[trigger] listing[2 + k]).0 == Placement::Raw
                    && shows_person(
                    listing[2 + k].1,
                    listing_prefix(voices[k].id),
                    match voices[k].name {
                        Some(n) => n.last,
                        None => None,
                    },
                    match voices[k].name {
                        Some(n) => n.first,
                        None => None,
                    },
                )
            &&& media.len() > 0 ==> listing[off] == (Placement::Raw, Seq::<char>::empty())
                && listing[off + 1] == (Placement::Raw, "Appears in"@)
            &&& forall|k: int|
                0 <= k < media.len() ==> #[trigger] listing[off + 2 + k] == (
                    Placement::Raw,
                    listing_prefix(media[k].id) + match media[k].title {
                        Some(t) => t@,
                        None => "No Title"@,
                    },
                )
        }),
{
    let listing = character_listing_blocks(c);
    let voices = c.voice_actors@;
    let media = c.appears_in@;
    let vp = voice_part(c);
    let ap = appears_part(c);
    assert(listing == vp + ap);
    let off = vp.len() as int;
    assert forall|k: int| 0 <= k < voices.len() implies (#[trigger] listing[2 + k]).0
        == Placement::Raw && shows_person(
        listing[2 + k].1,
        listing_prefix(voices[k].id),
        match voices[k].name {
            Some(n) => n.last,
            None => None,
        },
        match voices[k].name {
            Some(n) => n.first,
            None => None,
        },
    ) by {
        assert(listing[2 + k] == vp[2 + k]);
        assert(vp[2 + k] == (Placement::Raw, voice_actor_text(voices[k])));
        lemma_voice_actor_text(voices[k]);
    }
    assert forall|k: int| 0 <= k < media.len() implies #[trigger] listing[off + 2 + k] == (
        Placement::Raw,
        listing_prefix(media[k].id) + match media[k].title {
            Some(t) => t@,
            None => "No Title"@,
        },
    ) by {
        assert(listing[off + 2 + k] == ap[2 + k]);
        assert(ap[2 + k] == (Placement::Raw, appearance_text(media[k])));
    }
    if voices.len() > 0 {
        assert(listing[0] == vp[0]);
        assert(listing[1] == vp[1]);
    }
    if media.len() > 0 {
        assert(listing[off] == ap[0]);
        assert(listing[off + 1] == ap[1]);
    }
}

/// In the large style the title lines open what is shown of an anime: the
/// romaji title, then the native title where it differs, each on a line of
/// its own ("No Title" when neither is known), then a blank line. In the
/// small style one line shows the id in brackets and the romaji title, or
/// "No Title".
pub proof fn law_title_lines(a: Anime)
    ensures
        ({
            let h = anime_blocks(a, Style::Large);
            let blank = (Placement::Raw, Seq::<char>::empty());
            match (romaji_of(a), native_of(a)) {
                (Some(r), Some(n)) => h[0] == (Placement::Wrapped, r@) && if n@ != r@ {
                    h[1] == (Placement::Wrapped, n@) && h[2] == blank
                } else {
                    h[1] == blank
                },
                (Some(r), None) => h[0] == (Placement::Wrapped, r@) && h[1] == blank,
                (None, Some(n)) => h[0] == (Placement::Wrapped, n@) && h[1] == blank,
                (None, None) => h[0] == (Placement::Indented, "No Title"@) && h[1] == blank,
            }
        }),
        anime_blocks(a, Style::Small)[0] == (
            Placement::Wrapped,
            "["@ + decimal(a.id as int) + "] "@ + match romaji_of(a) {
                Some(r) => r@,
                None => "No Title"@,
            },
        ),
{
    let t = anime_title_blocks(a, Style::Large);
    let rest = anime_detail_blocks(a, Style::Large) + anime_extra_blocks(a);
    assert(anime_blocks(a, Style::Large) =~= t + rest);
    assert(forall|i: int| 0 <= i < t.len() ==> (t + rest)[i] == t[i]);
    let ts = anime_title_blocks(a, Style::Small);
    assert(anime_blocks(a, Style::Small) =~= ts + anime_detail_blocks(a, Style::Small));
    assert((ts + anime_detail_blocks(a, Style::Small))[0] == ts[0]);
}

/// Whether `line` ends with `tail`.
pub open spec fn ends_with(line: Seq<char>, tail: Seq<char>) -> bool {
    line.len() >= tail.len() && line.skip(line.len() - tail.len()) == tail
}

/// Whether `part` occurs in `line`.
pub open spec fn occurs_in(part: Seq<char>, line: Seq<char>) -> bool {
    exists|off: int| 0 <= off && off + part.len() <= line.len() && #[trigger] line.subrange(off, off + part.len()) == part
}

/// The details line of an anime follows its title lines whenever the anime
/// has a detail, and shows each detail it has: the format first, then the
/// number of episodes, then in the large style the year and in the small
/// style the season and year last. An anime with no detail has no such line.
pub proof fn law_details_line(a: Anime, style: Style)
    ensures
        ({
            let k = anime_title_blocks(a, style).len() as int;
            let h = anime_blocks(a, style);
            let has_last = match style {
                Style::Large => a.season_year is Some,
                Style::Small => a.season_year is Some && a.season is Some,
            };
            let line = h[k].1;
            &&& (anime_detail_blocks(a, style).len() > 0 <==> a.format is Some || a.episodes is Some
                || has_last)
            &&& (anime_detail_blocks(a, style).len() > 0 ==> h[k].0 == Placement::Indented)
            &&& (a.format matches Some(f) ==> line.take(format_label(f).len() as int)
                == format_label(f))
            &&& (a.episodes matches Some(n) ==> occurs_in(episodes_text(n), line))
            &&& (style == Style::Large && a.season_year is Some ==> ends_with(
                line,
                decimal(a.season_year->0 as int),
            ))
            &&& (style == Style::Small && a.season_year is Some && a.season is Some ==> ends_with(
                line,
                season_year_text(a.season->0, a.season_year->0),
            ))
        }),
{
    let t = anime_title_blocks(a, style);
    let d = anime_detail_blocks(a, style);
    let parts = anime_details(a, style);
    let sep = dot_separator();
    let h = anime_blocks(a, style);
    let k = t.len() as int;
    let extra = if style == Style::Large {
        anime_extra_blocks(a)
    } else {
        Seq::empty()
    };
    assert(h == t + d + extra);
    if parts.len() > 0 {
        let line = joined(parts, sep);
        assert(d == seq![(Placement::Indented, line)]);
        assert(h[k] == (Placement::Indented, line));
        law_joined_parts(parts, sep);
        lemma_joined_bounds(parts, sep, 0);
        lemma_joined_bounds(parts, sep, parts.len() - 1);
        if let Some(f) = a.format {
            assert(parts[0] == format_label(f));
            assert(line.subrange(0, format_label(f).len() as int) == format_label(f));
            assert(line.take(format_label(f).len() as int) =~= line.subrange(
                0,
                format_label(f).len() as int,
            ));
        }
        if let Some(n) = a.episodes {
            let i: int = if a.format is Some {
                1
            } else {
                0
            };
            assert(parts[i] == episodes_text(n));
            lemma_joined_bounds(parts, sep, i);
            let off = part_start(parts, sep.len() as int, i);
            assert(line.subrange(off, off + episodes_text(n).len()) == episodes_text(n));
        }
        let last = parts.len() - 1;
        let off = part_start(parts, sep.len() as int, last);
        assert(line.subrange(off, off + parts[last].len()) == parts[last]);
        assert(line.skip(line.len() - parts[last].len()) =~= line.subrange(
            off,
            off + parts[last].len(),
        ));
    }
}

/// After the name lines the header shows, each on a line of its own: a
/// blank line, the age, the gender and the birthday, each after its label
/// and "Unknown" where it is not known, and a blank line. The birthday is
/// "Unknown" unless both the day and a month from 1 to 12 are known, and is
/// otherwise the month's short name, a space and the day.
pub proof fn law_header_lines(c: Character)
    ensures
        ({
            let h = character_header_blocks(c);
            let n = h.len() - 5;
            let blank = (Placement::Raw, Seq::<char>::empty());
            &&& h[n] == blank
            &&& h[n + 1] == (Placement::Indented, "Age: "@ + match c.age {
                Some(a) => a@,
                None => "Unknown"@,
            })
            &&& h[n + 2] == (Placement::Indented, "Gender: "@ + match c.gender {
                Some(g) => g@,
                None => "Unknown"@,
            })
            &&& h[n + 3] == (Placement::Indented, "Birthday: "@ + birthday_text(c.date_of_birth))
            &&& h[n + 4] == blank
        }),
        ({
            let (day, month) = match c.date_of_birth {
                Some(d) => (d.day, d.month),
                None => (None, None),
            };
            if day is Some && month is Some && 1 <= month->0 <= 12 {
                birthday_text(c.date_of_birth) == month_abbreviation(month->0)->0 + " "@ + decimal(
                    day->0 as int,
                )
            } else {
                birthday_text(c.date_of_birth) == "Unknown"@
            }
        }),
{
    let h = character_header_blocks(c);
    let names = character_name_blocks(c);
    let n = names.len() as int;
    assert(h == names + seq![
        (Placement::Raw, Seq::<char>::empty()),
        (Placement::Indented, "Age: "@ + or_unknown(c.age)),
        (Placement::Indented, "Gender: "@ + or_unknown(c.gender)),
        (Placement::Indented, "Birthday: "@ + birthday_text(c.date_of_birth)),
        (Placement::Raw, Seq::<char>::empty()),
    ]);
    assert(h.len() == n + 5);
}

/// The short names of the months: there is one exactly for each month from
/// 1 to 12, three letters long, and no two months share one.
pub proof fn law_month_names(m: i64, k: i64)
    ensures
        month_abbreviation(m) is Some <==> 1 <= m <= 12,
        month_abbreviation(m) matches Some(ab) ==> ab.len() == 3,
        month_abbreviation(m) is Some && month_abbreviation(m) == month_abbreviation(k) ==> m == k,
{
    reveal_strlit("Jan");
    reveal_strlit("Feb");
    reveal_strlit("Mar");
    reveal_strlit("Apr");
    reveal_strlit("May");
    reveal_strlit("Jun");
    reveal_strlit("Jul");
    reveal_strlit("Aug");
    reveal_strlit("Sep");
    reveal_strlit("Oct");
    reveal_strlit("Nov");
    reveal_strlit("Dec");
    if month_abbreviation(m) is Some && month_abbreviation(m) == month_abbreviation(k) {
        let a = month_abbreviation(m)->0;
        let b = month_abbreviation(k)->0;
        assert(a[0] == b[0] && a[1] == b[1] && a[2] == b[2]);
    }
}

} // verus!
