//! The language's grammar, as functions from a source text and a start position to what is
//! read there and where reading stops, or to the error and its position.
//!
//! An error that is not `important` only says that the production did not start at that
//! position. Once a block's `{` has been read, or a field of a block has been named, every
//! failure is important.
use crate::cursor::{
    eof_at, error_at, lemma_scan, lemma_scan_run, line_end, newline_len, scan, skip_newlines, starts_with, CharClass,
};
use crate::error::{ErrorKind, Field, ParseError};
use crate::model::{
    Color, Direction, DocumentV, HTextAlign, ItemV, MetadataV, NumberV, PageSizeV, PageStyleV, PageV,
    SectionStyleV, SectionV, Side, SizeV, SizedSidesV, VTextAlign,
};
use vstd::prelude::*;

verus! {

pub type Parsed<V> = Result<(V, int), ParseError>;

pub open spec fn map_ok<A, B>(r: Parsed<A>, f: spec_fn(A) -> B) -> Parsed<B> {
    match r {
        Ok((a, q)) => Ok((f(a), q)),
        Err(e) => Err(e),
    }
}

pub open spec fn harden<V>(r: Parsed<V>) -> Parsed<V> {
    match r {
        Ok(x) => Ok(x),
        Err(e) => Err(e.hardened()),
    }
}

pub open spec fn fail<V>(kind: ErrorKind, p: int, important: bool) -> Parsed<V> {
    Err(error_at(kind, p, important))
}

pub open spec fn duplicate<V>(f: Field, p: int) -> Parsed<V> {
    fail(ErrorKind::AlreadyDefined(f), p, true)
}

/// A number: a run of digits, then optionally `.` and a second run; one of the two runs
/// must be there.
#[verifier::opaque]
pub open spec fn number_at(s: Seq<char>, p: int) -> Parsed<NumberV> {
    let q = scan(s, p, CharClass::Digit);
    if q >= s.len() {
        Err(eof_at(q))
    } else if s[q] == '.' {
        let r = scan(s, q + 1, CharClass::Digit);
        if q == p && r == q + 1 {
            fail(ErrorKind::NumberParseError, r, true)
        } else {
            Ok((NumberV { whole: s.subrange(p, q), fraction: s.subrange(q + 1, r) }, r))
        }
    } else if q == p {
        fail(ErrorKind::ExpectedNumber, p, false)
    } else {
        Ok((NumberV { whole: s.subrange(p, q), fraction: Seq::empty() }, q))
    }
}

/// A field name: everything up to a space, `:` or `{`.
#[verifier::opaque]
pub open spec fn name_at(s: Seq<char>, p: int) -> Parsed<Seq<char>> {
    let q = scan(s, p, CharClass::NameChar);
    if q == p {
        fail(ErrorKind::ExpectedName, p, false)
    } else {
        Ok((s.subrange(p, q), q))
    }
}

/// A number with its unit: `in`, `pt`, `px` or `%`.
#[verifier::opaque]
pub open spec fn size_at(s: Seq<char>, p: int) -> Parsed<SizeV> {
    match number_at(s, p) {
        Err(e) => Err(e),
        Ok((n, q)) => if q >= s.len() {
            Err(eof_at(q))
        } else if starts_with(s, q, "in"@) {
            Ok((SizeV::Inches(n), q + "in"@.len()))
        } else if starts_with(s, q, "pt"@) {
            Ok((SizeV::Points(n), q + "pt"@.len()))
        } else if starts_with(s, q, "px"@) {
            Ok((SizeV::Pixels(n), q + "px"@.len()))
        } else if starts_with(s, q, "%"@) {
            Ok((SizeV::Percent(n), q + "%"@.len()))
        } else {
            fail(ErrorKind::ExpectedSize, q, true)
        },
    }
}

pub open spec fn hex_value(c: char) -> int {
    if '0' <= c <= '9' {
        c as int - '0' as int
    } else if 'a' <= c <= 'f' {
        c as int - 'a' as int + 10
    } else {
        c as int - 'A' as int + 10
    }
}

/// Channel `i` of a color written with one digit per channel: the digit twice over.
pub open spec fn short_channel(d: Seq<char>, i: int) -> u8 {
    (17 * hex_value(d[i])) as u8
}

/// Channel `i` of a color written with two digits per channel.
pub open spec fn long_channel(d: Seq<char>, i: int) -> u8 {
    (16 * hex_value(d[2 * i]) + hex_value(d[2 * i + 1])) as u8
}

/// The color that 3, 4, 6 or 8 hex digits stand for; 4 and 8 digits carry an alpha channel.
pub open spec fn hex_color(d: Seq<char>) -> Color {
    if d.len() <= 4 {
        Color {
            r: short_channel(d, 0),
            g: short_channel(d, 1),
            b: short_channel(d, 2),
            a: if d.len() == 4 {
                Some(short_channel(d, 3))
            } else {
                None
            },
        }
    } else {
        Color {
            r: long_channel(d, 0),
            g: long_channel(d, 1),
            b: long_channel(d, 2),
            a: if d.len() == 8 {
                Some(long_channel(d, 3))
            } else {
                None
            },
        }
    }
}

pub open spec fn valid_color_length(n: int) -> bool {
    n == 3 || n == 4 || n == 6 || n == 8
}

/// `#` and a run of hex digits.
#[verifier::opaque]
pub open spec fn color_at(s: Seq<char>, p: int) -> Parsed<Color> {
    if p >= s.len() {
        Err(eof_at(p))
    } else if s[p] != '#' {
        fail(ErrorKind::ExpectedColor, p, false)
    } else {
        let q = scan(s, p + 1, CharClass::HexDigit);
        if valid_color_length(q - (p + 1)) {
            Ok((hex_color(s.subrange(p + 1, q)), q))
        } else {
            fail(ErrorKind::InvalidColorLength, q, false)
        }
    }
}

#[verifier::opaque]
pub open spec fn direction_at(s: Seq<char>, p: int) -> Parsed<Direction> {
    if p >= s.len() {
        Err(eof_at(p))
    } else if starts_with(s, p, "Left"@) {
        Ok((Direction::Left, p + "Left"@.len()))
    } else if starts_with(s, p, "Right"@) {
        Ok((Direction::Right, p + "Right"@.len()))
    } else if starts_with(s, p, "Up"@) {
        Ok((Direction::Up, p + "Up"@.len()))
    } else if starts_with(s, p, "Down"@) {
        Ok((Direction::Down, p + "Down"@.len()))
    } else {
        fail(ErrorKind::ExpectedDirection, p, false)
    }
}

#[verifier::opaque]
pub open spec fn vertical_text_align_at(s: Seq<char>, p: int) -> Parsed<VTextAlign> {
    if p >= s.len() {
        Err(eof_at(p))
    } else if starts_with(s, p, "Top"@) {
        Ok((VTextAlign::Top, p + "Top"@.len()))
    } else if starts_with(s, p, "Bottom"@) {
        Ok((VTextAlign::Bottom, p + "Bottom"@.len()))
    } else if starts_with(s, p, "Center"@) {
        Ok((VTextAlign::Center, p + "Center"@.len()))
    } else {
        fail(ErrorKind::ExpectedTextAlign, p, true)
    }
}

#[verifier::opaque]
pub open spec fn horizontal_text_align_at(s: Seq<char>, p: int) -> Parsed<HTextAlign> {
    if p >= s.len() {
        Err(eof_at(p))
    } else if starts_with(s, p, "Left"@) {
        Ok((HTextAlign::Left, p + "Left"@.len()))
    } else if starts_with(s, p, "Right"@) {
        Ok((HTextAlign::Right, p + "Right"@.len()))
    } else if starts_with(s, p, "Center"@) {
        Ok((HTextAlign::Center, p + "Center"@.len()))
    } else {
        fail(ErrorKind::ExpectedTextAlign, p, true)
    }
}

/// After a field name that ends at `r`: the `:` and the spaces after it; the position of the
/// field's value.
pub open spec fn value_start(s: Seq<char>, r: int) -> Result<int, ParseError> {
    if r >= s.len() {
        Err(eof_at(r))
    } else if s[r] != ':' {
        Err(error_at(ErrorKind::ExpectedColon, r, true))
    } else {
        Ok(scan(s, r + 1, CharClass::Space))
    }
}

/// Runs `value` from the value position of a field whose name ends at `r`.
pub open spec fn after_colon<V>(s: Seq<char>, r: int, value: spec_fn(int) -> Parsed<V>) -> Parsed<
    V,
> {
    match value_start(s, r) {
        Err(e) => Err(e),
        Ok(v) => value(v),
    }
}

/// The body of a custom page size, after its `{`: the fields `width` and `height`, each once
/// and both required, then `}`.
#[verifier::opaque]
pub open spec fn page_size_fields(
    s: Seq<char>,
    p: int,
    width: Option<SizeV>,
    height: Option<SizeV>,
) -> Parsed<PageSizeV>
    decreases s.len() - p,
{
    let q = scan(s, p, CharClass::Blank);
    if q >= s.len() {
        Err(eof_at(q))
    } else if s[q] == '}' {
        match (width, height) {
            (Some(w), Some(h)) => Ok((PageSizeV::Custom { width: w, height: h }, q + 1)),
            (None, _) => fail(ErrorKind::ExpectedPageSizeWidth, q, true),
            (_, None) => fail(ErrorKind::ExpectedPageSizeHeight, q, true),
        }
    } else {
        match name_at(s, q) {
            Err(e) => Err(e.hardened()),
            Ok((n, r)) => match value_start(s, r) {
                Err(e) => Err(e),
                Ok(v) => {
                    let field: Parsed<(Option<SizeV>, Option<SizeV>)> = if n == "width"@ {
                        if width is Some {
                            duplicate(Field::PageSizeWidth, v)
                        } else {
                            map_ok(size_at(s, v), |w: SizeV| (Some(w), height))
                        }
                    } else if n == "height"@ {
                        if height is Some {
                            duplicate(Field::PageSizeHeight, v)
                        } else {
                            map_ok(size_at(s, v), |h: SizeV| (width, Some(h)))
                        }
                    } else {
                        fail(ErrorKind::ExpectedPageSize, v, true)
                    };
                    match harden(field) {
                        Err(e) => Err(e),
                        Ok(((w, h), t)) => if p < t <= s.len() {
                            page_size_fields(s, t, w, h)
                        } else {
                            Err(eof_at(t))
                        },
                    }
                },
            },
        }
    }
}

/// `: PortraitLetter`, `: LandscapeLetter`, `: Webpage`, or a custom size in braces.
#[verifier::opaque]
pub open spec fn page_size_at(s: Seq<char>, p: int) -> Parsed<PageSizeV> {
    if p >= s.len() {
        Err(eof_at(p))
    } else if s[p] == ':' {
        let q = scan(s, p + 1, CharClass::Space);
        if q >= s.len() {
            Err(eof_at(q))
        } else if starts_with(s, q, "PortraitLetter"@) {
            Ok((PageSizeV::PortraitLetter, q + "PortraitLetter"@.len()))
        } else if starts_with(s, q, "LandscapeLetter"@) {
            Ok((PageSizeV::LandscapeLetter, q + "LandscapeLetter"@.len()))
        } else if starts_with(s, q, "Webpage"@) {
            Ok((PageSizeV::Webpage, q + "Webpage"@.len()))
        } else {
            fail(ErrorKind::ExpectedPageSize, q, true)
        }
    } else if s[p] == '{' {
        page_size_fields(s, p + 1, None, None)
    } else {
        fail(ErrorKind::ExpectedPageSize, p, true)
    }
}

/// The side that a `margin_<side>` field name sets.
pub open spec fn margin_side(n: Seq<char>) -> Option<Side> {
    if n == "margin_left"@ {
        Some(Side::Left)
    } else if n == "margin_right"@ {
        Some(Side::Right)
    } else if n == "margin_top"@ {
        Some(Side::Top)
    } else if n == "margin_bottom"@ {
        Some(Side::Bottom)
    } else {
        None
    }
}

pub open spec fn side_field(side: Side) -> Field {
    match side {
        Side::Left => Field::MarginLeft,
        Side::Right => Field::MarginRight,
        Side::Top => Field::MarginTop,
        Side::Bottom => Field::MarginBottom,
    }
}

/// A margin field at value position `v`, given what the block set so far: `side` is `None`
/// for the whole `margin`. Whole and per-side forms exclude each other; each is set once.
#[verifier::opaque]
pub open spec fn margin_at(s: Seq<char>, v: int, m: Option<SizedSidesV>, side: Option<Side>) -> Parsed<
    SizedSidesV,
> {
    match side {
        None => match m {
            Some(x) => if x.is_individual() {
                duplicate(Field::MarginSides, v)
            } else {
                duplicate(Field::Margin, v)
            },
            None => map_ok(size_at(s, v), |z: SizeV| SizedSidesV::All(z)),
        },
        Some(sd) => match m {
            Some(x) => if !x.is_individual() {
                duplicate(Field::Margin, v)
            } else if x.side(sd) is Some {
                duplicate(side_field(sd), v)
            } else {
                map_ok(size_at(s, v), |z: SizeV| x.with_side(sd, z))
            },
            None => map_ok(size_at(s, v), |z: SizeV| SizedSidesV::only(sd, z)),
        },
    }
}

/// One field of a section style block, named `n`, with its value at `v`.
#[verifier::opaque]
pub open spec fn section_style_field(
    s: Seq<char>,
    v: int,
    n: Seq<char>,
    st: SectionStyleV,
) -> Parsed<SectionStyleV> {
    if n == "width"@ {
        if st.width is Some {
            duplicate(Field::Width, v)
        } else {
            map_ok(size_at(s, v), |x: SizeV| SectionStyleV { width: Some(x), ..st })
        }
    } else if n == "height"@ {
        if st.height is Some {
            duplicate(Field::Height, v)
        } else {
            map_ok(size_at(s, v), |x: SizeV| SectionStyleV { height: Some(x), ..st })
        }
    } else if n == "vertical_text_align"@ {
        if st.vertical_text_align is Some {
            duplicate(Field::VerticalTextAlign, v)
        } else {
            map_ok(
                vertical_text_align_at(s, v),
                |x: VTextAlign| SectionStyleV { vertical_text_align: Some(x), ..st },
            )
        }
    } else if n == "horizontal_text_align"@ {
        if st.horizontal_text_align is Some {
            duplicate(Field::HorizontalTextAlign, v)
        } else {
            map_ok(
                horizontal_text_align_at(s, v),
                |x: HTextAlign| SectionStyleV { horizontal_text_align: Some(x), ..st },
            )
        }
    } else if n == "align"@ {
        if st.align is Some {
            duplicate(Field::Align, v)
        } else {
            map_ok(direction_at(s, v), |x: Direction| SectionStyleV { align: Some(x), ..st })
        }
    } else if n == "font"@ {
        if st.font is Some {
            duplicate(Field::Font, v)
        } else {
            let e = line_end(s, v);
            Ok((SectionStyleV { font: Some(s.subrange(v, e)), ..st }, e))
        }
    } else if n == "font_size"@ {
        if st.font_size is Some {
            duplicate(Field::FontSize, v)
        } else {
            map_ok(size_at(s, v), |x: SizeV| SectionStyleV { font_size: Some(x), ..st })
        }
    } else if n == "text_color"@ {
        if st.text_color is Some {
            duplicate(Field::TextColor, v)
        } else {
            map_ok(color_at(s, v), |x: Color| SectionStyleV { text_color: Some(x), ..st })
        }
    } else if n == "background_color"@ {
        if st.background_color is Some {
            duplicate(Field::BackgroundColor, v)
        } else {
            map_ok(color_at(s, v), |x: Color| SectionStyleV { background_color: Some(x), ..st })
        }
    } else if n == "margin"@ || margin_side(n) is Some {
        map_ok(
            margin_at(s, v, st.margin, margin_side(n)),
            |m: SizedSidesV| SectionStyleV { margin: Some(m), ..st },
        )
    } else {
        fail(ErrorKind::ExpectedSectionStyle, v, true)
    }
}

/// The fields of a section style block from `p` (after its `{`) to its `}`.
#[verifier::opaque]
pub open spec fn section_style_fields(s: Seq<char>, p: int, st: SectionStyleV) -> Parsed<
    SectionStyleV,
>
    decreases s.len() - p,
{
    let q = scan(s, p, CharClass::Blank);
    if q >= s.len() {
        Err(eof_at(q))
    } else if s[q] == '}' {
        Ok((st, q + 1))
    } else {
        match name_at(s, q) {
            Err(e) => Err(e.hardened()),
            Ok((n, r)) => match harden(
                after_colon(s, r, |v: int| section_style_field(s, v, n, st)),
            ) {
                Err(e) => Err(e),
                Ok((st2, t)) => if p < t <= s.len() {
                    section_style_fields(s, t, st2)
                } else {
                    Err(eof_at(t))
                },
            },
        }
    }
}

/// `style { ... }` holding section style fields.
#[verifier::opaque]
pub open spec fn section_style_at(s: Seq<char>, p: int) -> Parsed<SectionStyleV> {
    if p >= s.len() {
        Err(eof_at(p))
    } else if !starts_with(s, p, "style"@) {
        fail(ErrorKind::ExpectedSectionStyle, p, false)
    } else {
        let q = scan(s, p + "style"@.len(), CharClass::Space);
        if q >= s.len() {
            Err(eof_at(q))
        } else if s[q] != '{' {
            fail(ErrorKind::ExpectedSectionStyleBlockStart, q, true)
        } else {
            section_style_fields(s, q + 1, SectionStyleV::unset())
        }
    }
}

/// One field of a page style block other than `page_size`, named `n`, value at `v`.
#[verifier::opaque]
pub open spec fn page_style_field(s: Seq<char>, v: int, n: Seq<char>, st: PageStyleV) -> Parsed<
    PageStyleV,
> {
    if n == "text_color"@ {
        if st.text_color is Some {
            duplicate(Field::TextColor, v)
        } else {
            map_ok(color_at(s, v), |x: Color| PageStyleV { text_color: Some(x), ..st })
        }
    } else if n == "background_color"@ {
        if st.background_color is Some {
            duplicate(Field::BackgroundColor, v)
        } else {
            map_ok(color_at(s, v), |x: Color| PageStyleV { background_color: Some(x), ..st })
        }
    } else if n == "vertical_text_align"@ {
        if st.vertical_text_align is Some {
            duplicate(Field::VerticalTextAlign, v)
        } else {
            map_ok(
                vertical_text_align_at(s, v),
                |x: VTextAlign| PageStyleV { vertical_text_align: Some(x), ..st },
            )
        }
    } else if n == "horizontal_text_align"@ {
        if st.horizontal_text_align is Some {
            duplicate(Field::HorizontalTextAlign, v)
        } else {
            map_ok(
                horizontal_text_align_at(s, v),
                |x: HTextAlign| PageStyleV { horizontal_text_align: Some(x), ..st },
            )
        }
    } else if n == "margin"@ || margin_side(n) is Some {
        map_ok(
            margin_at(s, v, st.margin, margin_side(n)),
            |m: SizedSidesV| PageStyleV { margin: Some(m), ..st },
        )
    } else {
        fail(ErrorKind::ExpectedPageStyle, v, true)
    }
}

/// The `page_size` field, whose name ends at `r`: its value follows after optional spaces.
#[verifier::opaque]
pub open spec fn page_size_field(s: Seq<char>, r: int, st: PageStyleV) -> Parsed<PageStyleV> {
    if st.page_size is Some {
        duplicate(Field::PageSize, r)
    } else {
        map_ok(
            page_size_at(s, scan(s, r, CharClass::Space)),
            |x: PageSizeV| PageStyleV { page_size: Some(x), ..st },
        )
    }
}

/// The fields of a page style block from `p` (after its `{`) to its `}`.
#[verifier::opaque]
pub open spec fn page_style_fields(s: Seq<char>, p: int, st: PageStyleV) -> Parsed<PageStyleV>
    decreases s.len() - p,
{
    let q = scan(s, p, CharClass::Blank);
    if q >= s.len() {
        Err(eof_at(q))
    } else if s[q] == '}' {
        Ok((st, q + 1))
    } else {
        match name_at(s, q) {
            Err(e) => Err(e.hardened()),
            Ok((n, r)) => {
                let field = if n == "page_size"@ {
                    page_size_field(s, r, st)
                } else {
                    after_colon(s, r, |v: int| page_style_field(s, v, n, st))
                };
                match harden(field) {
                    Err(e) => Err(e),
                    Ok((st2, t)) => if p < t <= s.len() {
                        page_style_fields(s, t, st2)
                    } else {
                        Err(eof_at(t))
                    },
                }
            },
        }
    }
}

/// `style { ... }` holding page style fields.
#[verifier::opaque]
pub open spec fn page_style_at(s: Seq<char>, p: int) -> Parsed<PageStyleV> {
    if p >= s.len() {
        Err(eof_at(p))
    } else if !starts_with(s, p, "style"@) {
        fail(ErrorKind::ExpectedPageStyle, p, false)
    } else {
        let q = scan(s, p + "style"@.len(), CharClass::Space);
        if q >= s.len() {
            Err(eof_at(q))
        } else if s[q] != '{' {
            fail(ErrorKind::ExpectedPageStyleBlockStart, q, true)
        } else {
            page_style_fields(s, q + 1, PageStyleV::unset())
        }
    }
}

/// The end of a content block at `p`: optional spaces and `}`.
pub open spec fn content_close(s: Seq<char>, p: int, lines: Seq<Seq<char>>) -> Parsed<
    Seq<Seq<char>>,
> {
    let q = scan(s, p, CharClass::Space);
    if q >= s.len() {
        Err(eof_at(q))
    } else if s[q] != '}' {
        fail(ErrorKind::ExpectedSectionContentBlockEnd, q, true)
    } else {
        Ok((lines, q + 1))
    }
}

/// The lines of a content block after its first: each line that begins with `fence` belongs
/// to the block, without the fence; the first line that does not ends it.
#[verifier::opaque]
pub open spec fn content_lines(s: Seq<char>, p: int, fence: Seq<char>, lines: Seq<Seq<char>>) -> Parsed<
    Seq<Seq<char>>,
>
    decreases s.len() - p,
{
    if p >= s.len() {
        Err(eof_at(p))
    } else if !starts_with(s, p, fence) {
        content_close(s, p, lines)
    } else {
        let q = p + fence.len();
        let e = line_end(s, q);
        let n = skip_newlines(s, e);
        if p < n <= s.len() {
            content_lines(s, n, fence, lines.push(s.subrange(q, e)))
        } else {
            Err(eof_at(n))
        }
    }
}

/// A content block, after the word `content` (which ends at `r`): `{`, a line break, and
/// lines fenced by the indentation of the first.
#[verifier::opaque]
pub open spec fn content_at(s: Seq<char>, r: int) -> Parsed<Seq<Seq<char>>> {
    let q = scan(s, r, CharClass::Space);
    if q >= s.len() {
        Err(eof_at(q))
    } else if s[q] != '{' {
        fail(ErrorKind::ExpectedSectionContentBlockStart, q, true)
    } else {
        let a = skip_newlines(s, q + 1);
        let b = scan(s, a, CharClass::Space);
        let c = line_end(s, b);
        if c >= s.len() {
            Err(eof_at(c))
        } else {
            content_lines(s, c + newline_len(s, c), s.subrange(a, b), seq![s.subrange(b, c)])
        }
    }
}

/// The fields of a section from `p` (after its `{`): a style and the content, each once; the
/// content is required.
#[verifier::opaque]
pub open spec fn section_fields(
    s: Seq<char>,
    p: int,
    style: Option<SectionStyleV>,
    content: Option<Seq<Seq<char>>>,
) -> Parsed<SectionV>
    decreases s.len() - p,
{
    let q = scan(s, p, CharClass::Blank);
    if q >= s.len() {
        Err(eof_at(q))
    } else if s[q] == '}' {
        match content {
            None => fail(ErrorKind::ExpectedSectionContent, q, true),
            Some(c) => Ok((SectionV { style, content: c }, q + 1)),
        }
    } else {
        match name_at(s, q) {
            Err(e) => Err(e.hardened()),
            Ok((n, r)) => if n == "style"@ {
                if style is Some {
                    duplicate(Field::SectionStyle, q)
                } else {
                    match harden(section_style_at(s, q)) {
                        Err(e) => Err(e),
                        Ok((st, t)) => if p < t <= s.len() {
                            section_fields(s, t, Some(st), content)
                        } else {
                            Err(eof_at(t))
                        },
                    }
                }
            } else if n == "content"@ {
                if content is Some {
                    duplicate(Field::SectionContent, r)
                } else {
                    match harden(content_at(s, r)) {
                        Err(e) => Err(e),
                        Ok((c, t)) => if p < t <= s.len() {
                            section_fields(s, t, style, Some(c))
                        } else {
                            Err(eof_at(t))
                        },
                    }
                }
            } else {
                fail(ErrorKind::ExpectedSection, q, true)
            },
        }
    }
}

/// `section { ... }`.
#[verifier::opaque]
pub open spec fn section_at(s: Seq<char>, p: int) -> Parsed<SectionV> {
    if p >= s.len() {
        Err(eof_at(p))
    } else if !starts_with(s, p, "section"@) {
        fail(ErrorKind::ExpectedSection, p, false)
    } else {
        let q = scan(s, p + "section"@.len(), CharClass::Space);
        if q >= s.len() {
            Err(eof_at(q))
        } else if s[q] != '{' {
            fail(ErrorKind::ExpectedSectionBlockStart, q, true)
        } else {
            section_fields(s, q + 1, None, None)
        }
    }
}

pub open spec fn container(vertical: bool, items: Seq<ItemV>, style: Option<SectionStyleV>) -> ItemV {
    if vertical {
        ItemV::Vertical { items, style }
    } else {
        ItemV::Horizontal { items, style }
    }
}

/// An item: `vertical { ... }`, `horizontal { ... }` or a section.
#[verifier::opaque]
pub open spec fn item_at(s: Seq<char>, p: int) -> Parsed<ItemV>
    decreases s.len() - p, 0int,
{
    if p >= s.len() {
        Err(eof_at(p))
    } else if starts_with(s, p, "section"@) {
        map_ok(section_at(s, p), |x: SectionV| ItemV::Section(x))
    } else if starts_with(s, p, "vertical"@) || starts_with(s, p, "horizontal"@) {
        let vertical = starts_with(s, p, "vertical"@);
        let k = if vertical {
            "vertical"@.len()
        } else {
            "horizontal"@.len()
        };
        let q = scan(s, p + k, CharClass::Space);
        if q >= s.len() {
            Err(eof_at(q))
        } else if s[q] != '{' {
            fail(ErrorKind::ExpectedItemBlockStart, q, true)
        } else {
            proof {
                lemma_scan(s, p + k, CharClass::Space);
            }
            item_fields(s, q + 1, vertical, Seq::empty(), None)
        }
    } else {
        fail(ErrorKind::ExpectedItem, p, false)
    }
}

/// The fields of a row or column from `p` (after its `{`): a style at most once, and items.
#[verifier::opaque]
pub open spec fn item_fields(
    s: Seq<char>,
    p: int,
    vertical: bool,
    items: Seq<ItemV>,
    style: Option<SectionStyleV>,
) -> Parsed<ItemV>
    decreases s.len() - p, 1int,
{
    let q = scan(s, p, CharClass::Blank);
    if q >= s.len() {
        Err(eof_at(q))
    } else if s[q] == '}' {
        Ok((container(vertical, items, style), q + 1))
    } else {
        match name_at(s, q) {
            Err(e) => Err(e.hardened()),
            Ok((n, r)) => if n == "style"@ {
                if style is Some {
                    duplicate(Field::ItemStyle, q)
                } else {
                    match harden(section_style_at(s, q)) {
                        Err(e) => Err(e),
                        Ok((st, t)) => if p < t <= s.len() {
                            item_fields(s, t, vertical, items, Some(st))
                        } else {
                            Err(eof_at(t))
                        },
                    }
                }
            } else {
                proof {
                    reveal(scan);
                    if 0 <= p <= s.len() {
                        lemma_scan(s, p, CharClass::Blank);
                    }
                }
                match harden(item_at(s, q)) {
                    Err(e) => Err(e),
                    Ok((it, t)) => if p < t <= s.len() {
                        item_fields(s, t, vertical, items.push(it), style)
                    } else {
                        Err(eof_at(t))
                    },
                }
            },
        }
    }
}

/// The fields of the metadata block from `p`: `title: <rest of line>` (required) and a page
/// style, each once.
#[verifier::opaque]
pub open spec fn metadata_fields(
    s: Seq<char>,
    p: int,
    title: Option<Seq<char>>,
    style: Option<PageStyleV>,
) -> Parsed<MetadataV>
    decreases s.len() - p,
{
    let q = scan(s, p, CharClass::Blank);
    if q >= s.len() {
        Err(eof_at(q))
    } else if s[q] == '}' {
        match title {
            None => fail(ErrorKind::ExpectedMetadataTitle, q, true),
            Some(t) => Ok((MetadataV { title: t, page_style: style }, q + 1)),
        }
    } else {
        match name_at(s, q) {
            Err(e) => Err(e.hardened()),
            Ok((n, r)) => if n == "title"@ {
                match value_start(s, r) {
                    Err(e) => Err(e),
                    Ok(v) => if title is Some {
                        duplicate(Field::MetadataTitle, v)
                    } else {
                        let e = line_end(s, v);
                        if p < e <= s.len() {
                            metadata_fields(s, e, Some(s.subrange(v, e)), style)
                        } else {
                            Err(eof_at(e))
                        }
                    },
                }
            } else if n == "style"@ {
                if style is Some {
                    duplicate(Field::MetadataStyle, q)
                } else {
                    match harden(page_style_at(s, q)) {
                        Err(e) => Err(e),
                        Ok((st, t)) => if p < t <= s.len() {
                            metadata_fields(s, t, title, Some(st))
                        } else {
                            Err(eof_at(t))
                        },
                    }
                }
            } else {
                fail(ErrorKind::ExpectedMetadata, q, true)
            },
        }
    }
}

/// `metadata { ... }`.
#[verifier::opaque]
pub open spec fn metadata_at(s: Seq<char>, p: int) -> Parsed<MetadataV> {
    if p >= s.len() {
        Err(eof_at(p))
    } else if !starts_with(s, p, "metadata"@) {
        fail(ErrorKind::ExpectedMetadata, p, false)
    } else {
        let q = scan(s, p + "metadata"@.len(), CharClass::Space);
        if q >= s.len() {
            Err(eof_at(q))
        } else if s[q] != '{' {
            fail(ErrorKind::ExpectedMetadataBlockStart, q, true)
        } else {
            metadata_fields(s, q + 1, None, None)
        }
    }
}

/// The fields of a page from `p` (after its `{`): a page style at most once, and items. A
/// name that starts no item is reported as a malformed page.
#[verifier::opaque]
pub open spec fn page_fields(s: Seq<char>, p: int, items: Seq<ItemV>, style: Option<PageStyleV>) -> Parsed<
    PageV,
>
    decreases s.len() - p,
{
    let q = scan(s, p, CharClass::Blank);
    if q >= s.len() {
        Err(eof_at(q))
    } else if s[q] == '}' {
        Ok((PageV { items, style }, q + 1))
    } else {
        match name_at(s, q) {
            Err(e) => Err(e.hardened()),
            Ok((n, r)) => if n == "style"@ {
                if style is Some {
                    duplicate(Field::PageStyle, q)
                } else {
                    match harden(page_style_at(s, q)) {
                        Err(e) => Err(e),
                        Ok((st, t)) => if p < t <= s.len() {
                            page_fields(s, t, items, Some(st))
                        } else {
                            Err(eof_at(t))
                        },
                    }
                }
            } else {
                match item_at(s, q) {
                    Err(e) => if e.important {
                        Err(e)
                    } else {
                        fail(ErrorKind::ExpectedPage, q, true)
                    },
                    Ok((it, t)) => if p < t <= s.len() {
                        page_fields(s, t, items.push(it), style)
                    } else {
                        Err(eof_at(t))
                    },
                }
            },
        }
    }
}

/// `page { ... }`.
#[verifier::opaque]
pub open spec fn page_at(s: Seq<char>, p: int) -> Parsed<PageV> {
    if p >= s.len() {
        Err(eof_at(p))
    } else if !starts_with(s, p, "page"@) {
        fail(ErrorKind::ExpectedPage, p, false)
    } else {
        let q = scan(s, p + "page"@.len(), CharClass::Space);
        if q >= s.len() {
            Err(eof_at(q))
        } else if s[q] != '{' {
            fail(ErrorKind::ExpectedPageBlockStart, q, true)
        } else {
            page_fields(s, q + 1, Seq::empty(), None)
        }
    }
}

/// The pages from `p` to the end of the text, after `pages` were read.
#[verifier::opaque]
pub open spec fn document_pages(s: Seq<char>, p: int, metadata: MetadataV, pages: Seq<PageV>) -> Result<
    DocumentV,
    ParseError,
>
    decreases s.len() - p,
{
    let q = scan(s, p, CharClass::Blank);
    if q >= s.len() {
        Ok(DocumentV { metadata, pages })
    } else {
        match page_at(s, q) {
            Err(e) => Err(e.hardened()),
            Ok((pg, t)) => if p < t <= s.len() {
                document_pages(s, t, metadata, pages.push(pg))
            } else {
                Err(eof_at(t))
            },
        }
    }
}

/// A whole document from `p`: blanks, the metadata block, then pages separated by blanks.
/// Every error it reports is final.
#[verifier::opaque]
pub open spec fn document_at(s: Seq<char>, p: int) -> Result<DocumentV, ParseError> {
    let q = scan(s, p, CharClass::Blank);
    match metadata_at(s, q) {
        Err(e) => Err(e.hardened()),
        Ok((m, t)) => document_pages(s, t, m, Seq::empty()),
    }
}

/// A whole source text read as a document.
pub open spec fn document_of(s: Seq<char>) -> Result<DocumentV, ParseError> {
    document_at(s, 0)
}

/// A color of three or four hex digits: each channel is its digit written twice (`#abc` is
/// `#aabbcc`); a fourth digit is the alpha channel, and three digits give none.
pub proof fn lemma_short_hex_color(s: Seq<char>, p: int, n: int)
    requires
        0 <= p,
        p + 1 + n <= s.len(),
        n == 3 || n == 4,
        s[p] == '#',
        forall|i: int| p + 1 <= i < p + 1 + n ==> CharClass::HexDigit.has(#[trigger] s[i]),
        p + 1 + n == s.len() || !CharClass::HexDigit.has(s[p + 1 + n]),
    ensures
        color_at(s, p) == Ok::<(Color, int), ParseError>(
            (
                Color {
                    r: (17 * hex_value(s[p + 1])) as u8,
                    g: (17 * hex_value(s[p + 2])) as u8,
                    b: (17 * hex_value(s[p + 3])) as u8,
                    a: if n == 4 {
                        Some((17 * hex_value(s[p + 4])) as u8)
                    } else {
                        None
                    },
                },
                p + 1 + n,
            ),
        ),
{
    reveal(color_at);
    lemma_scan_run(s, p + 1, p + 1 + n, CharClass::HexDigit);
    let d = s.subrange(p + 1, p + 1 + n);
    assert(d[0] == s[p + 1] && d[1] == s[p + 2] && d[2] == s[p + 3]);
    if n == 4 {
        assert(d[3] == s[p + 4]);
    }
}

/// A color of six or eight hex digits: each channel is the byte its pair of digits writes
/// (`#336699` is red `0x33`, green `0x66`, blue `0x99`); a fourth pair is the alpha channel,
/// and six digits give none.
pub proof fn lemma_long_hex_color(s: Seq<char>, p: int, n: int)
    requires
        0 <= p,
        p + 1 + n <= s.len(),
        n == 6 || n == 8,
        s[p] == '#',
        forall|i: int| p + 1 <= i < p + 1 + n ==> CharClass::HexDigit.has(#[trigger] s[i]),
        p + 1 + n == s.len() || !CharClass::HexDigit.has(s[p + 1 + n]),
    ensures
        color_at(s, p) == Ok::<(Color, int), ParseError>(
            (
                Color {
                    r: (16 * hex_value(s[p + 1]) + hex_value(s[p + 2])) as u8,
                    g: (16 * hex_value(s[p + 3]) + hex_value(s[p + 4])) as u8,
                    b: (16 * hex_value(s[p + 5]) + hex_value(s[p + 6])) as u8,
                    a: if n == 8 {
                        Some((16 * hex_value(s[p + 7]) + hex_value(s[p + 8])) as u8)
                    } else {
                        None
                    },
                },
                p + 1 + n,
            ),
        ),
{
    reveal(color_at);
    lemma_scan_run(s, p + 1, p + 1 + n, CharClass::HexDigit);
    let d = s.subrange(p + 1, p + 1 + n);
    assert(d[0] == s[p + 1] && d[1] == s[p + 2] && d[2] == s[p + 3] && d[3] == s[p + 4] && d[4]
        == s[p + 5] && d[5] == s[p + 6]);
    if n == 8 {
        assert(d[6] == s[p + 7] && d[7] == s[p + 8]);
    }
}

/// A run of hex digits of any length but 3, 4, 6 and 8 is no color.
pub proof fn lemma_bad_hex_length(s: Seq<char>, p: int)
    requires
        0 <= p < s.len(),
        s[p] == '#',
        !valid_color_length(scan(s, p + 1, CharClass::HexDigit) - (p + 1)),
    ensures
        color_at(s, p) == fail::<Color>(
            ErrorKind::InvalidColorLength,
            scan(s, p + 1, CharClass::HexDigit),
            false,
        ),
{
    reveal(color_at);
}

/// Whole and per-side margins exclude each other, and each is set once: after `margin`, no
/// margin field may follow; after a side, neither `margin` nor that side again.
pub proof fn lemma_margin_exclusive(s: Seq<char>, v: int, m: SizedSidesV, side: Side)
    ensures
        !m.is_individual() ==> margin_at(s, v, Some(m), None) == duplicate::<SizedSidesV>(
            Field::Margin,
            v,
        ),
        !m.is_individual() ==> margin_at(s, v, Some(m), Some(side)) == duplicate::<SizedSidesV>(
            Field::Margin,
            v,
        ),
        m.is_individual() ==> margin_at(s, v, Some(m), None) == duplicate::<SizedSidesV>(
            Field::MarginSides,
            v,
        ),
        m.is_individual() && m.side(side) is Some ==> margin_at(s, v, Some(m), Some(side))
            == duplicate::<SizedSidesV>(side_field(side), v),
{
    reveal(margin_at);
}

/// A side not set yet may be set after other sides: it takes the size read, and the other
/// sides keep theirs.
pub proof fn lemma_margin_new_side(s: Seq<char>, v: int, m: SizedSidesV, side: Side)
    requires
        m.is_individual(),
        m.side(side) is None,
        size_at(s, v) is Ok,
    ensures
        margin_at(s, v, Some(m), Some(side)) == Ok::<(SizedSidesV, int), ParseError>(
            (m.with_side(side, size_at(s, v)->Ok_0.0), size_at(s, v)->Ok_0.1),
        ),
        forall|other: Side|
            other != side ==> #[trigger] m.with_side(side, size_at(s, v)->Ok_0.0).side(other)
                == m.side(other),
{
    reveal(margin_at);
}

} // verus!

