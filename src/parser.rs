//! The recursive-descent parser: each production reads from the current position and is
//! proved to do what the production of the same name in `syntax` says.
use crate::cursor::{
    lemma_line_end, lemma_scan, lemma_skip_newlines, newline_len, skip_newlines, starts_with,
    CharClass, Parser,
};
use crate::error::{ErrorKind, Field, ParseError};
use crate::model::{
    lines_view, view_opt, Color, Direction, Document, DocumentV, HTextAlign, Item, Metadata,
    Number, Page, PageSize, PageStyle, PageStyleV, Section, SectionStyle, SectionStyleV, Side, Size,
    SizedSides, VTextAlign, item_list_view, lemma_item_list_push, lemma_item_list_empty,
};
use crate::syntax::{
    color_at, content_at, content_lines, direction_at, document_at, document_of, document_pages, hex_color,
    hex_value, horizontal_text_align_at, item_at, item_fields, margin_at, margin_side, metadata_at,
    metadata_fields, name_at, number_at, page_at, page_fields, page_size_at, page_size_field,
    page_size_fields, page_style_at, page_style_field, page_style_fields, section_at,
    section_fields, section_style_at, section_style_field, section_style_fields, side_field,
    size_at, valid_color_length, value_start, vertical_text_align_at,
};
use vstd::prelude::*;

verus! {

broadcast use vstd::std_specs::vec::group_vec_axioms;

/// Whether two texts are equal.
pub fn same_text(a: &str, b: &str) -> (r: bool)
    ensures
        r == (a@ == b@),
{
    let n = a.unicode_len();
    if n != b.unicode_len() {
        return false;
    }
    let mut i: usize = 0;
    while i < n
        invariant
            n == a@.len(),
            n == b@.len(),
            i <= n,
            forall|j: int| 0 <= j < i ==> a@[j] == b@[j],
        decreases n - i,
    {
        if a.get_char(i) != b.get_char(i) {
            return false;
        }
        i += 1;
    }
    assert(a@ =~= b@);
    true
}

/// The same result, with an error made final.
fn harden<T>(r: Result<T, ParseError>) -> (h: Result<T, ParseError>)
    ensures
        h == match r {
            Ok(x) => Ok(x),
            Err(e) => Err::<T, ParseError>(e.hardened()),
        },
{
    match r {
        Ok(x) => Ok(x),
        Err(e) => Err(ParseError { important: true, ..e }),
    }
}

fn hex_digit(c: char) -> (r: u8)
    requires
        CharClass::HexDigit.has(c),
    ensures
        r as int == hex_value(c),
        r < 16,
{
    if '0' <= c && c <= '9' {
        (c as u32 - '0' as u32) as u8
    } else if 'a' <= c && c <= 'f' {
        (c as u32 - 'a' as u32 + 10) as u8
    } else {
        (c as u32 - 'A' as u32 + 10) as u8
    }
}

/// What a whole-document parse returned, against what the grammar says of the text.
pub open spec fn parsed_document(r: Result<Document, ParseError>, expect: Result<DocumentV, ParseError>) -> bool {
    match expect {
        Ok(d) => r is Ok && r->Ok_0@ == d,
        Err(e) => r == Err::<Document, ParseError>(e),
    }
}

/// A row (`vertical` false) or column of `items`.
fn container_item(vertical: bool, items: Vec<Item>, style: Option<SectionStyle>) -> (r: Item)
    ensures
        r@ == crate::syntax::container(vertical, item_list_view(items@), view_opt(style)),
{
    if vertical {
        Item::Vertical { items, style }
    } else {
        Item::Horizontal { items, style }
    }
}

pub open spec fn pages_view(pages: Seq<Page>) -> Seq<crate::model::PageV> {
    Seq::new(pages.len(), |i: int| pages[i]@)
}

pub open spec fn content_view(c: Option<Vec<String>>) -> Option<Seq<Seq<char>>> {
    match c {
        Some(v) => Some(lines_view(v@)),
        None => None,
    }
}

/// The side that a field name sets, for `margin_<side>` names.
fn margin_side_of(name: &str) -> (r: Option<Side>)
    ensures
        r == margin_side(name@),
{
    if same_text(name, "margin_left") {
        Some(Side::Left)
    } else if same_text(name, "margin_right") {
        Some(Side::Right)
    } else if same_text(name, "margin_top") {
        Some(Side::Top)
    } else if same_text(name, "margin_bottom") {
        Some(Side::Bottom)
    } else {
        None
    }
}

fn side_field_of(side: Side) -> (r: Field)
    ensures
        r == side_field(side),
{
    match side {
        Side::Left => Field::MarginLeft,
        Side::Right => Field::MarginRight,
        Side::Top => Field::MarginTop,
        Side::Bottom => Field::MarginBottom,
    }
}

impl<'doc> Parser<'doc> {
    /// Where a step that changes `st` from `before` to `after` must end, where the grammar
    /// says `expect`.
    pub open spec fn updated<S: View>(
        &self,
        after: &Parser<'doc>,
        r: Result<(), ParseError>,
        st: S,
        expect: Result<(S::V, int), ParseError>,
    ) -> bool {
        &&& after.wf()
        &&& after.src() == self.src()
        &&& after.text == self.text
        &&& self.at() <= after.at()
        &&& match expect {
            Ok((v, q)) => r is Ok && st@ == v && after.at() == q,
            Err(e) => r == Err::<(), ParseError>(e),
        }
    }

    pub fn number(&mut self) -> (r: Result<Number, ParseError>)
        requires
            old(self).wf(),
        ensures
            old(self).stepped(final(self), r, number_at(old(self).src(), old(self).at())),
    {
        proof {
            reveal(number_at);
        }
        let start = self.pos;
        let whole = self.take_while(CharClass::Digit);
        let q = self.pos;
        let dot = match self.accept_char('.') {
            Ok(b) => b,
            Err(e) => return Err(e),
        };
        if dot {
            let fraction = self.take_while(CharClass::Digit);
            if q == start && self.pos == q + 1 {
                return Err(self.error(ErrorKind::NumberParseError, true));
            }
            Ok(Number { whole: String::from_str(whole), fraction: String::from_str(fraction) })
        } else if q == start {
            Err(self.error(ErrorKind::ExpectedNumber, false))
        } else {
            Ok(Number { whole: String::from_str(whole), fraction: String::new() })
        }
    }

    pub fn name(&mut self) -> (r: Result<&'doc str, ParseError>)
        requires
            old(self).wf(),
        ensures
            old(self).stepped(final(self), r, name_at(old(self).src(), old(self).at())),
            r is Ok ==> old(self).at() < final(self).at(),
    {
        proof {
            reveal(name_at);
        }
        let start = self.pos;
        let name = self.take_while(CharClass::NameChar);
        proof {
            lemma_scan(self.src(), start as int, CharClass::NameChar);
        }
        if self.pos == start {
            Err(self.error(ErrorKind::ExpectedName, false))
        } else {
            Ok(name)
        }
    }

    pub fn size(&mut self) -> (r: Result<Size, ParseError>)
        requires
            old(self).wf(),
        ensures
            old(self).stepped(final(self), r, size_at(old(self).src(), old(self).at())),
    {
        proof {
            reveal(size_at);
        }
        let n = self.number()?;
        if self.accept("in")? {
            Ok(Size::Inches(n))
        } else if self.accept("pt")? {
            Ok(Size::Points(n))
        } else if self.accept("px")? {
            Ok(Size::Pixels(n))
        } else if self.accept("%")? {
            Ok(Size::Percent(n))
        } else {
            Err(self.error(ErrorKind::ExpectedSize, true))
        }
    }

    /// The color written by the `n` hex digits from `start`.
    fn decode_color(&self, start: usize, n: usize) -> (c: Color)
        requires
            self.wf(),
            valid_color_length(n as int),
            start + n <= self.src().len(),
            forall|i: int| start <= i < start + n ==> CharClass::HexDigit.has(#[trigger] self.src()[i]),
        ensures
            c == hex_color(self.src().subrange(start as int, start + n)),
    {
        let ghost d = self.src().subrange(start as int, start + n);
        if n <= 4 {
            let r = hex_digit(self.chars[start]);
            let g = hex_digit(self.chars[start + 1]);
            let b = hex_digit(self.chars[start + 2]);
            let a = if n == 4 {
                let a = hex_digit(self.chars[start + 3]);
                assert(d[3] == self.src()[start + 3]);
                Some(17 * a)
            } else {
                None
            };
            assert(d[0] == self.src()[start as int] && d[1] == self.src()[start + 1] && d[2]
                == self.src()[start + 2]);
            Color { r: 17 * r, g: 17 * g, b: 17 * b, a }
        } else {
            let r = 16 * hex_digit(self.chars[start]) + hex_digit(self.chars[start + 1]);
            let g = 16 * hex_digit(self.chars[start + 2]) + hex_digit(self.chars[start + 3]);
            let b = 16 * hex_digit(self.chars[start + 4]) + hex_digit(self.chars[start + 5]);
            let a = if n == 8 {
                let a = 16 * hex_digit(self.chars[start + 6]) + hex_digit(self.chars[start + 7]);
                assert(d[6] == self.src()[start + 6] && d[7] == self.src()[start + 7]);
                Some(a)
            } else {
                None
            };
            assert(d[0] == self.src()[start as int] && d[1] == self.src()[start + 1] && d[2]
                == self.src()[start + 2] && d[3] == self.src()[start + 3] && d[4] == self.src()[start
                + 4] && d[5] == self.src()[start + 5]);
            Color { r, g, b, a }
        }
    }

    pub fn color(&mut self) -> (r: Result<Color, ParseError>)
        requires
            old(self).wf(),
        ensures
            old(self).stepped(final(self), r, color_at(old(self).src(), old(self).at())),
    {
        proof {
            reveal(color_at);
        }
        let hash = match self.accept_char('#') {
            Ok(b) => b,
            Err(e) => return Err(e),
        };
        if !hash {
            return Err(self.error(ErrorKind::ExpectedColor, false));
        }
        let start = self.pos;
        let _digits = self.take_while(CharClass::HexDigit);
        proof {
            lemma_scan(self.src(), start as int, CharClass::HexDigit);
        }
        let n = self.pos - start;
        if n == 3 || n == 4 || n == 6 || n == 8 {
            Ok(self.decode_color(start, n))
        } else {
            Err(self.error(ErrorKind::InvalidColorLength, false))
        }
    }

    pub fn direction(&mut self) -> (r: Result<Direction, ParseError>)
        requires
            old(self).wf(),
        ensures
            old(self).stepped(final(self), r, direction_at(old(self).src(), old(self).at())),
    {
        proof {
            reveal(direction_at);
        }
        if self.accept("Left")? {
            Ok(Direction::Left)
        } else if self.accept("Right")? {
            Ok(Direction::Right)
        } else if self.accept("Up")? {
            Ok(Direction::Up)
        } else if self.accept("Down")? {
            Ok(Direction::Down)
        } else {
            Err(self.error(ErrorKind::ExpectedDirection, false))
        }
    }

    pub fn vertical_text_align(&mut self) -> (r: Result<VTextAlign, ParseError>)
        requires
            old(self).wf(),
        ensures
            old(self).stepped(
                final(self),
                r,
                vertical_text_align_at(old(self).src(), old(self).at()),
            ),
    {
        proof {
            reveal(vertical_text_align_at);
        }
        if self.accept("Top")? {
            Ok(VTextAlign::Top)
        } else if self.accept("Bottom")? {
            Ok(VTextAlign::Bottom)
        } else if self.accept("Center")? {
            Ok(VTextAlign::Center)
        } else {
            Err(self.error(ErrorKind::ExpectedTextAlign, true))
        }
    }

    pub fn horizontal_text_align(&mut self) -> (r: Result<HTextAlign, ParseError>)
        requires
            old(self).wf(),
        ensures
            old(self).stepped(
                final(self),
                r,
                horizontal_text_align_at(old(self).src(), old(self).at()),
            ),
    {
        proof {
            reveal(horizontal_text_align_at);
        }
        if self.accept("Left")? {
            Ok(HTextAlign::Left)
        } else if self.accept("Right")? {
            Ok(HTextAlign::Right)
        } else if self.accept("Center")? {
            Ok(HTextAlign::Center)
        } else {
            Err(self.error(ErrorKind::ExpectedTextAlign, true))
        }
    }

    /// The `:` after a field name, and the spaces after it.
    fn colon(&mut self) -> (r: Result<(), ParseError>)
        requires
            old(self).wf(),
        ensures
            final(self).wf(),
            final(self).src() == old(self).src(),
            final(self).text == old(self).text,
            old(self).at() <= final(self).at(),
            match value_start(old(self).src(), old(self).at()) {
                Ok(v) => r is Ok && old(self).moved_to(final(self), v) && old(self).at() < v,
                Err(e) => r == Err::<(), ParseError>(e),
            },
    {
        if !self.accept_char(':')? {
            return Err(self.error(ErrorKind::ExpectedColon, true));
        }
        proof {
            lemma_scan(self.src(), self.at(), CharClass::Space);
        }
        self.skip(CharClass::Space);
        Ok(())
    }
}

impl<'doc> Parser<'doc> {
    /// A margin field's value; `side` is `None` for the whole `margin`.
    fn margin(&mut self, m: &mut Option<SizedSides>, side: Option<Side>) -> (r: Result<
        (),
        ParseError,
    >)
        requires
            old(self).wf(),
        ensures
            final(self).wf(),
            final(self).src() == old(self).src(),
            final(self).text == old(self).text,
            old(self).at() <= final(self).at(),
            match margin_at(old(self).src(), old(self).at(), view_opt(*old(m)), side) {
                Ok((v, t)) => r is Ok && view_opt(*final(m)) == Some(v) && final(self).at() == t,
                Err(e) => r == Err::<(), ParseError>(e),
            },
    {
        proof {
            reveal(margin_at);
        }
        match side {
            None => {
                match m {
                    Some(x) => {
                        if x.is_individual() {
                            return Err(
                                self.error(ErrorKind::AlreadyDefined(Field::MarginSides), true),
                            );
                        }
                        return Err(self.error(ErrorKind::AlreadyDefined(Field::Margin), true));
                    },
                    None => {},
                }
                let z = self.size()?;
                *m = Some(SizedSides::All(z));
                Ok(())
            },
            Some(sd) => {
                match m {
                    Some(x) => {
                        if !x.is_individual() {
                            return Err(self.error(ErrorKind::AlreadyDefined(Field::Margin), true));
                        }
                        if x.is_side_defined(sd) {
                            return Err(
                                self.error(ErrorKind::AlreadyDefined(side_field_of(sd)), true),
                            );
                        }
                        let z = self.size()?;
                        x.set_side(sd, z);
                        Ok(())
                    },
                    None => {
                        let z = self.size()?;
                        let mut sides = SizedSides::Individual {
                            left: None,
                            right: None,
                            top: None,
                            bottom: None,
                        };
                        sides.set_side(sd, z);
                        *m = Some(sides);
                        Ok(())
                    },
                }
            },
        }
    }

    /// The value of the section style field `name`, stored into `st`.
    #[verifier::rlimit(30)]
    fn section_style_field(&mut self, name: &str, st: &mut SectionStyle) -> (r: Result<
        (),
        ParseError,
    >)
        requires
            old(self).wf(),
        ensures
            old(self).updated(
                final(self),
                r,
                *final(st),
                section_style_field(old(self).src(), old(self).at(), name@, old(st)@),
            ),
    {
        proof {
            reveal(section_style_field);
        }
        if same_text(name, "width") {
            if st.width.is_some() {
                return Err(self.error(ErrorKind::AlreadyDefined(Field::Width), true));
            }
            let x = self.size()?;
            st.width = Some(x);
        } else if same_text(name, "height") {
            if st.height.is_some() {
                return Err(self.error(ErrorKind::AlreadyDefined(Field::Height), true));
            }
            let x = self.size()?;
            st.height = Some(x);
        } else if same_text(name, "vertical_text_align") {
            if st.vertical_text_align.is_some() {
                return Err(self.error(ErrorKind::AlreadyDefined(Field::VerticalTextAlign), true));
            }
            let x = self.vertical_text_align()?;
            st.vertical_text_align = Some(x);
        } else if same_text(name, "horizontal_text_align") {
            if st.horizontal_text_align.is_some() {
                return Err(self.error(ErrorKind::AlreadyDefined(Field::HorizontalTextAlign), true));
            }
            let x = self.horizontal_text_align()?;
            st.horizontal_text_align = Some(x);
        } else if same_text(name, "align") {
            if st.align.is_some() {
                return Err(self.error(ErrorKind::AlreadyDefined(Field::Align), true));
            }
            let x = self.direction()?;
            st.align = Some(x);
        } else if same_text(name, "font") {
            if st.font.is_some() {
                return Err(self.error(ErrorKind::AlreadyDefined(Field::Font), true));
            }
            let f = self.until_newline();
            st.font = Some(String::from_str(f));
        } else if same_text(name, "font_size") {
            if st.font_size.is_some() {
                return Err(self.error(ErrorKind::AlreadyDefined(Field::FontSize), true));
            }
            let x = self.size()?;
            st.font_size = Some(x);
        } else if same_text(name, "text_color") {
            if st.text_color.is_some() {
                return Err(self.error(ErrorKind::AlreadyDefined(Field::TextColor), true));
            }
            let x = self.color()?;
            st.text_color = Some(x);
        } else if same_text(name, "background_color") {
            if st.background_color.is_some() {
                return Err(self.error(ErrorKind::AlreadyDefined(Field::BackgroundColor), true));
            }
            let x = self.color()?;
            st.background_color = Some(x);
        } else {
            let side = margin_side_of(name);
            if same_text(name, "margin") || side.is_some() {
                self.margin(&mut st.margin, side)?;
            } else {
                return Err(self.error(ErrorKind::ExpectedSectionStyle, true));
            }
        }
        Ok(())
    }

    /// `style { ... }` inside a section or a row or column.
    pub fn section_style(&mut self) -> (r: Result<SectionStyle, ParseError>)
        requires
            old(self).wf(),
        ensures
            old(self).stepped(final(self), r, section_style_at(old(self).src(), old(self).at())),
            r is Ok ==> old(self).at() < final(self).at(),
    {
        proof {
            reveal(section_style_at);
        }
        if !self.accept("style")? {
            return Err(self.error(ErrorKind::ExpectedSectionStyle, false));
        }
        self.skip(CharClass::Space);
        if !self.accept_char('{')? {
            return Err(self.error(ErrorKind::ExpectedSectionStyleBlockStart, true));
        }
        let ghost start = self.at();
        let ghost expect = section_style_at(old(self).src(), old(self).at());
        assert(expect == section_style_fields(self.src(), start, SectionStyleV::unset()));
        let mut st = SectionStyle::default();
        loop
            invariant
                self.wf(),
                self.src() == old(self).src(),
                self.text == old(self).text,
                old(self).at() < self.at(),
                expect == section_style_at(old(self).src(), old(self).at()),
                section_style_fields(self.src(), self.at(), st@) == expect,
            decreases self.src().len() - self.at(),
        {
            proof {
                reveal(section_style_fields);
            }
            self.skip(CharClass::Blank);
            if self.is_eof() {
                return Err(self.error(ErrorKind::UnexpectedEof, true));
            }
            if self.peek_char('}') {
                self.pos = self.pos + 1;
                return Ok(st);
            }
            let name = harden(self.name())?;
            self.colon()?;
            harden(self.section_style_field(name, &mut st))?;
        }
    }

    /// `: <preset>` or `{ width: <size> height: <size> }`.
    pub fn page_size(&mut self) -> (r: Result<PageSize, ParseError>)
        requires
            old(self).wf(),
        ensures
            old(self).stepped(final(self), r, page_size_at(old(self).src(), old(self).at())),
    {
        proof {
            reveal(page_size_at);
        }
        if self.accept_char(':')? {
            self.skip(CharClass::Space);
            if self.accept("PortraitLetter")? {
                return Ok(PageSize::PortraitLetter);
            } else if self.accept("LandscapeLetter")? {
                return Ok(PageSize::LandscapeLetter);
            } else if self.accept("Webpage")? {
                return Ok(PageSize::Webpage);
            }
            return Err(self.error(ErrorKind::ExpectedPageSize, true));
        }
        if !self.accept_char('{')? {
            return Err(self.error(ErrorKind::ExpectedPageSize, true));
        }
        let ghost start = self.at();
        let ghost expect = page_size_at(old(self).src(), old(self).at());
        assert(expect == page_size_fields(self.src(), start, None, None));
        let mut width: Option<Size> = None;
        let mut height: Option<Size> = None;
        loop
            invariant
                self.wf(),
                self.src() == old(self).src(),
                self.text == old(self).text,
                old(self).at() <= self.at(),
                expect == page_size_at(old(self).src(), old(self).at()),
                page_size_fields(self.src(), self.at(), view_opt(width), view_opt(height)) == expect,
            decreases self.src().len() - self.at(),
        {
            proof {
                reveal(page_size_fields);
            }
            self.skip(CharClass::Blank);
            if self.is_eof() {
                return Err(self.error(ErrorKind::UnexpectedEof, true));
            }
            if self.peek_char('}') {
                if width.is_none() {
                    return Err(self.error(ErrorKind::ExpectedPageSizeWidth, true));
                }
                if height.is_none() {
                    return Err(self.error(ErrorKind::ExpectedPageSizeHeight, true));
                }
                self.pos = self.pos + 1;
                return Ok(PageSize::Custom { width: width.unwrap(), height: height.unwrap() });
            }
            let name = harden(self.name())?;
            self.colon()?;
            if same_text(name, "width") {
                if width.is_some() {
                    return Err(self.error(ErrorKind::AlreadyDefined(Field::PageSizeWidth), true));
                }
                width = Some(harden(self.size())?);
            } else if same_text(name, "height") {
                if height.is_some() {
                    return Err(self.error(ErrorKind::AlreadyDefined(Field::PageSizeHeight), true));
                }
                height = Some(harden(self.size())?);
            } else {
                return Err(self.error(ErrorKind::ExpectedPageSize, true));
            }
        }
    }

    /// The `page_size` field, after its name.
    fn page_size_field(&mut self, st: &mut PageStyle) -> (r: Result<(), ParseError>)
        requires
            old(self).wf(),
        ensures
            old(self).updated(
                final(self),
                r,
                *final(st),
                page_size_field(old(self).src(), old(self).at(), old(st)@),
            ),
    {
        proof {
            reveal(page_size_field);
        }
        if st.page_size.is_some() {
            return Err(self.error(ErrorKind::AlreadyDefined(Field::PageSize), true));
        }
        self.skip(CharClass::Space);
        let x = self.page_size()?;
        st.page_size = Some(x);
        Ok(())
    }

    /// The value of the page style field `name`, stored into `st`.
    #[verifier::rlimit(30)]
    fn page_style_field(&mut self, name: &str, st: &mut PageStyle) -> (r: Result<(), ParseError>)
        requires
            old(self).wf(),
        ensures
            old(self).updated(
                final(self),
                r,
                *final(st),
                page_style_field(old(self).src(), old(self).at(), name@, old(st)@),
            ),
    {
        proof {
            reveal(page_style_field);
        }
        if same_text(name, "text_color") {
            if st.text_color.is_some() {
                return Err(self.error(ErrorKind::AlreadyDefined(Field::TextColor), true));
            }
            let x = self.color()?;
            st.text_color = Some(x);
        } else if same_text(name, "background_color") {
            if st.background_color.is_some() {
                return Err(self.error(ErrorKind::AlreadyDefined(Field::BackgroundColor), true));
            }
            let x = self.color()?;
            st.background_color = Some(x);
        } else if same_text(name, "vertical_text_align") {
            if st.vertical_text_align.is_some() {
                return Err(self.error(ErrorKind::AlreadyDefined(Field::VerticalTextAlign), true));
            }
            let x = self.vertical_text_align()?;
            st.vertical_text_align = Some(x);
        } else if same_text(name, "horizontal_text_align") {
            if st.horizontal_text_align.is_some() {
                return Err(self.error(ErrorKind::AlreadyDefined(Field::HorizontalTextAlign), true));
            }
            let x = self.horizontal_text_align()?;
            st.horizontal_text_align = Some(x);
        } else {
            let side = margin_side_of(name);
            if same_text(name, "margin") || side.is_some() {
                self.margin(&mut st.margin, side)?;
            } else {
                return Err(self.error(ErrorKind::ExpectedPageStyle, true));
            }
        }
        Ok(())
    }

    /// `style { ... }` inside the metadata block or a page.
    #[verifier::rlimit(40)]
    pub fn page_style(&mut self) -> (r: Result<PageStyle, ParseError>)
        requires
            old(self).wf(),
        ensures
            old(self).stepped(final(self), r, page_style_at(old(self).src(), old(self).at())),
            r is Ok ==> old(self).at() < final(self).at(),
    {
        proof {
            reveal(page_style_at);
        }
        if !self.accept("style")? {
            return Err(self.error(ErrorKind::ExpectedPageStyle, false));
        }
        self.skip(CharClass::Space);
        if !self.accept_char('{')? {
            return Err(self.error(ErrorKind::ExpectedPageStyleBlockStart, true));
        }
        let ghost start = self.at();
        let ghost expect = page_style_at(old(self).src(), old(self).at());
        assert(expect == page_style_fields(self.src(), start, PageStyleV::unset()));
        let mut st = PageStyle {
            page_size: None,
            text_color: None,
            background_color: None,
            margin: None,
            horizontal_text_align: None,
            vertical_text_align: None,
        };
        loop
            invariant
                self.wf(),
                self.src() == old(self).src(),
                self.text == old(self).text,
                old(self).at() < self.at(),
                expect == page_style_at(old(self).src(), old(self).at()),
                page_style_fields(self.src(), self.at(), st@) == expect,
            decreases self.src().len() - self.at(),
        {
            proof {
                reveal(page_style_fields);
            }
            self.skip(CharClass::Blank);
            if self.is_eof() {
                return Err(self.error(ErrorKind::UnexpectedEof, true));
            }
            if self.peek_char('}') {
                self.pos = self.pos + 1;
                return Ok(st);
            }
            let name = harden(self.name())?;
            if same_text(name, "page_size") {
                harden(self.page_size_field(&mut st))?;
            } else {
                self.colon()?;
                harden(self.page_style_field(name, &mut st))?;
            }
        }
    }
}

impl<'doc> Parser<'doc> {
    /// A content block, after the word `content`: its lines, without the fence.
    fn content(&mut self) -> (r: Result<Vec<String>, ParseError>)
        requires
            old(self).wf(),
        ensures
            final(self).wf(),
            final(self).src() == old(self).src(),
            final(self).text == old(self).text,
            old(self).at() <= final(self).at(),
            match content_at(old(self).src(), old(self).at()) {
                Ok((v, t)) => r is Ok && lines_view(r->Ok_0@) == v && final(self).at() == t,
                Err(e) => r == Err::<Vec<String>, ParseError>(e),
            },
    {
        proof {
            reveal(content_at);
        }
        self.skip(CharClass::Space);
        if !self.accept_char('{')? {
            return Err(self.error(ErrorKind::ExpectedSectionContentBlockStart, true));
        }
        self.skip_newlines();
        let fence = self.take_while(CharClass::Space);
        let first = self.until_newline();
        self.accept_newline()?;
        let ghost start = self.at();
        let ghost expect = content_at(old(self).src(), old(self).at());
        let mut lines: Vec<String> = Vec::new();
        lines.push(String::from_str(first));
        assert(lines_view(lines@) =~= seq![first@]);
        assert(expect == content_lines(self.src(), start, fence@, seq![first@]));
        loop
            invariant
                self.wf(),
                self.src() == old(self).src(),
                self.text == old(self).text,
                old(self).at() <= self.at(),
                expect == content_at(old(self).src(), old(self).at()),
                content_lines(self.src(), self.at(), fence@, lines_view(lines@)) == expect,
            ensures
                self.wf(),
                self.src() == old(self).src(),
                self.text == old(self).text,
                old(self).at() <= self.at(),
                expect == content_at(old(self).src(), old(self).at()),
                content_lines(self.src(), self.at(), fence@, lines_view(lines@)) == expect,
                self.at() < self.src().len(),
                !starts_with(self.src(), self.at(), fence@),
            decreases self.src().len() - self.at(),
        {
            proof {
                reveal(content_lines);
            }
            let ghost p = self.at();
            if !self.accept(fence)? {
                break ;
            }
            let ghost q = self.at();
            let line = self.until_newline();
            let ghost e = self.at();
            let ghost before = lines_view(lines@);
            lines.push(String::from_str(line));
            assert(lines_view(lines@) =~= before.push(line@));
            self.skip_newlines();
            proof {
                let s = self.src();
                lemma_line_end(s, q);
                lemma_skip_newlines(s, e);
                if e == p {
                    reveal(skip_newlines);
                    lemma_skip_newlines(s, p + newline_len(s, p));
                }
            }
        }
        proof {
            reveal(content_lines);
        }
        self.skip(CharClass::Space);
        if !self.accept_char('}')? {
            return Err(self.error(ErrorKind::ExpectedSectionContentBlockEnd, true));
        }
        Ok(lines)
    }

    /// `section { ... }`.
    pub fn section(&mut self) -> (r: Result<Section, ParseError>)
        requires
            old(self).wf(),
        ensures
            old(self).stepped(final(self), r, section_at(old(self).src(), old(self).at())),
            r is Ok ==> old(self).at() < final(self).at(),
    {
        proof {
            reveal(section_at);
        }
        if !self.accept("section")? {
            return Err(self.error(ErrorKind::ExpectedSection, false));
        }
        self.skip(CharClass::Space);
        if !self.accept_char('{')? {
            return Err(self.error(ErrorKind::ExpectedSectionBlockStart, true));
        }
        let ghost start = self.at();
        let ghost expect = section_at(old(self).src(), old(self).at());
        assert(expect == section_fields(self.src(), start, None, None));
        let mut style: Option<SectionStyle> = None;
        let mut content: Option<Vec<String>> = None;
        loop
            invariant
                self.wf(),
                self.src() == old(self).src(),
                self.text == old(self).text,
                old(self).at() < start <= self.at(),
                expect == section_at(old(self).src(), old(self).at()),
                section_fields(self.src(), self.at(), view_opt(style), content_view(content)) == expect,
            decreases self.src().len() - self.at(),
        {
            proof {
                reveal(section_fields);
            }
            self.skip(CharClass::Blank);
            if self.is_eof() {
                return Err(self.error(ErrorKind::UnexpectedEof, true));
            }
            if self.peek_char('}') {
                match content {
                    None => return Err(self.error(ErrorKind::ExpectedSectionContent, true)),
                    Some(c) => {
                        self.pos = self.pos + 1;
                        return Ok(Section { style, content: c });
                    },
                }
            }
            let mark = self.checkpoint();
            let name = harden(self.name())?;
            if same_text(name, "style") {
                if style.is_some() {
                    return Err(
                        ParseError {
                            kind: ErrorKind::AlreadyDefined(Field::SectionStyle),
                            position: mark.pos,
                            important: true,
                        },
                    );
                }
                self.restore(mark);
                style = Some(harden(self.section_style())?);
            } else if same_text(name, "content") {
                if content.is_some() {
                    return Err(self.error(ErrorKind::AlreadyDefined(Field::SectionContent), true));
                }
                content = Some(harden(self.content())?);
            } else {
                return Err(
                    ParseError { kind: ErrorKind::ExpectedSection, position: mark.pos, important: true },
                );
            }
        }
    }

    /// An item: `vertical { ... }`, `horizontal { ... }` or a section.
    pub fn item(&mut self) -> (r: Result<Item, ParseError>)
        requires
            old(self).wf(),
        ensures
            old(self).stepped(final(self), r, item_at(old(self).src(), old(self).at())),
            r is Ok ==> old(self).at() < final(self).at(),
        decreases old(self).src().len() - old(self).at(),
    {
        proof {
            reveal(item_at);
            reveal(item_fields);
        }
        if self.is_eof() {
            return Err(self.error(ErrorKind::UnexpectedEof, true));
        }
        if self.peek("section") {
            let sec = self.section()?;
            return Ok(Item::Section(sec));
        }
        let vertical = self.peek("vertical");
        if !vertical && !self.peek("horizontal") {
            return Err(self.error(ErrorKind::ExpectedItem, false));
        }
        if vertical {
            self.pos = self.pos + "vertical".unicode_len();
        } else {
            self.pos = self.pos + "horizontal".unicode_len();
        }
        self.skip(CharClass::Space);
        if self.is_eof() {
            return Err(self.error(ErrorKind::UnexpectedEof, true));
        }
        if !self.peek_char('{') {
            return Err(self.error(ErrorKind::ExpectedItemBlockStart, true));
        }
        self.pos = self.pos + 1;
        let ghost start = self.at();
        let ghost expect = item_at(old(self).src(), old(self).at());
        assert(expect == item_fields(self.src(), start, vertical, Seq::empty(), None));
        let mut items: Vec<Item> = Vec::new();
        let mut style: Option<SectionStyle> = None;
        proof {
            lemma_item_list_empty();
        }
        loop
            invariant
                self.wf(),
                self.src() == old(self).src(),
                self.text == old(self).text,
                old(self).at() < start <= self.at(),
                expect == item_at(old(self).src(), old(self).at()),
                item_fields(self.src(), self.at(), vertical, item_list_view(items@), view_opt(style)) == expect,
            decreases self.src().len() - self.at(),
        {
            proof {
                reveal(item_at);
                reveal(item_fields);
            }
            self.skip(CharClass::Blank);
            if self.is_eof() {
                return Err(self.error(ErrorKind::UnexpectedEof, true));
            }
            if self.peek_char('}') {
                self.pos = self.pos + 1;
                let r = container_item(vertical, items, style);
                return Ok(r);
            }
            let mark = self.checkpoint();
            let name = harden(self.name())?;
            self.restore(mark);
            if same_text(name, "style") {
                if style.is_some() {
                    return Err(self.error(ErrorKind::AlreadyDefined(Field::ItemStyle), true));
                }
                style = Some(harden(self.section_style())?);
            } else {
                let it = harden(self.item())?;
                let ghost old_items = items@;
                items.push(it);
                proof {
                    lemma_item_list_push(old_items, it);
                }
            }
        }
    }

    /// `metadata { ... }`.
    pub fn metadata(&mut self) -> (r: Result<Metadata, ParseError>)
        requires
            old(self).wf(),
        ensures
            old(self).stepped(final(self), r, metadata_at(old(self).src(), old(self).at())),
    {
        proof {
            reveal(metadata_at);
        }
        if !self.accept("metadata")? {
            return Err(self.error(ErrorKind::ExpectedMetadata, false));
        }
        self.skip(CharClass::Space);
        if !self.accept_char('{')? {
            return Err(self.error(ErrorKind::ExpectedMetadataBlockStart, true));
        }
        let ghost start = self.at();
        let ghost expect = metadata_at(old(self).src(), old(self).at());
        assert(expect == metadata_fields(self.src(), start, None, None));
        let mut title: Option<String> = None;
        let mut style: Option<PageStyle> = None;
        loop
            invariant
                self.wf(),
                self.src() == old(self).src(),
                self.text == old(self).text,
                old(self).at() < start <= self.at(),
                expect == metadata_at(old(self).src(), old(self).at()),
                metadata_fields(self.src(), self.at(), view_opt(title), view_opt(style)) == expect,
            decreases self.src().len() - self.at(),
        {
            proof {
                reveal(metadata_fields);
            }
            self.skip(CharClass::Blank);
            if self.is_eof() {
                return Err(self.error(ErrorKind::UnexpectedEof, true));
            }
            if self.peek_char('}') {
                match title {
                    None => return Err(self.error(ErrorKind::ExpectedMetadataTitle, true)),
                    Some(t) => {
                        self.pos = self.pos + 1;
                        return Ok(Metadata { title: t, page_style: style });
                    },
                }
            }
            let mark = self.checkpoint();
            let name = harden(self.name())?;
            if same_text(name, "title") {
                self.colon()?;
                if title.is_some() {
                    return Err(self.error(ErrorKind::AlreadyDefined(Field::MetadataTitle), true));
                }
                let t = self.until_newline();
                title = Some(String::from_str(t));
            } else if same_text(name, "style") {
                if style.is_some() {
                    return Err(
                        ParseError {
                            kind: ErrorKind::AlreadyDefined(Field::MetadataStyle),
                            position: mark.pos,
                            important: true,
                        },
                    );
                }
                self.restore(mark);
                style = Some(harden(self.page_style())?);
            } else {
                return Err(
                    ParseError { kind: ErrorKind::ExpectedMetadata, position: mark.pos, important: true },
                );
            }
        }
    }

    /// `page { ... }`.
    pub fn page(&mut self) -> (r: Result<Page, ParseError>)
        requires
            old(self).wf(),
        ensures
            old(self).stepped(final(self), r, page_at(old(self).src(), old(self).at())),
            r is Ok ==> old(self).at() < final(self).at(),
    {
        proof {
            reveal(page_at);
        }
        if !self.accept("page")? {
            return Err(self.error(ErrorKind::ExpectedPage, false));
        }
        self.skip(CharClass::Space);
        if !self.accept_char('{')? {
            return Err(self.error(ErrorKind::ExpectedPageBlockStart, true));
        }
        let ghost start = self.at();
        let ghost expect = page_at(old(self).src(), old(self).at());
        assert(expect == page_fields(self.src(), start, Seq::empty(), None));
        let mut items: Vec<Item> = Vec::new();
        let mut style: Option<PageStyle> = None;
        proof {
            lemma_item_list_empty();
        }
        loop
            invariant
                self.wf(),
                self.src() == old(self).src(),
                self.text == old(self).text,
                old(self).at() < start <= self.at(),
                expect == page_at(old(self).src(), old(self).at()),
                page_fields(self.src(), self.at(), item_list_view(items@), view_opt(style)) == expect,
            decreases self.src().len() - self.at(),
        {
            proof {
                reveal(page_fields);
            }
            self.skip(CharClass::Blank);
            if self.is_eof() {
                return Err(self.error(ErrorKind::UnexpectedEof, true));
            }
            if self.peek_char('}') {
                self.pos = self.pos + 1;
                return Ok(Page { items, style });
            }
            let mark = self.checkpoint();
            let name = harden(self.name())?;
            self.restore(mark);
            if same_text(name, "style") {
                if style.is_some() {
                    return Err(self.error(ErrorKind::AlreadyDefined(Field::PageStyle), true));
                }
                style = Some(harden(self.page_style())?);
            } else {
                match self.item() {
                    Ok(it) => {
                        let ghost old_items = items@;
                        items.push(it);
                        proof {
                    lemma_item_list_push(old_items, it);
                }
                    },
                    Err(e) => {
                        if e.important {
                            return Err(e);
                        }
                        return Err(
                            ParseError {
                                kind: ErrorKind::ExpectedPage,
                                position: mark.pos,
                                important: true,
                            },
                        );
                    },
                }
            }
        }
    }

    /// The whole document from the current position: the metadata block, then the pages.
    pub fn into_document(self) -> (r: Result<Document, ParseError>)
        requires
            self.wf(),
        ensures
            parsed_document(r, document_at(self.src(), self.at())),
    {
        let mut this = self;
        this.read_document()
    }

    fn read_document(&mut self) -> (r: Result<Document, ParseError>)
        requires
            old(self).wf(),
        ensures
            parsed_document(r, document_at(old(self).src(), old(self).at())),
    {
        proof {
            reveal(document_at);
        }
        let ghost s = self.src();
        let ghost p0 = self.at();
        self.skip(CharClass::Blank);
        let metadata = harden(self.metadata())?;
        let ghost start = self.at();
        let mut pages: Vec<Page> = Vec::new();
        assert(pages_view(pages@) =~= Seq::<crate::model::PageV>::empty());
        let ghost expect = document_at(s, p0);
        assert(expect == document_pages(s, start, metadata@, Seq::empty()));
        loop
            invariant
                self.wf(),
                self.src() == s,
                start <= self.at(),
                expect == document_at(old(self).src(), old(self).at()),
                document_pages(s, self.at(), metadata@, pages_view(pages@)) == expect,
            decreases s.len() - self.at(),
        {
            proof {
                reveal(document_pages);
            }
            self.skip(CharClass::Blank);
            if self.is_eof() {
                let d = Document { metadata, pages };
                assert(d@.pages =~= pages_view(d.pages@));
                return Ok(d);
            }
            let pg = harden(self.page())?;
            let ghost before = pages_view(pages@);
            pages.push(pg);
            assert(pages_view(pages@) =~= before.push(pg@));
        }
    }
}

/// Parses a whole source text.
pub fn parse_document(text: &str) -> (r: Result<Document, ParseError>)
    ensures
        parsed_document(r, document_of(text@)),
{
    Parser::new(text).into_document()
}

} // verus!
