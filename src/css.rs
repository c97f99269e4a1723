//! Style records lowered to CSS declarations, in a fixed order.
//!
//! Centered text alignment depends on the direction of the enclosing row or column: it is laid
//! out with flexbox, along or across that direction.
use crate::model::{
    view_opt, Color, Direction, HTextAlign, Number, NumberV, PageSize, PageSizeV, PageStyle,
    PageStyleV, SectionStyle, SectionStyleV, Size, SizeV, SizedSides, SizedSidesV, VTextAlign,
};
use crate::text::{hex_byte, push_hex_byte};
use vstd::prelude::*;

verus! {

/// The direction of the row or column an element is laid out in, if any.
#[derive(Debug, Clone, Copy, PartialEq, Eq, Structural)]
pub enum ParentDirection {
    Vertical,
    Horizontal,
    /// Not inside a row or column.
    Neither,
}

/// The position after the leading zeros of `s` from `i`.
pub open spec fn zeros_from(s: Seq<char>, i: int) -> int
    decreases s.len() - i,
{
    if 0 <= i < s.len() && s[i] == '0' {
        zeros_from(s, i + 1)
    } else {
        i
    }
}

/// The position before the trailing zeros of `s` up to `j`.
pub open spec fn zeros_back(s: Seq<char>, j: int) -> int
    decreases j,
{
    if 0 < j <= s.len() && s[j - 1] == '0' {
        zeros_back(s, j - 1)
    } else {
        j
    }
}

proof fn lemma_zeros_from(s: Seq<char>, i: int)
    requires
        0 <= i <= s.len(),
    ensures
        i <= zeros_from(s, i) <= s.len(),
    decreases s.len() - i,
{
    if i < s.len() && s[i] == '0' {
        lemma_zeros_from(s, i + 1);
    }
}

proof fn lemma_zeros_back(s: Seq<char>, j: int)
    requires
        0 <= j <= s.len(),
    ensures
        0 <= zeros_back(s, j) <= j,
    decreases j,
{
    if 0 < j && s[j - 1] == '0' {
        lemma_zeros_back(s, j - 1);
    }
}

/// A number in its shortest decimal form: no leading zeros in the whole part (but a single
/// `0`), no trailing zeros in the fraction, and no point without a fraction.
pub open spec fn number_text(n: NumberV) -> Seq<char> {
    let w = n.whole.subrange(zeros_from(n.whole, 0), n.whole.len() as int);
    let whole = if w.len() == 0 {
        "0"@
    } else {
        w
    };
    let f = n.fraction.subrange(0, zeros_back(n.fraction, n.fraction.len() as int));
    if f.len() == 0 {
        whole
    } else {
        whole + "."@ + f
    }
}

pub open spec fn size_text(s: SizeV) -> Seq<char> {
    match s {
        SizeV::Inches(n) => number_text(n) + "in"@,
        SizeV::Points(n) => number_text(n) + "pt"@,
        SizeV::Pixels(n) => number_text(n) + "px"@,
        SizeV::Percent(n) => number_text(n) + "%"@,
    }
}

/// `#RRGGBBAA` in uppercase hex; a color without alpha is opaque.
pub open spec fn color_text(c: Color) -> Seq<char> {
    "#"@ + hex_byte(c.r) + hex_byte(c.g) + hex_byte(c.b) + hex_byte(
        match c.a {
            Some(a) => a,
            None => 0xffu8,
        },
    )
}

pub open spec fn direction_text(d: Direction) -> Seq<char> {
    match d {
        Direction::Left => "left"@,
        Direction::Right => "right"@,
        Direction::Up => "top"@,
        Direction::Down => "bottom"@,
    }
}

pub open spec fn vertical_align_text(a: VTextAlign) -> Seq<char> {
    match a {
        VTextAlign::Top => "top"@,
        VTextAlign::Bottom => "bottom"@,
        VTextAlign::Center => "center"@,
    }
}

pub open spec fn horizontal_align_text(a: HTextAlign) -> Seq<char> {
    match a {
        HTextAlign::Left => "left"@,
        HTextAlign::Right => "right"@,
        HTextAlign::Center => "center"@,
    }
}

pub open spec fn page_size_css(p: PageSizeV) -> Seq<char> {
    match p {
        PageSizeV::PortraitLetter => "width:8.5in;height:11in;"@,
        PageSizeV::LandscapeLetter => "width:11in;height:8.5in;"@,
        PageSizeV::Webpage => "width:100%;height:100%;"@,
        PageSizeV::Custom { width, height } => "width:"@ + size_text(width) + ";height:"@
            + size_text(height) + ";"@,
    }
}

/// `name:size;` where a size is given, nothing otherwise.
pub open spec fn size_decl(name: Seq<char>, s: Option<SizeV>) -> Seq<char> {
    match s {
        Some(x) => name + ":"@ + size_text(x) + ";"@,
        None => Seq::empty(),
    }
}

pub open spec fn color_decl(name: Seq<char>, c: Option<Color>) -> Seq<char> {
    match c {
        Some(x) => name + ":"@ + color_text(x) + ";"@,
        None => Seq::empty(),
    }
}

/// The declarations of a margin or padding, under the property `name`.
pub open spec fn sides_css(m: SizedSidesV, name: Seq<char>) -> Seq<char> {
    match m {
        SizedSidesV::All(s) => name + ":"@ + size_text(s) + ";"@,
        SizedSidesV::Individual { left, right, top, bottom } => size_decl(name + "-left"@, left)
            + size_decl(name + "-right"@, right) + size_decl(name + "-top"@, top) + size_decl(
            name + "-bottom"@,
            bottom,
        ),
    }
}

/// Vertical alignment: centering goes across a row and along a column.
pub open spec fn vertical_align_css(a: Option<VTextAlign>, dir: ParentDirection) -> Seq<char> {
    match a {
        Some(VTextAlign::Center) => if dir == ParentDirection::Horizontal {
            "align-items:center;"@
        } else {
            "justify-content:center;"@
        },
        Some(x) => "vertical-align:"@ + vertical_align_text(x) + ";"@,
        None => Seq::empty(),
    }
}

/// Horizontal alignment: centering goes along a row and across a column.
pub open spec fn horizontal_align_css(a: Option<HTextAlign>, dir: ParentDirection) -> Seq<char> {
    match a {
        Some(HTextAlign::Center) => if dir == ParentDirection::Horizontal {
            "justify-content:center;"@
        } else {
            "align-items:center;"@
        },
        Some(x) => "text-align:"@ + horizontal_align_text(x) + ";"@,
        None => Seq::empty(),
    }
}

/// Whether a style centers its text, which takes a flex container.
pub open spec fn needs_flex(st: SectionStyleV) -> bool {
    st.vertical_text_align == Some(VTextAlign::Center) || st.horizontal_text_align == Some(
        HTextAlign::Center,
    )
}

pub open spec fn grow_decl(st: SectionStyleV) -> Seq<char> {
    if st.width is None && st.height is None {
        "flex-grow:1;flex-shrink:1;"@
    } else {
        "flex-grow:0;flex-shrink:0;"@
    }
}

pub open spec fn float_decl(a: Option<Direction>) -> Seq<char> {
    match a {
        Some(d) => "float:"@ + direction_text(d) + ";"@,
        None => Seq::empty(),
    }
}

pub open spec fn font_decl(f: Option<Seq<char>>) -> Seq<char> {
    match f {
        Some(f) => "font-family:"@ + f + ";"@,
        None => Seq::empty(),
    }
}

pub open spec fn sides_decl(m: Option<SizedSidesV>, name: Seq<char>) -> Seq<char> {
    match m {
        Some(m) => sides_css(m, name),
        None => Seq::empty(),
    }
}

pub open spec fn flex_decl(st: SectionStyleV) -> Seq<char> {
    if needs_flex(st) {
        "display:flex;"@
    } else {
        Seq::empty()
    }
}

/// The declarations of a section style, inside a container laid out in `dir`.
pub open spec fn section_style_css(st: SectionStyleV, dir: ParentDirection) -> Seq<char> {
    "padding:0;margin:0;overflow-wrap:anywhere;"@ + grow_decl(st) + size_decl("width"@, st.width)
        + size_decl("height"@, st.height) + float_decl(st.align) + font_decl(st.font) + size_decl(
        "font-size"@,
        st.font_size,
    ) + color_decl("color"@, st.text_color) + color_decl("background-color"@, st.background_color)
        + sides_decl(st.margin, "margin"@) + vertical_align_css(st.vertical_text_align, dir)
        + horizontal_align_css(st.horizontal_text_align, dir) + flex_decl(st)
}

/// The declarations of a page style; a page's own margin is always zero, its `margin`
/// field becomes padding.
pub open spec fn page_style_css(st: PageStyleV) -> Seq<char> {
    (match st.page_size {
        Some(p) => page_size_css(p),
        None => Seq::empty(),
    }) + color_decl("color"@, st.text_color) + color_decl("background-color"@, st.background_color)
        + sides_decl(st.margin, "padding"@) + "margin:0;"@
}

pub fn number_css(n: &Number) -> (r: String)
    ensures
        r@ == number_text(n@),
{
    let w = n.whole.as_str();
    let wl = w.unicode_len();
    let mut i: usize = 0;
    proof {
        lemma_zeros_from(w@, 0);
    }
    while i < wl && w.get_char(i) == '0'
        invariant
            wl == w@.len(),
            i <= wl,
            zeros_from(w@, i as int) == zeros_from(w@, 0),
        decreases wl - i,
    {
        i += 1;
    }
    let mut out = if i == wl {
        String::from_str("0")
    } else {
        String::from_str(w.substring_char(i, wl))
    };
    let f = n.fraction.as_str();
    let fl = f.unicode_len();
    let mut j: usize = fl;
    proof {
        lemma_zeros_back(f@, fl as int);
    }
    while j > 0 && f.get_char(j - 1) == '0'
        invariant
            fl == f@.len(),
            j <= fl,
            zeros_back(f@, j as int) == zeros_back(f@, fl as int),
        decreases j,
    {
        j -= 1;
    }
    if j > 0 {
        out.append(".");
        out.append(f.substring_char(0, j));
    }
    out
}

impl Number {
    /// An equal number.
    pub fn copy(&self) -> (r: Number)
        ensures
            r@ == self@,
    {
        Number { whole: self.whole.clone(), fraction: self.fraction.clone() }
    }
}

impl Size {
    pub fn copy(&self) -> (r: Size)
        ensures
            r@ == self@,
    {
        match self {
            Size::Inches(n) => Size::Inches(n.copy()),
            Size::Points(n) => Size::Points(n.copy()),
            Size::Pixels(n) => Size::Pixels(n.copy()),
            Size::Percent(n) => Size::Percent(n.copy()),
        }
    }

    pub fn css(&self) -> (r: String)
        ensures
            r@ == size_text(self@),
    {
        match self {
            Size::Inches(n) => number_css(n).concat("in"),
            Size::Points(n) => number_css(n).concat("pt"),
            Size::Pixels(n) => number_css(n).concat("px"),
            Size::Percent(n) => number_css(n).concat("%"),
        }
    }
}

fn copy_size(s: &Option<Size>) -> (r: Option<Size>)
    ensures
        view_opt(r) == view_opt(*s),
{
    match s {
        Some(x) => Some(x.copy()),
        None => None,
    }
}

impl SizedSides {
    pub fn copy(&self) -> (r: SizedSides)
        ensures
            r@ == self@,
    {
        match self {
            SizedSides::All(s) => SizedSides::All(s.copy()),
            SizedSides::Individual { left, right, top, bottom } => SizedSides::Individual {
                left: copy_size(left),
                right: copy_size(right),
                top: copy_size(top),
                bottom: copy_size(bottom),
            },
        }
    }

    /// The declarations of these sides under the property `name` (`margin`, `padding`).
    pub fn css(&self, name: &str) -> (r: String)
        ensures
            r@ == sides_css(self@, name@),
    {
        let mut out = String::new();
        match self {
            SizedSides::All(s) => {
                out.append(name);
                out.append(":");
                out.append(s.css().as_str());
                out.append(";");
            },
            SizedSides::Individual { left, right, top, bottom } => {
                out.append(size_decl_css(String::from_str(name).concat("-left").as_str(), left).as_str());
                out.append(size_decl_css(String::from_str(name).concat("-right").as_str(), right).as_str());
                out.append(size_decl_css(String::from_str(name).concat("-top").as_str(), top).as_str());
                out.append(
                    size_decl_css(String::from_str(name).concat("-bottom").as_str(), bottom).as_str(),
                );
            },
        }
        assert(out@ =~= sides_css(self@, name@));
        out
    }
}

/// `<name>:<size>;` where a size is given.
fn size_decl_css(name: &str, s: &Option<Size>) -> (r: String)
    ensures
        r@ == size_decl(name@, view_opt(*s)),
{
    match s {
        Some(x) => {
            let mut out = String::from_str(name);
            out.append(":");
            out.append(x.css().as_str());
            out.append(";");
            out
        },
        None => String::new(),
    }
}

fn color_decl_css(name: &str, c: Option<Color>) -> (r: String)
    ensures
        r@ == color_decl(name@, c),
{
    match c {
        Some(x) => {
            let mut out = String::from_str(name);
            out.append(":");
            out.append(x.css().as_str());
            out.append(";");
            out
        },
        None => String::new(),
    }
}

fn sides_decl_css(m: &Option<SizedSides>, name: &str) -> (r: String)
    ensures
        r@ == sides_decl(view_opt(*m), name@),
{
    match m {
        Some(m) => m.css(name),
        None => String::new(),
    }
}

impl Color {
    pub fn css(&self) -> (r: String)
        ensures
            r@ == color_text(*self),
    {
        let mut out = String::from_str("#");
        push_hex_byte(&mut out, self.r);
        push_hex_byte(&mut out, self.g);
        push_hex_byte(&mut out, self.b);
        let a = match self.a {
            Some(a) => a,
            None => 0xff,
        };
        push_hex_byte(&mut out, a);
        out
    }
}

impl Direction {
    pub fn css(&self) -> (r: &'static str)
        ensures
            r@ == direction_text(*self),
    {
        match self {
            Direction::Left => "left",
            Direction::Right => "right",
            Direction::Up => "top",
            Direction::Down => "bottom",
        }
    }
}

impl VTextAlign {
    pub fn css(&self) -> (r: &'static str)
        ensures
            r@ == vertical_align_text(*self),
    {
        match self {
            VTextAlign::Top => "top",
            VTextAlign::Bottom => "bottom",
            VTextAlign::Center => "center",
        }
    }
}

impl HTextAlign {
    pub fn css(&self) -> (r: &'static str)
        ensures
            r@ == horizontal_align_text(*self),
    {
        match self {
            HTextAlign::Left => "left",
            HTextAlign::Right => "right",
            HTextAlign::Center => "center",
        }
    }
}

impl PageSize {
    pub fn css(&self) -> (r: String)
        ensures
            r@ == page_size_css(self@),
    {
        match self {
            PageSize::PortraitLetter => String::from_str("width:8.5in;height:11in;"),
            PageSize::LandscapeLetter => String::from_str("width:11in;height:8.5in;"),
            PageSize::Webpage => String::from_str("width:100%;height:100%;"),
            PageSize::Custom { width, height } => {
                let mut out = String::from_str("width:");
                out.append(width.css().as_str());
                out.append(";height:");
                out.append(height.css().as_str());
                out.append(";");
                assert(out@ =~= page_size_css(self@));
                out
            },
        }
    }
}

fn float_css(a: Option<Direction>) -> (r: String)
    ensures
        r@ == float_decl(a),
{
    match a {
        Some(d) => {
            let mut out = String::from_str("float:");
            out.append(d.css());
            out.append(";");
            out
        },
        None => String::new(),
    }
}

fn font_css(f: &Option<String>) -> (r: String)
    ensures
        r@ == font_decl(view_opt(*f)),
{
    match f {
        Some(f) => {
            let mut out = String::from_str("font-family:");
            out.append(f.as_str());
            out.append(";");
            out
        },
        None => String::new(),
    }
}

fn vertical_align_css_of(a: Option<VTextAlign>, dir: ParentDirection) -> (r: String)
    ensures
        r@ == vertical_align_css(a, dir),
{
    match a {
        Some(VTextAlign::Center) => if dir == ParentDirection::Horizontal {
            String::from_str("align-items:center;")
        } else {
            String::from_str("justify-content:center;")
        },
        Some(x) => {
            let mut out = String::from_str("vertical-align:");
            out.append(x.css());
            out.append(";");
            out
        },
        None => String::new(),
    }
}

fn horizontal_align_css_of(a: Option<HTextAlign>, dir: ParentDirection) -> (r: String)
    ensures
        r@ == horizontal_align_css(a, dir),
{
    match a {
        Some(HTextAlign::Center) => if dir == ParentDirection::Horizontal {
            String::from_str("justify-content:center;")
        } else {
            String::from_str("align-items:center;")
        },
        Some(x) => {
            let mut out = String::from_str("text-align:");
            out.append(x.css());
            out.append(";");
            out
        },
        None => String::new(),
    }
}

impl SectionStyle {
    /// The declarations of this style inside a container laid out in `dir`.
    pub fn css(&self, dir: ParentDirection) -> (r: String)
        ensures
            r@ == section_style_css(self@, dir),
    {
        let mut out = String::from_str("padding:0;margin:0;overflow-wrap:anywhere;");
        if self.width.is_none() && self.height.is_none() {
            out.append("flex-grow:1;flex-shrink:1;");
        } else {
            out.append("flex-grow:0;flex-shrink:0;");
        }
        out.append(size_decl_css("width", &self.width).as_str());
        out.append(size_decl_css("height", &self.height).as_str());
        out.append(float_css(self.align).as_str());
        out.append(font_css(&self.font).as_str());
        out.append(size_decl_css("font-size", &self.font_size).as_str());
        out.append(color_decl_css("color", self.text_color).as_str());
        out.append(color_decl_css("background-color", self.background_color).as_str());
        out.append(sides_decl_css(&self.margin, "margin").as_str());
        out.append(vertical_align_css_of(self.vertical_text_align, dir).as_str());
        out.append(horizontal_align_css_of(self.horizontal_text_align, dir).as_str());
        if self.vertical_text_align == Some(VTextAlign::Center) || self.horizontal_text_align
            == Some(HTextAlign::Center) {
            out.append("display:flex;");
        } else {
            assert(out@ =~= out@ + Seq::<char>::empty());
        }
        out
    }

    /// The style split in two disjoint parts: what sizes and places the section's box (width,
    /// height, float, background and text alignment), and what styles its text (font, font
    /// size, text color and margin).
    pub fn partition(&self) -> (r: (SectionStyle, SectionStyle))
        ensures
            r.0@ == box_style(self@),
            r.1@ == text_style(self@),
    {
        let boxed = SectionStyle {
            width: copy_size(&self.width),
            height: copy_size(&self.height),
            align: self.align,
            font: None,
            font_size: None,
            text_color: None,
            background_color: self.background_color,
            margin: None,
            horizontal_text_align: self.horizontal_text_align,
            vertical_text_align: self.vertical_text_align,
        };
        let text = SectionStyle {
            width: None,
            height: None,
            align: None,
            font: match &self.font {
                Some(f) => Some(f.clone()),
                None => None,
            },
            font_size: copy_size(&self.font_size),
            text_color: self.text_color,
            background_color: None,
            margin: match &self.margin {
                Some(m) => Some(m.copy()),
                None => None,
            },
            horizontal_text_align: None,
            vertical_text_align: None,
        };
        (boxed, text)
    }
}

/// The part of a section style that applies to the section's box.
pub open spec fn box_style(st: SectionStyleV) -> SectionStyleV {
    SectionStyleV {
        width: st.width,
        height: st.height,
        align: st.align,
        background_color: st.background_color,
        horizontal_text_align: st.horizontal_text_align,
        vertical_text_align: st.vertical_text_align,
        ..SectionStyleV::unset()
    }
}

/// The part of a section style that applies to the section's text.
pub open spec fn text_style(st: SectionStyleV) -> SectionStyleV {
    SectionStyleV {
        font: st.font,
        font_size: st.font_size,
        text_color: st.text_color,
        margin: st.margin,
        ..SectionStyleV::unset()
    }
}

impl PageStyle {
    pub fn css(&self) -> (r: String)
        ensures
            r@ == page_style_css(self@),
    {
        let mut out = match &self.page_size {
            Some(p) => p.css(),
            None => String::new(),
        };
        out.append(color_decl_css("color", self.text_color).as_str());
        out.append(color_decl_css("background-color", self.background_color).as_str());
        out.append(sides_decl_css(&self.margin, "padding").as_str());
        out.append("margin:0;");
        out
    }
}

/// The declarations of a style before its text alignment.
pub open spec fn section_style_head(st: SectionStyleV) -> Seq<char> {
    "padding:0;margin:0;overflow-wrap:anywhere;"@ + grow_decl(st) + size_decl("width"@, st.width)
        + size_decl("height"@, st.height) + float_decl(st.align) + font_decl(st.font) + size_decl(
        "font-size"@,
        st.font_size,
    ) + color_decl("color"@, st.text_color) + color_decl("background-color"@, st.background_color)
        + sides_decl(st.margin, "margin"@)
}

/// Vertically centered text with no horizontal alignment is centered with flexbox: across a
/// row (`align-items`), along a column or outside any container (`justify-content`).
pub proof fn lemma_vertical_center(st: SectionStyleV)
    requires
        st.vertical_text_align == Some(VTextAlign::Center),
        st.horizontal_text_align is None,
    ensures
        section_style_css(st, ParentDirection::Horizontal) == section_style_head(st)
            + "align-items:center;display:flex;"@,
        section_style_css(st, ParentDirection::Vertical) == section_style_head(st)
            + "justify-content:center;display:flex;"@,
        section_style_css(st, ParentDirection::Neither) == section_style_head(st)
            + "justify-content:center;display:flex;"@,
{
    reveal_strlit("align-items:center;");
    reveal_strlit("justify-content:center;");
    reveal_strlit("display:flex;");
    reveal_strlit("align-items:center;display:flex;");
    reveal_strlit("justify-content:center;display:flex;");
    let head = section_style_head(st);
    assert(section_style_css(st, ParentDirection::Horizontal) =~= head
        + "align-items:center;display:flex;"@);
    assert(section_style_css(st, ParentDirection::Vertical) =~= head
        + "justify-content:center;display:flex;"@);
    assert(section_style_css(st, ParentDirection::Neither) =~= head
        + "justify-content:center;display:flex;"@);
}

} // verus!

