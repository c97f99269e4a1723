//! The parsed document tree, and the mathematical view of each of its types.
use vstd::prelude::*;

verus! {

broadcast use vstd::std_specs::vec::group_vec_axioms;

/// A decimal number as written in the source: its whole digits and its fraction digits
/// (either may be empty, not both).
#[derive(Debug)]
pub struct Number {
    pub whole: String,
    pub fraction: String,
}

pub struct NumberV {
    pub whole: Seq<char>,
    pub fraction: Seq<char>,
}

impl View for Number {
    type V = NumberV;

    open spec fn view(&self) -> NumberV {
        NumberV { whole: self.whole@, fraction: self.fraction@ }
    }
}

/// A dimension: a number with its mandatory unit.
#[derive(Debug)]
pub enum Size {
    Inches(Number),
    Points(Number),
    Pixels(Number),
    Percent(Number),
}

pub enum SizeV {
    Inches(NumberV),
    Points(NumberV),
    Pixels(NumberV),
    Percent(NumberV),
}

impl View for Size {
    type V = SizeV;

    open spec fn view(&self) -> SizeV {
        match self {
            Size::Inches(n) => SizeV::Inches(n@),
            Size::Points(n) => SizeV::Points(n@),
            Size::Pixels(n) => SizeV::Pixels(n@),
            Size::Percent(n) => SizeV::Percent(n@),
        }
    }
}

pub open spec fn view_opt<T: View>(o: Option<T>) -> Option<T::V> {
    match o {
        Some(x) => Some(x@),
        None => None,
    }
}

#[derive(Debug)]
pub enum PageSize {
    PortraitLetter,
    LandscapeLetter,
    /// Has no fixed size: the page flows with the window.
    Webpage,
    Custom { width: Size, height: Size },
}

pub enum PageSizeV {
    PortraitLetter,
    LandscapeLetter,
    Webpage,
    Custom { width: SizeV, height: SizeV },
}

impl View for PageSize {
    type V = PageSizeV;

    open spec fn view(&self) -> PageSizeV {
        match self {
            PageSize::PortraitLetter => PageSizeV::PortraitLetter,
            PageSize::LandscapeLetter => PageSizeV::LandscapeLetter,
            PageSize::Webpage => PageSizeV::Webpage,
            PageSize::Custom { width, height } => PageSizeV::Custom {
                width: width@,
                height: height@,
            },
        }
    }
}

/// A margin or padding: one size for all four sides, or a size for each side that was set.
#[derive(Debug)]
pub enum SizedSides {
    All(Size),
    Individual { left: Option<Size>, right: Option<Size>, top: Option<Size>, bottom: Option<Size> },
}

pub enum SizedSidesV {
    All(SizeV),
    Individual {
        left: Option<SizeV>,
        right: Option<SizeV>,
        top: Option<SizeV>,
        bottom: Option<SizeV>,
    },
}

impl View for SizedSides {
    type V = SizedSidesV;

    open spec fn view(&self) -> SizedSidesV {
        match self {
            SizedSides::All(s) => SizedSidesV::All(s@),
            SizedSides::Individual { left, right, top, bottom } => SizedSidesV::Individual {
                left: view_opt(*left),
                right: view_opt(*right),
                top: view_opt(*top),
                bottom: view_opt(*bottom),
            },
        }
    }
}

/// The four sides of a box.
#[derive(Debug, Clone, Copy, PartialEq, Eq, Structural)]
pub enum Side {
    Left,
    Right,
    Top,
    Bottom,
}

impl SizedSidesV {
    pub open spec fn is_individual(self) -> bool {
        self is Individual
    }

    pub open spec fn side(self, side: Side) -> Option<SizeV> {
        match self {
            SizedSidesV::All(_) => None,
            SizedSidesV::Individual { left, right, top, bottom } => match side {
                Side::Left => left,
                Side::Right => right,
                Side::Top => top,
                Side::Bottom => bottom,
            },
        }
    }

    /// The sides after `side` is set to `size`; an `All` value stays as it is.
    pub open spec fn with_side(self, side: Side, size: SizeV) -> SizedSidesV {
        match self {
            SizedSidesV::All(_) => self,
            SizedSidesV::Individual { left, right, top, bottom } => match side {
                Side::Left => SizedSidesV::Individual { left: Some(size), right, top, bottom },
                Side::Right => SizedSidesV::Individual { left, right: Some(size), top, bottom },
                Side::Top => SizedSidesV::Individual { left, right, top: Some(size), bottom },
                Side::Bottom => SizedSidesV::Individual { left, right, top, bottom: Some(size) },
            },
        }
    }

    /// Individual sides with only `side` set.
    pub open spec fn only(side: Side, size: SizeV) -> SizedSidesV {
        SizedSidesV::Individual { left: None, right: None, top: None, bottom: None }.with_side(
            side,
            size,
        )
    }
}

impl SizedSides {
    pub fn is_all(&self) -> (r: bool)
        ensures
            r == (self@ is All),
    {
        match self {
            SizedSides::All(_) => true,
            _ => false,
        }
    }

    pub fn is_individual(&self) -> (r: bool)
        ensures
            r == self@.is_individual(),
    {
        match self {
            SizedSides::Individual { .. } => true,
            _ => false,
        }
    }

    pub fn is_side_defined(&self, side: Side) -> (r: bool)
        ensures
            r == (self@.side(side) is Some),
    {
        match self {
            SizedSides::Individual { left, right, top, bottom } => match side {
                Side::Left => left.is_some(),
                Side::Right => right.is_some(),
                Side::Top => top.is_some(),
                Side::Bottom => bottom.is_some(),
            },
            _ => false,
        }
    }

    pub fn is_left_defined(&self) -> (r: bool)
        ensures
            r == (self@.side(Side::Left) is Some),
    {
        self.is_side_defined(Side::Left)
    }

    pub fn is_right_defined(&self) -> (r: bool)
        ensures
            r == (self@.side(Side::Right) is Some),
    {
        self.is_side_defined(Side::Right)
    }

    pub fn is_top_defined(&self) -> (r: bool)
        ensures
            r == (self@.side(Side::Top) is Some),
    {
        self.is_side_defined(Side::Top)
    }

    pub fn is_bottom_defined(&self) -> (r: bool)
        ensures
            r == (self@.side(Side::Bottom) is Some),
    {
        self.is_side_defined(Side::Bottom)
    }

    /// Sets one side; sides given as `All` are left unchanged.
    pub fn set_side(&mut self, side: Side, size: Size)
        ensures
            final(self)@ == old(self)@.with_side(side, size@),
    {
        match self {
            SizedSides::Individual { left, right, top, bottom } => match side {
                Side::Left => {
                    *left = Some(size);
                },
                Side::Right => {
                    *right = Some(size);
                },
                Side::Top => {
                    *top = Some(size);
                },
                Side::Bottom => {
                    *bottom = Some(size);
                },
            },
            _ => {},
        }
    }

    pub fn set_left(&mut self, size: Size)
        ensures
            final(self)@ == old(self)@.with_side(Side::Left, size@),
    {
        self.set_side(Side::Left, size)
    }

    pub fn set_right(&mut self, size: Size)
        ensures
            final(self)@ == old(self)@.with_side(Side::Right, size@),
    {
        self.set_side(Side::Right, size)
    }

    pub fn set_top(&mut self, size: Size)
        ensures
            final(self)@ == old(self)@.with_side(Side::Top, size@),
    {
        self.set_side(Side::Top, size)
    }

    pub fn set_bottom(&mut self, size: Size)
        ensures
            final(self)@ == old(self)@.with_side(Side::Bottom, size@),
    {
        self.set_side(Side::Bottom, size)
    }
}

/// The direction a section floats towards.
#[derive(Debug, Clone, Copy, PartialEq, Eq, Structural)]
pub enum Direction {
    Left,
    Right,
    Up,
    Down,
}

#[derive(Debug, Clone, Copy, PartialEq, Eq, Structural)]
pub enum HTextAlign {
    Left,
    Right,
    Center,
}

#[derive(Debug, Clone, Copy, PartialEq, Eq, Structural)]
pub enum VTextAlign {
    Top,
    Bottom,
    Center,
}

/// An RGB color, with an alpha channel where the source gave one.
#[derive(Debug, Clone, Copy, PartialEq, Eq, Structural)]
pub struct Color {
    pub r: u8,
    pub g: u8,
    pub b: u8,
    pub a: Option<u8>,
}

impl View for Direction {
    type V = Direction;

    open spec fn view(&self) -> Direction {
        *self
    }
}

impl View for HTextAlign {
    type V = HTextAlign;

    open spec fn view(&self) -> HTextAlign {
        *self
    }
}

impl View for VTextAlign {
    type V = VTextAlign;

    open spec fn view(&self) -> VTextAlign {
        *self
    }
}

impl View for Color {
    type V = Color;

    open spec fn view(&self) -> Color {
        *self
    }
}

#[derive(Debug)]
pub struct PageStyle {
    pub page_size: Option<PageSize>,
    pub text_color: Option<Color>,
    pub background_color: Option<Color>,
    pub margin: Option<SizedSides>,
    pub horizontal_text_align: Option<HTextAlign>,
    pub vertical_text_align: Option<VTextAlign>,
}

pub struct PageStyleV {
    pub page_size: Option<PageSizeV>,
    pub text_color: Option<Color>,
    pub background_color: Option<Color>,
    pub margin: Option<SizedSidesV>,
    pub horizontal_text_align: Option<HTextAlign>,
    pub vertical_text_align: Option<VTextAlign>,
}

impl View for PageStyle {
    type V = PageStyleV;

    open spec fn view(&self) -> PageStyleV {
        PageStyleV {
            page_size: view_opt(self.page_size),
            text_color: self.text_color,
            background_color: self.background_color,
            margin: view_opt(self.margin),
            horizontal_text_align: self.horizontal_text_align,
            vertical_text_align: self.vertical_text_align,
        }
    }
}

impl PageStyleV {
    /// A style block with no field set.
    pub open spec fn unset() -> PageStyleV {
        PageStyleV {
            page_size: None,
            text_color: None,
            background_color: None,
            margin: None,
            horizontal_text_align: None,
            vertical_text_align: None,
        }
    }

    /// The style of a page that gives none: a portrait letter page, nothing else set.
    pub open spec fn default_style() -> PageStyleV {
        PageStyleV { page_size: Some(PageSizeV::PortraitLetter), ..PageStyleV::unset() }
    }
}

impl Default for PageStyle {
    fn default() -> (r: PageStyle)
        ensures
            r@ == PageStyleV::default_style(),
    {
        PageStyle {
            page_size: Some(PageSize::PortraitLetter),
            text_color: None,
            background_color: None,
            margin: None,
            horizontal_text_align: None,
            vertical_text_align: None,
        }
    }
}

#[derive(Debug)]
pub struct SectionStyle {
    pub width: Option<Size>,
    pub height: Option<Size>,
    pub align: Option<Direction>,
    pub font: Option<String>,
    pub font_size: Option<Size>,
    pub text_color: Option<Color>,
    pub background_color: Option<Color>,
    pub margin: Option<SizedSides>,
    pub horizontal_text_align: Option<HTextAlign>,
    pub vertical_text_align: Option<VTextAlign>,
}

pub struct SectionStyleV {
    pub width: Option<SizeV>,
    pub height: Option<SizeV>,
    pub align: Option<Direction>,
    pub font: Option<Seq<char>>,
    pub font_size: Option<SizeV>,
    pub text_color: Option<Color>,
    pub background_color: Option<Color>,
    pub margin: Option<SizedSidesV>,
    pub horizontal_text_align: Option<HTextAlign>,
    pub vertical_text_align: Option<VTextAlign>,
}

impl View for SectionStyle {
    type V = SectionStyleV;

    open spec fn view(&self) -> SectionStyleV {
        SectionStyleV {
            width: view_opt(self.width),
            height: view_opt(self.height),
            align: self.align,
            font: view_opt(self.font),
            font_size: view_opt(self.font_size),
            text_color: self.text_color,
            background_color: self.background_color,
            margin: view_opt(self.margin),
            horizontal_text_align: self.horizontal_text_align,
            vertical_text_align: self.vertical_text_align,
        }
    }
}

impl SectionStyleV {
    /// A style block with no field set.
    pub open spec fn unset() -> SectionStyleV {
        SectionStyleV {
            width: None,
            height: None,
            align: None,
            font: None,
            font_size: None,
            text_color: None,
            background_color: None,
            margin: None,
            horizontal_text_align: None,
            vertical_text_align: None,
        }
    }
}

impl Default for SectionStyle {
    fn default() -> (r: SectionStyle)
        ensures
            r@ == SectionStyleV::unset(),
    {
        SectionStyle {
            width: None,
            height: None,
            align: None,
            font: None,
            font_size: None,
            text_color: None,
            background_color: None,
            margin: None,
            horizontal_text_align: None,
            vertical_text_align: None,
        }
    }
}

pub open spec fn lines_view(lines: Seq<String>) -> Seq<Seq<char>> {
    Seq::new(lines.len(), |i: int| lines[i]@)
}

/// A leaf block of text lines, with its style.
#[derive(Debug)]
pub struct Section {
    pub style: Option<SectionStyle>,
    pub content: Vec<String>,
}

pub struct SectionV {
    pub style: Option<SectionStyleV>,
    pub content: Seq<Seq<char>>,
}

impl View for Section {
    type V = SectionV;

    open spec fn view(&self) -> SectionV {
        SectionV { style: view_opt(self.style), content: lines_view(self.content@) }
    }
}

/// A layout node: a row or column of further items, or a section.
#[derive(Debug)]
pub enum Item {
    Vertical { items: Vec<Item>, style: Option<SectionStyle> },
    Horizontal { items: Vec<Item>, style: Option<SectionStyle> },
    Section(Section),
}

pub enum ItemV {
    Vertical { items: Seq<ItemV>, style: Option<SectionStyleV> },
    Horizontal { items: Seq<ItemV>, style: Option<SectionStyleV> },
    Section(SectionV),
}

/// The view of an item: its rows and columns hold the views of their items, in order.
pub open spec fn item_view(i: Item) -> ItemV
    decreases i,
{
    match i {
        Item::Vertical { items, style } => {
            proof {
                assert(decreases_to!(items => items@));
            }
            ItemV::Vertical { items: item_list_view(items@), style: view_opt(style) }
        },
        Item::Horizontal { items, style } => {
            proof {
                assert(decreases_to!(items => items@));
            }
            ItemV::Horizontal { items: item_list_view(items@), style: view_opt(style) }
        },
        Item::Section(s) => ItemV::Section(s@),
    }
}

/// The views of a sequence of items, in order.
pub open spec fn item_list_view(items: Seq<Item>) -> Seq<ItemV>
    decreases items,
{
    if items.len() == 0 {
        Seq::empty()
    } else {
        proof {
            assert(decreases_to!(items => items[items.len() - 1]));
            assert(decreases_to!(items => items.subrange(0, items.len() - 1)));
        }
        item_list_view(items.drop_last()).push(item_view(items.last()))
    }
}

impl View for Item {
    type V = ItemV;

    open spec fn view(&self) -> ItemV {
        item_view(*self)
    }
}

pub proof fn lemma_item_list_push(items: Seq<Item>, x: Item)
    ensures
        item_list_view(items.push(x)) == item_list_view(items).push(x@),
{
    assert(items.push(x).drop_last() =~= items);
}

pub proof fn lemma_item_list_empty()
    ensures
        item_list_view(Seq::<Item>::empty()) == Seq::<ItemV>::empty(),
{
}

#[derive(Debug)]
pub struct Metadata {
    pub title: String,
    pub page_style: Option<PageStyle>,
}

pub struct MetadataV {
    pub title: Seq<char>,
    pub page_style: Option<PageStyleV>,
}

impl View for Metadata {
    type V = MetadataV;

    open spec fn view(&self) -> MetadataV {
        MetadataV { title: self.title@, page_style: view_opt(self.page_style) }
    }
}

#[derive(Debug)]
pub struct Page {
    pub items: Vec<Item>,
    pub style: Option<PageStyle>,
}

pub struct PageV {
    pub items: Seq<ItemV>,
    pub style: Option<PageStyleV>,
}

impl View for Page {
    type V = PageV;

    open spec fn view(&self) -> PageV {
        PageV { items: item_list_view(self.items@), style: view_opt(self.style) }
    }
}

#[derive(Debug)]
pub struct Document {
    pub metadata: Metadata,
    pub pages: Vec<Page>,
}

pub struct DocumentV {
    pub metadata: MetadataV,
    pub pages: Seq<PageV>,
}

impl View for Document {
    type V = DocumentV;

    open spec fn view(&self) -> DocumentV {
        DocumentV {
            metadata: self.metadata@,
            pages: Seq::new(self.pages.len() as nat, |i: int| self.pages[i]@),
        }
    }
}

} // verus!
