//! The document tree lowered to HTML: pages, rows and columns as flex containers, and each
//! section as a box around its rendered text.
use crate::css::{
    box_style, color_text, direction_text, horizontal_align_text, page_size_css,
    page_style_css, section_style_css, sides_css, size_text, text_style, vertical_align_text,
    ParentDirection,
};
use crate::markup::{markdown, markdown_of, markup_html, render_markup};
use crate::model::{
    item_list_view, lemma_item_list_push, lines_view, Color, Direction, Document, DocumentV,
    HTextAlign, Item, ItemV, Metadata, MetadataV, Page, PageSize, PageStyle, PageStyleV, PageV,
    Section, SectionStyle, SectionStyleV, SectionV, Size, SizedSides, VTextAlign,
};
use vstd::prelude::*;

verus! {

broadcast use vstd::std_specs::vec::group_vec_axioms;

/// The text handed to the markup parser: each line followed by a line break.
pub open spec fn joined_lines(lines: Seq<Seq<char>>) -> Seq<char>
    decreases lines.len(),
{
    if lines.len() == 0 {
        Seq::empty()
    } else {
        joined_lines(lines.drop_last()) + lines.last() + "\n"@
    }
}

pub open spec fn style_or_unset(st: Option<SectionStyleV>) -> SectionStyleV {
    match st {
        Some(s) => s,
        None => SectionStyleV::unset(),
    }
}

pub open spec fn page_style_or_default(st: Option<PageStyleV>) -> PageStyleV {
    match st {
        Some(s) => s,
        None => PageStyleV::default_style(),
    }
}

/// A section: an outer box styled by the box part of its style, an inner box styled by the
/// text part, and inside it the HTML of its text's markup.
pub open spec fn section_html(s: SectionV, dir: ParentDirection) -> Seq<char> {
    let st = style_or_unset(s.style);
    "<div style=\""@ + section_style_css(box_style(st), dir) + "\"><div style=\""@
        + section_style_css(text_style(st), dir) + "\">"@ + markup_html(
        markdown_of(joined_lines(s.content)),
    ) + "</div></div>"@
}

/// The opening of a row (`vertical` false) or column, with its style.
pub open spec fn container_open(vertical: bool, style: Option<SectionStyleV>) -> Seq<char> {
    if vertical {
        "<div style=\""@ + section_style_css(style_or_unset(style), ParentDirection::Vertical)
            + "align-items:stretch;display:flex;flex-direction:column;\">"@
    } else {
        "<div style=\""@ + section_style_css(style_or_unset(style), ParentDirection::Horizontal)
            + "align-items:stretch;display:flex;flex-direction:row;\">"@
    }
}

pub open spec fn direction_of(vertical: bool) -> ParentDirection {
    if vertical {
        ParentDirection::Vertical
    } else {
        ParentDirection::Horizontal
    }
}

/// An item inside a container laid out in `dir`; a row or column passes its own direction
/// on to its items.
pub open spec fn item_html(i: ItemV, dir: ParentDirection) -> Seq<char>
    decreases i,
{
    match i {
        ItemV::Vertical { items, style } => container_open(true, style) + items_html(
            items,
            ParentDirection::Vertical,
        ) + "</div>"@,
        ItemV::Horizontal { items, style } => container_open(false, style) + items_html(
            items,
            ParentDirection::Horizontal,
        ) + "</div>"@,
        ItemV::Section(s) => section_html(s, dir),
    }
}

/// Items one after the other.
pub open spec fn items_html(items: Seq<ItemV>, dir: ParentDirection) -> Seq<char>
    decreases items,
{
    if items.len() == 0 {
        Seq::empty()
    } else {
        proof {
            assert(decreases_to!(items => items[items.len() - 1]));
            assert(decreases_to!(items => items.subrange(0, items.len() - 1)));
        }
        items_html(items.drop_last(), dir) + item_html(items.last(), dir)
    }
}

pub open spec fn page_html(p: PageV, dir: ParentDirection) -> Seq<char> {
    "<div class=\"page\" style=\""@ + page_style_css(page_style_or_default(p.style)) + "\">"@
        + items_html(p.items, dir) + "</div>"@
}

pub open spec fn pages_html(pages: Seq<PageV>, dir: ParentDirection) -> Seq<char>
    decreases pages.len(),
{
    if pages.len() == 0 {
        Seq::empty()
    } else {
        pages_html(pages.drop_last(), dir) + page_html(pages.last(), dir)
    }
}

/// The head of the document: its title, and the `.page` class from the document's page style.
pub open spec fn metadata_html(m: MetadataV) -> Seq<char> {
    "<title>"@ + m.title + "</title><style>.page{display:flex;"@ + page_style_css(
        page_style_or_default(m.page_style),
    ) + "}</style>"@
}

pub open spec fn document_html(d: DocumentV, dir: ParentDirection) -> Seq<char> {
    "<!DOCTYPE html><html><head>"@ + metadata_html(d.metadata)
        + "</head><body style=\"margin:0;padding:0\">"@ + pages_html(d.pages, dir)
        + "</body></html>"@
}

/// Lowering to HTML (or, for the parts of a style, to CSS).
pub trait IntoHtml: Sized {
    spec fn html(&self, parent_direction: ParentDirection) -> Seq<char>;

    fn into_html(self, parent_direction: ParentDirection) -> (r: String)
        ensures
            r@ == self.html(parent_direction),
    ;
}

/// Joins the lines of a section, each followed by a line break.
pub fn joined(lines: &Vec<String>) -> (r: String)
    ensures
        r@ == joined_lines(lines_view(lines@)),
{
    let ghost lv = lines_view(lines@);
    let mut out = String::new();
    let mut i: usize = 0;
    assert(lv.subrange(0, 0) =~= Seq::<Seq<char>>::empty());
    while i < lines.len()
        invariant
            lv == lines_view(lines@),
            i <= lines.len(),
            out@ == joined_lines(lv.subrange(0, i as int)),
        decreases lines.len() - i,
    {
        out.append(lines[i].as_str());
        out.append("\n");
        assert(lv.subrange(0, i + 1).drop_last() =~= lv.subrange(0, i as int));
        i += 1;
    }
    assert(lv.subrange(0, lines.len() as int) =~= lv);
    out
}

/// Writes a section inside a container laid out in `dir`.
pub fn section_html_of(sec: &Section, dir: ParentDirection) -> (r: String)
    ensures
        r@ == section_html(sec@, dir),
{
    let (boxed, text) = match &sec.style {
        Some(st) => st.partition(),
        None => (SectionStyle::default(), SectionStyle::default()),
    };
    let source = joined(&sec.content);
    let events = markdown(source.as_str());
    let fragment = render_markup(&events);
    let mut out = String::from_str("<div style=\"");
    out.append(boxed.css(dir).as_str());
    out.append("\"><div style=\"");
    out.append(text.css(dir).as_str());
    out.append("\">");
    out.append(fragment.as_str());
    out.append("</div></div>");
    out
}

proof fn lemma_items_html_push(items: Seq<Item>, i: int, dir: ParentDirection)
    requires
        0 <= i < items.len(),
    ensures
        items_html(item_list_view(items.subrange(0, i + 1)), dir) == items_html(
            item_list_view(items.subrange(0, i)),
            dir,
        ) + item_html(items[i]@, dir),
{
    assert(items.subrange(0, i + 1) =~= items.subrange(0, i).push(items[i]));
    lemma_item_list_push(items.subrange(0, i), items[i]);
    let v = item_list_view(items.subrange(0, i));
    assert(v.push(items[i]@).drop_last() =~= v);
}

/// Writes the items of a container one after the other.
fn items_html_of(items: &Vec<Item>, dir: ParentDirection) -> (r: String)
    ensures
        r@ == items_html(item_list_view(items@), dir),
    decreases items, 0int,
{
    let mut out = String::new();
    let mut i: usize = 0;
    assert(items@.subrange(0, 0) =~= Seq::<Item>::empty());
    while i < items.len()
        invariant
            i <= items.len(),
            out@ == items_html(item_list_view(items@.subrange(0, i as int)), dir),
        decreases items.len() - i,
    {
        proof {
            lemma_items_html_push(items@, i as int, dir);
        }
        out.append(item_html_of(&items[i], dir).as_str());
        i += 1;
    }
    assert(items@.subrange(0, items.len() as int) =~= items@);
    out
}

/// Writes an item inside a container laid out in `dir`.
pub fn item_html_of(item: &Item, dir: ParentDirection) -> (r: String)
    ensures
        r@ == item_html(item@, dir),
    decreases item, 1int,
{
    match item {
        Item::Vertical { items, style } => {
            let mut out = String::from_str("<div style=\"");
            let css = match style {
                Some(s) => s.css(ParentDirection::Vertical),
                None => SectionStyle::default().css(ParentDirection::Vertical),
            };
            out.append(css.as_str());
            out.append("align-items:stretch;display:flex;flex-direction:column;\">");
            out.append(items_html_of(items, ParentDirection::Vertical).as_str());
            out.append("</div>");
            out
        },
        Item::Horizontal { items, style } => {
            let mut out = String::from_str("<div style=\"");
            let css = match style {
                Some(s) => s.css(ParentDirection::Horizontal),
                None => SectionStyle::default().css(ParentDirection::Horizontal),
            };
            out.append(css.as_str());
            out.append("align-items:stretch;display:flex;flex-direction:row;\">");
            out.append(items_html_of(items, ParentDirection::Horizontal).as_str());
            out.append("</div>");
            out
        },
        Item::Section(s) => section_html_of(s, dir),
    }
}

fn page_style_css_of(st: &Option<PageStyle>) -> (r: String)
    ensures
        r@ == page_style_css(page_style_or_default(crate::model::view_opt(*st))),
{
    match st {
        Some(s) => s.css(),
        None => PageStyle::default().css(),
    }
}

pub fn page_html_of(page: &Page, dir: ParentDirection) -> (r: String)
    ensures
        r@ == page_html(page@, dir),
{
    let mut out = String::from_str("<div class=\"page\" style=\"");
    out.append(page_style_css_of(&page.style).as_str());
    out.append("\">");
    out.append(items_html_of(&page.items, dir).as_str());
    out.append("</div>");
    out
}

pub fn metadata_html_of(m: &Metadata) -> (r: String)
    ensures
        r@ == metadata_html(m@),
{
    let mut out = String::from_str("<title>");
    out.append(m.title.as_str());
    out.append("</title><style>.page{display:flex;");
    out.append(page_style_css_of(&m.page_style).as_str());
    out.append("}</style>");
    out
}

pub fn document_html_of(doc: &Document, dir: ParentDirection) -> (r: String)
    ensures
        r@ == document_html(doc@, dir),
{
    let mut out = String::from_str("<!DOCTYPE html><html><head>");
    out.append(metadata_html_of(&doc.metadata).as_str());
    out.append("</head><body style=\"margin:0;padding:0\">");
    let ghost pv = doc@.pages;
    let mut i: usize = 0;
    assert(pv.subrange(0, 0) =~= Seq::<PageV>::empty());
    let ghost head = out@;
    while i < doc.pages.len()
        invariant
            pv == doc@.pages,
            pv.len() == doc.pages.len(),
            i <= doc.pages.len(),
            out@ == head + pages_html(pv.subrange(0, i as int), dir),
        decreases doc.pages.len() - i,
    {
        let ghost before = out@;
        out.append(page_html_of(&doc.pages[i], dir).as_str());
        assert(pv.subrange(0, i + 1).drop_last() =~= pv.subrange(0, i as int));
        assert(out@ =~= head + pages_html(pv.subrange(0, i + 1), dir));
        i += 1;
    }
    assert(pv.subrange(0, doc.pages.len() as int) =~= pv);
    out.append("</body></html>");
    out
}

impl IntoHtml for Size {
    open spec fn html(&self, parent_direction: ParentDirection) -> Seq<char> {
        size_text(self@)
    }

    fn into_html(self, parent_direction: ParentDirection) -> (r: String) {
        self.css()
    }
}

impl IntoHtml for Color {
    open spec fn html(&self, parent_direction: ParentDirection) -> Seq<char> {
        color_text(*self)
    }

    fn into_html(self, parent_direction: ParentDirection) -> (r: String) {
        self.css()
    }
}

impl IntoHtml for Direction {
    open spec fn html(&self, parent_direction: ParentDirection) -> Seq<char> {
        direction_text(*self)
    }

    fn into_html(self, parent_direction: ParentDirection) -> (r: String) {
        String::from_str(self.css())
    }
}

impl IntoHtml for PageSize {
    open spec fn html(&self, parent_direction: ParentDirection) -> Seq<char> {
        page_size_css(self@)
    }

    fn into_html(self, parent_direction: ParentDirection) -> (r: String) {
        self.css()
    }
}

impl IntoHtml for SizedSides {
    /// The declarations under the placeholder property `NAME`, for the caller to replace.
    open spec fn html(&self, parent_direction: ParentDirection) -> Seq<char> {
        sides_css(self@, "NAME"@)
    }

    fn into_html(self, parent_direction: ParentDirection) -> (r: String) {
        self.css("NAME")
    }
}

impl IntoHtml for VTextAlign {
    open spec fn html(&self, parent_direction: ParentDirection) -> Seq<char> {
        vertical_align_text(*self)
    }

    fn into_html(self, parent_direction: ParentDirection) -> (r: String) {
        String::from_str(self.css())
    }
}

impl IntoHtml for HTextAlign {
    open spec fn html(&self, parent_direction: ParentDirection) -> Seq<char> {
        horizontal_align_text(*self)
    }

    fn into_html(self, parent_direction: ParentDirection) -> (r: String) {
        String::from_str(self.css())
    }
}

impl IntoHtml for SectionStyle {
    open spec fn html(&self, parent_direction: ParentDirection) -> Seq<char> {
        section_style_css(self@, parent_direction)
    }

    fn into_html(self, parent_direction: ParentDirection) -> (r: String) {
        self.css(parent_direction)
    }
}

impl IntoHtml for PageStyle {
    open spec fn html(&self, parent_direction: ParentDirection) -> Seq<char> {
        page_style_css(self@)
    }

    fn into_html(self, parent_direction: ParentDirection) -> (r: String) {
        self.css()
    }
}

impl IntoHtml for Section {
    open spec fn html(&self, parent_direction: ParentDirection) -> Seq<char> {
        section_html(self@, parent_direction)
    }

    fn into_html(self, parent_direction: ParentDirection) -> (r: String) {
        section_html_of(&self, parent_direction)
    }
}

impl IntoHtml for Item {
    open spec fn html(&self, parent_direction: ParentDirection) -> Seq<char> {
        item_html(self@, parent_direction)
    }

    fn into_html(self, parent_direction: ParentDirection) -> (r: String) {
        item_html_of(&self, parent_direction)
    }
}

impl IntoHtml for Page {
    open spec fn html(&self, parent_direction: ParentDirection) -> Seq<char> {
        page_html(self@, parent_direction)
    }

    fn into_html(self, parent_direction: ParentDirection) -> (r: String) {
        page_html_of(&self, parent_direction)
    }
}

impl IntoHtml for Metadata {
    open spec fn html(&self, parent_direction: ParentDirection) -> Seq<char> {
        metadata_html(self@)
    }

    fn into_html(self, parent_direction: ParentDirection) -> (r: String) {
        metadata_html_of(&self)
    }
}

impl IntoHtml for Document {
    open spec fn html(&self, parent_direction: ParentDirection) -> Seq<char> {
        document_html(self@, parent_direction)
    }

    fn into_html(self, parent_direction: ParentDirection) -> (r: String) {
        document_html_of(&self, parent_direction)
    }
}

/// Rendering depends on the document tree alone: two documents with the same view render to
/// the same HTML, with no counter or other state carried from one rendering to the next.
pub proof fn lemma_render_deterministic(a: &Document, b: &Document, dir: ParentDirection)
    requires
        a@ == b@,
    ensures
        a.html(dir) == b.html(dir),
{
}

} // verus!

