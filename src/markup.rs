//! Text markup inside a section: the events that the markup parser reads from the text, and
//! the HTML fragment that this library writes for them.
use crate::text::{decimal, push_decimal};
use pulldown_cmark::{Event, LinkType, Tag};
use vstd::prelude::*;

verus! {

#[verifier::external_type_specification]
#[verifier::external_body]
pub struct ExEvent<'a>(Event<'a>);

#[verifier::external_type_specification]
#[verifier::external_body]
pub struct ExTag<'a>(Tag<'a>);

/// A tag that opens and closes a span of markup.
#[derive(Debug)]
pub enum MarkupTag {
    Paragraph,
    BlockQuote,
    /// A list, with the number of its first item where it is ordered.
    List(Option<u64>),
    Item,
    /// A heading, with its level (1 to 6).
    Heading(u8),
    CodeBlock,
    Emphasis,
    Strong,
    Strikethrough,
    /// A link; `inline` where it was written as `[text](dest "title")`.
    Link { inline: bool, dest: String, title: String },
    Image { inline: bool, dest: String, title: String },
    FootnoteDefinition(String),
    /// A tag this library writes nothing for (tables).
    Other,
}

pub enum MarkupTagV {
    Paragraph,
    BlockQuote,
    List(Option<u64>),
    Item,
    Heading(u8),
    CodeBlock,
    Emphasis,
    Strong,
    Strikethrough,
    Link { inline: bool, dest: Seq<char>, title: Seq<char> },
    Image { inline: bool, dest: Seq<char>, title: Seq<char> },
    FootnoteDefinition(Seq<char>),
    Other,
}

impl View for MarkupTag {
    type V = MarkupTagV;

    open spec fn view(&self) -> MarkupTagV {
        match self {
            MarkupTag::Paragraph => MarkupTagV::Paragraph,
            MarkupTag::BlockQuote => MarkupTagV::BlockQuote,
            MarkupTag::List(n) => MarkupTagV::List(*n),
            MarkupTag::Item => MarkupTagV::Item,
            MarkupTag::Heading(n) => MarkupTagV::Heading(*n),
            MarkupTag::CodeBlock => MarkupTagV::CodeBlock,
            MarkupTag::Emphasis => MarkupTagV::Emphasis,
            MarkupTag::Strong => MarkupTagV::Strong,
            MarkupTag::Strikethrough => MarkupTagV::Strikethrough,
            MarkupTag::Link { inline, dest, title } => MarkupTagV::Link {
                inline: *inline,
                dest: dest@,
                title: title@,
            },
            MarkupTag::Image { inline, dest, title } => MarkupTagV::Image {
                inline: *inline,
                dest: dest@,
                title: title@,
            },
            MarkupTag::FootnoteDefinition(n) => MarkupTagV::FootnoteDefinition(n@),
            MarkupTag::Other => MarkupTagV::Other,
        }
    }
}

/// One event of the markup parser.
#[derive(Debug)]
pub enum Markup {
    Start(MarkupTag),
    End(MarkupTag),
    Text(String),
    Code(String),
    Html(String),
    FootnoteReference(String),
    SoftBreak,
    HardBreak,
    Rule,
    /// An event this library writes nothing for (task list markers).
    Other,
}

pub enum MarkupV {
    Start(MarkupTagV),
    End(MarkupTagV),
    Text(Seq<char>),
    Code(Seq<char>),
    Html(Seq<char>),
    FootnoteReference(Seq<char>),
    SoftBreak,
    HardBreak,
    Rule,
    Other,
}

impl View for Markup {
    type V = MarkupV;

    open spec fn view(&self) -> MarkupV {
        match self {
            Markup::Start(t) => MarkupV::Start(t@),
            Markup::End(t) => MarkupV::End(t@),
            Markup::Text(s) => MarkupV::Text(s@),
            Markup::Code(s) => MarkupV::Code(s@),
            Markup::Html(s) => MarkupV::Html(s@),
            Markup::FootnoteReference(s) => MarkupV::FootnoteReference(s@),
            Markup::SoftBreak => MarkupV::SoftBreak,
            Markup::HardBreak => MarkupV::HardBreak,
            Markup::Rule => MarkupV::Rule,
            Markup::Other => MarkupV::Other,
        }
    }
}

pub open spec fn markup_views(events: Seq<Markup>) -> Seq<MarkupV> {
    Seq::new(events.len(), |i: int| events[i]@)
}

/// The events that the markup parser reads from a text (CommonMark with strikethrough).
pub uninterp spec fn markdown_of(text: Seq<char>) -> Seq<MarkupV>;

/// Relies on `pulldown_cmark::Parser::new_ext` with `ENABLE_STRIKETHROUGH`: the events it
/// reads from `text`, in order; they depend on the text alone.
#[verifier::external_body]
pub(crate) fn markdown(text: &str) -> (r: Vec<Markup>)
    ensures
        markup_views(r@) == markdown_of(text@),
{
    let options = pulldown_cmark::Options::ENABLE_STRIKETHROUGH;
    pulldown_cmark::Parser::new_ext(text, options).map(markup_of_event).collect()
}

/// Relies on `pulldown_cmark::Event`: one event, converted variant for variant.
#[verifier::external_body]
fn markup_of_event(e: Event<'_>) -> Markup {
    match e {
        Event::Start(t) => Markup::Start(markup_of_tag(t)),
        Event::End(t) => Markup::End(markup_of_tag(t)),
        Event::Text(s) => Markup::Text(s.to_string()),
        Event::Code(s) => Markup::Code(s.to_string()),
        Event::Html(s) => Markup::Html(s.to_string()),
        Event::FootnoteReference(s) => Markup::FootnoteReference(s.to_string()),
        Event::SoftBreak => Markup::SoftBreak,
        Event::HardBreak => Markup::HardBreak,
        Event::Rule => Markup::Rule,
        Event::TaskListMarker(_) => Markup::Other,
    }
}

/// Relies on `pulldown_cmark::Tag`: one tag, converted variant for variant.
#[verifier::external_body]
fn markup_of_tag(t: Tag<'_>) -> MarkupTag {
    match t {
        Tag::Paragraph => MarkupTag::Paragraph,
        Tag::Heading(level, ..) => MarkupTag::Heading(level as u8),
        Tag::BlockQuote => MarkupTag::BlockQuote,
        Tag::CodeBlock(_) => MarkupTag::CodeBlock,
        Tag::List(start) => MarkupTag::List(start),
        Tag::Item => MarkupTag::Item,
        Tag::FootnoteDefinition(n) => MarkupTag::FootnoteDefinition(n.to_string()),
        Tag::Emphasis => MarkupTag::Emphasis,
        Tag::Strong => MarkupTag::Strong,
        Tag::Strikethrough => MarkupTag::Strikethrough,
        Tag::Link(k, d, t) => MarkupTag::Link { inline: k == LinkType::Inline, dest: d.to_string(), title: t.to_string() },
        Tag::Image(k, d, t) => MarkupTag::Image { inline: k == LinkType::Inline, dest: d.to_string(), title: t.to_string() },
        _ => MarkupTag::Other,
    }
}

/// What an opening tag writes. Code blocks write at their end; links and images that were
/// not written inline are left out.
pub open spec fn start_html(t: MarkupTagV) -> Seq<char> {
    match t {
        MarkupTagV::Paragraph => "<p>"@,
        MarkupTagV::BlockQuote => "<blockquote>"@,
        MarkupTagV::List(Some(n)) => "<ol start=\""@ + decimal(n as nat) + "\">"@,
        MarkupTagV::List(None) => "<ul>"@,
        MarkupTagV::Item => "<li>"@,
        MarkupTagV::Heading(n) => "<h"@ + decimal(n as nat) + ">"@,
        MarkupTagV::Emphasis => "<em>"@,
        MarkupTagV::Strong => "<strong>"@,
        MarkupTagV::Strikethrough => "<strike>"@,
        MarkupTagV::Link { inline, dest, title } => if inline {
            "<a href=\""@ + dest + "\" title=\""@ + title + "\">"@
        } else {
            Seq::empty()
        },
        MarkupTagV::Image { inline, dest, title } => if inline {
            "<img src=\""@ + dest + "\" title=\""@ + title + "\">"@
        } else {
            Seq::empty()
        },
        MarkupTagV::FootnoteDefinition(n) => "<span id=\""@ + n + "\">"@,
        _ => Seq::empty(),
    }
}

/// What a closing tag writes (code blocks aside).
pub open spec fn end_html(t: MarkupTagV) -> Seq<char> {
    match t {
        MarkupTagV::Paragraph => "</p>"@,
        MarkupTagV::BlockQuote => "</blockquote>"@,
        MarkupTagV::List(Some(_)) => "</ol>"@,
        MarkupTagV::List(None) => "</ul>"@,
        MarkupTagV::Item => "</li>"@,
        MarkupTagV::Heading(n) => "</h"@ + decimal(n as nat) + ">"@,
        MarkupTagV::Emphasis => "</em>"@,
        MarkupTagV::Strong => "</strong>"@,
        MarkupTagV::Strikethrough => "</strike>"@,
        MarkupTagV::Link { .. } => "</a>"@,
        MarkupTagV::FootnoteDefinition(_) => "</span>"@,
        _ => Seq::empty(),
    }
}

/// The state of rendering: the HTML so far, and the text of the code block being read.
pub struct RenderState {
    pub out: Seq<char>,
    pub code: Option<Seq<char>>,
}

/// The state after one more event.
pub open spec fn render_step(st: RenderState, e: MarkupV) -> RenderState {
    match e {
        MarkupV::Start(MarkupTagV::CodeBlock) => RenderState { code: Some(Seq::empty()), ..st },
        MarkupV::Start(t) => RenderState { out: st.out + start_html(t), ..st },
        MarkupV::End(MarkupTagV::CodeBlock) => RenderState {
            out: st.out + "<pre style=\"white-space:break-spaces\">"@ + match st.code {
                Some(c) => c,
                None => Seq::empty(),
            } + "</pre>"@,
            code: None,
        },
        MarkupV::End(t) => RenderState { out: st.out + end_html(t), ..st },
        MarkupV::Text(t) => match st.code {
            Some(c) => RenderState { code: Some(c + t), ..st },
            None => RenderState { out: st.out + t, ..st },
        },
        MarkupV::Code(c) => RenderState {
            out: st.out + "<span style=\"font-family:monospace\">"@ + c + "</span>"@,
            ..st
        },
        MarkupV::Html(h) => RenderState { out: st.out + h, ..st },
        MarkupV::FootnoteReference(r) => RenderState {
            out: st.out + "<a href=\"#"@ + r + "\"><sup>"@ + r + "</sup></a>"@,
            ..st
        },
        MarkupV::SoftBreak => RenderState { out: st.out + "\n"@, ..st },
        MarkupV::HardBreak => RenderState { out: st.out + "<br>"@, ..st },
        MarkupV::Rule => RenderState { out: st.out + "<hr>"@, ..st },
        MarkupV::Other => st,
    }
}

/// The state after the first `n` events.
pub open spec fn render_prefix(events: Seq<MarkupV>, n: nat) -> RenderState
    decreases n,
{
    if n == 0 || n > events.len() {
        RenderState { out: Seq::empty(), code: None }
    } else {
        render_step(render_prefix(events, (n - 1) as nat), events[n - 1])
    }
}

/// The HTML fragment written for a sequence of markup events.
pub open spec fn markup_html(events: Seq<MarkupV>) -> Seq<char> {
    render_prefix(events, events.len()).out
}

fn push_start(out: &mut String, t: &MarkupTag)
    ensures
        final(out)@ == old(out)@ + start_html(t@),
{
    match t {
        MarkupTag::Paragraph => out.append("<p>"),
        MarkupTag::BlockQuote => out.append("<blockquote>"),
        MarkupTag::List(Some(n)) => {
            out.append("<ol start=\"");
            push_decimal(out, *n);
            out.append("\">");
        },
        MarkupTag::List(None) => out.append("<ul>"),
        MarkupTag::Item => out.append("<li>"),
        MarkupTag::Heading(n) => {
            out.append("<h");
            push_decimal(out, *n as u64);
            out.append(">");
        },
        MarkupTag::Emphasis => out.append("<em>"),
        MarkupTag::Strong => out.append("<strong>"),
        MarkupTag::Strikethrough => out.append("<strike>"),
        MarkupTag::Link { inline, dest, title } => {
            if *inline {
                out.append("<a href=\"");
                out.append(dest.as_str());
                out.append("\" title=\"");
                out.append(title.as_str());
                out.append("\">");
            }
        },
        MarkupTag::Image { inline, dest, title } => {
            if *inline {
                out.append("<img src=\"");
                out.append(dest.as_str());
                out.append("\" title=\"");
                out.append(title.as_str());
                out.append("\">");
            }
        },
        MarkupTag::FootnoteDefinition(n) => {
            out.append("<span id=\"");
            out.append(n.as_str());
            out.append("\">");
        },
        _ => {},
    }
    assert(out@ =~= old(out)@ + start_html(t@));
}

fn push_end(out: &mut String, t: &MarkupTag)
    ensures
        final(out)@ == old(out)@ + end_html(t@),
{
    match t {
        MarkupTag::Paragraph => out.append("</p>"),
        MarkupTag::BlockQuote => out.append("</blockquote>"),
        MarkupTag::List(Some(_)) => out.append("</ol>"),
        MarkupTag::List(None) => out.append("</ul>"),
        MarkupTag::Item => out.append("</li>"),
        MarkupTag::Heading(n) => {
            out.append("</h");
            push_decimal(out, *n as u64);
            out.append(">");
        },
        MarkupTag::Emphasis => out.append("</em>"),
        MarkupTag::Strong => out.append("</strong>"),
        MarkupTag::Strikethrough => out.append("</strike>"),
        MarkupTag::Link { .. } => out.append("</a>"),
        MarkupTag::FootnoteDefinition(_) => out.append("</span>"),
        _ => {},
    }
    assert(out@ =~= old(out)@ + end_html(t@));
}

pub open spec fn code_view(code: Option<String>) -> Option<Seq<char>> {
    match code {
        Some(c) => Some(c@),
        None => None,
    }
}

/// Writes the HTML fragment for a sequence of markup events.
pub fn render_markup(events: &Vec<Markup>) -> (r: String)
    ensures
        r@ == markup_html(markup_views(events@)),
{
    let ghost ev = markup_views(events@);
    let mut out = String::new();
    let mut code: Option<String> = None;
    let mut i: usize = 0;
    while i < events.len()
        invariant
            ev == markup_views(events@),
            i <= events.len(),
            render_prefix(ev, i as nat) == (RenderState { out: out@, code: code_view(code) }),
        decreases events.len() - i,
    {
        let ghost before = RenderState { out: out@, code: code_view(code) };
        match &events[i] {
            Markup::Start(MarkupTag::CodeBlock) => {
                code = Some(String::new());
            },
            Markup::Start(t) => push_start(&mut out, t),
            Markup::End(MarkupTag::CodeBlock) => {
                out.append("<pre style=\"white-space:break-spaces\">");
                match &code {
                    Some(c) => out.append(c.as_str()),
                    None => {},
                }
                out.append("</pre>");
                code = None;
            },
            Markup::End(t) => push_end(&mut out, t),
            Markup::Text(t) => {
                match &mut code {
                    Some(c) => c.append(t.as_str()),
                    None => out.append(t.as_str()),
                }
            },
            Markup::Code(c) => {
                out.append("<span style=\"font-family:monospace\">");
                out.append(c.as_str());
                out.append("</span>");
            },
            Markup::Html(h) => out.append(h.as_str()),
            Markup::FootnoteReference(r) => {
                out.append("<a href=\"#");
                out.append(r.as_str());
                out.append("\"><sup>");
                out.append(r.as_str());
                out.append("</sup></a>");
            },
            Markup::SoftBreak => out.append("\n"),
            Markup::HardBreak => out.append("<br>"),
            Markup::Rule => out.append("<hr>"),
            Markup::Other => {},
        }
        proof {
            let after = render_step(before, ev[i as int]);
            assert(out@ =~= after.out);
            assert(code_view(code) == after.code) by {
                if after.code is Some {
                    assert(code_view(code)->Some_0 =~= after.code->Some_0);
                }
            }
        }
        i += 1;
    }
    out
}

} // verus!
