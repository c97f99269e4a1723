use pagemark::{
    document_html_of, parse_document, render_markup, Color, IntoHtml, Markup, MarkupTag,
    ParentDirection, Parser, SectionStyle, VTextAlign,
};

fn centered() -> SectionStyle {
    let mut st = Parser::new("style {\n}").section_style().unwrap();
    st.vertical_text_align = Some(VTextAlign::Center);
    st
}

#[test]
fn vertical_center_in_row_uses_align_items() {
    let css = centered().css(ParentDirection::Horizontal);
    assert!(css.contains("align-items:center;display:flex;"), "{}", css);
}

#[test]
fn vertical_center_in_column_uses_justify_content() {
    let css = centered().css(ParentDirection::Vertical);
    assert!(css.contains("justify-content:center;display:flex;"), "{}", css);
    assert_eq!(
        css,
        "padding:0;margin:0;overflow-wrap:anywhere;flex-grow:1;flex-shrink:1;justify-content:center;display:flex;"
    );
}

#[test]
fn horizontal_center_swaps_axes() {
    let st = Parser::new("style {\n  horizontal_text_align: Center\n}").section_style().unwrap();
    assert!(st.css(ParentDirection::Horizontal).ends_with("justify-content:center;display:flex;"));
    assert!(st.css(ParentDirection::Vertical).ends_with("align-items:center;display:flex;"));
}

#[test]
fn color_css_is_opaque_without_alpha() {
    let c = Color { r: 0x33, g: 0x66, b: 0x99, a: None };
    assert_eq!(c.into_html(ParentDirection::Neither), "#336699FF");
    let c = Color { r: 1, g: 2, b: 3, a: Some(4) };
    assert_eq!(c.css(), "#01020304");
}

const HELLO: &str = "metadata {\n  title: Hi\n}\npage {\n  section {\n    content {\n      Hello\n    }\n  }\n}\n";

#[test]
fn end_to_end_render() {
    let doc = parse_document(HELLO).unwrap();
    let html = doc.into_html(ParentDirection::Neither);
    assert!(html.starts_with("<!DOCTYPE html><html><head><title>Hi</title><style>.page{display:flex;width:8.5in;height:11in;margin:0;}</style></head><body style=\"margin:0;padding:0\">"));
    assert!(html.contains("<div class=\"page\" style=\"width:8.5in;height:11in;margin:0;\"><div style=\""));
    assert!(html.ends_with("\"><p>Hello</p></div></div></div></body></html>"), "{}", html);
    assert_eq!(html.matches("<div").count(), 3);
}

#[test]
fn rendering_twice_gives_the_same_html() {
    let doc = parse_document(HELLO).unwrap();
    let a = document_html_of(&doc, ParentDirection::Neither);
    let b = document_html_of(&doc, ParentDirection::Neither);
    assert_eq!(a, b);
}

#[test]
fn section_style_is_split_between_box_and_text() {
    let src = "metadata {\n  title: S\n}\npage {\n  section {\n    style {\n      width: 2in\n      font_size: 10pt\n      background_color: #000\n    }\n    content {\n      x\n    }\n  }\n}\n";
    let html = parse_document(src).unwrap().into_html(ParentDirection::Neither);
    let outer = "<div style=\"padding:0;margin:0;overflow-wrap:anywhere;flex-grow:0;flex-shrink:0;width:2in;background-color:#000000FF;\">";
    let inner = "<div style=\"padding:0;margin:0;overflow-wrap:anywhere;flex-grow:1;flex-shrink:1;font-size:10pt;\">";
    assert!(html.contains(&format!("{}{}<p>x</p></div></div>", outer, inner)), "{}", html);
}

#[test]
fn containers_pass_direction_to_children() {
    let src = "metadata {\n  title: R\n}\npage {\n  horizontal {\n    section {\n      style {\n        vertical_text_align: Center\n      }\n      content {\n        x\n      }\n    }\n  }\n}\n";
    let html = parse_document(src).unwrap().into_html(ParentDirection::Neither);
    assert!(html.contains("<div style=\"padding:0;margin:0;overflow-wrap:anywhere;flex-grow:1;flex-shrink:1;align-items:stretch;display:flex;flex-direction:row;\">"), "{}", html);
    assert!(html.contains("align-items:center;display:flex;"), "{}", html);
}

#[test]
fn markdown_is_rendered_through_the_markup_parser() {
    let src = "metadata {\n  title: M\n}\npage {\n  section {\n    content {\n      # Head\n      Some **bold** and ~~gone~~ `code`\n    }\n  }\n}\n";
    let html = parse_document(src).unwrap().into_html(ParentDirection::Neither);
    assert!(html.contains("<h1>Head</h1><p>Some <strong>bold</strong> and <strike>gone</strike> <span style=\"font-family:monospace\">code</span></p>"), "{}", html);
}

#[test]
fn markup_events_render_exactly() {
    let events = vec![
        Markup::Start(MarkupTag::List(Some(3))),
        Markup::Start(MarkupTag::Item),
        Markup::Text("a".to_string()),
        Markup::End(MarkupTag::Item),
        Markup::End(MarkupTag::List(Some(3))),
        Markup::Start(MarkupTag::CodeBlock),
        Markup::Text("let x;".to_string()),
        Markup::End(MarkupTag::CodeBlock),
        Markup::Start(MarkupTag::Link { inline: false, dest: "d".to_string(), title: "t".to_string() }),
        Markup::Text("ref".to_string()),
        Markup::End(MarkupTag::Link { inline: false, dest: "d".to_string(), title: "t".to_string() }),
        Markup::Start(MarkupTag::Image { inline: true, dest: "i.png".to_string(), title: "".to_string() }),
        Markup::FootnoteReference("n".to_string()),
        Markup::SoftBreak,
        Markup::HardBreak,
        Markup::Rule,
        Markup::Start(MarkupTag::Heading(2)),
        Markup::End(MarkupTag::Heading(2)),
    ];
    assert_eq!(
        render_markup(&events),
        "<ol start=\"3\"><li>a</li></ol><pre style=\"white-space:break-spaces\">let x;</pre>ref</a><img src=\"i.png\" title=\"\"><a href=\"#n\"><sup>n</sup></a>\n<br><hr><h2></h2>"
    );
}

#[test]
fn page_style_margin_becomes_padding() {
    let src = "metadata {\n  title: P\n}\npage {\n  style {\n    margin_left: 1in\n  }\n  section {\n    content {\n      x\n    }\n  }\n}\n";
    let html = parse_document(src).unwrap().into_html(ParentDirection::Neither);
    assert!(html.contains("<div class=\"page\" style=\"padding-left:1in;margin:0;\">"), "{}", html);
}
