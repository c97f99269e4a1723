use pagemark::{
    parse_document, Color, Direction, ErrorKind, Field, HTextAlign, Item, PageSize, Parser, Size,
    SizedSides, VTextAlign,
};

fn color(src: &str) -> Result<Color, pagemark::ParseError> {
    Parser::new(src).color()
}

#[test]
fn three_digit_color_doubles_each_digit() {
    let c = color("#abc").unwrap();
    assert_eq!((c.r, c.g, c.b, c.a), (0xAA, 0xBB, 0xCC, None));
    let c = color("#A0f").unwrap();
    assert_eq!((c.r, c.g, c.b, c.a), (0xAA, 0x00, 0xFF, None));
}

#[test]
fn four_digit_color_has_alpha() {
    let c = color("#abcd").unwrap();
    assert_eq!((c.r, c.g, c.b, c.a), (0xAA, 0xBB, 0xCC, Some(0xDD)));
}

#[test]
fn six_and_eight_digit_colors_read_byte_pairs() {
    let c = color("#336699").unwrap();
    assert_eq!((c.r, c.g, c.b, c.a), (0x33, 0x66, 0x99, None));
    let c = color("#33669980 ").unwrap();
    assert_eq!((c.r, c.g, c.b, c.a), (0x33, 0x66, 0x99, Some(0x80)));
}

#[test]
fn other_hex_lengths_are_invalid() {
    for src in ["#", "#a", "#ab", "#abcde", "#abcdefa", "#abcdef012"] {
        let e = color(src).unwrap_err();
        assert_eq!(e.kind, ErrorKind::InvalidColorLength, "{}", src);
        assert_eq!(e.position, src.len());
    }
}

#[test]
fn color_needs_a_hash() {
    let e = color("abc").unwrap_err();
    assert_eq!(e.kind, ErrorKind::ExpectedColor);
    assert!(!e.important);
    assert_eq!(color("").unwrap_err().kind, ErrorKind::UnexpectedEof);
}

#[test]
fn numbers_and_sizes() {
    let mut p = Parser::new("007.50in");
    match p.size().unwrap() {
        Size::Inches(n) => {
            assert_eq!(n.whole, "007");
            assert_eq!(n.fraction, "50");
            assert_eq!(pagemark::number_css(&n), "7.5");
        }
        _ => panic!("expected inches"),
    }
    assert_eq!(p.position(), 8);
    let e = Parser::new(".px").number().unwrap_err();
    assert_eq!(e.kind, ErrorKind::NumberParseError);
    assert!(e.important);
    let e = Parser::new("4em").size().unwrap_err();
    assert_eq!((e.kind, e.position, e.important), (ErrorKind::ExpectedSize, 1, true));
    let e = Parser::new("x").number().unwrap_err();
    assert_eq!((e.kind, e.important), (ErrorKind::ExpectedNumber, false));
    assert!(matches!(Parser::new("12pt").size().unwrap(), Size::Points(_)));
    assert!(matches!(Parser::new("3px").size().unwrap(), Size::Pixels(_)));
    assert!(matches!(Parser::new("50%").size().unwrap(), Size::Percent(_)));
}

#[test]
fn number_shortest_form() {
    for (src, want) in [("8.", "8"), (".5", "0.5"), ("0.0", "0"), ("100", "100"), ("8.50", "8.5")] {
        let n = Parser::new(&format!("{} ", src)).number().unwrap();
        assert_eq!(pagemark::number_css(&n), want);
    }
}

#[test]
fn keywords() {
    assert_eq!(Parser::new("Up").direction().unwrap(), Direction::Up);
    assert_eq!(Parser::new("Center").vertical_text_align().unwrap(), VTextAlign::Center);
    assert_eq!(Parser::new("Right").horizontal_text_align().unwrap(), HTextAlign::Right);
    let e = Parser::new("Middle").vertical_text_align().unwrap_err();
    assert_eq!((e.kind, e.important), (ErrorKind::ExpectedTextAlign, true));
    let e = Parser::new("Sideways").direction().unwrap_err();
    assert_eq!((e.kind, e.important), (ErrorKind::ExpectedDirection, false));
}

#[test]
fn whole_margin_then_side_fails() {
    let e = Parser::new("style {\n  margin: 4px\n  margin_left: 2px\n}").section_style().unwrap_err();
    assert_eq!(e.kind, ErrorKind::AlreadyDefined(Field::Margin));
    assert!(e.important);
}

#[test]
fn side_then_whole_margin_fails() {
    let e = Parser::new("style {\n  margin_left: 2px\n  margin: 4px\n}").section_style().unwrap_err();
    assert_eq!(e.kind, ErrorKind::AlreadyDefined(Field::MarginSides));
}

#[test]
fn same_side_twice_fails() {
    let e = Parser::new("style {\n  margin_top: 1px\n  margin_top: 2px\n}").section_style().unwrap_err();
    assert_eq!(e.kind, ErrorKind::AlreadyDefined(Field::MarginTop));
}

#[test]
fn two_sides_succeed() {
    let st = Parser::new("style {\n  margin_top: 1px\n  margin_bottom: 2px\n}").section_style().unwrap();
    let m = st.margin.unwrap();
    assert!(m.is_individual());
    assert!(m.is_top_defined() && m.is_bottom_defined());
    assert!(!m.is_left_defined() && !m.is_right_defined());
    assert_eq!(m.css("margin"), "margin-top:1px;margin-bottom:2px;");
}

#[test]
fn duplicate_style_field_fails() {
    let src = "style {\n  width: 1in\n  width: 2in\n}";
    let e = Parser::new(src).section_style().unwrap_err();
    assert_eq!(e.kind, ErrorKind::AlreadyDefined(Field::Width));
    assert_eq!(e.position, src.rfind("2in").unwrap());
}

#[test]
fn style_field_errors() {
    let e = Parser::new("style {\n  width 1in\n}").section_style().unwrap_err();
    assert_eq!(e.kind, ErrorKind::ExpectedColon);
    let e = Parser::new("style {\n  colour: #fff\n}").section_style().unwrap_err();
    assert_eq!((e.kind, e.important), (ErrorKind::ExpectedSectionStyle, true));
    let e = Parser::new("style {\n  text_color: #ff\n}").section_style().unwrap_err();
    assert_eq!((e.kind, e.important), (ErrorKind::InvalidColorLength, true));
    let e = Parser::new("style {\n  align: Nowhere\n}").section_style().unwrap_err();
    assert_eq!((e.kind, e.important), (ErrorKind::ExpectedDirection, true));
    let e = Parser::new("style x").section_style().unwrap_err();
    assert_eq!(e.kind, ErrorKind::ExpectedSectionStyleBlockStart);
    let e = Parser::new("other").section_style().unwrap_err();
    assert_eq!((e.kind, e.important), (ErrorKind::ExpectedSectionStyle, false));
    let e = Parser::new("style {\n  width: 1in\n").section_style().unwrap_err();
    assert_eq!(e.kind, ErrorKind::UnexpectedEof);
}

#[test]
fn full_section_style() {
    let src = "style {\n  width: 50%\n  height: 2in\n  align: Left\n  font: Times New Roman\n  font_size: 12pt\n  text_color: #000\n  background_color: #ffffff80\n  vertical_text_align: Bottom\n  horizontal_text_align: Left\n}";
    let st = Parser::new(src).section_style().unwrap();
    assert_eq!(st.font.as_deref(), Some("Times New Roman"));
    assert_eq!(st.align, Some(Direction::Left));
    assert_eq!(st.background_color, Some(Color { r: 255, g: 255, b: 255, a: Some(0x80) }));
    assert_eq!(
        st.css(pagemark::ParentDirection::Vertical),
        "padding:0;margin:0;overflow-wrap:anywhere;flex-grow:0;flex-shrink:0;width:50%;height:2in;float:left;font-family:Times New Roman;font-size:12pt;color:#000000FF;background-color:#FFFFFF80;vertical-align:bottom;text-align:left;"
    );
}

#[test]
fn page_style_fields() {
    let src = "style {\n  page_size: LandscapeLetter\n  text_color: #123\n  margin: 1in\n}";
    let st = Parser::new(src).page_style().unwrap();
    assert!(matches!(st.page_size, Some(PageSize::LandscapeLetter)));
    assert!(matches!(st.margin, Some(SizedSides::All(_))));
    assert_eq!(st.css(), "width:11in;height:8.5in;color:#112233FF;padding:1in;margin:0;");
    let e = Parser::new("style {\n  page_size: Tabloid\n}").page_style().unwrap_err();
    assert_eq!(e.kind, ErrorKind::ExpectedPageSize);
    let e = Parser::new("style {\n  page_size: Webpage\n  page_size: Webpage\n}").page_style().unwrap_err();
    assert_eq!(e.kind, ErrorKind::AlreadyDefined(Field::PageSize));
}

#[test]
fn custom_page_size() {
    let p = Parser::new("{ width: 4in height: 6in }").page_size().unwrap();
    assert!(matches!(p, PageSize::Custom { .. }));
    assert_eq!(p.css(), "width:4in;height:6in;");
    let e = Parser::new("{ height: 6in }").page_size().unwrap_err();
    assert_eq!((e.kind, e.position), (ErrorKind::ExpectedPageSizeWidth, 14));
    let e = Parser::new("{ width: 6in }").page_size().unwrap_err();
    assert_eq!(e.kind, ErrorKind::ExpectedPageSizeHeight);
    let e = Parser::new("{ width: 1in width: 2in }").page_size().unwrap_err();
    assert_eq!(e.kind, ErrorKind::AlreadyDefined(Field::PageSizeWidth));
}

const HELLO: &str = "metadata {\n  title: Hi\n}\npage {\n  section {\n    content {\n      Hello\n    }\n  }\n}\n";

#[test]
fn end_to_end_parse() {
    let doc = parse_document(HELLO).unwrap();
    assert_eq!(doc.metadata.title, "Hi");
    assert_eq!(doc.pages.len(), 1);
    assert_eq!(doc.pages[0].items.len(), 1);
    match &doc.pages[0].items[0] {
        Item::Section(s) => {
            assert_eq!(s.content, vec!["Hello".to_string()]);
            assert!(s.style.is_none());
        }
        _ => panic!("expected a section"),
    }
}

#[test]
fn missing_title_fails_at_closing_brace() {
    let e = parse_document("metadata { }").unwrap_err();
    assert_eq!(e.kind, ErrorKind::ExpectedMetadataTitle);
    assert_eq!(e.position, 11);
    assert!(e.important);
}

#[test]
fn tab_line_ends_space_fenced_content() {
    let src = "metadata {\n  title: T\n}\npage {\n  section {\n    content {\n  first\n\tsecond\n    }\n  }\n}\n";
    let e = parse_document(src).unwrap_err();
    assert_eq!(e.kind, ErrorKind::ExpectedSectionContentBlockEnd);
    assert_eq!(e.position, src.find('\t').unwrap());
}

#[test]
fn fence_is_stripped_from_every_line() {
    let src = "metadata {\n  title: T\n}\npage {\n  section {\n    content {\n      one\n        two\n      three\n    }\n  }\n}\n";
    let doc = parse_document(src).unwrap();
    match &doc.pages[0].items[0] {
        Item::Section(s) => assert_eq!(s.content, vec!["one", "  two", "three"]),
        _ => panic!("expected a section"),
    }
}

#[test]
fn nested_containers_and_styles() {
    let src = "metadata {\n  title: Doc\n  style {\n    page_size: Webpage\n  }\n}\npage {\n  style {\n    background_color: #eee\n  }\n  horizontal {\n    style {\n      height: 3in\n    }\n    vertical {\n      section {\n        content {\n          a\n        }\n      }\n    }\n    section {\n      style {\n        width: 1in\n      }\n      content {\n        b\n      }\n    }\n  }\n}\npage {\n  section {\n    content {\n      c\n    }\n  }\n}\n";
    let doc = parse_document(src).unwrap();
    assert_eq!(doc.pages.len(), 2);
    assert!(doc.metadata.page_style.is_some());
    assert!(doc.pages[0].style.is_some());
    match &doc.pages[0].items[0] {
        Item::Horizontal { items, style } => {
            assert_eq!(items.len(), 2);
            assert!(style.is_some());
            assert!(matches!(items[0], Item::Vertical { .. }));
            assert!(matches!(items[1], Item::Section(_)));
        }
        _ => panic!("expected a row"),
    }
}

#[test]
fn document_errors() {
    let base = "metadata {\n  title: T\n}\n";
    let e = parse_document(&format!("{}page {{\n  bogus {{\n  }}\n}}\n", base)).unwrap_err();
    assert_eq!((e.kind, e.important), (ErrorKind::ExpectedPage, true));
    assert_eq!(e.position, base.len() + 9);
    let e = parse_document(&format!("{}page {{\n  section {{\n  }}\n}}\n", base)).unwrap_err();
    assert_eq!(e.kind, ErrorKind::ExpectedSectionContent);
    let e = parse_document(&format!("{}page {{\n  section {{\n    content {{\n      x\n    }}\n    content {{\n      y\n    }}\n  }}\n}}\n", base)).unwrap_err();
    assert_eq!(e.kind, ErrorKind::AlreadyDefined(Field::SectionContent));
    let e = parse_document(&format!("{}page {{\n  style {{\n  }}\n  style {{\n  }}\n}}\n", base)).unwrap_err();
    assert_eq!(e.kind, ErrorKind::AlreadyDefined(Field::PageStyle));
    let e = parse_document(&format!("{}pages {{\n}}\n", base)).unwrap_err();
    assert_eq!((e.kind, e.important), (ErrorKind::ExpectedPageBlockStart, true));
    let e = parse_document(&format!("{}book {{\n}}\n", base)).unwrap_err();
    assert_eq!((e.kind, e.important), (ErrorKind::ExpectedPage, true));
    let e = parse_document("title {\n}").unwrap_err();
    assert_eq!((e.kind, e.important), (ErrorKind::ExpectedMetadata, true));
    let e = parse_document("metadata {\n  title: A\n  title: B\n}").unwrap_err();
    assert_eq!(e.kind, ErrorKind::AlreadyDefined(Field::MetadataTitle));
    let e = parse_document(&format!("{}page {{\n  vertical x\n}}\n", base)).unwrap_err();
    assert_eq!(e.kind, ErrorKind::ExpectedItemBlockStart);
    let e = parse_document(&format!("{}page {{\n  section {{\n    content x\n  }}\n}}\n", base)).unwrap_err();
    assert_eq!(e.kind, ErrorKind::ExpectedSectionContentBlockStart);
}

#[test]
fn item_absent_is_soft() {
    let e = Parser::new("nothing").item().unwrap_err();
    assert_eq!((e.kind, e.position, e.important), (ErrorKind::ExpectedItem, 0, false));
}

#[test]
fn error_messages() {
    assert_eq!(ErrorKind::ExpectedMetadataTitle.message(), "Expected title");
    assert_eq!(ErrorKind::AlreadyDefined(Field::MarginTop).message(), "Style/margin_top is already defined");
    assert_eq!(ErrorKind::NumberParseError.message(), "Error parsing number: invalid float literal");
}
