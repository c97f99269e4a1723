//! Parse errors: what was expected, where, and whether the failure is final.
use vstd::prelude::*;

verus! {

/// A field of a block, named by an `AlreadyDefined` error.
#[derive(Debug, Clone, Copy, PartialEq, Eq, Structural)]
pub enum Field {
    PageSizeWidth,
    PageSizeHeight,
    SectionStyle,
    SectionContent,
    ItemStyle,
    MetadataTitle,
    MetadataStyle,
    PageStyle,
    Width,
    Height,
    VerticalTextAlign,
    HorizontalTextAlign,
    Align,
    Font,
    FontSize,
    TextColor,
    BackgroundColor,
    PageSize,
    Margin,
    MarginSides,
    MarginLeft,
    MarginRight,
    MarginTop,
    MarginBottom,
}

#[derive(Debug, Clone, Copy, PartialEq, Eq, Structural)]
pub enum ErrorKind {
    UnexpectedEof,
    ExpectedNumber,
    ExpectedName,
    ExpectedSize,
    ExpectedColor,
    ExpectedPageSize,
    ExpectedDirection,
    ExpectedPageSizeWidth,
    ExpectedPageSizeHeight,
    ExpectedSectionStyle,
    ExpectedColon,
    ExpectedPageStyle,
    ExpectedPageStyleBlockStart,
    ExpectedMetadata,
    ExpectedMetadataBlockStart,
    ExpectedMetadataTitle,
    ExpectedSectionContent,
    ExpectedSectionContentBlockStart,
    ExpectedSectionContentBlockEnd,
    ExpectedPage,
    ExpectedPageBlockStart,
    ExpectedSection,
    ExpectedSectionBlockStart,
    ExpectedSectionStyleBlockStart,
    ExpectedItem,
    ExpectedItemBlockStart,
    ExpectedTextAlign,
    InvalidColorLength,
    AlreadyDefined(Field),
    /// A decimal point with no digit on either side.
    NumberParseError,
}

/// A failure at a character position of the source. An `important` failure is final; any
/// other only says that the production tried did not start there.
#[derive(Debug, Clone, Copy, PartialEq, Eq, Structural)]
pub struct ParseError {
    pub kind: ErrorKind,
    pub position: usize,
    pub important: bool,
}

impl ParseError {
    /// The same failure, made final.
    pub open spec fn hardened(self) -> ParseError {
        ParseError { important: true, ..self }
    }
}

pub open spec fn field_label(f: Field) -> Seq<char> {
    match f {
        Field::PageSizeWidth => "Custom page size width"@,
        Field::PageSizeHeight => "Custom page size height"@,
        Field::SectionStyle => "Section/style"@,
        Field::SectionContent => "Section/content"@,
        Field::ItemStyle => "Item/style"@,
        Field::MetadataTitle => "Metadata/title"@,
        Field::MetadataStyle => "Metadata/style"@,
        Field::PageStyle => "Page/style"@,
        Field::Width => "Style/width"@,
        Field::Height => "Style/height"@,
        Field::VerticalTextAlign => "Style/vertical text align"@,
        Field::HorizontalTextAlign => "Style/horizontal text align"@,
        Field::Align => "Style/align"@,
        Field::Font => "Style/font"@,
        Field::FontSize => "Style/font size"@,
        Field::TextColor => "Style/text color"@,
        Field::BackgroundColor => "Style/background color"@,
        Field::PageSize => "Page style/page size"@,
        Field::Margin => "Style/margin"@,
        Field::MarginSides => "Style/margin-*"@,
        Field::MarginLeft => "Style/margin_left"@,
        Field::MarginRight => "Style/margin_right"@,
        Field::MarginTop => "Style/margin_top"@,
        Field::MarginBottom => "Style/margin_bottom"@,
    }
}

impl Field {
    /// The name under which the field is reported.
    pub fn label(&self) -> (r: &'static str)
        ensures
            r@ == field_label(*self),
    {
        match self {
            Field::PageSizeWidth => "Custom page size width",
            Field::PageSizeHeight => "Custom page size height",
            Field::SectionStyle => "Section/style",
            Field::SectionContent => "Section/content",
            Field::ItemStyle => "Item/style",
            Field::MetadataTitle => "Metadata/title",
            Field::MetadataStyle => "Metadata/style",
            Field::PageStyle => "Page/style",
            Field::Width => "Style/width",
            Field::Height => "Style/height",
            Field::VerticalTextAlign => "Style/vertical text align",
            Field::HorizontalTextAlign => "Style/horizontal text align",
            Field::Align => "Style/align",
            Field::Font => "Style/font",
            Field::FontSize => "Style/font size",
            Field::TextColor => "Style/text color",
            Field::BackgroundColor => "Style/background color",
            Field::PageSize => "Page style/page size",
            Field::Margin => "Style/margin",
            Field::MarginSides => "Style/margin-*",
            Field::MarginLeft => "Style/margin_left",
            Field::MarginRight => "Style/margin_right",
            Field::MarginTop => "Style/margin_top",
            Field::MarginBottom => "Style/margin_bottom",
        }
    }
}

pub open spec fn kind_message(k: ErrorKind) -> Seq<char> {
    match k {
        ErrorKind::UnexpectedEof => "Unexpected EOF"@,
        ErrorKind::ExpectedNumber => "Expected number"@,
        ErrorKind::ExpectedName => "Expected name"@,
        ErrorKind::ExpectedSize => "Expected size"@,
        ErrorKind::ExpectedColor => "Expected color in HTML hex format: `#NNN` where there are 3, 4, 6, or 8 `N`s"@,
        ErrorKind::ExpectedPageSize => "Expected page size"@,
        ErrorKind::ExpectedDirection => "Expected direction"@,
        ErrorKind::ExpectedPageSizeWidth => "Expected page style width"@,
        ErrorKind::ExpectedPageSizeHeight => "Expected page style height"@,
        ErrorKind::ExpectedSectionStyle => "Expected section style"@,
        ErrorKind::ExpectedColon => "Expected `:`"@,
        ErrorKind::ExpectedPageStyle => "Expected page style"@,
        ErrorKind::ExpectedPageStyleBlockStart => "Expected page style block start (`{`)"@,
        ErrorKind::ExpectedMetadata => "Expected metadata"@,
        ErrorKind::ExpectedMetadataBlockStart => "Expected metadata block start (`{`)"@,
        ErrorKind::ExpectedMetadataTitle => "Expected title"@,
        ErrorKind::ExpectedSectionContent => "Expected section content"@,
        ErrorKind::ExpectedSectionContentBlockStart => "Expected content block start (`{`)"@,
        ErrorKind::ExpectedSectionContentBlockEnd => "Expected content block end (`}`)"@,
        ErrorKind::ExpectedPage => "Expected page"@,
        ErrorKind::ExpectedPageBlockStart => "Expected page block start (`{`)"@,
        ErrorKind::ExpectedSection => "Expected section"@,
        ErrorKind::ExpectedSectionBlockStart => "Expected section block start (`{`)"@,
        ErrorKind::ExpectedSectionStyleBlockStart => "Expected section style block start (`{`)"@,
        ErrorKind::ExpectedItem => "Expected horizontal, vertical, or section"@,
        ErrorKind::ExpectedItemBlockStart => "Expected horizontal, vertical, or section block start (`{`)"@,
        ErrorKind::ExpectedTextAlign => "Expected text align"@,
        ErrorKind::InvalidColorLength => "Invalid hex code length. Expected 3, 4, 6, or 8 digits."@,
        ErrorKind::AlreadyDefined(f) => field_label(f) + " is already defined"@,
        ErrorKind::NumberParseError => "Error parsing number: invalid float literal"@,
    }
}

impl ErrorKind {
    fn fixed_message(&self) -> (r: &'static str)
        requires
            !(*self is AlreadyDefined),
        ensures
            r@ == kind_message(*self),
    {
        match self {
            ErrorKind::UnexpectedEof => "Unexpected EOF",
            ErrorKind::ExpectedNumber => "Expected number",
            ErrorKind::ExpectedName => "Expected name",
            ErrorKind::ExpectedSize => "Expected size",
            ErrorKind::ExpectedColor => "Expected color in HTML hex format: `#NNN` where there are 3, 4, 6, or 8 `N`s",
            ErrorKind::ExpectedPageSize => "Expected page size",
            ErrorKind::ExpectedDirection => "Expected direction",
            ErrorKind::ExpectedPageSizeWidth => "Expected page style width",
            ErrorKind::ExpectedPageSizeHeight => "Expected page style height",
            ErrorKind::ExpectedSectionStyle => "Expected section style",
            ErrorKind::ExpectedColon => "Expected `:`",
            ErrorKind::ExpectedPageStyle => "Expected page style",
            ErrorKind::ExpectedPageStyleBlockStart => "Expected page style block start (`{`)",
            ErrorKind::ExpectedMetadata => "Expected metadata",
            ErrorKind::ExpectedMetadataBlockStart => "Expected metadata block start (`{`)",
            ErrorKind::ExpectedMetadataTitle => "Expected title",
            ErrorKind::ExpectedSectionContent => "Expected section content",
            ErrorKind::ExpectedSectionContentBlockStart => "Expected content block start (`{`)",
            ErrorKind::ExpectedSectionContentBlockEnd => "Expected content block end (`}`)",
            ErrorKind::ExpectedPage => "Expected page",
            ErrorKind::ExpectedPageBlockStart => "Expected page block start (`{`)",
            ErrorKind::ExpectedSection => "Expected section",
            ErrorKind::ExpectedSectionBlockStart => "Expected section block start (`{`)",
            ErrorKind::ExpectedSectionStyleBlockStart => "Expected section style block start (`{`)",
            ErrorKind::ExpectedItem => "Expected horizontal, vertical, or section",
            ErrorKind::ExpectedItemBlockStart => "Expected horizontal, vertical, or section block start (`{`)",
            ErrorKind::ExpectedTextAlign => "Expected text align",
            ErrorKind::InvalidColorLength => "Invalid hex code length. Expected 3, 4, 6, or 8 digits.",
            ErrorKind::NumberParseError => "Error parsing number: invalid float literal",
            ErrorKind::AlreadyDefined(_) => "",
        }
    }

    /// The message shown to the author for this kind of failure.
    pub fn message(&self) -> (r: String)
        ensures
            r@ == kind_message(*self),
    {
        match self {
            ErrorKind::AlreadyDefined(f) => {
                let mut out = String::from_str(f.label());
                out.append(" is already defined");
                out
            },
            _ => String::from_str(self.fixed_message()),
        }
    }
}

} // verus!
