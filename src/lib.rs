//! Compiles a small declarative page-layout language into a self-contained HTML document.
//!
//! `parser` reads source text into a [`model::Document`], proved to follow the grammar that
//! `syntax` states; `html` lowers the tree into HTML, with the style rules of `css` and the
//! text markup of `markup`.
pub mod css;
pub mod cursor;
pub mod error;
pub mod html;
pub mod markup;
pub mod model;
pub mod parser;
pub mod syntax;
pub mod text;

pub use css::{number_css, ParentDirection};
pub use cursor::Parser;
pub use error::{ErrorKind, Field, ParseError};
pub use html::{document_html_of, IntoHtml};
pub use markup::{render_markup, Markup, MarkupTag};
pub use model::{
    Color, Direction, Document, HTextAlign, Item, Metadata, Number, Page, PageSize, PageStyle,
    Section, SectionStyle, Side, Size, SizedSides, VTextAlign,
};
pub use parser::parse_document;
