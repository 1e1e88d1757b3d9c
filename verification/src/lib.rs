//! A replayable cursor over a forward-only source of items for parsers that
//! backtrack. A [`Stream`] pulls items, each with its location, from a
//! [`Producer`] when they are first asked for and keeps them, so that the
//! read position can be put back to any earlier place at no cost.

pub mod cursor;
pub mod laws;
pub mod producer;
pub mod slices;
pub mod span;
pub mod stream;
pub mod text;

pub use cursor::Cursor;
pub use producer::Producer;
pub use slices::Items;
pub use slices::Spanned;
pub use span::Span;
pub use stream::PResult;
pub use stream::Stream;
pub use text::Text;
