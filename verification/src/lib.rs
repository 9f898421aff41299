//! Text context for a chat assistant embedded in a page: a fixed-shape record
//! built from the page text and an optional screenshot, and an HTML sanitizer.

pub mod bytes;
pub mod context;
pub mod encoding;
pub mod sanitize;
pub mod screenshot;
pub mod summary;

pub use context::{ChatContext, ProcessedContext};
pub use sanitize::sanitize_html;
