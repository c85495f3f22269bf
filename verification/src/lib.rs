//! Scraping core for a paginated light-novel site.
//!
//! The library models three levels of content — a catalog of works, the
//! chapter list of one work, and the paragraphs of one chapter — and owns
//! the page-cursor and identifier-discovery state machine that decides
//! which request to issue next and how each response updates the state.
//! Network transport stays outside: callers fetch the bytes that the
//! planned request describes and hand the body back to the `scrape_*`
//! methods here.

pub mod category;
pub mod chapter;
pub mod cursor;
pub mod digits;
pub mod errors;
pub mod extract;
pub mod list;
pub mod work;

pub use category::LightnovelCategory;
pub use chapter::LightnovelChapter;
pub use cursor::PageCursor;
pub use list::LightnovelList;
pub use work::ChapterRequest;
pub use work::Lightnovel;
pub use errors::ChapterError;
pub use errors::LightnovelError;
pub use errors::ListError;
pub use errors::SurfError;
