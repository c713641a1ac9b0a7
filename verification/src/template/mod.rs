//! Pieces of the page template: header navigation and `<meta>` handling.
pub mod nav;
pub mod meta;
pub mod page;
