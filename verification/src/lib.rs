//! A terminal reading surface: a scrolling viewport over styled lines, with
//! inline images drawn as overlays by a separate compositor process.

pub mod epub;
pub mod error;
pub mod novels;
pub mod overlay;
pub mod page;
pub mod renderer;
pub mod resource;
pub mod screen;
pub mod search;
pub mod styled;
pub mod text;
pub mod ueberzug;
pub mod viewport;
