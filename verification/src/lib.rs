//! A colorful CSV viewer library: a verified scrolling pager over
//! pre-rendered table lines, together with the color-scheme and
//! cell-type rules that decide how each cell is painted.

pub mod config;
pub mod infer;
pub mod pager;
pub mod text;
