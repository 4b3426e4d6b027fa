//! The Stress page: the `stress-ng` command line, the handling of its
//! output, the bookkeeping of its process group, and the page's own state.

pub mod config;
pub mod output;
pub mod group;
pub mod page;
