//! Development-loop automation engine: watches a project tree for changes,
//! rebuilds on change, and projects the captured build output into a
//! width-constrained, scrollable terminal log view.
//!
//! The crate holds the verified core: snapshot-based change detection, the
//! single-build-at-a-time process lifecycle, the append-only log sink, and
//! the grapheme-aware display projection. Process spawning, file-system
//! walking and terminal drawing are driven by a thin unverified shell that
//! calls into this crate.

pub mod ansi;
pub mod buildflow;
pub mod display;
pub mod error;
pub mod input;
pub mod snapshot;
pub mod watcher;
pub mod wrap;
