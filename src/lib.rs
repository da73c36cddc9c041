//! Pipeline state objects that rebuild themselves when their shader files change.
//!
//! A watching cell holds the last pipeline that built successfully. On each access it
//! looks at the change events drained since the previous one; when one of them creates
//! or modifies a watched shader file it rebuilds once, from every watched file, and
//! keeps the new pipeline only if the build succeeds. A simple cell builds once, from
//! sources held in memory, and never changes. Both offer the same access through
//! `PsoCell`.
//!
//! - `builder`: the two builders and what they hand to the build step.
//! - `cache`: the rebuild cache of a watching cell and the laws of its accesses.
//! - `cell`: the `PsoCell` access interface and the simple cell.
//! - `config`: the build configuration.
//! - `error`: why a cell could not be built.
//! - `event`: change events and which of them invalidate a pipeline.
//! - `resource`: the directories to watch for a set of shader files.
pub mod builder;
pub mod cache;
pub mod cell;
pub mod config;
pub mod error;
pub mod event;
pub mod resource;

pub use crate::builder::{SimplePsoCellBuilder, WatcherPsoCellBuilder};
pub use crate::cache::{ArtifactCache, Refresh};
pub use crate::cell::{PsoCell, SimplePsoCell};
pub use crate::error::PsoCellError;
