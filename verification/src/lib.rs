//! Choosing build presets from a catalog and driving them through a
//! configure-then-build pipeline, with the previous choice remembered.
//!
//! The library holds every decision of such a run and does no input or
//! output of its own:
//!
//! - [`catalog`] reads the preset catalog out of the text of a catalog file,
//!   and [`preset`] filters it down to the presets that can be chosen;
//! - [`selection`] reads and writes the text of the file that remembers the
//!   previous choice;
//! - [`selector`] seeds the checklist from that choice and turns the
//!   confirmed boxes into the chosen presets, in catalog order;
//! - [`driver`] says which launch of the build tool comes next, and ends the
//!   run at the first launch that fails.
//!
//! The caller reads and writes the files, shows the checklist, and launches
//! the build tool.

pub mod text;
pub mod preset;
pub mod json;
pub mod catalog;
pub mod selection;
pub mod selector;
pub mod driver;
