//! Compiles the SPDX license list and exception list into the sorted tables of
//! an identifiers file.
//!
//! An upstream document is read field by field (`document`), each license is
//! classified (`classify`) and filed, with the records that upstream lacks
//! (`license`), each exception is filed (`exception`), and both tables are
//! sorted by identifier (`order`) and written out (`render`).

pub mod classify;
pub mod document;
pub mod error;
pub mod exception;
pub mod flags;
pub mod json;
pub mod license;
pub mod listing;
pub mod options;
pub mod order;
pub mod render;
pub mod text;
