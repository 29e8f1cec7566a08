//! Layout engine for spreadsheet templates with multi-level merged headers
//! and recursively nested row groups.
//!
//! A flat, ordered list of column declarations linked by parent references
//! is resolved into a grid of header rectangles ([`layout`]); tree-shaped
//! data rows are laid onto contiguous vertical ranges of grid rows, merging
//! cells across the rows consumed by nested content ([`compose`]). On top of
//! the two sit template building ([`template`]), export planning
//! ([`export`]) and the import mapping ([`import`]), with the round trip
//! between the last two stated in [`roundtrip`].

pub mod compose;
pub mod data;
pub mod error;
pub mod export;
pub mod header;
pub mod import;
pub mod info;
pub mod layout;
pub mod roundtrip;
pub mod template;
pub mod xlsx;
