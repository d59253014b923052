//! The data layer of a photo manager: which files of a directory tree are
//! images, what their embedded capture metadata says, where their thumbnails
//! are cached and how large they are, and the catalog of photos, collections
//! and memberships with its uniqueness and referential invariants.
//!
//! Everything here works on plain values. Reading and writing files, walking
//! directories and persisting the catalog are left to the caller, who hands
//! in what was read and writes out what comes back.
//!
//! - [`fs`] picks the image files out of a directory walk.
//! - [`exif`] reads the capture metadata embedded in an image file.
//! - [`image`] names, renders and measures thumbnails and resized copies.
//! - [`db`] is the catalog.
//! - [`path`], [`text`] and [`digest`] hold what the others share: the grammar
//!   of paths, the order of texts, and cache keys.

pub mod db;
pub mod digest;
pub mod exif;
pub mod fs;
pub mod image;
pub mod path;
pub mod text;
