//! Ingestion of zip-based e-book containers into catalog records.
//!
//! The crate turns the bytes of a container into a `BookRecord` (title,
//! optional author and description, optional cover path) and derives a
//! display-ready cover thumbnail: the embedded cover image is decoded,
//! resized to fit a fixed bounding box and re-encoded as lossless WebP.
//! Reading the container file and writing the derived thumbnail to disk
//! are left to the caller; every decision in between is made here.

pub mod archive;
pub mod cover;
pub mod descriptor;
pub mod import;
pub mod record;
