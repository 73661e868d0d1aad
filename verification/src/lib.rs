//! Packs a hierarchical comic library — archive, comics, volumes, chapters,
//! pictures — into a single named-entry container image ("PKZ") and reads
//! entries back out of such an image.
//!
//! The library owns the verified core: the entity model, the reversible
//! per-byte entry codec, the container image with its named entries, and the
//! four-level builder traversal driven by a pluggable [`ComicLoader`] source.
//! Opening and flushing an actual archive file, and the textual encoding of
//! the metadata index, are left to the surrounding (unverified) host code.

pub mod builder;
pub mod codec;
pub mod container;
pub mod entities;
pub mod errors;
pub mod loader;

pub use builder::build_pkz;
pub use builder::PkzBuild;
pub use codec::decode;
pub use codec::encode;
pub use container::PkzEntry;
pub use container::pkz_info_name;
pub use container::read_entry;
pub use container::read_metadata_bytes;
pub use container::store_entry;
pub use container::store_metadata;
pub use entities::Archive;
pub use entities::ArchiveInfo;
pub use entities::Chapter;
pub use entities::ChapterInfo;
pub use entities::Comic;
pub use entities::ComicInfo;
pub use entities::Picture;
pub use entities::PictureInfo;
pub use entities::Volume;
pub use entities::VolumeInfo;
pub use errors::PkzError;
pub use loader::ComicLoader;
