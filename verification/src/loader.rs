//! The source adapter interface: the capability contract the builder calls
//! to obtain metadata and binary content, level by level. Implementations
//! live outside this library (a network scraper, a filesystem scanner, a
//! fixed test source); the builder takes nothing for granted in their answers
//! beyond their types, calls them strictly sequentially in ascending index
//! order, and propagates any failure unchanged, aborting the whole build.

use vstd::prelude::*;

use crate::entities::ArchiveInfo;
use crate::entities::ChapterInfo;
use crate::entities::ComicInfo;
use crate::entities::PictureInfo;
use crate::entities::VolumeInfo;
use crate::errors::PkzError;

verus! {

/// One source of comic data. Each `*_count` method is expected to report the
/// exact number of children at its level; each `*_cover` / `*_author_avatar`
/// method distinguishes an absent asset (`Ok(None)`) from a failure;
/// `picture_data` has no absent case. Methods receive the already-resolved
/// ancestor Info records, never the growing output tree.
pub trait ComicLoader {
    fn archive_info(&self) -> Result<ArchiveInfo, PkzError>;

    fn archive_cover(&self) -> Result<Vec<u8>, PkzError>;

    fn archive_author_avatar(&self) -> Result<Vec<u8>, PkzError>;

    fn comic_count(&self) -> Result<i64, PkzError>;

    fn comic_info(&self, comic_idx: i64) -> Result<ComicInfo, PkzError>;

    fn comic_cover(&self, comic_idx: i64, comic_info: &ComicInfo) -> Result<
        Option<Vec<u8>>,
        PkzError,
    >;

    fn comic_author_avatar(&self, comic_idx: i64, comic_info: &ComicInfo) -> Result<
        Option<Vec<u8>>,
        PkzError,
    >;

    fn volume_count(&self, comic_idx: i64, comic_info: &ComicInfo) -> Result<i64, PkzError>;

    fn volume_info(&self, comic_idx: i64, comic_info: &ComicInfo, volume_idx: i64) -> Result<
        VolumeInfo,
        PkzError,
    >;

    fn volume_cover(
        &self,
        comic_idx: i64,
        comic_info: &ComicInfo,
        volume_idx: i64,
        volume_info: &VolumeInfo,
    ) -> Result<Option<Vec<u8>>, PkzError>;

    fn chapter_count(
        &self,
        comic_idx: i64,
        comic_info: &ComicInfo,
        volume_idx: i64,
        volume_info: &VolumeInfo,
    ) -> Result<i64, PkzError>;

    fn chapter_info(
        &self,
        comic_idx: i64,
        comic_info: &ComicInfo,
        volume_idx: i64,
        volume_info: &VolumeInfo,
        chapter_idx: i64,
    ) -> Result<ChapterInfo, PkzError>;

    fn chapter_cover(
        &self,
        comic_idx: i64,
        comic_info: &ComicInfo,
        volume_idx: i64,
        volume_info: &VolumeInfo,
        chapter_idx: i64,
        chapter_info: &ChapterInfo,
    ) -> Result<Option<Vec<u8>>, PkzError>;

    fn picture_count(
        &self,
        comic_idx: i64,
        comic_info: &ComicInfo,
        volume_idx: i64,
        volume_info: &VolumeInfo,
        chapter_idx: i64,
        chapter_info: &ChapterInfo,
    ) -> Result<i64, PkzError>;

    fn picture_info(
        &self,
        comic_idx: i64,
        comic_info: &ComicInfo,
        volume_idx: i64,
        volume_info: &VolumeInfo,
        chapter_idx: i64,
        chapter_info: &ChapterInfo,
        picture_idx: i64,
    ) -> Result<PictureInfo, PkzError>;

    fn picture_data(
        &self,
        comic_idx: i64,
        comic_info: &ComicInfo,
        volume_idx: i64,
        volume_info: &VolumeInfo,
        chapter_idx: i64,
        chapter_info: &ChapterInfo,
        picture_idx: i64,
        picture_info: &PictureInfo,
    ) -> Result<Vec<u8>, PkzError>;
}

} // verus!
