use pkz::build_pkz;
use pkz::decode;
use pkz::encode;
use pkz::read_entry;
use pkz::read_metadata_bytes;
use pkz::store_entry;
use pkz::store_metadata;
use pkz::Archive;
use pkz::ArchiveInfo;
use pkz::Chapter;
use pkz::ChapterInfo;
use pkz::Comic;
use pkz::ComicInfo;
use pkz::ComicLoader;
use pkz::Picture;
use pkz::PictureInfo;
use pkz::PkzError;
use pkz::Volume;
use pkz::VolumeInfo;

/// A deterministic source: `comics` comics, `volumes` volumes each, one
/// chapter per element of `pictures_by_chapter`, whose value is that
/// chapter's picture count. Covers and avatars are present (with
/// recognizable bytes) exactly when `with_covers` is set.
struct ShapeLoader {
    comics: i64,
    volumes: i64,
    pictures_by_chapter: Vec<i64>,
    with_covers: bool,
}

fn comic_info_for(comic_idx: i64) -> ComicInfo {
    ComicInfo {
        id: format!("comic-{comic_idx}"),
        title: format!("Comic {comic_idx}"),
        categories: vec!["action".to_string()],
        tags: vec!["tag-a".to_string(), "tag-b".to_string()],
        author_id: "author-1".to_string(),
        author: "Author".to_string(),
        updated_at: 20,
        created_at: 10,
        description: "a comic".to_string(),
        chinese_team: "team".to_string(),
        finished: true,
    }
}

fn volume_info_for(volume_idx: i64) -> VolumeInfo {
    VolumeInfo {
        id: format!("volume-{volume_idx}"),
        title: format!("Volume {volume_idx}"),
        updated_at: 21,
        created_at: 11,
    }
}

fn chapter_info_for(chapter_idx: i64) -> ChapterInfo {
    ChapterInfo {
        id: format!("chapter-{chapter_idx}"),
        title: format!("Chapter {chapter_idx}"),
        updated_at: 22,
        created_at: 12,
    }
}

fn picture_info_for(picture_idx: i64) -> PictureInfo {
    PictureInfo {
        id: format!("picture-{picture_idx}"),
        title: format!("Picture {picture_idx}"),
        width: 800,
        height: 600,
        format: "png".to_string(),
    }
}

fn picture_bytes(comic_idx: i64, volume_idx: i64, chapter_idx: i64, picture_idx: i64) -> Vec<u8> {
    vec![9, comic_idx as u8, volume_idx as u8, chapter_idx as u8, picture_idx as u8]
}

fn cover_bytes(level: u8, idx: i64) -> Vec<u8> {
    vec![level, idx as u8, 0xAA, 0x00]
}

impl ComicLoader for ShapeLoader {
    fn archive_info(&self) -> Result<ArchiveInfo, PkzError> {
        Ok(ArchiveInfo {
            name: "library".to_string(),
            author: "Author".to_string(),
            description: "a library".to_string(),
        })
    }

    fn archive_cover(&self) -> Result<Vec<u8>, PkzError> {
        Ok(vec![])
    }

    fn archive_author_avatar(&self) -> Result<Vec<u8>, PkzError> {
        Ok(vec![])
    }

    fn comic_count(&self) -> Result<i64, PkzError> {
        Ok(self.comics)
    }

    fn comic_info(&self, comic_idx: i64) -> Result<ComicInfo, PkzError> {
        Ok(comic_info_for(comic_idx))
    }

    fn comic_cover(&self, comic_idx: i64, _comic_info: &ComicInfo) -> Result<Option<Vec<u8>>, PkzError> {
        if self.with_covers {
            Ok(Some(cover_bytes(1, comic_idx)))
        } else {
            Ok(None)
        }
    }

    fn comic_author_avatar(
        &self,
        comic_idx: i64,
        _comic_info: &ComicInfo,
    ) -> Result<Option<Vec<u8>>, PkzError> {
        if self.with_covers {
            Ok(Some(cover_bytes(2, comic_idx)))
        } else {
            Ok(None)
        }
    }

    fn volume_count(&self, _comic_idx: i64, _comic_info: &ComicInfo) -> Result<i64, PkzError> {
        Ok(self.volumes)
    }

    fn volume_info(
        &self,
        _comic_idx: i64,
        _comic_info: &ComicInfo,
        volume_idx: i64,
    ) -> Result<VolumeInfo, PkzError> {
        Ok(volume_info_for(volume_idx))
    }

    fn volume_cover(
        &self,
        _comic_idx: i64,
        _comic_info: &ComicInfo,
        volume_idx: i64,
        _volume_info: &VolumeInfo,
    ) -> Result<Option<Vec<u8>>, PkzError> {
        if self.with_covers {
            Ok(Some(cover_bytes(3, volume_idx)))
        } else {
            Ok(None)
        }
    }

    fn chapter_count(
        &self,
        _comic_idx: i64,
        _comic_info: &ComicInfo,
        _volume_idx: i64,
        _volume_info: &VolumeInfo,
    ) -> Result<i64, PkzError> {
        Ok(self.pictures_by_chapter.len() as i64)
    }

    fn chapter_info(
        &self,
        _comic_idx: i64,
        _comic_info: &ComicInfo,
        _volume_idx: i64,
        _volume_info: &VolumeInfo,
        chapter_idx: i64,
    ) -> Result<ChapterInfo, PkzError> {
        Ok(chapter_info_for(chapter_idx))
    }

    fn chapter_cover(
        &self,
        _comic_idx: i64,
        _comic_info: &ComicInfo,
        _volume_idx: i64,
        _volume_info: &VolumeInfo,
        chapter_idx: i64,
        _chapter_info: &ChapterInfo,
    ) -> Result<Option<Vec<u8>>, PkzError> {
        if self.with_covers {
            Ok(Some(cover_bytes(4, chapter_idx)))
        } else {
            Ok(None)
        }
    }

    fn picture_count(
        &self,
        _comic_idx: i64,
        _comic_info: &ComicInfo,
        _volume_idx: i64,
        _volume_info: &VolumeInfo,
        chapter_idx: i64,
        _chapter_info: &ChapterInfo,
    ) -> Result<i64, PkzError> {
        Ok(self.pictures_by_chapter[chapter_idx as usize])
    }

    fn picture_info(
        &self,
        _comic_idx: i64,
        _comic_info: &ComicInfo,
        _volume_idx: i64,
        _volume_info: &VolumeInfo,
        _chapter_idx: i64,
        _chapter_info: &ChapterInfo,
        picture_idx: i64,
    ) -> Result<PictureInfo, PkzError> {
        Ok(picture_info_for(picture_idx))
    }

    fn picture_data(
        &self,
        comic_idx: i64,
        _comic_info: &ComicInfo,
        volume_idx: i64,
        _volume_info: &VolumeInfo,
        chapter_idx: i64,
        _chapter_info: &ChapterInfo,
        picture_idx: i64,
        _picture_info: &PictureInfo,
    ) -> Result<Vec<u8>, PkzError> {
        Ok(picture_bytes(comic_idx, volume_idx, chapter_idx, picture_idx))
    }
}

/// A source whose comic count call fails.
struct FailingLoader;

impl ComicLoader for FailingLoader {
    fn archive_info(&self) -> Result<ArchiveInfo, PkzError> {
        Ok(ArchiveInfo {
            name: String::new(),
            author: String::new(),
            description: String::new(),
        })
    }

    fn archive_cover(&self) -> Result<Vec<u8>, PkzError> {
        Ok(vec![])
    }

    fn archive_author_avatar(&self) -> Result<Vec<u8>, PkzError> {
        Ok(vec![])
    }

    fn comic_count(&self) -> Result<i64, PkzError> {
        Err(PkzError::Adapter("boom".to_string()))
    }

    fn comic_info(&self, _comic_idx: i64) -> Result<ComicInfo, PkzError> {
        Err(PkzError::Adapter("unexpected call".to_string()))
    }

    fn comic_cover(&self, _comic_idx: i64, _comic_info: &ComicInfo) -> Result<Option<Vec<u8>>, PkzError> {
        Err(PkzError::Adapter("unexpected call".to_string()))
    }

    fn comic_author_avatar(
        &self,
        _comic_idx: i64,
        _comic_info: &ComicInfo,
    ) -> Result<Option<Vec<u8>>, PkzError> {
        Err(PkzError::Adapter("unexpected call".to_string()))
    }

    fn volume_count(&self, _comic_idx: i64, _comic_info: &ComicInfo) -> Result<i64, PkzError> {
        Err(PkzError::Adapter("unexpected call".to_string()))
    }

    fn volume_info(
        &self,
        _comic_idx: i64,
        _comic_info: &ComicInfo,
        _volume_idx: i64,
    ) -> Result<VolumeInfo, PkzError> {
        Err(PkzError::Adapter("unexpected call".to_string()))
    }

    fn volume_cover(
        &self,
        _comic_idx: i64,
        _comic_info: &ComicInfo,
        _volume_idx: i64,
        _volume_info: &VolumeInfo,
    ) -> Result<Option<Vec<u8>>, PkzError> {
        Err(PkzError::Adapter("unexpected call".to_string()))
    }

    fn chapter_count(
        &self,
        _comic_idx: i64,
        _comic_info: &ComicInfo,
        _volume_idx: i64,
        _volume_info: &VolumeInfo,
    ) -> Result<i64, PkzError> {
        Err(PkzError::Adapter("unexpected call".to_string()))
    }

    fn chapter_info(
        &self,
        _comic_idx: i64,
        _comic_info: &ComicInfo,
        _volume_idx: i64,
        _volume_info: &VolumeInfo,
        _chapter_idx: i64,
    ) -> Result<ChapterInfo, PkzError> {
        Err(PkzError::Adapter("unexpected call".to_string()))
    }

    fn chapter_cover(
        &self,
        _comic_idx: i64,
        _comic_info: &ComicInfo,
        _volume_idx: i64,
        _volume_info: &VolumeInfo,
        _chapter_idx: i64,
        _chapter_info: &ChapterInfo,
    ) -> Result<Option<Vec<u8>>, PkzError> {
        Err(PkzError::Adapter("unexpected call".to_string()))
    }

    fn picture_count(
        &self,
        _comic_idx: i64,
        _comic_info: &ComicInfo,
        _volume_idx: i64,
        _volume_info: &VolumeInfo,
        _chapter_idx: i64,
        _chapter_info: &ChapterInfo,
    ) -> Result<i64, PkzError> {
        Err(PkzError::Adapter("unexpected call".to_string()))
    }

    fn picture_info(
        &self,
        _comic_idx: i64,
        _comic_info: &ComicInfo,
        _volume_idx: i64,
        _volume_info: &VolumeInfo,
        _chapter_idx: i64,
        _chapter_info: &ChapterInfo,
        _picture_idx: i64,
    ) -> Result<PictureInfo, PkzError> {
        Err(PkzError::Adapter("unexpected call".to_string()))
    }

    fn picture_data(
        &self,
        _comic_idx: i64,
        _comic_info: &ComicInfo,
        _volume_idx: i64,
        _volume_info: &VolumeInfo,
        _chapter_idx: i64,
        _chapter_info: &ChapterInfo,
        _picture_idx: i64,
        _picture_info: &PictureInfo,
    ) -> Result<Vec<u8>, PkzError> {
        Err(PkzError::Adapter("unexpected call".to_string()))
    }
}

/// A source that reports a negative comic count.
struct NegativeLoader;

impl ComicLoader for NegativeLoader {
    fn archive_info(&self) -> Result<ArchiveInfo, PkzError> {
        FailingLoader.archive_info()
    }

    fn archive_cover(&self) -> Result<Vec<u8>, PkzError> {
        Ok(vec![])
    }

    fn archive_author_avatar(&self) -> Result<Vec<u8>, PkzError> {
        Ok(vec![])
    }

    fn comic_count(&self) -> Result<i64, PkzError> {
        Ok(-3)
    }

    fn comic_info(&self, comic_idx: i64) -> Result<ComicInfo, PkzError> {
        FailingLoader.comic_info(comic_idx)
    }

    fn comic_cover(&self, c: i64, i: &ComicInfo) -> Result<Option<Vec<u8>>, PkzError> {
        FailingLoader.comic_cover(c, i)
    }

    fn comic_author_avatar(&self, c: i64, i: &ComicInfo) -> Result<Option<Vec<u8>>, PkzError> {
        FailingLoader.comic_author_avatar(c, i)
    }

    fn volume_count(&self, c: i64, i: &ComicInfo) -> Result<i64, PkzError> {
        FailingLoader.volume_count(c, i)
    }

    fn volume_info(&self, c: i64, i: &ComicInfo, v: i64) -> Result<VolumeInfo, PkzError> {
        FailingLoader.volume_info(c, i, v)
    }

    fn volume_cover(
        &self,
        c: i64,
        i: &ComicInfo,
        v: i64,
        vi: &VolumeInfo,
    ) -> Result<Option<Vec<u8>>, PkzError> {
        FailingLoader.volume_cover(c, i, v, vi)
    }

    fn chapter_count(&self, c: i64, i: &ComicInfo, v: i64, vi: &VolumeInfo) -> Result<i64, PkzError> {
        FailingLoader.chapter_count(c, i, v, vi)
    }

    fn chapter_info(
        &self,
        c: i64,
        i: &ComicInfo,
        v: i64,
        vi: &VolumeInfo,
        ch: i64,
    ) -> Result<ChapterInfo, PkzError> {
        FailingLoader.chapter_info(c, i, v, vi, ch)
    }

    fn chapter_cover(
        &self,
        c: i64,
        i: &ComicInfo,
        v: i64,
        vi: &VolumeInfo,
        ch: i64,
        ci: &ChapterInfo,
    ) -> Result<Option<Vec<u8>>, PkzError> {
        FailingLoader.chapter_cover(c, i, v, vi, ch, ci)
    }

    fn picture_count(
        &self,
        c: i64,
        i: &ComicInfo,
        v: i64,
        vi: &VolumeInfo,
        ch: i64,
        ci: &ChapterInfo,
    ) -> Result<i64, PkzError> {
        FailingLoader.picture_count(c, i, v, vi, ch, ci)
    }

    fn picture_info(
        &self,
        c: i64,
        i: &ComicInfo,
        v: i64,
        vi: &VolumeInfo,
        ch: i64,
        ci: &ChapterInfo,
        p: i64,
    ) -> Result<PictureInfo, PkzError> {
        FailingLoader.picture_info(c, i, v, vi, ch, ci, p)
    }

    fn picture_data(
        &self,
        c: i64,
        i: &ComicInfo,
        v: i64,
        vi: &VolumeInfo,
        ch: i64,
        ci: &ChapterInfo,
        p: i64,
        pi: &PictureInfo,
    ) -> Result<Vec<u8>, PkzError> {
        FailingLoader.picture_data(c, i, v, vi, ch, ci, p, pi)
    }
}

fn strip_paths(archive: &mut Archive) {
    archive.cover_path = String::new();
    archive.author_avatar_path = String::new();
    for comic in archive.comics.iter_mut() {
        comic.cover_path = String::new();
        comic.author_avatar_path = String::new();
        for volume in comic.volumes.iter_mut() {
            volume.cover_path = String::new();
            for chapter in volume.chapters.iter_mut() {
                chapter.cover_path = String::new();
                for picture in chapter.pictures.iter_mut() {
                    picture.picture_path = String::new();
                }
            }
        }
    }
}

#[test]
fn codec_encode_known_bytes() {
    let data = vec![0x00u8, 0xFF, 0xAA, 0x55];
    assert_eq!(encode(&data), vec![0xAAu8, 0x55, 0x00, 0xFF]);
}

#[test]
fn codec_round_trip_samples() {
    let samples: Vec<Vec<u8>> = vec![
        vec![],
        vec![0],
        vec![1, 2, 3, 4, 5, 250, 255],
        (0..=255).collect(),
    ];
    for data in samples {
        assert_eq!(decode(&encode(&data)), data);
        assert_eq!(encode(&decode(&data)), data);
    }
}

#[test]
fn codec_empty_is_empty() {
    assert_eq!(encode(&vec![]), Vec::<u8>::new());
    assert_eq!(decode(&vec![]), Vec::<u8>::new());
}

#[test]
fn concrete_scenario_counts_and_picture() {
    // 1 comic, 1 volume, 2 chapters; chapter 0 has 1 picture, chapter 1 none;
    // no covers or avatars anywhere.
    let loader = ShapeLoader {
        comics: 1,
        volumes: 1,
        pictures_by_chapter: vec![1, 0],
        with_covers: false,
    };
    let build = build_pkz(&loader).unwrap();
    let archive = &build.archive;
    assert_eq!(archive.comic_count, 1);
    assert_eq!(archive.volumes_count, 1);
    assert_eq!(archive.chapter_count, 2);
    assert_eq!(archive.picture_count, 1);
    let comic = &archive.comics[0];
    assert_eq!(comic.volumes_count, 1);
    assert_eq!(comic.chapter_count, 2);
    assert_eq!(comic.picture_count, 1);
    let volume = &comic.volumes[0];
    assert_eq!(volume.chapter_count, 2);
    assert_eq!(volume.picture_count, 1);
    assert_eq!(volume.chapters[0].picture_count, 1);
    assert_eq!(volume.chapters[1].picture_count, 0);
    // Exactly one binary entry was written: the single picture.
    assert_eq!(build.entries.len(), 1);
    let picture = &volume.chapters[0].pictures[0];
    let read = read_entry(&build.entries, &picture.picture_path).unwrap();
    assert_eq!(read, picture_bytes(0, 0, 0, 0));
}

#[test]
fn round_trip_tree_and_assets() {
    let loader = ShapeLoader {
        comics: 1,
        volumes: 1,
        pictures_by_chapter: vec![1],
        with_covers: true,
    };
    let build = build_pkz(&loader).unwrap();

    // Every non-empty path resolves to the exact bytes the source supplied.
    let comic = &build.archive.comics[0];
    let volume = &comic.volumes[0];
    let chapter = &volume.chapters[0];
    let picture = &chapter.pictures[0];
    assert_eq!(read_entry(&build.entries, &comic.cover_path).unwrap(), cover_bytes(1, 0));
    assert_eq!(
        read_entry(&build.entries, &comic.author_avatar_path).unwrap(),
        cover_bytes(2, 0)
    );
    assert_eq!(read_entry(&build.entries, &volume.cover_path).unwrap(), cover_bytes(3, 0));
    assert_eq!(read_entry(&build.entries, &chapter.cover_path).unwrap(), cover_bytes(4, 0));
    assert_eq!(
        read_entry(&build.entries, &picture.picture_path).unwrap(),
        picture_bytes(0, 0, 0, 0)
    );
    assert_eq!(build.entries.len(), 5);

    // The tree equals the expected one field-for-field, paths aside.
    let mut actual = build.archive.clone();
    strip_paths(&mut actual);
    let expected = Archive {
        name: "library".to_string(),
        author: "Author".to_string(),
        description: "a library".to_string(),
        cover_path: String::new(),
        author_avatar_path: String::new(),
        comic_count: 1,
        volumes_count: 1,
        chapter_count: 1,
        picture_count: 1,
        comics: vec![Comic {
            id: "comic-0".to_string(),
            title: "Comic 0".to_string(),
            categories: vec!["action".to_string()],
            tags: vec!["tag-a".to_string(), "tag-b".to_string()],
            author_id: "author-1".to_string(),
            author: "Author".to_string(),
            updated_at: 20,
            created_at: 10,
            description: "a comic".to_string(),
            chinese_team: "team".to_string(),
            finished: true,
            idx: 0,
            cover_path: String::new(),
            author_avatar_path: String::new(),
            volumes_count: 1,
            chapter_count: 1,
            picture_count: 1,
            volumes: vec![Volume {
                id: "volume-0".to_string(),
                title: "Volume 0".to_string(),
                updated_at: 21,
                created_at: 11,
                idx: 0,
                cover_path: String::new(),
                chapter_count: 1,
                picture_count: 1,
                chapters: vec![Chapter {
                    id: "chapter-0".to_string(),
                    title: "Chapter 0".to_string(),
                    updated_at: 22,
                    created_at: 12,
                    idx: 0,
                    cover_path: String::new(),
                    picture_count: 1,
                    pictures: vec![Picture {
                        id: "picture-0".to_string(),
                        title: "Picture 0".to_string(),
                        width: 800,
                        height: 600,
                        format: "png".to_string(),
                        idx: 0,
                        picture_path: String::new(),
                    }],
                }],
            }],
        }],
    };
    assert_eq!(actual, expected);
}

#[test]
fn absent_assets_leave_paths_empty_and_no_entries() {
    let loader = ShapeLoader {
        comics: 2,
        volumes: 1,
        pictures_by_chapter: vec![1],
        with_covers: false,
    };
    let build = build_pkz(&loader).unwrap();
    // Only the two pictures were stored; no cover or avatar entry exists.
    assert_eq!(build.entries.len(), 2);
    for comic in &build.archive.comics {
        assert!(comic.cover_path.is_empty());
        assert!(comic.author_avatar_path.is_empty());
        for volume in &comic.volumes {
            assert!(volume.cover_path.is_empty());
            for chapter in &volume.chapters {
                assert!(chapter.cover_path.is_empty());
                for picture in &chapter.pictures {
                    assert!(!picture.picture_path.is_empty());
                }
            }
        }
    }
}

#[test]
fn missing_entry_lookup_fails_without_side_effect() {
    let loader = ShapeLoader {
        comics: 1,
        volumes: 1,
        pictures_by_chapter: vec![1],
        with_covers: false,
    };
    let build = build_pkz(&loader).unwrap();
    let miss = read_entry(&build.entries, "never-written");
    assert_eq!(miss, Err(PkzError::NotFound));
    // Every other entry is still readable afterwards.
    let picture = &build.archive.comics[0].volumes[0].chapters[0].pictures[0];
    let read = read_entry(&build.entries, &picture.picture_path).unwrap();
    assert_eq!(read, picture_bytes(0, 0, 0, 0));
}

#[test]
fn indices_ascend_from_zero_at_every_level() {
    let loader = ShapeLoader {
        comics: 3,
        volumes: 2,
        pictures_by_chapter: vec![2, 1],
        with_covers: false,
    };
    let build = build_pkz(&loader).unwrap();
    for (ci, comic) in build.archive.comics.iter().enumerate() {
        assert_eq!(comic.idx, ci as i64);
        for (vi, volume) in comic.volumes.iter().enumerate() {
            assert_eq!(volume.idx, vi as i64);
            for (chi, chapter) in volume.chapters.iter().enumerate() {
                assert_eq!(chapter.idx, chi as i64);
                for (pi, picture) in chapter.pictures.iter().enumerate() {
                    assert_eq!(picture.idx, pi as i64);
                }
            }
        }
    }
}

#[test]
fn aggregates_sum_over_children() {
    let loader = ShapeLoader {
        comics: 3,
        volumes: 2,
        pictures_by_chapter: vec![2, 1],
        with_covers: false,
    };
    let build = build_pkz(&loader).unwrap();
    let archive = &build.archive;
    assert_eq!(archive.comic_count, archive.comics.len() as i64);
    let mut volumes_sum: i64 = 0;
    let mut chapters_sum: i64 = 0;
    let mut pictures_sum: i64 = 0;
    for comic in &archive.comics {
        assert_eq!(comic.volumes_count, comic.volumes.len() as i64);
        let mut comic_chapters: i64 = 0;
        let mut comic_pictures: i64 = 0;
        for volume in &comic.volumes {
            assert_eq!(volume.chapter_count, volume.chapters.len() as i64);
            let mut volume_pictures: i64 = 0;
            for chapter in &volume.chapters {
                assert_eq!(chapter.picture_count, chapter.pictures.len() as i64);
                volume_pictures += chapter.picture_count;
            }
            assert_eq!(volume.picture_count, volume_pictures);
            comic_chapters += volume.chapter_count;
            comic_pictures += volume.picture_count;
        }
        assert_eq!(comic.chapter_count, comic_chapters);
        assert_eq!(comic.picture_count, comic_pictures);
        volumes_sum += comic.volumes_count;
        chapters_sum += comic.chapter_count;
        pictures_sum += comic.picture_count;
    }
    assert_eq!(archive.volumes_count, volumes_sum);
    assert_eq!(archive.chapter_count, chapters_sum);
    assert_eq!(archive.picture_count, pictures_sum);
    // Concrete values for this shape.
    assert_eq!(archive.volumes_count, 6);
    assert_eq!(archive.chapter_count, 12);
    assert_eq!(archive.picture_count, 18);
    assert_eq!(build.entries.len(), 18);
}

#[test]
fn empty_archive_builds() {
    let loader = ShapeLoader {
        comics: 0,
        volumes: 0,
        pictures_by_chapter: vec![],
        with_covers: false,
    };
    let build = build_pkz(&loader).unwrap();
    assert_eq!(build.archive.comic_count, 0);
    assert_eq!(build.archive.volumes_count, 0);
    assert_eq!(build.archive.chapter_count, 0);
    assert_eq!(build.archive.picture_count, 0);
    assert!(build.archive.comics.is_empty());
    assert!(build.entries.is_empty());
    assert_eq!(build.archive.name, "library");
}

#[test]
fn adapter_failure_aborts_build_unchanged() {
    let result = build_pkz(&FailingLoader);
    assert_eq!(result.unwrap_err(), PkzError::Adapter("boom".to_string()));
}

#[test]
fn negative_count_is_an_adapter_error() {
    let result = build_pkz(&NegativeLoader);
    assert!(matches!(result.unwrap_err(), PkzError::Adapter(_)));
}

#[test]
fn negative_volume_count_is_an_adapter_error() {
    let loader = ShapeLoader {
        comics: 1,
        volumes: -1,
        pictures_by_chapter: vec![],
        with_covers: false,
    };
    assert!(matches!(build_pkz(&loader).unwrap_err(), PkzError::Adapter(_)));
}

#[test]
fn negative_picture_count_is_an_adapter_error() {
    let loader = ShapeLoader {
        comics: 1,
        volumes: 1,
        pictures_by_chapter: vec![-2],
        with_covers: false,
    };
    assert!(matches!(build_pkz(&loader).unwrap_err(), PkzError::Adapter(_)));
}

#[test]
fn tokens_are_opaque_36_char_names() {
    let loader = ShapeLoader {
        comics: 1,
        volumes: 1,
        pictures_by_chapter: vec![1],
        with_covers: true,
    };
    let build = build_pkz(&loader).unwrap();
    for entry in &build.entries {
        assert_eq!(entry.name.chars().count(), 36);
    }
    let picture = &build.archive.comics[0].volumes[0].chapters[0].pictures[0];
    assert_eq!(picture.picture_path.chars().count(), 36);
    // Stored bytes are transformed, not the raw payload.
    let raw = picture_bytes(0, 0, 0, 0);
    let stored = build
        .entries
        .iter()
        .find(|e| e.name == picture.picture_path)
        .unwrap();
    assert_ne!(stored.data, raw);
    assert_eq!(decode(&stored.data), raw);
}

#[test]
fn store_entry_then_read_entry_round_trips() {
    let mut entries = Vec::new();
    let payload = vec![1u8, 2, 3, 0xAA, 0xFF];
    let token = store_entry(&mut entries, &payload).unwrap();
    assert_eq!(token.chars().count(), 36);
    assert_eq!(entries.len(), 1);
    assert_eq!(read_entry(&entries, &token).unwrap(), payload);
}

#[test]
fn metadata_round_trip_and_single_write() {
    let loader = ShapeLoader {
        comics: 1,
        volumes: 1,
        pictures_by_chapter: vec![1],
        with_covers: false,
    };
    let build = build_pkz(&loader).unwrap();
    let mut entries = build.entries;
    assert_eq!(read_metadata_bytes(&entries), Err(PkzError::NotFound));
    let metadata = vec![b'{', b'}'];
    store_metadata(&mut entries, &metadata).unwrap();
    assert_eq!(read_metadata_bytes(&entries).unwrap(), metadata);
    // A second metadata write is refused and changes nothing.
    let before = entries.clone();
    let again = store_metadata(&mut entries, &metadata);
    assert!(matches!(again.unwrap_err(), PkzError::ContainerIo(_)));
    assert_eq!(entries, before);
}

#[test]
fn error_values_carry_their_message() {
    assert_eq!(PkzError::Adapter("a".to_string()).message(), "a");
    assert_eq!(PkzError::ContainerIo("c".to_string()).message(), "c");
    assert_eq!(PkzError::Decode("bad schema".to_string()).message(), "bad schema");
    assert_eq!(PkzError::NotFound.message(), "entry not found");
}
