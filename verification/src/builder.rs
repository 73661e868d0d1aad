//! The archive builder: a four-level nested traversal that maps a
//! [`ComicLoader`] source onto the container layout while accumulating the
//! aggregate counts. It calls the source strictly sequentially in ascending
//! index order, writes every present binary asset through the entry codec
//! under a fresh token, and returns the populated [`Archive`] tree together
//! with the container image. Any source or container failure aborts the
//! whole build at once; a caller that sees an error must discard the
//! partial result.
//!
//! Every aggregate count field tracks exactly the quantity its name implies:
//! a chapter count is a count of chapters, a picture count a count of
//! pictures, at every level.

use vstd::prelude::*;

use crate::container::appended;
use crate::container::assets_wf;
use crate::container::contains_name;
use crate::container::lemma_appended_trans;
use crate::container::store_entry;
use crate::container::store_optional;
use crate::container::PkzEntry;
use crate::entities::Archive;
use crate::entities::ArchiveInfo;
use crate::entities::Chapter;
use crate::entities::ChapterInfo;
use crate::entities::Comic;
use crate::entities::ComicInfo;
use crate::entities::Picture;
use crate::entities::PictureInfo;
use crate::entities::Volume;
use crate::entities::VolumeInfo;
use crate::entities::archive_tokens;
use crate::entities::archive_wf;
use crate::entities::chapter_tokens;
use crate::entities::chapters_tokens;
use crate::entities::chapters_wf;
use crate::entities::comic_tokens;
use crate::entities::comics_tokens;
use crate::entities::comics_wf;
use crate::entities::lemma_chapters_tokens_push;
use crate::entities::lemma_chapters_wf_push;
use crate::entities::lemma_comics_tokens_push;
use crate::entities::lemma_comics_wf_push;
use crate::entities::lemma_pictures_tokens_push;
use crate::entities::lemma_pictures_wf_push;
use crate::entities::lemma_sum_chapter_pictures_push;
use crate::entities::lemma_sum_comic_chapters_push;
use crate::entities::lemma_sum_comic_pictures_push;
use crate::entities::lemma_sum_comic_volumes_push;
use crate::entities::lemma_sum_volume_chapters_push;
use crate::entities::lemma_sum_volume_pictures_push;
use crate::entities::lemma_volumes_tokens_push;
use crate::entities::lemma_volumes_wf_push;
use crate::entities::opt_token;
use crate::entities::pictures_tokens;
use crate::entities::pictures_wf;
use crate::entities::sum_chapter_pictures;
use crate::entities::sum_comic_chapters;
use crate::entities::sum_comic_pictures;
use crate::entities::sum_comic_volumes;
use crate::entities::sum_volume_chapters;
use crate::entities::sum_volume_pictures;
use crate::entities::volume_tokens;
use crate::entities::volumes_tokens;
use crate::entities::volumes_wf;
use crate::errors::PkzError;
use crate::loader::ComicLoader;

verus! {

/// What one build pass produces: the fully populated tree and the container
/// image holding one entry per stored binary asset.
#[derive(Debug)]
pub struct PkzBuild {
    pub archive: Archive,
    pub entries: Vec<PkzEntry>,
}

/// Copies a vector of strings.
fn clone_string_vec(v: &Vec<String>) -> (r: Vec<String>)
    ensures
        r@ == v@,
{
    let mut out: Vec<String> = Vec::new();
    let mut i: usize = 0;
    proof {
        assert(out@ =~= v@.take(0));
    }
    while i < v.len()
        invariant
            i <= v@.len(),
            out@ == v@.take(i as int),
        decreases v@.len() - i,
    {
        out.push(v[i].clone());
        proof {
            assert(out@ =~= v@.take(i as int + 1));
        }
        i = i + 1;
    }
    proof {
        assert(v@.take(v@.len() as int) =~= v@);
    }
    out
}

/// A picture record at sibling position `idx`, its content stored under
/// `picture_path`.
fn picture_record(info: &PictureInfo, idx: i64, picture_path: String) -> (p: Picture)
    ensures
        p.id == info.id,
        p.title == info.title,
        p.width == info.width,
        p.height == info.height,
        p.format == info.format,
        p.idx == idx,
        p.picture_path == picture_path,
{
    Picture {
        id: info.id.clone(),
        title: info.title.clone(),
        width: info.width,
        height: info.height,
        format: info.format.clone(),
        idx,
        picture_path,
    }
}

/// A chapter record at sibling position `idx` with its pictures.
fn chapter_record(
    info: &ChapterInfo,
    idx: i64,
    cover_path: String,
    picture_count: i64,
    pictures: Vec<Picture>,
) -> (c: Chapter)
    ensures
        c.id == info.id,
        c.title == info.title,
        c.updated_at == info.updated_at,
        c.created_at == info.created_at,
        c.idx == idx,
        c.cover_path == cover_path,
        c.picture_count == picture_count,
        c.pictures == pictures,
{
    Chapter {
        id: info.id.clone(),
        title: info.title.clone(),
        updated_at: info.updated_at,
        created_at: info.created_at,
        idx,
        cover_path,
        picture_count,
        pictures,
    }
}

/// A volume record at sibling position `idx` with its chapters.
fn volume_record(
    info: &VolumeInfo,
    idx: i64,
    cover_path: String,
    chapter_count: i64,
    picture_count: i64,
    chapters: Vec<Chapter>,
) -> (v: Volume)
    ensures
        v.id == info.id,
        v.title == info.title,
        v.updated_at == info.updated_at,
        v.created_at == info.created_at,
        v.idx == idx,
        v.cover_path == cover_path,
        v.chapter_count == chapter_count,
        v.picture_count == picture_count,
        v.chapters == chapters,
{
    Volume {
        id: info.id.clone(),
        title: info.title.clone(),
        updated_at: info.updated_at,
        created_at: info.created_at,
        idx,
        cover_path,
        chapter_count,
        picture_count,
        chapters,
    }
}

/// A comic record at sibling position `idx` with its volumes.
fn comic_record(
    info: &ComicInfo,
    idx: i64,
    cover_path: String,
    author_avatar_path: String,
    volumes_count: i64,
    chapter_count: i64,
    picture_count: i64,
    volumes: Vec<Volume>,
) -> (c: Comic)
    ensures
        c.id == info.id,
        c.title == info.title,
        c.categories@ == info.categories@,
        c.tags@ == info.tags@,
        c.author_id == info.author_id,
        c.author == info.author,
        c.updated_at == info.updated_at,
        c.created_at == info.created_at,
        c.description == info.description,
        c.chinese_team == info.chinese_team,
        c.finished == info.finished,
        c.idx == idx,
        c.cover_path == cover_path,
        c.author_avatar_path == author_avatar_path,
        c.volumes_count == volumes_count,
        c.chapter_count == chapter_count,
        c.picture_count == picture_count,
        c.volumes == volumes,
{
    Comic {
        id: info.id.clone(),
        title: info.title.clone(),
        categories: clone_string_vec(&info.categories),
        tags: clone_string_vec(&info.tags),
        author_id: info.author_id.clone(),
        author: info.author.clone(),
        updated_at: info.updated_at,
        created_at: info.created_at,
        description: info.description.clone(),
        chinese_team: info.chinese_team.clone(),
        finished: info.finished,
        idx,
        cover_path,
        author_avatar_path,
        volumes_count,
        chapter_count,
        picture_count,
        volumes,
    }
}

/// The archive record with its comics and the accumulated aggregates; the
/// archive-level path fields stay empty, since the builder stores no
/// archive-level assets.
fn archive_record(
    info: &ArchiveInfo,
    comic_count: i64,
    volumes_count: i64,
    chapter_count: i64,
    picture_count: i64,
    comics: Vec<Comic>,
) -> (a: Archive)
    ensures
        a.name == info.name,
        a.author == info.author,
        a.description == info.description,
        a.cover_path@.len() == 0,
        a.author_avatar_path@.len() == 0,
        a.comic_count == comic_count,
        a.volumes_count == volumes_count,
        a.chapter_count == chapter_count,
        a.picture_count == picture_count,
        a.comics == comics,
{
    Archive {
        name: info.name.clone(),
        author: info.author.clone(),
        description: info.description.clone(),
        cover_path: String::new(),
        author_avatar_path: String::new(),
        comic_count,
        volumes_count,
        chapter_count,
        picture_count,
        comics,
    }
}

/// Builds the pictures of one chapter, storing each mandatory picture
/// payload through the codec under a fresh token.
#[verifier::loop_isolation(false)]
fn build_pictures<L: ComicLoader>(
    loader: &L,
    comic_idx: i64,
    comic_info: &ComicInfo,
    volume_idx: i64,
    volume_info: &VolumeInfo,
    chapter_idx: i64,
    chapter_info: &ChapterInfo,
    picture_count: i64,
    entries: &mut Vec<PkzEntry>,
) -> (r: Result<Vec<Picture>, PkzError>)
    requires
        picture_count >= 0,
        assets_wf(old(entries)@),
    ensures
        (match r {
            Ok(ps) => {
                &&& ps@.len() == picture_count
                &&& pictures_wf(ps@)
                &&& assets_wf(final(entries)@)
                &&& appended(old(entries)@, final(entries)@, pictures_tokens(ps@))
            },
            Err(_) => true,
        }),
{
    let mut pictures: Vec<Picture> = Vec::new();
    let mut picture_idx: i64 = 0;
    while picture_idx < picture_count
        invariant
            0 <= picture_idx <= picture_count,
            pictures@.len() == picture_idx,
            pictures_wf(pictures@),
            assets_wf(entries@),
            appended(old(entries)@, entries@, pictures_tokens(pictures@)),
        decreases picture_count - picture_idx,
    {
        let picture_info = match loader.picture_info(
            comic_idx,
            comic_info,
            volume_idx,
            volume_info,
            chapter_idx,
            chapter_info,
            picture_idx,
        ) {
            Ok(v) => v,
            Err(e) => return Err(e),
        };
        let data = match loader.picture_data(
            comic_idx,
            comic_info,
            volume_idx,
            volume_info,
            chapter_idx,
            chapter_info,
            picture_idx,
            &picture_info,
        ) {
            Ok(v) => v,
            Err(e) => return Err(e),
        };
        let ghost e0 = entries@;
        let token = match store_entry(entries, &data) {
            Ok(v) => v,
            Err(e) => return Err(e),
        };
        let picture = picture_record(&picture_info, picture_idx, token);
        proof {
            assert(appended(e0, entries@, seq![picture.picture_path@]));
            lemma_appended_trans(
                old(entries)@,
                e0,
                entries@,
                pictures_tokens(pictures@),
                seq![picture.picture_path@],
            );
            lemma_pictures_tokens_push(pictures@, picture);
            lemma_pictures_wf_push(pictures@, picture);
        }
        pictures.push(picture);
        picture_idx = picture_idx + 1;
    }
    Ok(pictures)
}

/// Builds the chapters of one volume, returning them together with the sum
/// of their picture counts.
#[verifier::loop_isolation(false)]
fn build_chapters<L: ComicLoader>(
    loader: &L,
    comic_idx: i64,
    comic_info: &ComicInfo,
    volume_idx: i64,
    volume_info: &VolumeInfo,
    chapter_count: i64,
    entries: &mut Vec<PkzEntry>,
) -> (r: Result<(Vec<Chapter>, i64), PkzError>)
    requires
        chapter_count >= 0,
        assets_wf(old(entries)@),
    ensures
        (match r {
            Ok(out) => {
                &&& out.0@.len() == chapter_count
                &&& chapters_wf(out.0@)
                &&& out.1 == sum_chapter_pictures(out.0@)
                &&& assets_wf(final(entries)@)
                &&& appended(old(entries)@, final(entries)@, chapters_tokens(out.0@))
            },
            Err(_) => true,
        }),
{
    let mut chapters: Vec<Chapter> = Vec::new();
    let mut picture_total: i64 = 0;
    let mut chapter_idx: i64 = 0;
    while chapter_idx < chapter_count
        invariant
            0 <= chapter_idx <= chapter_count,
            chapters@.len() == chapter_idx,
            chapters_wf(chapters@),
            picture_total == sum_chapter_pictures(chapters@),
            assets_wf(entries@),
            appended(old(entries)@, entries@, chapters_tokens(chapters@)),
        decreases chapter_count - chapter_idx,
    {
        let chapter_info = match loader.chapter_info(
            comic_idx,
            comic_info,
            volume_idx,
            volume_info,
            chapter_idx,
        ) {
            Ok(v) => v,
            Err(e) => return Err(e),
        };
        let picture_count = match loader.picture_count(
            comic_idx,
            comic_info,
            volume_idx,
            volume_info,
            chapter_idx,
            &chapter_info,
        ) {
            Ok(v) => v,
            Err(e) => return Err(e),
        };
        if picture_count < 0 {
            return Err(PkzError::Adapter("adapter reported a negative picture count".to_owned()));
        }
        let new_picture_total = match picture_total.checked_add(picture_count) {
            Some(v) => v,
            None => return Err(
                PkzError::Adapter("picture count total exceeds the 64-bit range".to_owned()),
            ),
        };
        let cover = match loader.chapter_cover(
            comic_idx,
            comic_info,
            volume_idx,
            volume_info,
            chapter_idx,
            &chapter_info,
        ) {
            Ok(v) => v,
            Err(e) => return Err(e),
        };
        let ghost e0 = entries@;
        let cover_path = match store_optional(entries, &cover) {
            Ok(v) => v,
            Err(e) => return Err(e),
        };
        let ghost e1 = entries@;
        let pictures = match build_pictures(
            loader,
            comic_idx,
            comic_info,
            volume_idx,
            volume_info,
            chapter_idx,
            &chapter_info,
            picture_count,
            entries,
        ) {
            Ok(v) => v,
            Err(e) => return Err(e),
        };
        let ghost pictures_view = pictures@;
        let chapter = chapter_record(&chapter_info, chapter_idx, cover_path, picture_count, pictures);
        proof {
            lemma_appended_trans(
                e0,
                e1,
                entries@,
                opt_token(chapter.cover_path@),
                pictures_tokens(pictures_view),
            );
            assert(opt_token(chapter.cover_path@) + pictures_tokens(pictures_view)
                == chapter_tokens(chapter));
            lemma_appended_trans(
                old(entries)@,
                e0,
                entries@,
                chapters_tokens(chapters@),
                chapter_tokens(chapter),
            );
            lemma_chapters_tokens_push(chapters@, chapter);
            lemma_sum_chapter_pictures_push(chapters@, chapter);
            lemma_chapters_wf_push(chapters@, chapter);
        }
        chapters.push(chapter);
        picture_total = new_picture_total;
        chapter_idx = chapter_idx + 1;
    }
    Ok((chapters, picture_total))
}

/// Builds the volumes of one comic, returning them together with the sums
/// of their chapter counts and of their picture counts.
#[verifier::loop_isolation(false)]
fn build_volumes<L: ComicLoader>(
    loader: &L,
    comic_idx: i64,
    comic_info: &ComicInfo,
    volume_count: i64,
    entries: &mut Vec<PkzEntry>,
) -> (r: Result<(Vec<Volume>, i64, i64), PkzError>)
    requires
        volume_count >= 0,
        assets_wf(old(entries)@),
    ensures
        (match r {
            Ok(out) => {
                &&& out.0@.len() == volume_count
                &&& volumes_wf(out.0@)
                &&& out.1 == sum_volume_chapters(out.0@)
                &&& out.2 == sum_volume_pictures(out.0@)
                &&& assets_wf(final(entries)@)
                &&& appended(old(entries)@, final(entries)@, volumes_tokens(out.0@))
            },
            Err(_) => true,
        }),
{
    let mut volumes: Vec<Volume> = Vec::new();
    let mut chapter_total: i64 = 0;
    let mut picture_total: i64 = 0;
    let mut volume_idx: i64 = 0;
    while volume_idx < volume_count
        invariant
            0 <= volume_idx <= volume_count,
            volumes@.len() == volume_idx,
            volumes_wf(volumes@),
            chapter_total == sum_volume_chapters(volumes@),
            picture_total == sum_volume_pictures(volumes@),
            assets_wf(entries@),
            appended(old(entries)@, entries@, volumes_tokens(volumes@)),
        decreases volume_count - volume_idx,
    {
        let volume_info = match loader.volume_info(comic_idx, comic_info, volume_idx) {
            Ok(v) => v,
            Err(e) => return Err(e),
        };
        let chapter_count = match loader.chapter_count(
            comic_idx,
            comic_info,
            volume_idx,
            &volume_info,
        ) {
            Ok(v) => v,
            Err(e) => return Err(e),
        };
        if chapter_count < 0 {
            return Err(PkzError::Adapter("adapter reported a negative chapter count".to_owned()));
        }
        let new_chapter_total = match chapter_total.checked_add(chapter_count) {
            Some(v) => v,
            None => return Err(
                PkzError::Adapter("chapter count total exceeds the 64-bit range".to_owned()),
            ),
        };
        let cover = match loader.volume_cover(comic_idx, comic_info, volume_idx, &volume_info) {
            Ok(v) => v,
            Err(e) => return Err(e),
        };
        let ghost e0 = entries@;
        let cover_path = match store_optional(entries, &cover) {
            Ok(v) => v,
            Err(e) => return Err(e),
        };
        let ghost e1 = entries@;
        let built = match build_chapters(
            loader,
            comic_idx,
            comic_info,
            volume_idx,
            &volume_info,
            chapter_count,
            entries,
        ) {
            Ok(v) => v,
            Err(e) => return Err(e),
        };
        let chapters = built.0;
        let volume_pictures = built.1;
        let new_picture_total = match picture_total.checked_add(volume_pictures) {
            Some(v) => v,
            None => return Err(
                PkzError::Adapter("picture count total exceeds the 64-bit range".to_owned()),
            ),
        };
        let ghost chapters_view = chapters@;
        let volume = volume_record(
            &volume_info,
            volume_idx,
            cover_path,
            chapter_count,
            volume_pictures,
            chapters,
        );
        proof {
            lemma_appended_trans(
                e0,
                e1,
                entries@,
                opt_token(volume.cover_path@),
                chapters_tokens(chapters_view),
            );
            assert(opt_token(volume.cover_path@) + chapters_tokens(chapters_view)
                == volume_tokens(volume));
            lemma_appended_trans(
                old(entries)@,
                e0,
                entries@,
                volumes_tokens(volumes@),
                volume_tokens(volume),
            );
            lemma_volumes_tokens_push(volumes@, volume);
            lemma_sum_volume_chapters_push(volumes@, volume);
            lemma_sum_volume_pictures_push(volumes@, volume);
            lemma_volumes_wf_push(volumes@, volume);
        }
        volumes.push(volume);
        chapter_total = new_chapter_total;
        picture_total = new_picture_total;
        volume_idx = volume_idx + 1;
    }
    Ok((volumes, chapter_total, picture_total))
}

/// Builds all comics of the archive, returning them together with the sums
/// of their volume, chapter and picture counts.
#[verifier::loop_isolation(false)]
fn build_comics<L: ComicLoader>(
    loader: &L,
    comic_count: i64,
    entries: &mut Vec<PkzEntry>,
) -> (r: Result<(Vec<Comic>, i64, i64, i64), PkzError>)
    requires
        comic_count >= 0,
        assets_wf(old(entries)@),
    ensures
        (match r {
            Ok(out) => {
                &&& out.0@.len() == comic_count
                &&& comics_wf(out.0@)
                &&& out.1 == sum_comic_volumes(out.0@)
                &&& out.2 == sum_comic_chapters(out.0@)
                &&& out.3 == sum_comic_pictures(out.0@)
                &&& assets_wf(final(entries)@)
                &&& appended(old(entries)@, final(entries)@, comics_tokens(out.0@))
            },
            Err(_) => true,
        }),
{
    let mut comics: Vec<Comic> = Vec::new();
    let mut volumes_total: i64 = 0;
    let mut chapter_total: i64 = 0;
    let mut picture_total: i64 = 0;
    let mut comic_idx: i64 = 0;
    while comic_idx < comic_count
        invariant
            0 <= comic_idx <= comic_count,
            comics@.len() == comic_idx,
            comics_wf(comics@),
            volumes_total == sum_comic_volumes(comics@),
            chapter_total == sum_comic_chapters(comics@),
            picture_total == sum_comic_pictures(comics@),
            assets_wf(entries@),
            appended(old(entries)@, entries@, comics_tokens(comics@)),
        decreases comic_count - comic_idx,
    {
        let comic_info = match loader.comic_info(comic_idx) {
            Ok(v) => v,
            Err(e) => return Err(e),
        };
        let volume_count = match loader.volume_count(comic_idx, &comic_info) {
            Ok(v) => v,
            Err(e) => return Err(e),
        };
        if volume_count < 0 {
            return Err(PkzError::Adapter("adapter reported a negative volume count".to_owned()));
        }
        let new_volumes_total = match volumes_total.checked_add(volume_count) {
            Some(v) => v,
            None => return Err(
                PkzError::Adapter("volume count total exceeds the 64-bit range".to_owned()),
            ),
        };
        let cover = match loader.comic_cover(comic_idx, &comic_info) {
            Ok(v) => v,
            Err(e) => return Err(e),
        };
        let ghost e0 = entries@;
        let cover_path = match store_optional(entries, &cover) {
            Ok(v) => v,
            Err(e) => return Err(e),
        };
        let ghost e1 = entries@;
        let avatar = match loader.comic_author_avatar(comic_idx, &comic_info) {
            Ok(v) => v,
            Err(e) => return Err(e),
        };
        let avatar_path = match store_optional(entries, &avatar) {
            Ok(v) => v,
            Err(e) => return Err(e),
        };
        let ghost e2 = entries@;
        let built = match build_volumes(loader, comic_idx, &comic_info, volume_count, entries) {
            Ok(v) => v,
            Err(e) => return Err(e),
        };
        let volumes = built.0;
        let comic_chapters = built.1;
        let comic_pictures = built.2;
        let new_chapter_total = match chapter_total.checked_add(comic_chapters) {
            Some(v) => v,
            None => return Err(
                PkzError::Adapter("chapter count total exceeds the 64-bit range".to_owned()),
            ),
        };
        let new_picture_total = match picture_total.checked_add(comic_pictures) {
            Some(v) => v,
            None => return Err(
                PkzError::Adapter("picture count total exceeds the 64-bit range".to_owned()),
            ),
        };
        let ghost volumes_view = volumes@;
        let comic = comic_record(
            &comic_info,
            comic_idx,
            cover_path,
            avatar_path,
            volume_count,
            comic_chapters,
            comic_pictures,
            volumes,
        );
        proof {
            lemma_appended_trans(
                e0,
                e1,
                e2,
                opt_token(comic.cover_path@),
                opt_token(comic.author_avatar_path@),
            );
            lemma_appended_trans(
                e0,
                e2,
                entries@,
                opt_token(comic.cover_path@) + opt_token(comic.author_avatar_path@),
                volumes_tokens(volumes_view),
            );
            assert(opt_token(comic.cover_path@) + opt_token(comic.author_avatar_path@)
                + volumes_tokens(volumes_view) == comic_tokens(comic));
            lemma_appended_trans(
                old(entries)@,
                e0,
                entries@,
                comics_tokens(comics@),
                comic_tokens(comic),
            );
            lemma_comics_tokens_push(comics@, comic);
            lemma_sum_comic_volumes_push(comics@, comic);
            lemma_sum_comic_chapters_push(comics@, comic);
            lemma_sum_comic_pictures_push(comics@, comic);
            lemma_comics_wf_push(comics@, comic);
        }
        comics.push(comic);
        volumes_total = new_volumes_total;
        chapter_total = new_chapter_total;
        picture_total = new_picture_total;
        comic_idx = comic_idx + 1;
    }
    Ok((comics, volumes_total, chapter_total, picture_total))
}

/// One full build pass over a source: fetches the archive description and
/// the comic count, traverses comics, volumes, chapters and pictures in
/// ascending index order, stores every present binary through the entry
/// codec under a fresh token, and accumulates every aggregate count.
///
/// On success the returned tree is well-formed ([`archive_wf`]): sibling
/// `idx` fields ascend from zero, each count field at each level equals the
/// number (or the sum over the children) it names, and the entry names of
/// the image are exactly the non-empty `*_path` tokens of the tree, in
/// traversal order, pairwise distinct, with the reserved metadata name still
/// free. Any failure — a source error, a negative reported count, an
/// aggregate beyond the 64-bit signed range of the count fields, or a token
/// collision — aborts the build and is returned unchanged.
pub fn build_pkz<L: ComicLoader>(loader: &L) -> (r: Result<PkzBuild, PkzError>)
    ensures
        (match r {
            Ok(b) => {
                &&& archive_wf(b.archive)
                &&& assets_wf(b.entries@)
                &&& appended(Seq::<PkzEntry>::empty(), b.entries@, archive_tokens(b.archive))
                &&& !contains_name(b.entries@, "PKZ-INFO"@)
            },
            Err(_) => true,
        }),
{
    let archive_info = match loader.archive_info() {
        Ok(v) => v,
        Err(e) => return Err(e),
    };
    let comic_count = match loader.comic_count() {
        Ok(v) => v,
        Err(e) => return Err(e),
    };
    if comic_count < 0 {
        return Err(PkzError::Adapter("adapter reported a negative comic count".to_owned()));
    }
    let mut entries: Vec<PkzEntry> = Vec::new();
    let built = match build_comics(loader, comic_count, &mut entries) {
        Ok(v) => v,
        Err(e) => return Err(e),
    };
    let comics = built.0;
    let volumes_total = built.1;
    let chapter_total = built.2;
    let picture_total = built.3;
    let archive = archive_record(
        &archive_info,
        comic_count,
        volumes_total,
        chapter_total,
        picture_total,
        comics,
    );
    proof {
        assert(opt_token(archive.cover_path@) =~= Seq::<Seq<char>>::empty());
        assert(opt_token(archive.author_avatar_path@) =~= Seq::<Seq<char>>::empty());
        assert(archive_tokens(archive) =~= comics_tokens(archive.comics@));
        reveal_strlit("PKZ-INFO");
        assert(!contains_name(entries@, "PKZ-INFO"@)) by {
            if contains_name(entries@, "PKZ-INFO"@) {
                let i = choose|i: int|
                    0 <= i < entries@.len() && entries@[i].name@ == "PKZ-INFO"@;
                assert(entries@[i].name@.len() == 36);
            }
        }
    }
    Ok(PkzBuild { archive, entries })
}

} // verus!
