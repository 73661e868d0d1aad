//! The entity model: plain data records for the five entity levels —
//! archive, comic, volume, chapter, picture — and the lighter "Info"
//! records that a source adapter produces for each level.
//!
//! The records enforce no invariant themselves; the builder establishes the
//! well-formedness stated here ([`archive_wf`]): `idx` fields follow sibling
//! position, every aggregate count field equals the sum of the corresponding
//! counts across the direct children, and `*_path` fields hold the token of
//! exactly one container entry, or are empty when no such asset exists.

use vstd::prelude::*;

verus! {

/// Root record: the whole packaged library and its nested tree.
#[derive(Debug, Clone, PartialEq, Default)]
pub struct Archive {
    pub name: String,
    pub author: String,
    pub description: String,
    pub cover_path: String,
    pub author_avatar_path: String,
    pub comic_count: i64,
    pub volumes_count: i64,
    pub chapter_count: i64,
    pub picture_count: i64,
    pub comics: Vec<Comic>,
}

/// Adapter output for the archive level.
#[derive(Debug, Clone, PartialEq, Default)]
pub struct ArchiveInfo {
    pub name: String,
    pub author: String,
    pub description: String,
}

/// One comic of the archive.
#[derive(Debug, Clone, PartialEq, Default)]
pub struct Comic {
    pub id: String,
    pub title: String,
    pub categories: Vec<String>,
    pub tags: Vec<String>,
    pub author_id: String,
    pub author: String,
    pub updated_at: i64,
    pub created_at: i64,
    pub description: String,
    pub chinese_team: String,
    pub finished: bool,
    pub idx: i64,
    pub cover_path: String,
    pub author_avatar_path: String,
    pub volumes_count: i64,
    pub chapter_count: i64,
    pub picture_count: i64,
    pub volumes: Vec<Volume>,
}

/// Adapter output for the comic level.
#[derive(Debug, Clone, PartialEq, Default)]
pub struct ComicInfo {
    pub id: String,
    pub title: String,
    pub categories: Vec<String>,
    pub tags: Vec<String>,
    pub author_id: String,
    pub author: String,
    pub updated_at: i64,
    pub created_at: i64,
    pub description: String,
    pub chinese_team: String,
    pub finished: bool,
}

/// One volume of a comic.
#[derive(Debug, Clone, PartialEq, Default)]
pub struct Volume {
    pub id: String,
    pub title: String,
    pub updated_at: i64,
    pub created_at: i64,
    pub idx: i64,
    pub cover_path: String,
    pub chapter_count: i64,
    pub picture_count: i64,
    pub chapters: Vec<Chapter>,
}

/// Adapter output for the volume level.
#[derive(Debug, Clone, PartialEq, Default)]
pub struct VolumeInfo {
    pub id: String,
    pub title: String,
    pub updated_at: i64,
    pub created_at: i64,
}

/// One chapter of a volume.
#[derive(Debug, Clone, PartialEq, Default)]
pub struct Chapter {
    pub id: String,
    pub title: String,
    pub updated_at: i64,
    pub created_at: i64,
    pub idx: i64,
    pub cover_path: String,
    pub picture_count: i64,
    pub pictures: Vec<Picture>,
}

/// Adapter output for the chapter level.
#[derive(Debug, Clone, PartialEq, Default)]
pub struct ChapterInfo {
    pub id: String,
    pub title: String,
    pub updated_at: i64,
    pub created_at: i64,
}

/// One picture of a chapter; its binary content is a container entry under
/// the token held by `picture_path`.
#[derive(Debug, Clone, PartialEq, Default)]
pub struct Picture {
    pub id: String,
    pub title: String,
    pub width: i64,
    pub height: i64,
    pub format: String,
    pub idx: i64,
    pub picture_path: String,
}

/// Adapter output for the picture level.
#[derive(Debug, Clone, PartialEq, Default)]
pub struct PictureInfo {
    pub id: String,
    pub title: String,
    pub width: i64,
    pub height: i64,
    pub format: String,
}

/// The token list a single optional asset path contributes: nothing when the
/// path is empty, the token itself when an asset was stored under it.
pub open spec fn opt_token(p: Seq<char>) -> Seq<Seq<char>> {
    if p.len() == 0 {
        seq![]
    } else {
        seq![p]
    }
}

/// A picture standing at sibling position `idx`: its index matches and its
/// mandatory binary content was stored under a (non-empty) token.
pub open spec fn picture_wf(p: Picture, idx: int) -> bool {
    &&& p.idx == idx
    &&& p.picture_path@.len() > 0
}

pub open spec fn pictures_wf(ps: Seq<Picture>) -> bool {
    forall|i: int| 0 <= i < ps.len() ==> picture_wf(#[trigger] ps[i], i)
}

/// The entry tokens a picture sequence contributes, in traversal order.
pub open spec fn pictures_tokens(ps: Seq<Picture>) -> Seq<Seq<char>>
    decreases ps.len(),
{
    if ps.len() == 0 {
        seq![]
    } else {
        pictures_tokens(ps.drop_last()) + seq![ps.last().picture_path@]
    }
}

/// A chapter standing at sibling position `idx`: its index matches, its
/// picture count equals the number of its pictures, and the pictures are
/// well-formed in order.
pub open spec fn chapter_wf(c: Chapter, idx: int) -> bool {
    &&& c.idx == idx
    &&& c.picture_count == c.pictures@.len()
    &&& pictures_wf(c.pictures@)
}

pub open spec fn chapters_wf(cs: Seq<Chapter>) -> bool {
    forall|i: int| 0 <= i < cs.len() ==> chapter_wf(#[trigger] cs[i], i)
}

/// The entry tokens one chapter contributes: its optional cover first, then
/// its pictures.
pub open spec fn chapter_tokens(c: Chapter) -> Seq<Seq<char>> {
    opt_token(c.cover_path@) + pictures_tokens(c.pictures@)
}

pub open spec fn chapters_tokens(cs: Seq<Chapter>) -> Seq<Seq<char>>
    decreases cs.len(),
{
    if cs.len() == 0 {
        seq![]
    } else {
        chapters_tokens(cs.drop_last()) + chapter_tokens(cs.last())
    }
}

/// Sum of the picture counts across a chapter sequence.
pub open spec fn sum_chapter_pictures(cs: Seq<Chapter>) -> int
    decreases cs.len(),
{
    if cs.len() == 0 {
        0
    } else {
        sum_chapter_pictures(cs.drop_last()) + cs.last().picture_count
    }
}

/// A volume standing at sibling position `idx`: its index matches, its
/// chapter count equals the number of its chapters, its picture count is the
/// sum over them, and the chapters are well-formed in order.
pub open spec fn volume_wf(v: Volume, idx: int) -> bool {
    &&& v.idx == idx
    &&& v.chapter_count == v.chapters@.len()
    &&& v.picture_count == sum_chapter_pictures(v.chapters@)
    &&& chapters_wf(v.chapters@)
}

pub open spec fn volumes_wf(vs: Seq<Volume>) -> bool {
    forall|i: int| 0 <= i < vs.len() ==> volume_wf(#[trigger] vs[i], i)
}

/// The entry tokens one volume contributes: its optional cover first, then
/// its chapters in order.
pub open spec fn volume_tokens(v: Volume) -> Seq<Seq<char>> {
    opt_token(v.cover_path@) + chapters_tokens(v.chapters@)
}

pub open spec fn volumes_tokens(vs: Seq<Volume>) -> Seq<Seq<char>>
    decreases vs.len(),
{
    if vs.len() == 0 {
        seq![]
    } else {
        volumes_tokens(vs.drop_last()) + volume_tokens(vs.last())
    }
}

/// Sum of the chapter counts across a volume sequence.
pub open spec fn sum_volume_chapters(vs: Seq<Volume>) -> int
    decreases vs.len(),
{
    if vs.len() == 0 {
        0
    } else {
        sum_volume_chapters(vs.drop_last()) + vs.last().chapter_count
    }
}

/// Sum of the picture counts across a volume sequence.
pub open spec fn sum_volume_pictures(vs: Seq<Volume>) -> int
    decreases vs.len(),
{
    if vs.len() == 0 {
        0
    } else {
        sum_volume_pictures(vs.drop_last()) + vs.last().picture_count
    }
}

/// A comic standing at sibling position `idx`: its index matches, its volume
/// count equals the number of its volumes, its chapter and picture counts are
/// the sums over them, and the volumes are well-formed in order.
pub open spec fn comic_wf(c: Comic, idx: int) -> bool {
    &&& c.idx == idx
    &&& c.volumes_count == c.volumes@.len()
    &&& c.chapter_count == sum_volume_chapters(c.volumes@)
    &&& c.picture_count == sum_volume_pictures(c.volumes@)
    &&& volumes_wf(c.volumes@)
}

pub open spec fn comics_wf(cs: Seq<Comic>) -> bool {
    forall|i: int| 0 <= i < cs.len() ==> comic_wf(#[trigger] cs[i], i)
}

/// The entry tokens one comic contributes: its optional cover, then its
/// optional author avatar, then its volumes in order.
pub open spec fn comic_tokens(c: Comic) -> Seq<Seq<char>> {
    opt_token(c.cover_path@) + opt_token(c.author_avatar_path@) + volumes_tokens(c.volumes@)
}

pub open spec fn comics_tokens(cs: Seq<Comic>) -> Seq<Seq<char>>
    decreases cs.len(),
{
    if cs.len() == 0 {
        seq![]
    } else {
        comics_tokens(cs.drop_last()) + comic_tokens(cs.last())
    }
}

/// Sum of the volume counts across a comic sequence.
pub open spec fn sum_comic_volumes(cs: Seq<Comic>) -> int
    decreases cs.len(),
{
    if cs.len() == 0 {
        0
    } else {
        sum_comic_volumes(cs.drop_last()) + cs.last().volumes_count
    }
}

/// Sum of the chapter counts across a comic sequence.
pub open spec fn sum_comic_chapters(cs: Seq<Comic>) -> int
    decreases cs.len(),
{
    if cs.len() == 0 {
        0
    } else {
        sum_comic_chapters(cs.drop_last()) + cs.last().chapter_count
    }
}

/// Sum of the picture counts across a comic sequence.
pub open spec fn sum_comic_pictures(cs: Seq<Comic>) -> int
    decreases cs.len(),
{
    if cs.len() == 0 {
        0
    } else {
        sum_comic_pictures(cs.drop_last()) + cs.last().picture_count
    }
}

/// A fully built archive: the comic count equals the number of comics, every
/// archive-level aggregate equals the sum of the corresponding counts across
/// its direct children, the comics are well-formed in order, and the
/// archive-level path fields are empty (the builder stores no archive-level
/// assets).
pub open spec fn archive_wf(a: Archive) -> bool {
    &&& a.comic_count == a.comics@.len()
    &&& a.volumes_count == sum_comic_volumes(a.comics@)
    &&& a.chapter_count == sum_comic_chapters(a.comics@)
    &&& a.picture_count == sum_comic_pictures(a.comics@)
    &&& comics_wf(a.comics@)
    &&& a.cover_path@.len() == 0
    &&& a.author_avatar_path@.len() == 0
}

/// The entry tokens of the whole archive tree, in the order the builder
/// stores them.
pub open spec fn archive_tokens(a: Archive) -> Seq<Seq<char>> {
    opt_token(a.cover_path@) + opt_token(a.author_avatar_path@) + comics_tokens(a.comics@)
}

pub proof fn lemma_pictures_tokens_push(ps: Seq<Picture>, p: Picture)
    ensures
        pictures_tokens(ps.push(p)) == pictures_tokens(ps) + seq![p.picture_path@],
{
    assert(ps.push(p).drop_last() =~= ps);
}

pub proof fn lemma_chapters_tokens_push(cs: Seq<Chapter>, c: Chapter)
    ensures
        chapters_tokens(cs.push(c)) == chapters_tokens(cs) + chapter_tokens(c),
{
    assert(cs.push(c).drop_last() =~= cs);
}

pub proof fn lemma_volumes_tokens_push(vs: Seq<Volume>, v: Volume)
    ensures
        volumes_tokens(vs.push(v)) == volumes_tokens(vs) + volume_tokens(v),
{
    assert(vs.push(v).drop_last() =~= vs);
}

pub proof fn lemma_comics_tokens_push(cs: Seq<Comic>, c: Comic)
    ensures
        comics_tokens(cs.push(c)) == comics_tokens(cs) + comic_tokens(c),
{
    assert(cs.push(c).drop_last() =~= cs);
}

pub proof fn lemma_sum_chapter_pictures_push(cs: Seq<Chapter>, c: Chapter)
    ensures
        sum_chapter_pictures(cs.push(c)) == sum_chapter_pictures(cs) + c.picture_count,
{
    assert(cs.push(c).drop_last() =~= cs);
}

pub proof fn lemma_sum_volume_chapters_push(vs: Seq<Volume>, v: Volume)
    ensures
        sum_volume_chapters(vs.push(v)) == sum_volume_chapters(vs) + v.chapter_count,
{
    assert(vs.push(v).drop_last() =~= vs);
}

pub proof fn lemma_sum_volume_pictures_push(vs: Seq<Volume>, v: Volume)
    ensures
        sum_volume_pictures(vs.push(v)) == sum_volume_pictures(vs) + v.picture_count,
{
    assert(vs.push(v).drop_last() =~= vs);
}

pub proof fn lemma_sum_comic_volumes_push(cs: Seq<Comic>, c: Comic)
    ensures
        sum_comic_volumes(cs.push(c)) == sum_comic_volumes(cs) + c.volumes_count,
{
    assert(cs.push(c).drop_last() =~= cs);
}

pub proof fn lemma_sum_comic_chapters_push(cs: Seq<Comic>, c: Comic)
    ensures
        sum_comic_chapters(cs.push(c)) == sum_comic_chapters(cs) + c.chapter_count,
{
    assert(cs.push(c).drop_last() =~= cs);
}

pub proof fn lemma_sum_comic_pictures_push(cs: Seq<Comic>, c: Comic)
    ensures
        sum_comic_pictures(cs.push(c)) == sum_comic_pictures(cs) + c.picture_count,
{
    assert(cs.push(c).drop_last() =~= cs);
}

pub proof fn lemma_pictures_wf_push(ps: Seq<Picture>, p: Picture)
    requires
        pictures_wf(ps),
        picture_wf(p, ps.len() as int),
    ensures
        pictures_wf(ps.push(p)),
{
    assert forall|i: int| 0 <= i < ps.push(p).len() implies picture_wf(
        #[trigger] ps.push(p)[i],
        i,
    ) by {
        if i < ps.len() {
            assert(ps.push(p)[i] == ps[i]);
        }
    }
}

pub proof fn lemma_chapters_wf_push(cs: Seq<Chapter>, c: Chapter)
    requires
        chapters_wf(cs),
        chapter_wf(c, cs.len() as int),
    ensures
        chapters_wf(cs.push(c)),
{
    assert forall|i: int| 0 <= i < cs.push(c).len() implies chapter_wf(
        #[trigger] cs.push(c)[i],
        i,
    ) by {
        if i < cs.len() {
            assert(cs.push(c)[i] == cs[i]);
        }
    }
}

pub proof fn lemma_volumes_wf_push(vs: Seq<Volume>, v: Volume)
    requires
        volumes_wf(vs),
        volume_wf(v, vs.len() as int),
    ensures
        volumes_wf(vs.push(v)),
{
    assert forall|i: int| 0 <= i < vs.push(v).len() implies volume_wf(
        #[trigger] vs.push(v)[i],
        i,
    ) by {
        if i < vs.len() {
            assert(vs.push(v)[i] == vs[i]);
        }
    }
}

pub proof fn lemma_comics_wf_push(cs: Seq<Comic>, c: Comic)
    requires
        comics_wf(cs),
        comic_wf(c, cs.len() as int),
    ensures
        comics_wf(cs.push(c)),
{
    assert forall|i: int| 0 <= i < cs.push(c).len() implies comic_wf(
        #[trigger] cs.push(c)[i],
        i,
    ) by {
        if i < cs.len() {
            assert(cs.push(c)[i] == cs[i]);
        }
    }
}

} // verus!
