//! The container image: the ordered list of named entries a build produces
//! and a reader consumes. Each entry stores its payload already passed
//! through the entry codec; reading an entry undoes the codec. The physical
//! archive file holds exactly these entries, so the host that flushes or
//! opens one only moves bytes, never transforms them.

use vstd::prelude::*;

use crate::codec::coded;
use crate::codec::encode;
use crate::codec::decode;
use crate::codec::lemma_codec_round_trip;
use crate::errors::PkzError;

verus! {

/// One named binary entry; `data` holds the stored (codec-transformed) bytes.
#[derive(Debug, Clone, PartialEq)]
pub struct PkzEntry {
    pub name: String,
    pub data: Vec<u8>,
}

/// The reserved name of the single metadata index entry.
pub fn pkz_info_name() -> (r: &'static str)
    ensures
        r@ == "PKZ-INFO"@,
{
    "PKZ-INFO"
}

/// No two entries share a name.
pub open spec fn names_distinct(es: Seq<PkzEntry>) -> bool {
    forall|i: int, j: int| 0 <= i < j < es.len() ==> es[i].name@ != es[j].name@
}

/// Some entry is stored under `name`.
pub open spec fn contains_name(es: Seq<PkzEntry>, name: Seq<char>) -> bool {
    exists|i: int| 0 <= i < es.len() && es[i].name@ == name
}

/// An image that holds asset entries only: names are pairwise distinct and
/// each is a 36-character token, so the reserved metadata name is still free.
pub open spec fn assets_wf(es: Seq<PkzEntry>) -> bool {
    &&& names_distinct(es)
    &&& forall|i: int| 0 <= i < es.len() ==> (#[trigger] es[i].name@).len() == 36
}

/// What looking up `name` reads back: the codec-inverted payload of the
/// first entry stored under that name, or nothing when the name is absent.
pub open spec fn read_spec(es: Seq<PkzEntry>, name: Seq<char>) -> Option<Seq<u8>>
    decreases es.len(),
{
    if es.len() == 0 {
        None::<Seq<u8>>
    } else if es[0].name@ == name {
        Some(coded(es[0].data@))
    } else {
        read_spec(es.drop_first(), name)
    }
}

/// A lookup finds nothing exactly when no entry carries the name.
pub proof fn lemma_read_spec_none(es: Seq<PkzEntry>, name: Seq<char>)
    ensures
        (read_spec(es, name) is None) <==> !contains_name(es, name),
    decreases es.len(),
{
    if es.len() > 0 {
        lemma_read_spec_none(es.drop_first(), name);
        if es[0].name@ != name {
            assert(contains_name(es, name) ==> contains_name(es.drop_first(), name)) by {
                if contains_name(es, name) {
                    let i = choose|i: int| 0 <= i < es.len() && es[i].name@ == name;
                    assert(es.drop_first()[i - 1].name@ == name);
                }
            }
            assert(contains_name(es.drop_first(), name) ==> contains_name(es, name)) by {
                if contains_name(es.drop_first(), name) {
                    let i = choose|i: int|
                        0 <= i < es.drop_first().len() && es.drop_first()[i].name@ == name;
                    assert(es[i + 1].name@ == name);
                }
            }
        }
    }
}

/// Appending an entry under a fresh name makes that name read back as the
/// entry's codec-inverted payload.
pub proof fn lemma_read_spec_push_fresh(pre: Seq<PkzEntry>, e: PkzEntry)
    requires
        !contains_name(pre, e.name@),
    ensures
        read_spec(pre.push(e), e.name@) == Some(coded(e.data@)),
    decreases pre.len(),
{
    if pre.len() == 0 {
        assert(pre.push(e)[0] == e);
    } else {
        assert(pre.push(e)[0] == pre[0]);
        assert(pre[0].name@ != e.name@);
        assert(!contains_name(pre.drop_first(), e.name@)) by {
            if contains_name(pre.drop_first(), e.name@) {
                let i = choose|i: int|
                    0 <= i < pre.drop_first().len() && pre.drop_first()[i].name@ == e.name@;
                assert(pre[i + 1].name@ == e.name@);
            }
        }
        lemma_read_spec_push_fresh(pre.drop_first(), e);
        assert(pre.push(e).drop_first() =~= pre.drop_first().push(e));
    }
}

/// Appending an entry leaves every other name's lookup unchanged.
pub proof fn lemma_read_spec_push_other(pre: Seq<PkzEntry>, e: PkzEntry, name: Seq<char>)
    requires
        name != e.name@,
    ensures
        read_spec(pre.push(e), name) == read_spec(pre, name),
    decreases pre.len(),
{
    if pre.len() == 0 {
        assert(pre.push(e)[0] == e);
        assert(pre.push(e).drop_first() =~= Seq::<PkzEntry>::empty());
        assert(read_spec(pre.push(e), name) == read_spec(Seq::<PkzEntry>::empty(), name));
        assert(read_spec(Seq::<PkzEntry>::empty(), name) is None);
    } else {
        assert(pre.push(e)[0] == pre[0]);
        if pre[0].name@ != name {
            lemma_read_spec_push_other(pre.drop_first(), e, name);
            assert(pre.push(e).drop_first() =~= pre.drop_first().push(e));
            assert(read_spec(pre.push(e), name) == read_spec(pre.drop_first().push(e), name));
            assert(read_spec(pre, name) == read_spec(pre.drop_first(), name));
        } else {
            assert(read_spec(pre.push(e), name) == Some(coded(pre[0].data@)));
            assert(read_spec(pre, name) == Some(coded(pre[0].data@)));
        }
    }
}

/// Round trip of one stored binary: a payload written through the codec
/// under a fresh name reads back byte for byte, whatever was in the image
/// before, and every other name still reads as it did.
pub proof fn lemma_entry_round_trip(pre: Seq<PkzEntry>, e: PkzEntry, data: Seq<u8>)
    requires
        !contains_name(pre, e.name@),
        e.data@ == coded(data),
    ensures
        read_spec(pre.push(e), e.name@) == Some(data),
        forall|n: Seq<char>| n != e.name@
            ==> #[trigger] read_spec(pre.push(e), n) == read_spec(pre, n),
{
    lemma_read_spec_push_fresh(pre, e);
    lemma_codec_round_trip(data);
    assert forall|n: Seq<char>| n != e.name@ implies #[trigger] read_spec(pre.push(e), n)
        == read_spec(pre, n) by {
        lemma_read_spec_push_other(pre, e, n);
    }
}

/// `post` extends `pre` with entries whose names are exactly `toks`, in order.
pub open spec fn appended(pre: Seq<PkzEntry>, post: Seq<PkzEntry>, toks: Seq<Seq<char>>) -> bool {
    &&& post.len() == pre.len() + toks.len()
    &&& forall|i: int| 0 <= i < pre.len() ==> post[i] == pre[i]
    &&& forall|i: int| 0 <= i < toks.len() ==> post[pre.len() + i].name@ == toks[i]
}

/// Two successive extensions make one extension by the concatenated tokens.
pub proof fn lemma_appended_trans(
    e0: Seq<PkzEntry>,
    e1: Seq<PkzEntry>,
    e2: Seq<PkzEntry>,
    t1: Seq<Seq<char>>,
    t2: Seq<Seq<char>>,
)
    requires
        appended(e0, e1, t1),
        appended(e1, e2, t2),
    ensures
        appended(e0, e2, t1 + t2),
{
    assert forall|i: int| 0 <= i < (t1 + t2).len() implies e2[e0.len() + i].name@ == (t1 + t2)[i] by {
        if i < t1.len() {
            assert(e2[e0.len() + i] == e1[e0.len() + i]);
        } else {
            assert(e2[e0.len() + i].name@ == t2[i - t1.len()]);
        }
    }
}

/// Relies on `uuid::Uuid::new_v4` and its `Display` form: a fresh random
/// version-4 UUID rendered as the fixed 36-character hyphenated text.
#[verifier::external_body]
fn fresh_token() -> (r: String)
    ensures
        r@.len() == 36,
{
    uuid::Uuid::new_v4().to_string()
}

/// Whether some entry already carries `name`.
fn name_in_use(entries: &Vec<PkzEntry>, name: &String) -> (b: bool)
    ensures
        b == contains_name(entries@, name@),
{
    let mut i: usize = 0;
    while i < entries.len()
        invariant
            i <= entries@.len(),
            forall|j: int| 0 <= j < i ==> entries@[j].name@ != name@,
        decreases entries@.len() - i,
    {
        if entries[i].name == *name {
            return true;
        }
        i = i + 1;
    }
    false
}

/// Stores one binary payload under a freshly drawn token: the payload goes
/// through the entry codec, and the returned token is what the caller
/// records in the corresponding `*_path` field. Fails only when the fresh
/// token collides with a name already in use.
pub fn store_entry(entries: &mut Vec<PkzEntry>, data: &Vec<u8>) -> (r: Result<String, PkzError>)
    requires
        assets_wf(old(entries)@),
    ensures
        (match r {
            Ok(tok) => {
                &&& assets_wf(final(entries)@)
                &&& tok@.len() == 36
                &&& final(entries)@.len() == old(entries)@.len() + 1
                &&& forall|i: int| 0 <= i < old(entries)@.len()
                    ==> final(entries)@[i] == old(entries)@[i]
                &&& final(entries)@.last().name@ == tok@
                &&& final(entries)@.last().data@ == coded(data@)
                &&& !contains_name(old(entries)@, tok@)
            },
            Err(e) => e is ContainerIo && final(entries)@ == old(entries)@,
        }),
{
    let token = fresh_token();
    if name_in_use(entries, &token) {
        return Err(PkzError::ContainerIo("fresh entry token already in use".to_owned()));
    }
    let stored = encode(data);
    let entry = PkzEntry { name: token.clone(), data: stored };
    entries.push(entry);
    proof {
        assert forall|i: int, j: int|
            0 <= i < j < entries@.len() implies entries@[i].name@ != entries@[j].name@ by {
            if j == entries@.len() - 1 {
                assert(!contains_name(old(entries)@, token@));
                assert(old(entries)@[i].name@ != token@);
            }
        }
    }
    Ok(token)
}

/// Stores an optional cover or avatar payload: an absent asset leaves the
/// image unchanged and yields the empty token; a present one is stored as by
/// [`store_entry`]. The returned token is empty if and only if the asset was
/// absent.
pub fn store_optional(entries: &mut Vec<PkzEntry>, data: &Option<Vec<u8>>) -> (r: Result<
    String,
    PkzError,
>)
    requires
        assets_wf(old(entries)@),
    ensures
        (match r {
            Ok(tok) => {
                &&& assets_wf(final(entries)@)
                &&& appended(old(entries)@, final(entries)@, crate::entities::opt_token(tok@))
                &&& (tok@.len() == 0 <==> data is None)
                &&& (tok@.len() == 0 || tok@.len() == 36)
                &&& (data matches Some(d)
                    ==> final(entries)@.last().data@ == coded(d@))
            },
            Err(e) => e is ContainerIo && final(entries)@ == old(entries)@,
        }),
{
    match data {
        None => {
            let tok = String::new();
            Ok(tok)
        },
        Some(d) => {
            match store_entry(entries, d) {
                Ok(tok) => Ok(tok),
                Err(e) => Err(e),
            }
        },
    }
}

/// Stores the metadata index entry under the reserved name, through the
/// codec. Succeeds exactly when no metadata entry is present yet; the image
/// is unchanged on failure.
pub fn store_metadata(entries: &mut Vec<PkzEntry>, data: &Vec<u8>) -> (r: Result<(), PkzError>)
    requires
        names_distinct(old(entries)@),
    ensures
        (match r {
            Ok(_) => {
                &&& !contains_name(old(entries)@, "PKZ-INFO"@)
                &&& names_distinct(final(entries)@)
                &&& final(entries)@.len() == old(entries)@.len() + 1
                &&& forall|i: int| 0 <= i < old(entries)@.len()
                    ==> final(entries)@[i] == old(entries)@[i]
                &&& final(entries)@.last().name@ == "PKZ-INFO"@
                &&& final(entries)@.last().data@ == coded(data@)
            },
            Err(e) => {
                &&& e is ContainerIo
                &&& contains_name(old(entries)@, "PKZ-INFO"@)
                &&& final(entries)@ == old(entries)@
            },
        }),
{
    let name = pkz_info_name().to_owned();
    if name_in_use(entries, &name) {
        return Err(PkzError::ContainerIo("metadata entry already present".to_owned()));
    }
    let stored = encode(data);
    let entry = PkzEntry { name, data: stored };
    entries.push(entry);
    proof {
        assert forall|i: int, j: int|
            0 <= i < j < entries@.len() implies entries@[i].name@ != entries@[j].name@ by {
            if j == entries@.len() - 1 {
                assert(old(entries)@[i].name@ != "PKZ-INFO"@);
            }
        }
    }
    Ok(())
}

/// Looks `name` up by exact match and returns the entry's logical bytes,
/// the stored payload passed back through the codec. Fails with
/// [`PkzError::NotFound`] exactly when no entry carries the name; nothing
/// else is touched, so no other entry's readability is affected.
pub fn read_entry(entries: &Vec<PkzEntry>, name: &str) -> (r: Result<Vec<u8>, PkzError>)
    ensures
        (match r {
            Ok(d) => read_spec(entries@, name@) == Some(d@),
            Err(e) => e == PkzError::NotFound && !contains_name(entries@, name@),
        }),
{
    let key: String = name.to_owned();
    let mut i: usize = 0;
    proof {
        assert(entries@.skip(0) =~= entries@);
    }
    while i < entries.len()
        invariant
            i <= entries@.len(),
            key@ == name@,
            read_spec(entries@, name@) == read_spec(entries@.skip(i as int), name@),
        decreases entries@.len() - i,
    {
        proof {
            assert(entries@.skip(i as int)[0] == entries@[i as int]);
        }
        if entries[i].name == key {
            let d = decode(&entries[i].data);
            return Ok(d);
        }
        proof {
            assert(entries@.skip(i as int).drop_first() =~= entries@.skip(i as int + 1));
        }
        i = i + 1;
    }
    proof {
        assert(entries@.skip(entries@.len() as int) =~= Seq::<PkzEntry>::empty());
        lemma_read_spec_none(entries@, name@);
    }
    Err(PkzError::NotFound)
}

/// Reads the metadata index entry: the logical bytes stored under the
/// reserved name, with the codec undone. Fails with [`PkzError::NotFound`]
/// exactly when the image holds no metadata entry.
pub fn read_metadata_bytes(entries: &Vec<PkzEntry>) -> (r: Result<Vec<u8>, PkzError>)
    ensures
        (match r {
            Ok(d) => read_spec(entries@, "PKZ-INFO"@) == Some(d@),
            Err(e) => e == PkzError::NotFound && !contains_name(entries@, "PKZ-INFO"@),
        }),
{
    read_entry(entries, pkz_info_name())
}

} // verus!
