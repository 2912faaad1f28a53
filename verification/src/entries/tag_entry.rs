//! Single tag entry object.

use crate::table::{check_table, field_ref, field_string, field_u8, read_vec_refs};
use crate::table::{spec_field_ref, spec_read_vec_refs, spec_vtable};
use crate::table::{spec_field_string, spec_field_u8, spec_table_valid};
use vstd::prelude::*;

verus! {

/// One tag (or language) that file entries can reference by bit index.
///
/// The name is either a locale tag in the language-region form with
/// underscores, or a non-locale feature flag.
#[derive(Debug, Default, Clone, PartialEq, Eq)]
pub struct TagEntry {
    /// Id of the tag entry; bit `i` of a file's bitmask refers to id `i + 1`.
    pub id: u8,
    /// Name of the tag entry.
    pub name: String,
}

/// Mathematical image of a [`TagEntry`].
pub struct TagEntryV {
    /// Id of the tag entry.
    pub id: u8,
    /// Name of the tag entry.
    pub name: Seq<char>,
}

impl View for TagEntry {
    type V = TagEntryV;

    open spec fn view(&self) -> TagEntryV {
        TagEntryV { id: self.id, name: self.name@ }
    }
}

/// The views of a sequence of tag entries.
pub open spec fn tag_views(s: Seq<TagEntry>) -> Seq<TagEntryV> {
    s.map_values(|e: TagEntry| e@)
}

/// What reading a tag row from the table at `t` returns: the id defaulting
/// to 0 and the name defaulting to empty when absent.
pub open spec fn spec_read_tag(b: Seq<u8>, t: int) -> Option<TagEntryV> {
    if !spec_table_valid(b, t) {
        None
    } else {
        match (spec_field_u8(b, t, 0, 0), spec_field_string(b, t, 1)) {
            (Some(id), Some(name)) => Some(TagEntryV { id, name }),
            _ => None,
        }
    }
}

impl TagEntry {
    /// Reads one tag row from the table at `t`.
    pub(crate) fn read(b: &[u8], t: usize) -> (r: Option<TagEntry>)
        requires
            b@.len() <= u32::MAX,
        ensures
            match r {
                Option::Some(e) => spec_read_tag(b@, t as int) == Some(e@),
                Option::None => spec_read_tag(b@, t as int) is None,
            },
    {
        let v: usize = match check_table(b, t) {
            Option::Some(v) => v,
            Option::None => return None,
        };
        let id: u8 = match field_u8(b, t, v, 0, 0) {
            Option::Some(x) => x,
            Option::None => return None,
        };
        let name: String = match field_string(b, t, v, 1) {
            Option::Some(x) => x,
            Option::None => return None,
        };
        Some(TagEntry { id, name })
    }
}


/// What reading the tag vector at `p` returns: every element read
/// as a row, or `None` as soon as any element is invalid.
pub open spec fn spec_read_tags(b: Seq<u8>, p: int) -> Option<Seq<TagEntryV>> {
    match spec_read_vec_refs(b, p) {
        Option::None => None,
        Option::Some(es) => {
            if forall|k: int| 0 <= k < es.len() ==> (#[trigger] spec_read_tag(b, es[k])) is Some {
                Some(Seq::new(es.len(), |k: int| spec_read_tag(b, es[k]).unwrap()))
            } else {
                None
            }
        },
    }
}

/// The tag-vector field `i` of the table at `t`; absent reads as
/// empty.
pub open spec fn spec_field_tags(b: Seq<u8>, t: int, i: int) -> Option<Seq<TagEntryV>>
    recommends
        spec_table_valid(b, t),
{
    match spec_field_ref(b, t, i) {
        Option::None => None,
        Option::Some(Option::None) => Some(Seq::empty()),
        Option::Some(Option::Some(p)) => spec_read_tags(b, p),
    }
}

/// Reads the tag vector at `p`.
pub(crate) fn read_tags(b: &[u8], p: usize) -> (r: Option<Vec<TagEntry>>)
    requires
        b@.len() <= u32::MAX,
    ensures
        match r {
            Option::Some(out) => spec_read_tags(b@, p as int) == Some(tag_views(out@)),
            Option::None => spec_read_tags(b@, p as int) is None,
        },
{
    let refs: Vec<usize> = match read_vec_refs(b, p) {
        Option::Some(v) => v,
        Option::None => return None,
    };
    let ghost es: Seq<int> = spec_read_vec_refs(b@, p as int).unwrap();
    let n: usize = refs.len();
    let mut out: Vec<TagEntry> = Vec::new();
    let mut k: usize = 0;
    while k < n
        invariant
            b@.len() <= u32::MAX,
            k <= n,
            n == refs@.len(),
            spec_read_vec_refs(b@, p as int) == Some(es),
            es.len() == refs@.len(),
            forall|j: int| 0 <= j < refs@.len() ==> refs@[j] as int == es[j],
            out@.len() == k,
            forall|j: int| 0 <= j < k ==> (#[trigger] spec_read_tag(b@, es[j])) == Some(out@[j]@),
        decreases n - k,
    {
        let t: usize = refs[k];
        let e: TagEntry = match TagEntry::read(b, t) {
            Option::Some(e) => e,
            Option::None => {
                proof {
                    assert(spec_read_tag(b@, es[k as int]) is None);
                }
                return None;
            },
        };
        out.push(e);
        k = k + 1;
    }
    proof {
        assert(tag_views(out@) =~= Seq::new(es.len(), |j: int| spec_read_tag(b@, es[j]).unwrap()));
    }
    Some(out)
}

/// Reads the tag-vector field `i` of the table at `t`.
pub(crate) fn field_tags(b: &[u8], t: usize, v: usize, i: u16) -> (r: Option<Vec<TagEntry>>)
    requires
        b@.len() <= u32::MAX,
        spec_table_valid(b@, t as int),
        v == spec_vtable(b@, t as int),
    ensures
        match r {
            Option::Some(out) => spec_field_tags(b@, t as int, i as int) == Some(tag_views(out@)),
            Option::None => spec_field_tags(b@, t as int, i as int) is None,
        },
{
    match field_ref(b, t, v, i) {
        Option::None => None,
        Option::Some(Option::None) => {
            proof {
                assert(tag_views(Seq::<TagEntry>::empty()) =~= Seq::<TagEntryV>::empty());
            }
            Some(Vec::new())
        },
        Option::Some(Option::Some(p)) => read_tags(b, p),
    }
}

} // verus!
