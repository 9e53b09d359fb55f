use vstd::prelude::*;
use crate::steps::texts;
use crate::text::{contains_run, contains_str, extension, lemma_last_index_of, rfind};

verus! {

pub open spec fn is_image_extension(e: Seq<char>) -> bool {
    e == "jpg"@ || e == "jpeg"@ || e == "png"@ || e == "webp"@
}

/// Whether a directory entry is an intermediate file: a full-length
/// download (its name holds `---FULL`) or an image.
pub open spec fn is_transient(name: Seq<char>) -> bool {
    contains_run(name, "---FULL"@) || match extension(name) {
        Some(e) => is_image_extension(e),
        None => false,
    }
}

/// The transient entries of `names`, in their order.
pub open spec fn transient_only(names: Seq<Seq<char>>) -> Seq<Seq<char>>
    decreases names.len(),
{
    if names.len() == 0 {
        names
    } else if is_transient(names.last()) {
        transient_only(names.drop_last()).push(names.last())
    } else {
        transient_only(names.drop_last())
    }
}

fn extension_of(p: &str) -> (r: Option<String>)
    ensures
        match r {
            Some(e) => extension(p@) == Some(e@),
            None => extension(p@).is_none(),
        },
{
    proof {
        lemma_last_index_of(p@, '.');
        lemma_last_index_of(p@, '/');
    }
    let n = p.unicode_len();
    match rfind(p, '.') {
        Some(d) => {
            let ext = match rfind(p, '/') {
                Some(sl) => d > sl && d - sl > 1,
                None => d > 0,
            };
            if ext {
                Some(String::from_str(p.substring_char(d + 1, n)))
            } else {
                None
            }
        },
        None => None,
    }
}

/// Whether the entry `name` is to be removed after assembly.
pub fn is_transient_name(name: &str) -> (r: bool)
    ensures
        r == is_transient(name@),
{
    if contains_str(name, "---FULL") {
        return true;
    }
    match extension_of(name) {
        Some(e) => {
            e == String::from_str("jpg") || e == String::from_str("jpeg") || e == String::from_str(
                "png",
            ) || e == String::from_str("webp")
        },
        None => false,
    }
}

/// Of the entries of a directory, the ones that the cleanup removes: every
/// full-length download and every image, in the order given.
pub fn cleanup(entries: &Vec<String>) -> (r: Vec<String>)
    ensures
        texts(r@) == transient_only(texts(entries@)),
{
    let mut r: Vec<String> = Vec::new();
    let mut i: usize = 0;
    while i < entries.len()
        invariant
            i <= entries@.len(),
            texts(r@) == transient_only(texts(entries@.subrange(0, i as int))),
        decreases entries@.len() - i,
    {
        let ghost before = r@;
        assert(texts(entries@.subrange(0, i + 1)).drop_last() =~= texts(
            entries@.subrange(0, i as int),
        ));
        if is_transient_name(entries[i].as_str()) {
            r.push(entries[i].clone());
            assert(texts(r@) =~= texts(before).push(entries@[i as int]@));
        }
        i = i + 1;
    }
    assert(entries@.subrange(0, entries@.len() as int) =~= entries@);
    r
}

} // verus!
