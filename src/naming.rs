use crate::source_type::{file_name_of, file_name_start};
use vstd::prelude::*;

verus! {

/// `s` with every `.` replaced by `_`.
pub open spec fn dots_to_underscores(s: Seq<char>) -> Seq<char> {
    s.map_values(|c: char| if c == '.' { '_' } else { c })
}

/// The collection that the records of the file at `p` are created in: `file_`
/// followed by the file name with its dots turned into underscores.
pub open spec fn collection_name_of(p: Seq<char>) -> Seq<char> {
    "file_"@ + dots_to_underscores(file_name_of(p))
}

/// The target collection depends on the file name alone: two paths that end in
/// the same file name are loaded into the same collection, on every run.
pub proof fn lemma_collection_name_by_file_name(p: Seq<char>, q: Seq<char>)
    requires
        file_name_of(p) == file_name_of(q),
    ensures
        collection_name_of(p) == collection_name_of(q),
{
}

/// Name of the collection that the rows of the file at `path` go to.
pub fn collection_name(path: &str) -> (r: String)
    ensures
        r@ == collection_name_of(path@),
{
    let len = path.unicode_len();
    let start = file_name_start(path);
    let ghost name = file_name_of(path@);
    let mut r = String::from_str("file_");
    let mut i: usize = start;
    while i < len
        invariant
            len == path@.len(),
            start <= i <= len,
            name == path@.subrange(start as int, len as int),
            r@ == "file_"@ + dots_to_underscores(name.subrange(0, i - start)),
        decreases len - i,
    {
        let c = path.get_char(i);
        if c == '.' {
            r.append("_");
        } else {
            r.append(path.substring_char(i, i + 1));
        }
        proof {
            reveal_strlit("_");
            assert(dots_to_underscores(name.subrange(0, i + 1 - start)) =~= dots_to_underscores(
                name.subrange(0, i - start),
            ).push(if c == '.' { '_' } else { c }));
            assert(path@.subrange(i as int, i + 1) =~= seq![c]);
        }
        i = i + 1;
    }
    assert(name.subrange(0, len - start) =~= name);
    r
}

} // verus!
