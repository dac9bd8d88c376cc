use vstd::prelude::*;

verus! {

/// The formats that the loader knows; each one decides which loader handles a
/// file, and it is part of the key under which a load is remembered.
#[derive(Debug, Clone, Copy, PartialEq, Eq, Structural)]
pub enum SurelloSourceType {
    Surql,
    Csv,
    Parquet,
    JsonLines,
}

/// Index just past the last `/` of `p`, or 0 where `p` holds none.
pub open spec fn name_start(p: Seq<char>) -> int
    decreases p.len(),
{
    if p.len() == 0 {
        0
    } else if p.last() == '/' {
        p.len() as int
    } else {
        name_start(p.drop_last())
    }
}

/// The last component of a path to a regular file.
pub open spec fn file_name_of(p: Seq<char>) -> Seq<char> {
    p.subrange(name_start(p), p.len() as int)
}

/// Index of the last `.` in `s`, or -1 where `s` holds none.
pub open spec fn last_dot(s: Seq<char>) -> int
    decreases s.len(),
{
    if s.len() == 0 {
        -1
    } else if s.last() == '.' {
        s.len() - 1
    } else {
        last_dot(s.drop_last())
    }
}

/// What follows the last `.` of the file name; a name without a `.`, or whose
/// only `.` leads it (a hidden file), has no extension.
pub open spec fn extension_of(p: Seq<char>) -> Option<Seq<char>> {
    let n = file_name_of(p);
    let d = last_dot(n);
    if d <= 0 {
        None
    } else {
        Some(n.subrange(d + 1, n.len() as int))
    }
}

/// The source type of a path, by its extension alone.
pub open spec fn classify(p: Seq<char>) -> Option<SurelloSourceType> {
    match extension_of(p) {
        Some(e) => if e == "surql"@ {
            Some(SurelloSourceType::Surql)
        } else if e == "csv"@ {
            Some(SurelloSourceType::Csv)
        } else if e == "jsonl"@ {
            Some(SurelloSourceType::JsonLines)
        } else {
            None
        },
        None => None,
    }
}

/// Each of the three known extensions gives its own source type, every other
/// extension and a missing one give none, and no path is ever classified as
/// the columnar type, which has no loader.
pub proof fn lemma_classification_total(p: Seq<char>)
    ensures
        extension_of(p) == Some("surql"@) ==> classify(p) == Some(SurelloSourceType::Surql),
        extension_of(p) == Some("csv"@) ==> classify(p) == Some(SurelloSourceType::Csv),
        extension_of(p) == Some("jsonl"@) ==> classify(p) == Some(SurelloSourceType::JsonLines),
        classify(p) is Some <==> (extension_of(p) == Some("surql"@) || extension_of(p) == Some(
            "csv"@,
        ) || extension_of(p) == Some("jsonl"@)),
        classify(p) != Some(SurelloSourceType::Parquet),
{
    reveal_strlit("surql");
    reveal_strlit("csv");
    reveal_strlit("jsonl");
    assert("csv"@.len() != "surql"@.len());
    assert("jsonl"@[0] != "surql"@[0]);
    assert("jsonl"@.len() != "csv"@.len());
}

/// Position in `path` where its file name starts.
pub(crate) fn file_name_start(path: &str) -> (r: usize)
    ensures
        r as int == name_start(path@),
        r <= path@.len(),
{
    let len = path.unicode_len();
    let mut start: usize = 0;
    let mut i: usize = 0;
    while i < len
        invariant
            len == path@.len(),
            i <= len,
            start as int == name_start(path@.subrange(0, i as int)),
        decreases len - i,
    {
        let c = path.get_char(i);
        assert(path@.subrange(0, i + 1).drop_last() =~= path@.subrange(0, i as int));
        if c == '/' {
            start = i + 1;
        }
        i = i + 1;
    }
    assert(path@.subrange(0, len as int) =~= path@);
    proof {
        lemma_name_start_bounds(path@);
    }
    start
}

/// The extension of the file that `path` names, as `extension_of` gives it.
pub fn file_extension(path: &str) -> (r: Option<String>)
    ensures
        match r {
            Some(e) => extension_of(path@) == Some(e@),
            None => extension_of(path@) is None,
        },
{
    let len = path.unicode_len();
    let start = file_name_start(path);
    proof {
        assert(0 <= name_start(path@) <= path@.len()) by {
            lemma_name_start_bounds(path@);
        }
    }
    let ghost name = file_name_of(path@);
    let mut found = false;
    let mut dot: usize = 0;
    let mut j: usize = start;
    while j < len
        invariant
            len == path@.len(),
            start <= j <= len,
            name == path@.subrange(start as int, len as int),
            found ==> start <= dot < j && last_dot(name.subrange(0, j - start)) == dot - start,
            !found ==> last_dot(name.subrange(0, j - start)) == -1,
        decreases len - j,
    {
        let c = path.get_char(j);
        assert(name.subrange(0, j + 1 - start).drop_last() =~= name.subrange(0, j - start));
        assert(name[j - start] == c);
        if c == '.' {
            found = true;
            dot = j;
        }
        j = j + 1;
    }
    assert(name.subrange(0, len - start) =~= name);
    if !found || dot == start {
        None
    } else {
        let e = path.substring_char(dot + 1, len);
        assert(e@ =~= name.subrange(dot - start + 1, name.len() as int));
        Some(String::from_str(e))
    }
}

proof fn lemma_name_start_bounds(p: Seq<char>)
    ensures
        0 <= name_start(p) <= p.len(),
    decreases p.len(),
{
    if p.len() > 0 && p.last() != '/' {
        lemma_name_start_bounds(p.drop_last());
    }
}

/// Classifies a file by the extension of its path: `.surql` scripts, `.csv`
/// tables and `.jsonl` line records; anything else is unsupported.
pub fn determine_target(path: &str) -> (r: Option<SurelloSourceType>)
    ensures
        r == classify(path@),
{
    match file_extension(path) {
        Some(e) => {
            if e == String::from_str("surql") {
                Some(SurelloSourceType::Surql)
            } else if e == String::from_str("csv") {
                Some(SurelloSourceType::Csv)
            } else if e == String::from_str("jsonl") {
                Some(SurelloSourceType::JsonLines)
            } else {
                None
            }
        },
        None => None,
    }
}

} // verus!
