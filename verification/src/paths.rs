//! Path model: build paths are strings whose directory separator is the
//! forward slash. Destination paths are derived from source paths by stripping
//! the source-root prefix, re-rooting under the output directory, and
//! (for some processors) substituting the final extension while preserving
//! the stem and the intermediate directories.

use vstd::prelude::*;
use vstd::string::*;

verus! {

/// A separator-normalized character: backslashes become forward slashes, so
/// that path keys are portable across host platforms.
pub open spec fn sep_normalized(c: char) -> char {
    if c == '\\' {
        '/'
    } else {
        c
    }
}

/// A path with every backslash replaced by a forward slash.
pub open spec fn normalized_path(s: Seq<char>) -> Seq<char> {
    s.map_values(|c: char| sep_normalized(c))
}

/// Replaces every backslash in `s` by a forward slash.
pub fn normalize_separators(s: &str) -> (r: String)
    ensures
        r@ == normalized_path(s@),
{
    let n = s.unicode_len();
    let mut r = String::new();
    let mut i: usize = 0;
    while i < n
        invariant
            i <= n,
            n == s@.len(),
            r@ == normalized_path(s@.subrange(0, i as int)),
        decreases n - i,
    {
        let c = s.get_char(i);
        if c == '\\' {
            r.append("/");
        } else {
            let piece = s.substring_char(i, i + 1);
            r.append(piece);
        }
        proof {
            reveal_strlit("/");
            assert(r@ =~= normalized_path(s@.subrange(0, i + 1 as int)));
        }
        i = i + 1;
    }
    proof {
        assert(s@.subrange(0, n as int) =~= s@);
    }
    r
}

/// The index of the last occurrence of `c` in `s`, if any.
pub open spec fn last_index_of(s: Seq<char>, c: char) -> Option<int>
    decreases s.len(),
{
    if s.len() == 0 {
        None
    } else if s[s.len() - 1] == c {
        Some(s.len() - 1)
    } else {
        last_index_of(s.drop_last(), c)
    }
}

/// `last_index_of` finds an occurrence with nothing equal to `c` after it,
/// and reports `None` exactly when `c` does not occur.
pub proof fn lemma_last_index_of(s: Seq<char>, c: char)
    ensures
        match last_index_of(s, c) {
            Some(i) => 0 <= i < s.len() && s[i] == c && (forall|j: int|
                i < j < s.len() ==> s[j] != c),
            None => forall|j: int| 0 <= j < s.len() ==> s[j] != c,
        },
    decreases s.len(),
{
    if s.len() == 0 {
    } else if s[s.len() - 1] == c {
    } else {
        lemma_last_index_of(s.drop_last(), c);
        assert forall|j: int| 0 <= j < s.len() - 1 implies s[j] == s.drop_last()[j] by {}
        match last_index_of(s.drop_last(), c) {
            Some(i) => {
                assert(s.drop_last()[i] == c);
                assert forall|j: int| i < j < s.len() implies s[j] != c by {
                    if j < s.len() - 1 {
                        assert(s.drop_last()[j] != c);
                    }
                }
            },
            None => {
                assert forall|j: int| 0 <= j < s.len() implies s[j] != c by {
                    if j < s.len() - 1 {
                        assert(s.drop_last()[j] != c);
                    }
                }
            },
        }
    }
}

/// Scans `s` from the end for the last occurrence of `c`.
pub fn rfind_char(s: &str, c: char) -> (r: Option<usize>)
    ensures
        match r {
            Some(i) => last_index_of(s@, c) == Some(i as int),
            None => last_index_of(s@, c) is None,
        },
{
    let n = s.unicode_len();
    proof {
        assert(s@.subrange(0, n as int) =~= s@);
    }
    let mut i: usize = n;
    while i > 0
        invariant
            i <= n,
            n == s@.len(),
            last_index_of(s@, c) == last_index_of(s@.subrange(0, i as int), c),
        decreases i,
    {
        let ch = s.get_char(i - 1);
        proof {
            assert(s@.subrange(0, i as int).drop_last() =~= s@.subrange(0, i - 1 as int));
        }
        if ch == c {
            return Some(i - 1);
        }
        i = i - 1;
    }
    None
}

/// The index at which the final path segment (the file name) begins.
pub open spec fn file_name_start(s: Seq<char>) -> int {
    match last_index_of(s, '/') {
        Some(i) => i + 1,
        None => 0,
    }
}

/// The index of the dot introducing the file name's extension, if the file
/// name has one. A dot that begins the file name does not count, and dots in
/// directory names never do.
pub open spec fn extension_dot(s: Seq<char>) -> Option<int> {
    match last_index_of(s, '.') {
        Some(i) => if i > file_name_start(s) {
            Some(i)
        } else {
            None
        },
        None => None,
    }
}

/// `s` with its final extension replaced by (or, when it has none, extended
/// with) `.ext`. The stem and the directories are untouched.
pub open spec fn with_extension_spec(s: Seq<char>, ext: Seq<char>) -> Seq<char> {
    let stem = match extension_dot(s) {
        Some(i) => s.subrange(0, i),
        None => s,
    };
    stem + seq!['.'] + ext
}

/// The file name's extension, without the dot, if it has one.
pub open spec fn extension_spec(s: Seq<char>) -> Option<Seq<char>> {
    match extension_dot(s) {
        Some(i) => Some(s.subrange(i + 1, s.len() as int)),
        None => None,
    }
}

/// Replaces the final extension of `path` by `.ext` (appends it when `path`
/// has no extension).
pub fn with_extension(path: &str, ext: &str) -> (r: String)
    ensures
        r@ == with_extension_spec(path@, ext@),
{
    let n = path.unicode_len();
    let dot = rfind_char(path, '.');
    let slash = rfind_char(path, '/');
    proof {
        lemma_last_index_of(path@, '.');
        lemma_last_index_of(path@, '/');
    }
    let name_start: usize = match slash {
        Some(k) => k + 1,
        None => 0,
    };
    let stem_end: usize = match dot {
        Some(d) => if d > name_start {
            d
        } else {
            n
        },
        None => n,
    };
    let stem = path.substring_char(0, stem_end);
    let mut r = String::from_str(stem);
    r.append(".");
    r.append(ext);
    proof {
        reveal_strlit(".");
        assert(r@ =~= with_extension_spec(path@, ext@));
    }
    r
}

/// The extension of `path`'s file name, without the dot, if it has one.
pub fn extension_of(path: &str) -> (r: Option<String>)
    ensures
        match r {
            Some(e) => extension_spec(path@) == Some(e@),
            None => extension_spec(path@) is None,
        },
{
    let n = path.unicode_len();
    let dot = rfind_char(path, '.');
    let slash = rfind_char(path, '/');
    proof {
        lemma_last_index_of(path@, '.');
        lemma_last_index_of(path@, '/');
    }
    let name_start: usize = match slash {
        Some(k) => k + 1,
        None => 0,
    };
    match dot {
        Some(d) => if d > name_start {
            let e = path.substring_char(d + 1, n);
            Some(String::from_str(e))
        } else {
            None
        },
        None => None,
    }
}

/// The directory part of `path`: everything before the last separator.
pub open spec fn parent_spec(s: Seq<char>) -> Option<Seq<char>> {
    match last_index_of(s, '/') {
        Some(i) => Some(s.subrange(0, i)),
        None => None,
    }
}

/// The directory part of `path`, or `None` for a bare file name.
pub fn parent_dir(path: &str) -> (r: Option<String>)
    ensures
        match r {
            Some(p) => parent_spec(path@) == Some(p@),
            None => parent_spec(path@) is None,
        },
{
    proof {
        lemma_last_index_of(path@, '/');
    }
    match rfind_char(path, '/') {
        Some(i) => Some(String::from_str(path.substring_char(0, i))),
        None => None,
    }
}

/// `dir` and `name` joined by a single separator.
pub open spec fn join_spec(dir: Seq<char>, name: Seq<char>) -> Seq<char> {
    dir + seq!['/'] + name
}

/// Joins a directory and an entry name with a separator.
pub fn join(dir: &str, name: &str) -> (r: String)
    ensures
        r@ == join_spec(dir@, name@),
{
    let mut r = String::from_str(dir);
    r.append("/");
    r.append(name);
    proof {
        reveal_strlit("/");
        assert(r@ =~= join_spec(dir@, name@));
    }
    r
}

/// The remainder of `path` after the directory prefix `prefix` and the
/// separator that follows it; `None` when `path` does not lie under `prefix`.
/// An empty prefix leaves the path unchanged.
pub open spec fn strip_prefix_spec(path: Seq<char>, prefix: Seq<char>) -> Option<Seq<char>> {
    if prefix.len() == 0 {
        Some(path)
    } else if path.len() > prefix.len() && path.subrange(0, prefix.len() as int) == prefix
        && path[prefix.len() as int] == '/' {
        Some(path.subrange(prefix.len() + 1 as int, path.len() as int))
    } else {
        None
    }
}

/// Strips the directory prefix `prefix`, and the separator after it, from
/// `path`.
pub fn strip_prefix(path: &str, prefix: &str) -> (r: Option<String>)
    ensures
        match r {
            Some(p) => strip_prefix_spec(path@, prefix@) == Some(p@),
            None => strip_prefix_spec(path@, prefix@) is None,
        },
{
    let np = path.unicode_len();
    let k = prefix.unicode_len();
    if k == 0 {
        return Some(String::from_str(path));
    }
    if np <= k {
        return None;
    }
    let mut i: usize = 0;
    while i < k
        invariant
            i <= k,
            k == prefix@.len(),
            np == path@.len(),
            np > k,
            forall|j: int| 0 <= j < i ==> path@[j] == prefix@[j],
        decreases k - i,
    {
        if path.get_char(i) != prefix.get_char(i) {
            proof {
                assert(path@.subrange(0, k as int)[i as int] != prefix@[i as int]);
            }
            return None;
        }
        i = i + 1;
    }
    proof {
        assert(path@.subrange(0, k as int) =~= prefix@);
    }
    if path.get_char(k) != '/' {
        return None;
    }
    Some(String::from_str(path.substring_char(k + 1, np)))
}

/// Law: substituting a path's extension preserves the stem and every
/// intermediate directory. When the file name has an extension, everything up
/// to its dot survives unchanged and only what follows the dot is replaced;
/// when it has none, the whole path survives and the new extension is
/// appended after a dot.
pub proof fn lemma_with_extension_preserves_stem(s: Seq<char>, ext: Seq<char>)
    ensures
        ({
            let r = with_extension_spec(s, ext);
            match extension_dot(s) {
                Some(i) => r.len() == i + 1 + ext.len() && r.subrange(0, i) == s.subrange(0, i)
                    && r[i] == '.' && r.subrange(i + 1, r.len() as int) == ext,
                None => r.len() == s.len() + 1 + ext.len() && r.subrange(0, s.len() as int) == s
                    && r[s.len() as int] == '.' && r.subrange(
                    s.len() + 1 as int,
                    r.len() as int,
                ) == ext,
            }
        }),
{
    let r = with_extension_spec(s, ext);
    match extension_dot(s) {
        Some(i) => {
            lemma_last_index_of(s, '.');
            assert(r.subrange(0, i) =~= s.subrange(0, i));
            assert(r.subrange(i + 1, r.len() as int) =~= ext);
        },
        None => {
            assert(r.subrange(0, s.len() as int) =~= s);
            assert(r.subrange(s.len() + 1 as int, r.len() as int) =~= ext);
        },
    }
}

} // verus!
