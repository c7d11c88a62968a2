//! Incremental-build cache: a mapping from separator-normalized relative path
//! to a 32-bit content fingerprint. A file whose current fingerprint matches
//! its stored one is safe to skip; absence of an entry, or any mismatch, means
//! the file must be processed. Keys always use forward-slash separators, so a
//! persisted cache is portable across host platforms.

use vstd::prelude::*;
use vstd::string::*;
use crate::paths::{normalize_separators, normalized_path};
use crate::assoc::{
    entries_to_map,
    distinct_keys,
    lemma_entries_to_map_domain,
    lemma_entries_to_map_get,
    lemma_entries_to_map_update,
};

verus! {

/// The 32-bit content fingerprint of a byte sequence: a checksum over raw
/// file bytes, used solely for change detection. Its value depends on the
/// bytes alone; nothing more is assumed of it.
pub uninterp spec fn fingerprint_of(data: Seq<u8>) -> u32;

/// Relies on crc32fast::hash: the CRC32 checksum of a byte slice is a
/// function of the bytes alone.
#[verifier::external_body]
pub fn fingerprint(data: &[u8]) -> (r: u32)
    ensures
        r == fingerprint_of(data@),
{
    crc32fast::hash(data)
}

/// The views of a list of path/fingerprint entries.
pub open spec fn entry_views(e: Seq<(String, u32)>) -> Seq<(Seq<char>, u32)> {
    e.map_values(|p: (String, u32)| (p.0@, p.1))
}

/// The persisted text form of a cache's entry list. Its exact shape belongs
/// to the store serializer; the build relies only on it reading back.
pub uninterp spec fn store_encoding(entries: Seq<(Seq<char>, u32)>) -> Seq<char>;

/// The entry list a store text parses to, if it is well formed.
pub uninterp spec fn store_decoding(s: Seq<char>) -> Option<Seq<(Seq<char>, u32)>>;

/// Relies on ron::to_string: serializes a list of path/fingerprint pairs into
/// a text that ron::from_str parses back to the same list. Strings, integers
/// and tuples have no failing path in the serializer and the writer is a
/// growing string, so the call always succeeds.
#[verifier::external_body]
fn ron_encode(entries: &Vec<(String, u32)>) -> (r: Result<String, String>)
    ensures
        r is Ok,
        r matches Ok(s) ==> s@ == store_encoding(entry_views(entries@)),
        r matches Ok(s) ==> store_decoding(s@) == Some(entry_views(entries@)),
{
    match ron::to_string(entries) {
        Ok(s) => Ok(s),
        Err(e) => Err(e.to_string()),
    }
}

/// Relies on ron::from_str: parses a store text into the list of
/// path/fingerprint pairs it holds, and rejects a malformed text.
#[verifier::external_body]
fn ron_decode(s: &str) -> (r: Result<Vec<(String, u32)>, String>)
    ensures
        r is Ok <==> store_decoding(s@) is Some,
        r matches Ok(v) ==> Some(entry_views(v@)) == store_decoding(s@),
{
    match ron::from_str::<Vec<(String, u32)>>(s) {
        Ok(v) => Ok(v),
        Err(e) => Err(e.to_string()),
    }
}

/// The mapping a well-formed store text describes: `None` when the text is
/// malformed, which includes a duplicated path key.
pub open spec fn parsed_store(s: Seq<char>) -> Option<Map<Seq<char>, u32>> {
    match store_decoding(s) {
        Some(e) => if distinct_keys(e) {
            Some(entries_to_map(e))
        } else {
            None
        },
        None => None,
    }
}

/// The build cache: one fingerprint per separator-normalized path.
pub struct Cache {
    entries: Vec<(String, u32)>,
}

impl View for Cache {
    type V = Map<Seq<char>, u32>;

    closed spec fn view(&self) -> Map<Seq<char>, u32> {
        entries_to_map(entry_views(self.entries@))
    }
}

impl Cache {
    /// Every path key occurs once.
    pub closed spec fn wf(&self) -> bool {
        distinct_keys(entry_views(self.entries@))
    }

    /// An empty cache: every file counts as changed, so everything rebuilds.
    pub fn empty() -> (r: Cache)
        ensures
            r.wf(),
            r@ == Map::<Seq<char>, u32>::empty(),
    {
        Cache { entries: Vec::new() }
    }

    /// The cache key for a path: separators normalized to forward slashes.
    pub fn get_path_str(path: &str) -> (r: String)
        ensures
            r@ == normalized_path(path@),
    {
        normalize_separators(path)
    }

    /// The position of the entry for `key`, if one exists.
    fn find_index(&self, key: &String) -> (r: Option<usize>)
        ensures
            match r {
                Some(i) => i < self.entries@.len() && self.entries@[i as int].0@ == key@,
                None => forall|i: int|
                    0 <= i < self.entries@.len() ==> self.entries@[i].0@ != key@,
            },
    {
        let n = self.entries.len();
        let mut i: usize = 0;
        while i < n
            invariant
                i <= n,
                n == self.entries@.len(),
                forall|j: int| 0 <= j < i ==> self.entries@[j].0@ != key@,
            decreases n - i,
        {
            if self.entries[i].0 == *key {
                return Some(i);
            }
            i = i + 1;
        }
        None
    }

    /// Whether the file at `path`, whose current content is `data`, is
    /// unchanged since the entry for it was recorded: true only when an entry
    /// exists and the fingerprints match; no entry means "treat as changed".
    pub fn check(&self, path: &str, data: &[u8]) -> (r: bool)
        requires
            self.wf(),
        ensures
            r == (self@.contains_key(normalized_path(path@)) && self@[normalized_path(path@)]
                == fingerprint_of(data@)),
    {
        let key = Self::get_path_str(path);
        proof {
            lemma_entries_to_map_domain(entry_views(self.entries@), key@);
        }
        match self.find_index(&key) {
            Some(i) => {
                proof {
                    assert(entry_views(self.entries@)[i as int].0 == key@);
                    lemma_entries_to_map_get(entry_views(self.entries@), i as int);
                }
                let stored = self.entries[i].1;
                stored == fingerprint(data)
            },
            None => {
                proof {
                    assert forall|i: int| 0 <= i < entry_views(self.entries@).len()
                        implies entry_views(self.entries@)[i].0 != key@ by {
                        assert(self.entries@[i].0@ != key@);
                    }
                }
                false
            },
        }
    }

    /// Whether the file at `path` is unchanged, given what reading it
    /// produced: a file whose content could not be read counts as changed —
    /// absence of information is never interpreted as "unchanged".
    pub fn check_read(&self, path: &str, data: Option<&[u8]>) -> (r: bool)
        requires
            self.wf(),
        ensures
            r == match data {
                Some(d) => self@.contains_key(normalized_path(path@)) && self@[normalized_path(
                    path@,
                )] == fingerprint_of(d@),
                None => false,
            },
    {
        match data {
            Some(d) => self.check(path, d),
            None => false,
        }
    }

    /// Records the fingerprint of `data` under `path`'s normalized key,
    /// overwriting any prior entry for that key.
    pub fn update(&mut self, path: &str, data: &[u8])
        requires
            old(self).wf(),
        ensures
            final(self).wf(),
            final(self)@ == old(self)@.insert(normalized_path(path@), fingerprint_of(data@)),
    {
        let key = Self::get_path_str(path);
        let f = fingerprint(data);
        let ghost e0 = entry_views(self.entries@);
        match self.find_index(&key) {
            Some(i) => {
                self.entries[i] = (key, f);
                proof {
                    let e1 = entry_views(self.entries@);
                    assert(e1 =~= e0.update(i as int, (normalized_path(path@), fingerprint_of(
                        data@))));
                    lemma_entries_to_map_update(e0, i as int, fingerprint_of(data@));
                }
            },
            None => {
                self.entries.push((key, f));
                proof {
                    let e1 = entry_views(self.entries@);
                    assert(e1.drop_last() =~= e0);
                    assert(entries_to_map(e1) == entries_to_map(e0).insert(normalized_path(path@),
                        fingerprint_of(data@)));
                    assert forall|i: int, j: int| 0 <= i < j < e1.len() implies e1[i].0 != e1[j].0
                    by {
                        if j < e1.len() - 1 {
                            assert(e0[i].0 != e0[j].0);
                        } else {
                            assert(self.entries@[i].0@ != key@ || true);
                            assert(e0[i].0 != normalized_path(path@));
                        }
                    }
                }
            },
        }
    }

    /// Serializes the cache for persisting: always succeeds, and the text
    /// reloads to the same mapping.
    pub fn to_store_string(&self) -> (r: Result<String, String>)
        requires
            self.wf(),
        ensures
            r is Ok,
            r matches Ok(s) ==> parsed_store(s@) == Some(self@),
    {
        let r = ron_encode(&self.entries);
        proof {
            if r is Ok {
                assert(parsed_store(r->Ok_0@) == Some(self@));
            }
        }
        r
    }

    /// Parses a persisted store. Succeeds exactly on a well-formed store
    /// text; a malformed one (including a duplicated key) is a parse error.
    pub fn from_store_string(s: &str) -> (r: Result<Cache, String>)
        ensures
            r matches Ok(c) ==> c.wf() && parsed_store(s@) == Some(c@),
            r is Err ==> parsed_store(s@) is None,
    {
        let entries = match ron_decode(s) {
            Ok(v) => v,
            Err(e) => {
                return Err(e);
            },
        };
        let n = entries.len();
        let mut i: usize = 0;
        while i < n
            invariant
                i <= n,
                n == entries@.len(),
                store_decoding(s@) == Some(entry_views(entries@)),
                forall|a: int, b: int|
                    0 <= a < b < entries@.len() && a < i ==> entries@[a].0@ != entries@[b].0@,
            decreases n - i,
        {
            let mut j: usize = i + 1;
            while j < n
                invariant
                    i < j <= n,
                    n == entries@.len(),
                    store_decoding(s@) == Some(entry_views(entries@)),
                    forall|b: int| i < b < j ==> entries@[i as int].0@ != entries@[b].0@,
                decreases n - j,
            {
                if entries[i].0 == entries[j].0 {
                    proof {
                        let e = entry_views(entries@);
                        assert(e[i as int].0 == e[j as int].0);
                        assert(distinct_keys(e) ==> e[i as int].0 != e[j as int].0);
                        assert(parsed_store(s@) is None);
                    }
                    return Err(String::from_str("duplicate path key in cache store"));
                }
                j = j + 1;
            }
            i = i + 1;
        }
        proof {
            let e = entry_views(entries@);
            assert forall|a: int, b: int| 0 <= a < b < e.len() implies e[a].0 != e[b].0 by {
                assert(entries@[a].0@ != entries@[b].0@);
            }
        }
        Ok(Cache { entries })
    }
}

/// Law: an unchanged tree re-checks as unchanged. Once `update` records the
/// fingerprint of a file's bytes, `check` on the same path and the same bytes
/// reports the file unchanged.
pub proof fn lemma_check_after_update(m: Map<Seq<char>, u32>, path: Seq<char>, data: Seq<u8>)
    ensures
        ({
            let m2 = m.insert(normalized_path(path), fingerprint_of(data));
            m2.contains_key(normalized_path(path)) && m2[normalized_path(path)] == fingerprint_of(
                data,
            )
        }),
{
}

/// Law: a change is detected, and detected only where it happened. After
/// `update` records a file's old bytes, `check` against new bytes with a
/// different fingerprint reports the file changed, while every other path's
/// entry is exactly as it was.
pub proof fn lemma_change_detection(
    m: Map<Seq<char>, u32>,
    path: Seq<char>,
    d1: Seq<u8>,
    d2: Seq<u8>,
    other: Seq<char>,
)
    requires
        fingerprint_of(d1) != fingerprint_of(d2),
        normalized_path(other) != normalized_path(path),
    ensures
        ({
            let m2 = m.insert(normalized_path(path), fingerprint_of(d1));
            !(m2.contains_key(normalized_path(path)) && m2[normalized_path(path)]
                == fingerprint_of(d2)) && m2.contains_key(normalized_path(other))
                == m.contains_key(normalized_path(other)) && (m.contains_key(
                normalized_path(other),
            ) ==> m2[normalized_path(other)] == m[normalized_path(other)])
        }),
{
}

/// Law: a persisted cache reloads to the same mapping. A well-formed entry
/// list (as `to_store_string` writes one) parses back, under the store model
/// that `from_store_string` meets, to the identical fingerprint map.
pub proof fn lemma_store_round_trip(e: Seq<(Seq<char>, u32)>, s: Seq<char>)
    requires
        distinct_keys(e),
        store_decoding(s) == Some(e),
    ensures
        parsed_store(s) == Some(entries_to_map(e)),
{
}

/// The cache after a build that processed and recorded the given files, in
/// walk order: each file's fingerprint inserted under its normalized path.
pub open spec fn cache_after_build(
    m: Map<Seq<char>, u32>,
    files: Seq<(Seq<char>, Seq<u8>)>,
) -> Map<Seq<char>, u32>
    decreases files.len(),
{
    if files.len() == 0 {
        m
    } else {
        cache_after_build(m, files.drop_last()).insert(
            normalized_path(files.last().0),
            fingerprint_of(files.last().1),
        )
    }
}

/// Law: an unchanged tree re-checks as unchanged, tree-wide. Once a build has
/// recorded every file of a tree (whose paths are distinct), `check` confirms
/// each one of them unchanged on a second run over the same bytes — whatever
/// the cache held before the build.
pub proof fn lemma_tree_idempotence(
    m: Map<Seq<char>, u32>,
    files: Seq<(Seq<char>, Seq<u8>)>,
    i: int,
)
    requires
        0 <= i < files.len(),
        forall|a: int, b: int|
            0 <= a < b < files.len() ==> normalized_path(files[a].0) != normalized_path(
                files[b].0,
            ),
    ensures
        ({
            let m1 = cache_after_build(m, files);
            m1.contains_key(normalized_path(files[i].0)) && m1[normalized_path(files[i].0)]
                == fingerprint_of(files[i].1)
        }),
    decreases files.len(),
{
    if i == files.len() - 1 {
    } else {
        assert forall|a: int|
            0 <= a < files.len() - 1 implies files.drop_last()[a] == files[a] by {}
        assert forall|a: int, b: int|
            0 <= a < b < files.drop_last().len() implies normalized_path(files.drop_last()[a].0)
                != normalized_path(files.drop_last()[b].0) by {
            assert(normalized_path(files[a].0) != normalized_path(files[b].0));
        }
        lemma_tree_idempotence(m, files.drop_last(), i);
        assert(normalized_path(files[i].0) != normalized_path(files[files.len() - 1].0));
    }
}

} // verus!
