//! Processor registry: a mapping from lowercase file extension (without the
//! dot) to the processor responsible for that kind of source file. Lookup is
//! case-normalized; several extensions may name the same processor. A miss is
//! not an error: it tells the builder to fall back to the byte-copy behavior.

use vstd::prelude::*;
use vstd::string::*;
use crate::assoc::{
    entries_to_map,
    distinct_keys,
    lemma_entries_to_map_domain,
    lemma_entries_to_map_get,
    lemma_entries_to_map_update,
};

verus! {

/// The transformation applied to one source file.
#[derive(Clone, Copy, PartialEq, Eq, Structural, Debug)]
pub enum ProcessorKind {
    /// Byte-for-byte copy, extension preserved (the implicit default).
    Copy,
    /// Image conversion by the external converter; the destination extension
    /// becomes `png`.
    Image,
    /// Metaprogram expansion; the destination extension becomes `lua`.
    Metaprogram,
}

/// The case-folded code point of a character: an ASCII capital letter folds
/// to its small form, everything else is itself.
pub open spec fn folded_char(c: char) -> u32 {
    if 65 <= c as u32 && c as u32 <= 90 {
        ((c as u32) + 32) as u32
    } else {
        c as u32
    }
}

/// The case-folded code points of an extension.
pub open spec fn folded(s: Seq<char>) -> Seq<u32> {
    s.map_values(|c: char| folded_char(c))
}

/// The code points of a string, unfolded.
pub open spec fn code_points(s: Seq<char>) -> Seq<u32> {
    s.map_values(|c: char| c as u32)
}

/// A string that is its own case folding: it holds no ASCII capital letter.
pub open spec fn is_folded(s: Seq<char>) -> bool {
    code_points(s) == folded(s)
}

/// Whether `q`, case-folded, reads exactly as the stored lowercase `key`.
fn matches_folded(q: &str, key: &str) -> (r: bool)
    ensures
        r == (folded(q@) == code_points(key@)),
{
    let n = q.unicode_len();
    let k = key.unicode_len();
    if n != k {
        proof {
            assert(folded(q@).len() != code_points(key@).len());
        }
        return false;
    }
    let mut i: usize = 0;
    while i < n
        invariant
            i <= n,
            n == q@.len(),
            n == key@.len(),
            forall|j: int| 0 <= j < i ==> folded(q@)[j] == code_points(key@)[j],
        decreases n - i,
    {
        let qc = q.get_char(i) as u32;
        let kc = key.get_char(i) as u32;
        let fq: u32 = if qc >= 65 && qc <= 90 {
            qc + 32
        } else {
            qc
        };
        if fq != kc {
            proof {
                assert(folded(q@)[i as int] != code_points(key@)[i as int]);
            }
            return false;
        }
        i = i + 1;
    }
    proof {
        assert(folded(q@) =~= code_points(key@));
    }
    true
}

/// The views of a list of extension/processor entries, keyed by the
/// extension's code points.
pub open spec fn reg_views(e: Seq<(String, ProcessorKind)>) -> Seq<(Seq<u32>, ProcessorKind)> {
    e.map_values(|p: (String, ProcessorKind)| (code_points(p.0@), p.1))
}

/// The registry: one processor per lowercase extension.
pub struct Registry {
    entries: Vec<(String, ProcessorKind)>,
}

impl View for Registry {
    type V = Map<Seq<u32>, ProcessorKind>;

    closed spec fn view(&self) -> Map<Seq<u32>, ProcessorKind> {
        entries_to_map(reg_views(self.entries@))
    }
}

impl Registry {
    /// Every registered extension is lowercase and occurs once.
    pub closed spec fn wf(&self) -> bool {
        &&& distinct_keys(reg_views(self.entries@))
        &&& forall|i: int| 0 <= i < self.entries@.len() ==> is_folded(self.entries@[i].0@)
    }

    /// A registry with nothing registered: every extension falls back to the
    /// byte-copy behavior.
    pub fn empty() -> (r: Registry)
        ensures
            r.wf(),
            r@ == Map::<Seq<u32>, ProcessorKind>::empty(),
    {
        Registry { entries: Vec::new() }
    }

    /// The position of the entry for a key with these code points, if any.
    fn find_index(&self, key_points: Ghost<Seq<u32>>, q: &str) -> (r: Option<usize>)
        requires
            folded(q@) == key_points@,
        ensures
            match r {
                Some(i) => i < self.entries@.len() && code_points(self.entries@[i as int].0@)
                    == key_points@,
                None => forall|i: int|
                    0 <= i < self.entries@.len() ==> code_points(self.entries@[i].0@)
                        != key_points@,
            },
    {
        let n = self.entries.len();
        let mut i: usize = 0;
        while i < n
            invariant
                i <= n,
                n == self.entries@.len(),
                folded(q@) == key_points@,
                forall|j: int| 0 <= j < i ==> code_points(self.entries@[j].0@) != key_points@,
            decreases n - i,
        {
            if matches_folded(q, self.entries[i].0.as_str()) {
                return Some(i);
            }
            i = i + 1;
        }
        None
    }

    /// Registers `kind` under the lowercase extension `ext`, overwriting any
    /// prior registration for the same extension.
    pub fn register(&mut self, ext: String, kind: ProcessorKind)
        requires
            old(self).wf(),
            is_folded(ext@),
        ensures
            final(self).wf(),
            final(self)@ == old(self)@.insert(code_points(ext@), kind),
    {
        let ghost e0 = reg_views(self.entries@);
        match self.find_index(Ghost(code_points(ext@)), ext.as_str()) {
            Some(i) => {
                self.entries[i] = (ext, kind);
                proof {
                    let e1 = reg_views(self.entries@);
                    assert(e1 =~= e0.update(i as int, (e0[i as int].0, kind)));
                    lemma_entries_to_map_update(e0, i as int, kind);
                }
            },
            None => {
                self.entries.push((ext, kind));
                proof {
                    let e1 = reg_views(self.entries@);
                    assert(e1.drop_last() =~= e0);
                    assert forall|i: int, j: int| 0 <= i < j < e1.len() implies e1[i].0 != e1[j].0
                    by {
                        if j < e1.len() - 1 {
                            assert(e0[i].0 != e0[j].0);
                        } else {
                            assert(e0[i].0 != code_points(ext@));
                        }
                    }
                }
            },
        }
    }

    /// The processor registered for `ext`, case-normalized; `None` signals
    /// the byte-copy fallback.
    pub fn lookup(&self, ext: &str) -> (r: Option<ProcessorKind>)
        requires
            self.wf(),
        ensures
            r == if self@.contains_key(folded(ext@)) {
                Some(self@[folded(ext@)])
            } else {
                None::<ProcessorKind>
            },
    {
        proof {
            lemma_entries_to_map_domain(reg_views(self.entries@), folded(ext@));
        }
        match self.find_index(Ghost(folded(ext@)), ext) {
            Some(i) => {
                proof {
                    lemma_entries_to_map_get(reg_views(self.entries@), i as int);
                }
                Some(self.entries[i].1)
            },
            None => {
                proof {
                    assert forall|i: int| 0 <= i < reg_views(self.entries@).len()
                        implies reg_views(self.entries@)[i].0 != folded(ext@) by {
                        assert(code_points(self.entries@[i].0@) != folded(ext@));
                    }
                }
                None
            },
        }
    }
}

/// The stock registry of the pipeline: aseprite image sources convert to
/// `png`; `plua` metaprograms expand to `lua`; every other extension falls
/// back to the byte-copy behavior.
pub fn default_registry() -> (r: Registry)
    ensures
        r.wf(),
        r@ == Map::<Seq<u32>, ProcessorKind>::empty().insert(
            code_points("ase"@),
            ProcessorKind::Image,
        ).insert(code_points("aseprite"@), ProcessorKind::Image).insert(
            code_points("plua"@),
            ProcessorKind::Metaprogram,
        ),
{
    proof {
        reveal_strlit("ase");
        reveal_strlit("aseprite");
        reveal_strlit("plua");
        assert(is_folded("ase"@)) by {
            assert(code_points("ase"@) =~= folded("ase"@));
        }
        assert(is_folded("aseprite"@)) by {
            assert(code_points("aseprite"@) =~= folded("aseprite"@));
        }
        assert(is_folded("plua"@)) by {
            assert(code_points("plua"@) =~= folded("plua"@));
        }
    }
    let mut r = Registry::empty();
    r.register(String::from_str("ase"), ProcessorKind::Image);
    r.register(String::from_str("aseprite"), ProcessorKind::Image);
    r.register(String::from_str("plua"), ProcessorKind::Metaprogram);
    r
}

} // verus!
