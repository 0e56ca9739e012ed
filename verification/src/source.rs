//! The value source chain.
//!
//! A resolve call reads from an ordered list of read-only key/value
//! sources, highest priority first: typically a snapshot of the process
//! environment, then a fallback map parsed from a dotenv-style file. A
//! lookup scans each source's candidate keys in the given order and returns
//! on the first hit; an earlier source always wins over a later one, even
//! when the later source holds an earlier-ranked key — sources are never
//! interleaved.

use vstd::prelude::*;
use crate::errors::RetrieveError;
use crate::strutil::strs_view;

verus! {

/// One key/value binding of a source. A `value` of `None` records a key
/// that is present but whose raw bytes are not valid Unicode text, so that
/// an environment snapshot can carry such entries through to the engine.
#[derive(Debug, Clone, PartialEq, Eq)]
pub struct SourceEntry {
    pub key: String,
    /// The decoded value, or `None` if the bytes were not valid Unicode.
    pub value: Option<String>,
}

/// One read-only key/value source.
#[derive(Debug, Clone, PartialEq, Eq)]
pub struct Source {
    pub entries: Vec<SourceEntry>,
}

/// An ordered list of sources, highest priority first.
#[derive(Debug, Clone, PartialEq, Eq)]
pub struct SourceChain {
    pub sources: Vec<Source>,
}

/// Outcome of a chain lookup, as a mathematical value.
pub enum GLookup {
    /// A value was found; carries the value and the index of the source
    /// that supplied it.
    Found(Seq<char>, int),
    /// The named key was found but its value is not valid Unicode.
    Invalid(Seq<char>),
    /// No source holds any of the candidate keys.
    NotFound,
}

/// The first binding of `key` among `entries[i..]`: `None` if the key is
/// absent, `Some(None)` if present with an undecodable value, and
/// `Some(Some(v))` if present with value `v`.
pub open spec fn g_source_get_from(entries: Seq<SourceEntry>, key: Seq<char>, i: int) -> Option<
    Option<Seq<char>>,
>
    decreases entries.len() - i,
{
    if i < 0 || i >= entries.len() {
        None
    } else if entries[i].key@ == key {
        Some(
            match entries[i].value {
                Some(v) => Some(v@),
                None => None,
            },
        )
    } else {
        g_source_get_from(entries, key, i + 1)
    }
}

/// The first binding of `key` in `entries`.
pub open spec fn g_source_get(entries: Seq<SourceEntry>, key: Seq<char>) -> Option<
    Option<Seq<char>>,
> {
    g_source_get_from(entries, key, 0)
}

/// Scans `keys[k..]` in order against one source and returns the first
/// hit: the key that matched, and its (possibly undecodable) value.
pub open spec fn g_scan_source_from(
    entries: Seq<SourceEntry>,
    keys: Seq<Seq<char>>,
    k: int,
) -> Option<(Seq<char>, Option<Seq<char>>)>
    decreases keys.len() - k,
{
    if k < 0 || k >= keys.len() {
        None
    } else {
        match g_source_get(entries, keys[k]) {
            Some(v) => Some((keys[k], v)),
            None => g_scan_source_from(entries, keys, k + 1),
        }
    }
}

/// Scans `keys` in order against one source.
pub open spec fn g_scan_source(entries: Seq<SourceEntry>, keys: Seq<Seq<char>>) -> Option<
    (Seq<char>, Option<Seq<char>>),
> {
    g_scan_source_from(entries, keys, 0)
}

/// The lookup outcome over `sources[i..]`: the first source that holds any
/// candidate key decides, scanning its keys in the given order.
pub open spec fn g_lookup_from(sources: Seq<Source>, keys: Seq<Seq<char>>, i: int) -> GLookup
    decreases sources.len() - i,
{
    if i < 0 || i >= sources.len() {
        GLookup::NotFound
    } else {
        match g_scan_source(sources[i].entries@, keys) {
            Some((k, Some(v))) => GLookup::Found(v, i),
            Some((k, None)) => GLookup::Invalid(k),
            None => g_lookup_from(sources, keys, i + 1),
        }
    }
}

/// The lookup outcome of a chain for an ordered list of candidate keys.
pub open spec fn g_lookup(chain: SourceChain, keys: Seq<String>) -> GLookup {
    g_lookup_from(chain.sources@, strs_view(keys), 0)
}

/// The first binding of `key` among `entries[i..]`, executable form.
fn source_get_from(entries: &Vec<SourceEntry>, key: &String, i: usize) -> (r: Option<
    Option<String>,
>)
    requires
        i <= entries.len(),
    ensures
        match r {
            None => g_source_get_from(entries@, key@, i as int) is None,
            Some(None) => g_source_get_from(entries@, key@, i as int) == Some(
                None::<Seq<char>>,
            ),
            Some(Some(v)) => g_source_get_from(entries@, key@, i as int) == Some(Some(v@)),
        },
    decreases entries.len() - i,
{
    if i == entries.len() {
        None
    } else if entries[i].key == *key {
        match &entries[i].value {
            Some(v) => Some(Some(v.clone())),
            None => Some(None),
        }
    } else {
        source_get_from(entries, key, i + 1)
    }
}

/// Scans `keys[k..]` in order against one source, executable form.
fn scan_source_from(entries: &Vec<SourceEntry>, keys: &Vec<String>, k: usize) -> (r: Option<
    (String, Option<String>),
>)
    requires
        k <= keys.len(),
    ensures
        match r {
            None => g_scan_source_from(entries@, strs_view(keys@), k as int) is None,
            Some((key, None)) => g_scan_source_from(entries@, strs_view(keys@), k as int)
                == Some((key@, None::<Seq<char>>)),
            Some((key, Some(v))) => g_scan_source_from(entries@, strs_view(keys@), k as int)
                == Some((key@, Some(v@))),
        },
    decreases keys.len() - k,
{
    if k == keys.len() {
        None
    } else {
        match source_get_from(entries, &keys[k], 0) {
            Some(v) => Some((keys[k].clone(), v)),
            None => scan_source_from(entries, keys, k + 1),
        }
    }
}

/// Clones a list of candidate keys, for a `NotFound` diagnostic.
fn clone_keys(keys: &Vec<String>) -> (r: Vec<String>)
    ensures
        strs_view(r@) == strs_view(keys@),
{
    let mut r: Vec<String> = Vec::new();
    let mut i: usize = 0;
    while i < keys.len()
        invariant
            i <= keys.len(),
            r@.len() == i as int,
            forall|j: int| 0 <= j < i ==> r@[j]@ == keys@[j]@,
        decreases keys.len() - i,
    {
        r.push(keys[i].clone());
        i += 1;
    }
    proof {
        assert(strs_view(r@) =~= strs_view(keys@));
    }
    r
}

impl SourceChain {
    /// A chain over the given sources, highest priority first.
    pub fn new(sources: Vec<Source>) -> (r: SourceChain)
        ensures
            r.sources == sources,
    {
        SourceChain { sources }
    }

    fn lookup_from(&self, keys: &Vec<String>, i: usize) -> (r: Result<
        (String, usize),
        RetrieveError,
    >)
        requires
            i <= self.sources.len(),
        ensures
            match r {
                Ok((v, s)) => g_lookup_from(self.sources@, strs_view(keys@), i as int)
                    == GLookup::Found(v@, s as int),
                Err(RetrieveError::InvalidUnicode { key }) => g_lookup_from(
                    self.sources@,
                    strs_view(keys@),
                    i as int,
                ) == GLookup::Invalid(key@),
                Err(RetrieveError::NotFound { keys: ks }) => g_lookup_from(
                    self.sources@,
                    strs_view(keys@),
                    i as int,
                ) is NotFound && strs_view(ks@) == strs_view(keys@),
            },
        decreases self.sources.len() - i,
    {
        if i == self.sources.len() {
            Err(RetrieveError::NotFound { keys: clone_keys(keys) })
        } else {
            match scan_source_from(&self.sources[i].entries, keys, 0) {
                Some((_key, Some(v))) => Ok((v, i)),
                Some((key, None)) => Err(RetrieveError::InvalidUnicode { key }),
                None => self.lookup_from(keys, i + 1),
            }
        }
    }

    /// Looks the candidate keys up across the chain: for each source in
    /// priority order, its keys are scanned in the given order, and the
    /// first hit is returned together with the index of the source that
    /// supplied it. A present key whose value is not valid Unicode stops
    /// the lookup with `InvalidUnicode`; when no source holds any key, the
    /// `NotFound` error lists every key that was tried.
    pub fn lookup(&self, keys: &Vec<String>) -> (r: Result<(String, usize), RetrieveError>)
        ensures
            match r {
                Ok((v, s)) => g_lookup(*self, keys@) == GLookup::Found(v@, s as int),
                Err(RetrieveError::InvalidUnicode { key }) => g_lookup(*self, keys@)
                    == GLookup::Invalid(key@),
                Err(RetrieveError::NotFound { keys: ks }) => g_lookup(*self, keys@) is NotFound
                    && strs_view(ks@) == strs_view(keys@),
            },
    {
        self.lookup_from(keys, 0)
    }
}

} // verus!
