//! The dotenv-style fallback map format.
//!
//! A dotenv text is lines of `KEY=VALUE`. Blank lines and lines starting
//! with `#` are ignored, as is a line without `=`; key and value are
//! trimmed, and one pair of double quotes surrounding the value is
//! stripped. A repeated key overwrites its earlier binding in place, so
//! the last line wins. The caller reads the file; this module only turns
//! its text into a `Source` to put at the back of a source chain.

use vstd::prelude::*;
use crate::source::{Source, SourceEntry};
use crate::strutil::{find_from, g_find, g_split, g_trim, split, strs_view, trim};

verus! {

/// The key/value binding one dotenv line denotes, if any: `None` for a
/// blank line, a comment, or a line without `=`.
pub open spec fn g_dotenv_line(line: Seq<char>) -> Option<(Seq<char>, Seq<char>)> {
    let t = g_trim(line);
    if t.len() == 0 || t[0] == '#' {
        None
    } else {
        match g_find(t, "="@, 0) {
            None => None,
            Some(j) => {
                let key = g_trim(t.subrange(0, j));
                let val = g_trim(t.subrange(j + 1, t.len() as int));
                if val.len() >= 2 && val[0] == '"' && val.last() == '"' {
                    Some((key, val.subrange(1, val.len() - 1)))
                } else {
                    Some((key, val))
                }
            },
        }
    }
}

/// The position of the first binding of `k` in `m[i..]`.
pub open spec fn g_dotenv_key_index(
    m: Seq<(Seq<char>, Seq<char>)>,
    k: Seq<char>,
    i: int,
) -> Option<int>
    decreases m.len() - i,
{
    if i < 0 || i >= m.len() {
        None
    } else if m[i].0 == k {
        Some(i)
    } else {
        g_dotenv_key_index(m, k, i + 1)
    }
}

/// Inserts a binding with overwrite-on-duplicate semantics: an existing
/// key keeps its position and takes the new value; a new key is appended.
pub open spec fn g_dotenv_insert(
    m: Seq<(Seq<char>, Seq<char>)>,
    k: Seq<char>,
    v: Seq<char>,
) -> Seq<(Seq<char>, Seq<char>)> {
    match g_dotenv_key_index(m, k, 0) {
        Some(i) => m.update(i, (k, v)),
        None => m.push((k, v)),
    }
}

/// The bindings of the lines from index `i` on, folded into the
/// accumulated bindings; a line whose key is already bound overwrites
/// that binding.
pub open spec fn g_dotenv_lines(
    lines: Seq<Seq<char>>,
    i: int,
    acc: Seq<(Seq<char>, Seq<char>)>,
) -> Seq<(Seq<char>, Seq<char>)>
    decreases lines.len() - i,
{
    if i < 0 || i >= lines.len() {
        acc
    } else {
        match g_dotenv_line(lines[i]) {
            Some(kv) => g_dotenv_lines(lines, i + 1, g_dotenv_insert(acc, kv.0, kv.1)),
            None => g_dotenv_lines(lines, i + 1, acc),
        }
    }
}

/// The bindings a dotenv text denotes: its lines, split on line feeds, in
/// order, the last line winning for a repeated key.
pub open spec fn g_parse_dotenv(text: Seq<char>) -> Seq<(Seq<char>, Seq<char>)> {
    g_dotenv_lines(g_split(text, "\n"@), 0, Seq::empty())
}

/// The bindings a source's entries carry, where every value is decodable.
pub open spec fn entries_pairs(entries: Seq<SourceEntry>) -> Seq<(Seq<char>, Seq<char>)> {
    entries.map_values(
        |e: SourceEntry|
            (
                e.key@,
                match e.value {
                    Some(v) => v@,
                    None => Seq::<char>::empty(),
                },
            ),
    )
}

/// Whether every entry value is present (decodable).
pub open spec fn entries_decodable(entries: Seq<SourceEntry>) -> bool {
    forall|i: int| 0 <= i < entries.len() ==> (#[trigger] entries[i].value) is Some
}

fn dotenv_line(line: &str) -> (r: Option<(String, String)>)
    ensures
        match r {
            Some((k, v)) => g_dotenv_line(line@) == Some((k@, v@)),
            None => g_dotenv_line(line@) is None,
        },
{
    proof {
        reveal_strlit("=");
    }
    let t = trim(line);
    let n = t.unicode_len();
    if n == 0 || t.get_char(0) == '#' {
        return None;
    }
    match find_from(t, "=", 0) {
        None => None,
        Some(j) => {
            let key = trim(t.substring_char(0, j));
            let val = trim(t.substring_char(j + 1, n));
            let m = val.unicode_len();
            if m >= 2 && val.get_char(0) == '"' && val.get_char(m - 1) == '"' {
                let stripped = val.substring_char(1, m - 1);
                Some((key.to_owned(), stripped.to_owned()))
            } else {
                Some((key.to_owned(), val.to_owned()))
            }
        },
    }
}

/// Parses a dotenv text into a fallback source: one entry per bound key,
/// in first-occurrence order, blank lines, comments, and lines without
/// `=` skipped, the value unquoted once, the last line winning for a
/// repeated key.
pub fn parse_dotenv(text: &str) -> (r: Source)
    ensures
        entries_pairs(r.entries@) == g_parse_dotenv(text@),
        entries_decodable(r.entries@),
{
    proof {
        reveal_strlit("\n");
        assert("\n"@.len() > 0);
    }
    let lines = split(text, "\n");
    let ghost glines = g_split(text@, "\n"@);
    let mut entries: Vec<SourceEntry> = Vec::new();
    proof {
        assert(entries_pairs(entries@) =~= Seq::<(Seq<char>, Seq<char>)>::empty());
    }
    let n = lines.len();
    let mut i: usize = 0;
    while i < n
        invariant
            0 <= i <= n,
            n == lines@.len(),
            strs_view(lines@) == glines,
            glines == g_split(text@, "\n"@),
            entries_decodable(entries@),
            g_dotenv_lines(glines, 0, Seq::empty()) == g_dotenv_lines(
                glines,
                i as int,
                entries_pairs(entries@),
            ),
        decreases n - i,
    {
        proof {
            assert(glines[i as int] == strs_view(lines@)[i as int]);
            assert(strs_view(lines@)[i as int] == lines@[i as int]@);
        }
        match dotenv_line(lines[i].as_str()) {
            Some((k, v)) => {
                dotenv_insert(&mut entries, k, v);
            },
            None => {},
        }
        i += 1;
    }
    Source { entries }
}

fn dotenv_key_index(entries: &Vec<SourceEntry>, k: &str, i: usize) -> (r: Option<usize>)
    requires
        i <= entries.len(),
    ensures
        match r {
            Some(j) => g_dotenv_key_index(entries_pairs(entries@), k@, i as int) == Some(j as int)
                && j < entries.len(),
            None => g_dotenv_key_index(entries_pairs(entries@), k@, i as int) is None,
        },
    decreases entries.len() - i,
{
    if i == entries.len() {
        None
    } else if crate::strutil::eq_str(entries[i].key.as_str(), k) {
        Some(i)
    } else {
        dotenv_key_index(entries, k, i + 1)
    }
}

fn dotenv_insert(entries: &mut Vec<SourceEntry>, k: String, v: String)
    requires
        entries_decodable(old(entries)@),
    ensures
        entries_pairs(final(entries)@) == g_dotenv_insert(entries_pairs(old(entries)@), k@, v@),
        entries_decodable(final(entries)@),
{
    let ghost prev = entries_pairs(entries@);
    let ghost gkv = (k@, v@);
    match dotenv_key_index(entries, k.as_str(), 0) {
        Some(j) => {
            entries.set(j, SourceEntry { key: k, value: Some(v) });
            proof {
                assert(entries_pairs(entries@) =~= prev.update(
                    g_dotenv_key_index(prev, gkv.0, 0).unwrap(),
                    gkv,
                ));
                assert(forall|n: int|
                    0 <= n < entries@.len() ==> (#[trigger] entries@[n].value) is Some);
            }
        },
        None => {
            entries.push(SourceEntry { key: k, value: Some(v) });
            proof {
                assert(entries_pairs(entries@) =~= prev.push(gkv));
                assert(forall|n: int|
                    0 <= n < entries@.len() ==> (#[trigger] entries@[n].value) is Some);
            }
        },
    }
}

} // verus!
