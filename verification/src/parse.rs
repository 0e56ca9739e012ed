//! The scalar and collection parser.
//!
//! A raw string from a source becomes a scalar (via the declared scalar
//! kind's own parsing), a list or set (split on a collection delimiter,
//! each element trimmed and parsed), or a map (split on the delimiter,
//! each segment split once on the reserved pair separator `=`, both sides
//! trimmed and parsed). Collection semantics are the engine's own: a list
//! keeps order and duplicates; a set keeps first-occurrence order and
//! drops duplicates; a map keeps first-occurrence key order, a repeated
//! key overwriting its value in place.

use vstd::prelude::*;
use crate::errors::{GParseError, ParseError};
use crate::strutil::{
    eq_str, find_from, g_find, g_parse_bool, g_parse_i64, g_parse_u64, g_split, g_trim, split,
    strs_view, trim,
};
use crate::value::{pairs_view, scalars_view, GScalar, Scalar, ScalarKind};

verus! {

/// The scalar a raw string denotes under a scalar kind, if any: the
/// string itself, a decimal integer, or a boolean.
pub open spec fn g_parse_scalar(kind: ScalarKind, raw: Seq<char>) -> Option<GScalar> {
    match kind {
        ScalarKind::Str => Some(GScalar::Str(raw)),
        ScalarKind::Int => match g_parse_i64(raw) {
            Some(v) => Some(GScalar::Int(v)),
            None => None,
        },
        ScalarKind::UInt => match g_parse_u64(raw) {
            Some(v) => Some(GScalar::UInt(v)),
            None => None,
        },
        ScalarKind::Bool => match g_parse_bool(raw) {
            Some(v) => Some(GScalar::Bool(v)),
            None => None,
        },
    }
}

/// Parses a raw string as a scalar of the given kind; a string that does
/// not parse yields `UnexpectedValueType` carrying it.
pub fn parse_str(value: &str, kind: &ScalarKind) -> (r: Result<Scalar, ParseError>)
    ensures
        match r {
            Ok(s) => g_parse_scalar(*kind, value@) == Some(s@),
            Err(e) => g_parse_scalar(*kind, value@) is None && e@
                == GParseError::UnexpectedValueType(value@),
        },
{
    let parsed: Option<Scalar> = match kind {
        ScalarKind::Str => Some(Scalar::Str(value.to_owned())),
        ScalarKind::Int => match crate::strutil::parse_i64(value) {
            Some(v) => Some(Scalar::Int(v)),
            None => None,
        },
        ScalarKind::UInt => match crate::strutil::parse_u64(value) {
            Some(v) => Some(Scalar::UInt(v)),
            None => None,
        },
        ScalarKind::Bool => match crate::strutil::parse_bool(value) {
            Some(v) => Some(Scalar::Bool(v)),
            None => None,
        },
    };
    match parsed {
        Some(s) => Ok(s),
        None => Err(ParseError::UnexpectedValueType { value: value.to_owned() }),
    }
}

/// The key/value pair one map segment denotes: the segment is split once
/// on `=` (no `=` means the value is missing), both sides are trimmed, an
/// empty key or value is rejected, and each side is parsed as its scalar
/// kind.
pub open spec fn g_parse_pair(seg: Seq<char>, kk: ScalarKind, vk: ScalarKind) -> Result<
    (GScalar, GScalar),
    GParseError,
> {
    match g_find(seg, "="@, 0) {
        None => Err(GParseError::MissingValue),
        Some(j) => {
            let key = g_trim(seg.subrange(0, j));
            let val = g_trim(seg.subrange(j + 1, seg.len() as int));
            if key.len() == 0 {
                Err(GParseError::MissingKey)
            } else if val.len() == 0 {
                Err(GParseError::MissingValue)
            } else {
                match g_parse_scalar(kk, key) {
                    None => Err(GParseError::UnexpectedKeyType(key)),
                    Some(k) => match g_parse_scalar(vk, val) {
                        None => Err(GParseError::UnexpectedValueType(val)),
                        Some(v) => Ok((k, v)),
                    },
                }
            }
        },
    }
}

fn parse_pair(seg: &str, kk: &ScalarKind, vk: &ScalarKind) -> (r: Result<
    (Scalar, Scalar),
    ParseError,
>)
    ensures
        match r {
            Ok((k, v)) => g_parse_pair(seg@, *kk, *vk) == Ok::<_, GParseError>((k@, v@)),
            Err(e) => g_parse_pair(seg@, *kk, *vk) == Err::<(GScalar, GScalar), _>(e@),
        },
{
    proof {
        reveal_strlit("=");
    }
    let n = seg.unicode_len();
    match find_from(seg, "=", 0) {
        None => Err(ParseError::MissingValue),
        Some(j) => {
            let key = trim(seg.substring_char(0, j));
            let val = trim(seg.substring_char(j + 1, n));
            if key.unicode_len() == 0 {
                Err(ParseError::MissingKey)
            } else if val.unicode_len() == 0 {
                Err(ParseError::MissingValue)
            } else {
                match parse_str(key, kk) {
                    Err(_) => Err(ParseError::UnexpectedKeyType { key: key.to_owned() }),
                    Ok(k) => match parse_str(val, vk) {
                        Err(_) => Err(ParseError::UnexpectedValueType { value: val.to_owned() }),
                        Ok(v) => Ok((k, v)),
                    },
                }
            }
        },
    }
}

/// The position of the first pair in `m[i..]` whose key equals `k`.
pub open spec fn g_key_index(m: Seq<(GScalar, GScalar)>, k: GScalar, i: int) -> Option<int>
    decreases m.len() - i,
{
    if i < 0 || i >= m.len() {
        None
    } else if m[i].0 == k {
        Some(i)
    } else {
        g_key_index(m, k, i + 1)
    }
}

/// Inserts a pair into an association list with overwrite-on-duplicate
/// semantics: an existing key keeps its position and takes the new value;
/// a new key is appended.
pub open spec fn g_insert_pair(
    m: Seq<(GScalar, GScalar)>,
    k: GScalar,
    v: GScalar,
) -> Seq<(GScalar, GScalar)> {
    match g_key_index(m, k, 0) {
        Some(i) => m.update(i, (k, v)),
        None => m.push((k, v)),
    }
}

/// Parses the segments from index `i` on and folds them into the
/// accumulated map, failing fast on the first bad segment.
pub open spec fn g_collect_map(
    segs: Seq<Seq<char>>,
    kk: ScalarKind,
    vk: ScalarKind,
    i: int,
    acc: Seq<(GScalar, GScalar)>,
) -> Result<Seq<(GScalar, GScalar)>, GParseError>
    decreases segs.len() - i,
{
    if i < 0 || i >= segs.len() {
        Ok(acc)
    } else {
        match g_parse_pair(segs[i], kk, vk) {
            Err(e) => Err(e),
            Ok((k, v)) => g_collect_map(segs, kk, vk, i + 1, g_insert_pair(acc, k, v)),
        }
    }
}

/// The map a raw string denotes: the string is trimmed, split on the
/// collection delimiter, and each segment contributes one key/value pair.
pub open spec fn g_parse_map(
    raw: Seq<char>,
    delim: Seq<char>,
    kk: ScalarKind,
    vk: ScalarKind,
) -> Result<Seq<(GScalar, GScalar)>, GParseError> {
    g_collect_map(g_split(g_trim(raw), delim), kk, vk, 0, Seq::empty())
}

/// A copy of a scalar that is the same value.
pub fn clone_scalar(s: &Scalar) -> (r: Scalar)
    ensures
        r@ == s@,
{
    match s {
        Scalar::Str(x) => Scalar::Str(x.clone()),
        Scalar::Int(x) => Scalar::Int(*x),
        Scalar::UInt(x) => Scalar::UInt(*x),
        Scalar::Bool(x) => Scalar::Bool(*x),
    }
}

/// Whether two scalars are the same value.
pub fn scalar_eq(a: &Scalar, b: &Scalar) -> (r: bool)
    ensures
        r == (a@ == b@),
{
    match (a, b) {
        (Scalar::Str(x), Scalar::Str(y)) => eq_str(x.as_str(), y.as_str()),
        (Scalar::Int(x), Scalar::Int(y)) => *x == *y,
        (Scalar::UInt(x), Scalar::UInt(y)) => *x == *y,
        (Scalar::Bool(x), Scalar::Bool(y)) => *x == *y,
        _ => false,
    }
}

fn key_index(m: &Vec<(Scalar, Scalar)>, k: &Scalar, i: usize) -> (r: Option<usize>)
    requires
        i <= m.len(),
    ensures
        match r {
            Some(j) => g_key_index(pairs_view(m@), k@, i as int) == Some(j as int) && j < m.len(),
            None => g_key_index(pairs_view(m@), k@, i as int) is None,
        },
    decreases m.len() - i,
{
    if i == m.len() {
        None
    } else if scalar_eq(&m[i].0, k) {
        Some(i)
    } else {
        key_index(m, k, i + 1)
    }
}

fn insert_pair(m: &mut Vec<(Scalar, Scalar)>, k: Scalar, v: Scalar)
    ensures
        pairs_view(final(m)@) == g_insert_pair(pairs_view(old(m)@), k@, v@),
{
    let ghost old_view = pairs_view(m@);
    match key_index(m, &k, 0) {
        Some(i) => {
            m.set(i, (k, v));
            proof {
                assert(pairs_view(m@) =~= old_view.update(
                    g_key_index(old_view, k@, 0).unwrap(),
                    (k@, v@),
                ));
            }
        },
        None => {
            m.push((k, v));
            proof {
                assert(pairs_view(m@) =~= old_view.push((k@, v@)));
            }
        },
    }
}

/// Parses a raw string as a map: the trimmed string is split on the
/// delimiter, each segment is split once on `=`, both sides are trimmed
/// and parsed as their scalar kinds, and a repeated key overwrites its
/// value in place.
pub fn parse_map(pairs: &str, delim: &str, kk: &ScalarKind, vk: &ScalarKind) -> (r: Result<
    Vec<(Scalar, Scalar)>,
    ParseError,
>)
    requires
        delim@.len() > 0,
    ensures
        match r {
            Ok(m) => g_parse_map(pairs@, delim@, *kk, *vk) == Ok::<_, GParseError>(pairs_view(m@)),
            Err(e) => g_parse_map(pairs@, delim@, *kk, *vk) == Err::<Seq<(GScalar, GScalar)>, _>(
                e@,
            ),
        },
{
    let trimmed = trim(pairs);
    let segs = split(trimmed, delim);
    let ghost gsegs = g_split(g_trim(pairs@), delim@);
    let mut acc: Vec<(Scalar, Scalar)> = Vec::new();
    proof {
        assert(pairs_view(acc@) =~= Seq::<(GScalar, GScalar)>::empty());
    }
    let n = segs.len();
    let mut i: usize = 0;
    while i < n
        invariant
            0 <= i <= n,
            n == segs@.len(),
            strs_view(segs@) == gsegs,
            gsegs == g_split(g_trim(pairs@), delim@),
            g_collect_map(gsegs, *kk, *vk, 0, Seq::empty()) == g_collect_map(
                gsegs,
                *kk,
                *vk,
                i as int,
                pairs_view(acc@),
            ),
        decreases n - i,
    {
        proof {
            assert(gsegs.len() == segs@.len());
            assert(gsegs[i as int] == strs_view(segs@)[i as int]);
            assert(strs_view(segs@)[i as int] == segs@[i as int]@);
        }
        match parse_pair(segs[i].as_str(), kk, vk) {
            Err(e) => {
                proof {
                    assert(g_collect_map(gsegs, *kk, *vk, i as int, pairs_view(acc@))
                        == Err::<Seq<(GScalar, GScalar)>, GParseError>(e@));
                }
                return Err(e);
            },
            Ok((k, v)) => {
                let ghost gk = k@;
                let ghost gv = v@;
                let ghost prev = pairs_view(acc@);
                insert_pair(&mut acc, k, v);
                proof {
                    assert(g_collect_map(gsegs, *kk, *vk, i as int, prev) == g_collect_map(
                        gsegs,
                        *kk,
                        *vk,
                        i + 1,
                        g_insert_pair(prev, gk, gv),
                    ));
                }
            },
        }
        i += 1;
    }
    Ok(acc)
}

/// The element one list or set segment denotes: the segment is trimmed,
/// an empty element is rejected, and the element is parsed as its scalar
/// kind.
pub open spec fn g_parse_elem(seg: Seq<char>, kind: ScalarKind) -> Result<GScalar, GParseError> {
    let val = g_trim(seg);
    if val.len() == 0 {
        Err(GParseError::MissingValue)
    } else {
        match g_parse_scalar(kind, val) {
            None => Err(GParseError::UnexpectedValueType(val)),
            Some(s) => Ok(s),
        }
    }
}

/// Parses the segments from index `i` on into elements, in order,
/// failing fast on the first bad segment.
pub open spec fn g_collect_elems(
    segs: Seq<Seq<char>>,
    kind: ScalarKind,
    i: int,
    acc: Seq<GScalar>,
) -> Result<Seq<GScalar>, GParseError>
    decreases segs.len() - i,
{
    if i < 0 || i >= segs.len() {
        Ok(acc)
    } else {
        match g_parse_elem(segs[i], kind) {
            Err(e) => Err(e),
            Ok(s) => g_collect_elems(segs, kind, i + 1, acc.push(s)),
        }
    }
}

/// The element sequence a raw string denotes: the string is trimmed,
/// split on the collection delimiter, and each segment contributes one
/// element, in order, duplicates kept.
pub open spec fn g_parse_set(raw: Seq<char>, delim: Seq<char>, kind: ScalarKind) -> Result<
    Seq<GScalar>,
    GParseError,
> {
    g_collect_elems(g_split(g_trim(raw), delim), kind, 0, Seq::empty())
}

/// Parses a raw string as a sequence of elements: the trimmed string is
/// split on the delimiter, each segment is trimmed and parsed as the
/// element kind. Order and duplicates are kept; a set-typed field drops
/// duplicates afterwards with `dedup_scalars`.
pub fn parse_set(sequence: &str, delim: &str, kind: &ScalarKind) -> (r: Result<
    Vec<Scalar>,
    ParseError,
>)
    requires
        delim@.len() > 0,
    ensures
        match r {
            Ok(v) => g_parse_set(sequence@, delim@, *kind) == Ok::<_, GParseError>(
                scalars_view(v@),
            ),
            Err(e) => g_parse_set(sequence@, delim@, *kind) == Err::<Seq<GScalar>, _>(e@),
        },
{
    let trimmed = trim(sequence);
    let segs = split(trimmed, delim);
    let ghost gsegs = g_split(g_trim(sequence@), delim@);
    let mut acc: Vec<Scalar> = Vec::new();
    proof {
        assert(scalars_view(acc@) =~= Seq::<GScalar>::empty());
    }
    let n = segs.len();
    let mut i: usize = 0;
    while i < n
        invariant
            0 <= i <= n,
            n == segs@.len(),
            strs_view(segs@) == gsegs,
            gsegs == g_split(g_trim(sequence@), delim@),
            g_collect_elems(gsegs, *kind, 0, Seq::empty()) == g_collect_elems(
                gsegs,
                *kind,
                i as int,
                scalars_view(acc@),
            ),
        decreases n - i,
    {
        proof {
            assert(gsegs.len() == segs@.len());
            assert(gsegs[i as int] == strs_view(segs@)[i as int]);
            assert(strs_view(segs@)[i as int] == segs@[i as int]@);
        }
        let seg = trim(segs[i].as_str());
        if seg.unicode_len() == 0 {
            proof {
                assert(g_parse_elem(gsegs[i as int], *kind) == Err::<GScalar, GParseError>(
                    GParseError::MissingValue,
                ));
            }
            return Err(ParseError::MissingValue);
        }
        match parse_str(seg, kind) {
            Err(_) => {
                proof {
                    assert(g_parse_elem(gsegs[i as int], *kind) == Err::<GScalar, GParseError>(
                        GParseError::UnexpectedValueType(seg@),
                    ));
                }
                return Err(ParseError::UnexpectedValueType { value: seg.to_owned() });
            },
            Ok(s) => {
                let ghost old_acc = scalars_view(acc@);
                acc.push(s);
                proof {
                    assert(scalars_view(acc@) =~= old_acc.push(s@));
                }
            },
        }
        i += 1;
    }
    Ok(acc)
}

/// Drops duplicate elements, keeping the first occurrence of each, from
/// index `i` on.
pub open spec fn g_dedup(elems: Seq<GScalar>, i: int, acc: Seq<GScalar>) -> Seq<GScalar>
    decreases elems.len() - i,
{
    if i < 0 || i >= elems.len() {
        acc
    } else if acc.contains(elems[i]) {
        g_dedup(elems, i + 1, acc)
    } else {
        g_dedup(elems, i + 1, acc.push(elems[i]))
    }
}

fn contains_scalar(v: &Vec<Scalar>, s: &Scalar) -> (r: bool)
    ensures
        r == scalars_view(v@).contains(s@),
{
    let n = v.len();
    let mut i: usize = 0;
    while i < n
        invariant
            0 <= i <= n,
            n == v@.len(),
            forall|j: int| 0 <= j < i ==> v@[j]@ != s@,
        decreases n - i,
    {
        if scalar_eq(&v[i], s) {
            proof {
                assert(scalars_view(v@)[i as int] == s@);
            }
            return true;
        }
        i += 1;
    }
    proof {
        assert(forall|j: int| 0 <= j < scalars_view(v@).len() ==> scalars_view(v@)[j] != s@);
    }
    false
}

/// Drops duplicate elements, keeping the first occurrence of each: the
/// set collection semantics.
pub fn dedup_scalars(elems: Vec<Scalar>) -> (r: Vec<Scalar>)
    ensures
        scalars_view(r@) == g_dedup(scalars_view(elems@), 0, Seq::empty()),
{
    let ghost gelems = scalars_view(elems@);
    let mut acc: Vec<Scalar> = Vec::new();
    proof {
        assert(scalars_view(acc@) =~= Seq::<GScalar>::empty());
    }
    let n = elems.len();
    let mut i: usize = 0;
    while i < n
        invariant
            0 <= i <= n,
            n == elems@.len(),
            gelems == scalars_view(elems@),
            g_dedup(gelems, 0, Seq::empty()) == g_dedup(gelems, i as int, scalars_view(acc@)),
        decreases n - i,
    {
        if !contains_scalar(&acc, &elems[i]) {
            let ghost old_acc = scalars_view(acc@);
            acc.push(clone_scalar(&elems[i]));
            proof {
                assert(scalars_view(acc@) =~= old_acc.push(gelems[i as int]));
            }
        }
        i += 1;
    }
    acc
}

} // verus!
