//! A conservative, fully verified scan of a container descriptor
//! (`META-INF/container.xml`) that vets its `full-path` attributes
//! before the container is handed to the package parser.
//!
//! The package parser aborts on a descriptor whose declared
//! package-document path has no parent (an empty path or a bare root,
//! all separators). This scan accepts a descriptor only when that
//! outcome is impossible:
//!
//! - every occurrence of the byte string `full-path` must look like an
//!   attribute (optional whitespace, `=`, optional whitespace, then a
//!   quoted value), and its raw value must be free of `&` (so no
//!   character or entity reference can smuggle in a separator), be
//!   non-empty, and hold at least one byte that is not `/` — attribute
//!   value normalization maps whitespace to spaces and leaves other
//!   bytes alone, so the parsed path keeps a non-separator character
//!   and therefore has a parent;
//! - at least one such occurrence must exist, and no byte may be zero:
//!   a descriptor in a wide encoding (whose markup bytes interleave
//!   zeros) or without a literal `full-path` attribute is rejected
//!   rather than guessed at.
//!
//! A descriptor the scan rejects is reported as unopenable; that is
//! deliberate over-caution on exotic descriptors, never a wrong
//! acceptance. A rejected-but-parsable descriptor would at worst have
//! opened; an accepted one can never abort the parser.

use vstd::prelude::*;

verus! {

/// XML whitespace: space, tab, line feed, carriage return.
pub open spec fn xml_ws(b: u8) -> bool {
    b == 32 || b == 9 || b == 10 || b == 13
}

/// First position at or after `j` holding a non-whitespace byte (or the
/// end of the input).
pub open spec fn skip_ws(xml: Seq<u8>, j: int) -> int
    decreases xml.len() - j,
    when 0 <= j <= xml.len()
{
    if j < xml.len() && xml_ws(xml[j]) {
        skip_ws(xml, j + 1)
    } else {
        j
    }
}

/// Position of the next occurrence of the quote byte `q` at or after
/// `p`, if any.
pub open spec fn quote_end(xml: Seq<u8>, p: int, q: u8) -> Option<int>
    decreases xml.len() - p,
    when 0 <= p <= xml.len()
{
    if p < xml.len() {
        if xml[p] == q {
            Some(p)
        } else {
            quote_end(xml, p + 1, q)
        }
    } else {
        None
    }
}

/// The byte range (start inclusive, end exclusive) of the quoted
/// attribute value that follows position `i`, when what follows is
/// optional whitespace, `=`, optional whitespace and a quoted string.
pub open spec fn attr_value(xml: Seq<u8>, i: int) -> Option<(int, int)> {
    let j = skip_ws(xml, i);
    if j < xml.len() && xml[j] == 61 {
        let k = skip_ws(xml, j + 1);
        if k < xml.len() && (xml[k] == 34 || xml[k] == 39) {
            match quote_end(xml, k + 1, xml[k]) {
                Some(e) => Some((k + 1, e)),
                None => None,
            }
        } else {
            None
        }
    } else {
        None
    }
}

/// A raw attribute value that can only normalize to a path with a
/// parent: non-empty, reference-free (no `&`), with a byte that is not
/// the path separator.
pub open spec fn safe_value(xml: Seq<u8>, s: int, e: int) -> bool {
    &&& s < e
    &&& exists|p: int| s <= p < e && xml[p] != 47
    &&& forall|p: int| s <= p < e ==> xml[p] != 38
}

/// Whether the nine bytes of `full-path` stand at position `i`.
pub open spec fn marker_at(xml: Seq<u8>, i: int) -> bool {
    &&& 0 <= i
    &&& i + 9 <= xml.len()
    &&& xml[i] == 102
    &&& xml[i + 1] == 117
    &&& xml[i + 2] == 108
    &&& xml[i + 3] == 108
    &&& xml[i + 4] == 45
    &&& xml[i + 5] == 112
    &&& xml[i + 6] == 97
    &&& xml[i + 7] == 116
    &&& xml[i + 8] == 104
}

/// Whether the `full-path` occurrence at `i` is attribute-shaped with a
/// safe value.
pub open spec fn occurrence_ok(xml: Seq<u8>, i: int) -> bool {
    match attr_value(xml, i + 9) {
        Some(r) => safe_value(xml, r.0, r.1),
        None => false,
    }
}

/// Whether these descriptor bytes are accepted: no zero byte, at least
/// one `full-path` occurrence, and every occurrence attribute-shaped
/// with a safe value.
pub open spec fn root_path_acceptable(xml: Seq<u8>) -> bool {
    &&& forall|k: int| 0 <= k < xml.len() ==> xml[k] != 0
    &&& exists|i: int| marker_at(xml, i)
    &&& forall|i: int| marker_at(xml, i) ==> occurrence_ok(xml, i)
}

fn skip_ws_x(xml: &Vec<u8>, start: usize) -> (r: usize)
    requires
        start <= xml.len(),
    ensures
        r as int == skip_ws(xml@, start as int),
        start <= r <= xml.len(),
{
    let mut j = start;
    while j < xml.len() && (xml[j] == 32 || xml[j] == 9 || xml[j] == 10 || xml[j] == 13)
        invariant
            start <= j <= xml.len(),
            skip_ws(xml@, start as int) == skip_ws(xml@, j as int),
        decreases xml.len() - j,
    {
        j = j + 1;
    }
    j
}

fn quote_end_x(xml: &Vec<u8>, start: usize, q: u8) -> (r: Option<usize>)
    requires
        start <= xml.len(),
    ensures
        r is Some <==> quote_end(xml@, start as int, q) is Some,
        r matches Some(e) ==> quote_end(xml@, start as int, q) == Some(e as int) && start <= e
            < xml.len(),
{
    let mut p = start;
    while p < xml.len() && xml[p] != q
        invariant
            start <= p <= xml.len(),
            quote_end(xml@, start as int, q) == quote_end(xml@, p as int, q),
        decreases xml.len() - p,
    {
        p = p + 1;
    }
    if p < xml.len() {
        Some(p)
    } else {
        None
    }
}

fn attr_value_x(xml: &Vec<u8>, i: usize) -> (r: Option<(usize, usize)>)
    requires
        i <= xml.len(),
    ensures
        r is Some <==> attr_value(xml@, i as int) is Some,
        r matches Some(v) ==> attr_value(xml@, i as int) == Some((v.0 as int, v.1 as int)) && v.0
            <= v.1 <= xml.len(),
{
    let j = skip_ws_x(xml, i);
    if j < xml.len() && xml[j] == 61 {
        let k = skip_ws_x(xml, j + 1);
        if k < xml.len() && (xml[k] == 34 || xml[k] == 39) {
            match quote_end_x(xml, k + 1, xml[k]) {
                Some(e) => Some((k + 1, e)),
                None => None,
            }
        } else {
            None
        }
    } else {
        None
    }
}

fn value_safe_x(xml: &Vec<u8>, s: usize, e: usize) -> (r: bool)
    requires
        s <= e <= xml.len(),
    ensures
        r == safe_value(xml@, s as int, e as int),
{
    let mut has_non_slash = false;
    let mut has_ref = false;
    let mut p = s;
    while p < e
        invariant
            s <= p <= e <= xml.len(),
            has_non_slash == (exists|m: int| s <= m < p && xml@[m] != 47),
            has_ref == (exists|m: int| s <= m < p && xml@[m] == 38),
        decreases e - p,
    {
        if xml[p] != 47 {
            has_non_slash = true;
        }
        if xml[p] == 38 {
            has_ref = true;
        }
        p = p + 1;
    }
    s < e && has_non_slash && !has_ref
}

fn marker_at_x(xml: &Vec<u8>, i: usize) -> (r: bool)
    requires
        i < xml.len(),
    ensures
        r == marker_at(xml@, i as int),
{
    if xml.len() - i < 9 {
        return false;
    }
    xml[i] == 102 && xml[i + 1] == 117 && xml[i + 2] == 108 && xml[i + 3] == 108 && xml[i + 4]
        == 45 && xml[i + 5] == 112 && xml[i + 6] == 97 && xml[i + 7] == 116 && xml[i + 8] == 104
}

/// Scans a container descriptor and reports whether it is accepted:
/// the result equals `root_path_acceptable` on the bytes.
pub fn check_container_file(xml: &Vec<u8>) -> (r: bool)
    ensures
        r == root_path_acceptable(xml@),
{
    let mut no_zero = true;
    let mut found = false;
    let mut all_ok = true;
    let mut i: usize = 0;
    while i < xml.len()
        invariant
            i <= xml.len(),
            no_zero == (forall|k: int| 0 <= k < i ==> xml@[k] != 0),
            found == (exists|m: int| m < i && marker_at(xml@, m)),
            all_ok == (forall|m: int| m < i && marker_at(xml@, m) ==> occurrence_ok(xml@, m)),
        decreases xml.len() - i,
    {
        if xml[i] == 0 {
            no_zero = false;
        }
        if marker_at_x(xml, i) {
            found = true;
            let mut this_ok = false;
            match attr_value_x(xml, i + 9) {
                Some(v) => {
                    this_ok = value_safe_x(xml, v.0, v.1);
                },
                None => {},
            }
            if !this_ok {
                all_ok = false;
            }
        }
        i = i + 1;
    }
    no_zero && found && all_ok
}

} // verus!
