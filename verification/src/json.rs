//! The layout of a JSON document's outermost value: where the members of an
//! object, or the elements of an array, begin and end. serde_json checks that the
//! document is well formed and decodes the strings; the layout is found here.
use vstd::prelude::*;

verus! {

/// What serde_json makes of `bytes` read as one JSON text with every value in it
/// skipped unread (as it skips the members a struct does not name): `Ok` where
/// they are well formed (nested to any depth, numbers of any size, string
/// contents not checked as UTF-8), otherwise the text its error displays.
pub uninterp spec fn json_skipping(bytes: Seq<u8>) -> core::result::Result<(), Seq<char>>;

/// The string that `bytes` hold as one JSON string token (surrounding whitespace
/// allowed), escapes decoded, as serde_json reads a `String`; `None` where they
/// hold anything else, or a string with a bad escape or bytes that are not UTF-8.
pub uninterp spec fn json_string_value(bytes: Seq<u8>) -> Option<Seq<char>>;

/// Calls `serde_json::from_slice` into `serde::de::IgnoredAny`, handing an
/// error over as the text it displays. Claimed: the outcome is the one
/// `json_skipping` names for the bytes.
#[verifier::external_body]
pub(crate) fn check_json(bytes: &[u8]) -> (res: core::result::Result<(), String>)
    ensures
        match res {
            Ok(()) => json_skipping(bytes@) == Ok::<(), Seq<char>>(()),
            Err(m) => json_skipping(bytes@) == Err::<(), Seq<char>>(m@),
        },
{
    match serde_json::from_slice::<serde::de::IgnoredAny>(bytes) {
        Ok(_) => Ok(()),
        Err(e) => Err(e.to_string()),
    }
}

/// Calls `serde_json::from_slice` into a `String`. Claimed: it succeeds exactly
/// when `json_string_value` names a string for the bytes, and returns that string.
#[verifier::external_body]
pub(crate) fn decode_json_string(bytes: &[u8]) -> (res: Option<String>)
    ensures
        res is Some <==> json_string_value(bytes@) is Some,
        res matches Some(s) ==> json_string_value(bytes@) == Some(s@),
{
    match serde_json::from_slice::<String>(bytes) {
        Ok(s) => Some(s),
        Err(_) => None,
    }
}

/// Whitespace as JSON has it: space, line feed, tab, carriage return.
pub open spec fn is_ws(c: u8) -> bool {
    c == 0x20 || c == 0x0a || c == 0x09 || c == 0x0d
}

/// The first index at or after `i` that does not hold whitespace (or the length).
pub open spec fn skip_ws(b: Seq<u8>, i: int) -> int
    decreases b.len() - i,
{
    if 0 <= i < b.len() && is_ws(b[i]) {
        skip_ws(b, i + 1)
    } else {
        i
    }
}

/// Where something open at `i` closes. With `depth` 0 a string is open, and the
/// result is the index just past its closing quote; otherwise `depth` brackets
/// are open, and the result is the index just past the bracket that closes the
/// outermost. `in_str` says a string is open at `i`, `esc` that the byte at `i`
/// follows a backslash in it; brackets inside strings do not count. Where
/// nothing closes, the result is the length.
pub open spec fn close_of(b: Seq<u8>, i: int, depth: int, in_str: bool, esc: bool) -> int
    decreases b.len() - i,
{
    if i < 0 || i >= b.len() {
        b.len() as int
    } else {
        let c = b[i];
        if in_str {
            if esc {
                close_of(b, i + 1, depth, true, false)
            } else if c == 0x5c {
                close_of(b, i + 1, depth, true, true)
            } else if c == 0x22 {
                if depth == 0 { i + 1 } else { close_of(b, i + 1, depth, false, false) }
            } else {
                close_of(b, i + 1, depth, true, false)
            }
        } else if c == 0x22 {
            close_of(b, i + 1, depth, true, false)
        } else if c == 0x7b || c == 0x5b {
            close_of(b, i + 1, depth + 1, false, false)
        } else if c == 0x7d || c == 0x5d {
            if depth <= 1 { i + 1 } else { close_of(b, i + 1, depth - 1, false, false) }
        } else {
            close_of(b, i + 1, depth, false, false)
        }
    }
}

/// Where a bare scalar (number, `true`, `false`, `null`) that starts at `i`
/// ends: at the first comma, closing bracket or whitespace, or the length.
pub open spec fn scalar_end(b: Seq<u8>, i: int) -> int
    decreases b.len() - i,
{
    if i < 0 || i >= b.len() || is_ws(b[i]) || b[i] == 0x2c || b[i] == 0x7d || b[i] == 0x5d {
        i
    } else {
        scalar_end(b, i + 1)
    }
}

/// Where the value that starts at `i` ends: a string at its closing quote, an
/// object or array at its closing bracket, a scalar where it stops.
pub open spec fn value_end(b: Seq<u8>, i: int) -> int {
    if 0 <= i < b.len() && b[i] == 0x22 {
        close_of(b, i + 1, 0, true, false)
    } else if 0 <= i < b.len() && (b[i] == 0x7b || b[i] == 0x5b) {
        close_of(b, i + 1, 1, false, false)
    } else {
        scalar_end(b, i)
    }
}

/// Skipping whitespace never moves back and stays within the bytes.
pub proof fn lemma_skip_ws(b: Seq<u8>, i: int)
    requires
        0 <= i <= b.len(),
    ensures
        i <= skip_ws(b, i) <= b.len(),
    decreases b.len() - i,
{
    if i < b.len() && is_ws(b[i]) {
        lemma_skip_ws(b, i + 1);
    }
}

/// A close is found at or after where the scan starts, within the bytes.
pub proof fn lemma_close_of(b: Seq<u8>, i: int, depth: int, in_str: bool, esc: bool)
    requires
        0 <= i <= b.len(),
    ensures
        i <= close_of(b, i, depth, in_str, esc) <= b.len(),
    decreases b.len() - i,
{
    if i < b.len() {
        let c = b[i];
        if in_str {
            if esc {
                lemma_close_of(b, i + 1, depth, true, false);
            } else if c == 0x5c {
                lemma_close_of(b, i + 1, depth, true, true);
            } else if c == 0x22 {
                if depth != 0 {
                    lemma_close_of(b, i + 1, depth, false, false);
                }
            } else {
                lemma_close_of(b, i + 1, depth, true, false);
            }
        } else if c == 0x22 {
            lemma_close_of(b, i + 1, depth, true, false);
        } else if c == 0x7b || c == 0x5b {
            lemma_close_of(b, i + 1, depth + 1, false, false);
        } else if c == 0x7d || c == 0x5d {
            if depth > 1 {
                lemma_close_of(b, i + 1, depth - 1, false, false);
            }
        } else {
            lemma_close_of(b, i + 1, depth, false, false);
        }
    }
}

/// A scalar ends at or after where it starts, within the bytes.
pub proof fn lemma_scalar_end(b: Seq<u8>, i: int)
    requires
        0 <= i <= b.len(),
    ensures
        i <= scalar_end(b, i) <= b.len(),
    decreases b.len() - i,
{
    if i < b.len() && !(is_ws(b[i]) || b[i] == 0x2c || b[i] == 0x7d || b[i] == 0x5d) {
        lemma_scalar_end(b, i + 1);
    }
}

/// A value ends at or after where it starts, within the bytes.
pub proof fn lemma_value_end(b: Seq<u8>, i: int)
    requires
        0 <= i <= b.len(),
    ensures
        i <= value_end(b, i) <= b.len(),
{
    if i < b.len() && b[i] == 0x22 {
        lemma_close_of(b, i + 1, 0, true, false);
    } else if i < b.len() && (b[i] == 0x7b || b[i] == 0x5b) {
        lemma_close_of(b, i + 1, 1, false, false);
    } else {
        lemma_scalar_end(b, i);
    }
}

/// The members of an object from `i` on (just after its `{`, or after a comma),
/// each as the span of its key token and the span of its value: a string key,
/// a colon, a value, then a comma and more members or the closing `}`.
/// `None` where the bytes do not have that shape.
pub open spec fn object_members(b: Seq<u8>, i: int) -> Option<Seq<(int, int, int, int)>>
    decreases b.len() - i,
{
    let k = skip_ws(b, i);
    if !(0 <= i <= b.len()) || k >= b.len() || b[k] != 0x22 {
        None
    } else {
        let ke = close_of(b, k + 1, 0, true, false);
        let c = skip_ws(b, ke);
        if c < 0 || c >= b.len() || b[c] != 0x3a {
            None
        } else {
            let v = skip_ws(b, c + 1);
            let ve = value_end(b, v);
            let n = skip_ws(b, ve);
            if n < 0 || n >= b.len() {
                None
            } else if b[n] == 0x7d {
                Some(seq![(k, ke, v, ve)])
            } else if b[n] == 0x2c {
                proof {
                    lemma_skip_ws(b, i);
                    lemma_close_of(b, k + 1, 0, true, false);
                    lemma_skip_ws(b, ke);
                    lemma_skip_ws(b, c + 1);
                    lemma_value_end(b, v);
                    lemma_skip_ws(b, ve);
                }
                match object_members(b, n + 1) {
                    Some(rest) => Some(seq![(k, ke, v, ve)] + rest),
                    None => None,
                }
            } else {
                None
            }
        }
    }
}

/// The elements of an array from `i` on (just after its `[`, or after a comma),
/// each as the span of its value: a value, then a comma and more elements or the
/// closing `]`. `None` where the bytes do not have that shape.
pub open spec fn array_elements(b: Seq<u8>, i: int) -> Option<Seq<(int, int)>>
    decreases b.len() - i,
{
    let v = skip_ws(b, i);
    if !(0 <= i <= b.len()) || v >= b.len() {
        None
    } else {
        let ve = value_end(b, v);
        let n = skip_ws(b, ve);
        if n < 0 || n >= b.len() {
            None
        } else if b[n] == 0x5d {
            Some(seq![(v, ve)])
        } else if b[n] == 0x2c {
            proof {
                lemma_skip_ws(b, i);
                lemma_value_end(b, v);
                lemma_skip_ws(b, ve);
            }
            match array_elements(b, n + 1) {
                Some(rest) => Some(seq![(v, ve)] + rest),
                None => None,
            }
        } else {
            None
        }
    }
}

/// The outermost value of a JSON document, as far as its layout goes.
pub enum JsonShape {
    /// An object, with the spans of each member's key and value.
    Object(Seq<(int, int, int, int)>),
    /// An array, with the span of each element.
    Array(Seq<(int, int)>),
    /// Anything else.
    Other,
}

/// The layout of the outermost value in `b`, after any leading whitespace.
pub open spec fn json_shape(b: Seq<u8>) -> JsonShape {
    let s = skip_ws(b, 0);
    if s < 0 || s >= b.len() {
        JsonShape::Other
    } else if b[s] == 0x7b {
        let t = skip_ws(b, s + 1);
        if 0 <= t < b.len() && b[t] == 0x7d {
            JsonShape::Object(Seq::empty())
        } else {
            match object_members(b, s + 1) {
                Some(m) => JsonShape::Object(m),
                None => JsonShape::Other,
            }
        }
    } else if b[s] == 0x5b {
        let t = skip_ws(b, s + 1);
        if 0 <= t < b.len() && b[t] == 0x5d {
            JsonShape::Array(Seq::empty())
        } else {
            match array_elements(b, s + 1) {
                Some(e) => JsonShape::Array(e),
                None => JsonShape::Other,
            }
        }
    } else {
        JsonShape::Other
    }
}

/// Member spans as integers.
pub open spec fn member_spans(v: Seq<(usize, usize, usize, usize)>) -> Seq<(int, int, int, int)> {
    v.map_values(|m: (usize, usize, usize, usize)| (m.0 as int, m.1 as int, m.2 as int, m.3 as int))
}

/// Element spans as integers.
pub open spec fn element_spans(v: Seq<(usize, usize)>) -> Seq<(int, int)> {
    v.map_values(|e: (usize, usize)| (e.0 as int, e.1 as int))
}

/// The layout of a document's outermost value, with its spans as indices.
pub enum JsonLayout {
    Object(Vec<(usize, usize, usize, usize)>),
    Array(Vec<(usize, usize)>),
    Other,
}

/// The layout with its spans as integers.
pub open spec fn layout_shape(l: JsonLayout) -> JsonShape {
    match l {
        JsonLayout::Object(m) => JsonShape::Object(member_spans(m@)),
        JsonLayout::Array(e) => JsonShape::Array(element_spans(e@)),
        JsonLayout::Other => JsonShape::Other,
    }
}

/// Every member span lies in order within `len` bytes.
pub open spec fn members_within(v: Seq<(usize, usize, usize, usize)>, len: int) -> bool {
    forall|j: int| 0 <= j < v.len() ==> #[trigger] v[j].0 <= v[j].1 <= len && v[j].2 <= v[j].3 <= len
}

/// Every element span lies in order within `len` bytes.
pub open spec fn elements_within(v: Seq<(usize, usize)>, len: int) -> bool {
    forall|j: int| 0 <= j < v.len() ==> #[trigger] v[j].0 <= v[j].1 <= len
}

/// Skips whitespace from `i`.
fn skip_whitespace(b: &[u8], i: usize) -> (r: usize)
    requires
        i <= b@.len(),
    ensures
        r == skip_ws(b@, i as int),
        i <= r <= b@.len(),
{
    let mut j = i;
    while j < b.len() && (b[j] == 0x20 || b[j] == 0x0a || b[j] == 0x09 || b[j] == 0x0d)
        invariant
            i <= j <= b@.len(),
            skip_ws(b@, i as int) == skip_ws(b@, j as int),
        decreases b@.len() - j,
    {
        j = j + 1;
    }
    j
}

/// Finds where something open at `i` closes (see `close_of`).
fn find_close(b: &[u8], i: usize, depth: usize, in_str: bool, esc: bool) -> (r: usize)
    requires
        i <= b@.len(),
        depth <= i,
        esc ==> in_str,
    ensures
        r == close_of(b@, i as int, depth as int, in_str, esc),
        i <= r <= b@.len(),
{
    let mut j = i;
    let mut open = depth;
    let mut quoted = in_str;
    let mut escaped = esc;
    proof {
        lemma_close_of(b@, i as int, depth as int, in_str, esc);
    }
    while j < b.len()
        invariant
            i <= j <= b@.len(),
            open <= j,
            escaped ==> quoted,
            close_of(b@, j as int, open as int, quoted, escaped) == close_of(b@, i as int, depth as int, in_str, esc),
            i <= close_of(b@, i as int, depth as int, in_str, esc) <= b@.len(),
        decreases b@.len() - j,
    {
        let c = b[j];
        if quoted {
            if escaped {
                escaped = false;
            } else if c == 0x5c {
                escaped = true;
            } else if c == 0x22 {
                if open == 0 {
                    return j + 1;
                }
                quoted = false;
            }
        } else if c == 0x22 {
            quoted = true;
        } else if c == 0x7b || c == 0x5b {
            open = open + 1;
        } else if c == 0x7d || c == 0x5d {
            if open <= 1 {
                return j + 1;
            }
            open = open - 1;
        }
        j = j + 1;
    }
    j
}

/// Finds where a bare scalar that starts at `i` ends.
fn find_scalar_end(b: &[u8], i: usize) -> (r: usize)
    requires
        i <= b@.len(),
    ensures
        r == scalar_end(b@, i as int),
        i <= r <= b@.len(),
{
    let mut j = i;
    while j < b.len() && !(b[j] == 0x20 || b[j] == 0x0a || b[j] == 0x09 || b[j] == 0x0d
        || b[j] == 0x2c || b[j] == 0x7d || b[j] == 0x5d)
        invariant
            i <= j <= b@.len(),
            scalar_end(b@, i as int) == scalar_end(b@, j as int),
        decreases b@.len() - j,
    {
        j = j + 1;
    }
    j
}

/// Finds where the value that starts at `i` ends.
fn find_value_end(b: &[u8], i: usize) -> (r: usize)
    requires
        i <= b@.len(),
    ensures
        r == value_end(b@, i as int),
        i <= r <= b@.len(),
{
    if i < b.len() && b[i] == 0x22 {
        find_close(b, i + 1, 0, true, false)
    } else if i < b.len() && (b[i] == 0x7b || b[i] == 0x5b) {
        find_close(b, i + 1, 1, false, false)
    } else {
        find_scalar_end(b, i)
    }
}

/// Finds the members of an object from `i` on (see `object_members`).
fn find_members(b: &[u8], i: usize) -> (res: Option<Vec<(usize, usize, usize, usize)>>)
    requires
        i <= b@.len(),
    ensures
        match res {
            Some(v) => object_members(b@, i as int) == Some(member_spans(v@))
                && members_within(v@, b@.len() as int),
            None => object_members(b@, i as int) is None,
        },
{
    let mut acc: Vec<(usize, usize, usize, usize)> = Vec::new();
    let mut pos = i;
    loop
        invariant
            i <= pos <= b@.len(),
            members_within(acc@, b@.len() as int),
            object_members(b@, i as int) == (match object_members(b@, pos as int) {
                Some(rest) => Some(member_spans(acc@) + rest),
                None => None,
            }),
        decreases b@.len() - pos,
    {
        let k = skip_whitespace(b, pos);
        if k >= b.len() || b[k] != 0x22 {
            return None;
        }
        let ke = find_close(b, k + 1, 0, true, false);
        let c = skip_whitespace(b, ke);
        if c >= b.len() || b[c] != 0x3a {
            return None;
        }
        let v = skip_whitespace(b, c + 1);
        let ve = find_value_end(b, v);
        let n = skip_whitespace(b, ve);
        if n >= b.len() {
            return None;
        }
        let ghost before = member_spans(acc@);
        acc.push((k, ke, v, ve));
        assert(member_spans(acc@) =~= before + seq![(k as int, ke as int, v as int, ve as int)]);
        if b[n] == 0x7d {
            assert(member_spans(acc@) =~= before + seq![(k as int, ke as int, v as int, ve as int)] + Seq::<(int, int, int, int)>::empty());
            return Some(acc);
        }
        if b[n] != 0x2c {
            return None;
        }
        proof {
            match object_members(b@, (n + 1) as int) {
                Some(rest) => {
                    assert(before + (seq![(k as int, ke as int, v as int, ve as int)] + rest)
                        =~= member_spans(acc@) + rest);
                },
                None => {},
            }
        }
        pos = n + 1;
    }
}

/// Finds the elements of an array from `i` on (see `array_elements`).
fn find_elements(b: &[u8], i: usize) -> (res: Option<Vec<(usize, usize)>>)
    requires
        i <= b@.len(),
    ensures
        match res {
            Some(v) => array_elements(b@, i as int) == Some(element_spans(v@))
                && elements_within(v@, b@.len() as int),
            None => array_elements(b@, i as int) is None,
        },
{
    let mut acc: Vec<(usize, usize)> = Vec::new();
    let mut pos = i;
    loop
        invariant
            i <= pos <= b@.len(),
            elements_within(acc@, b@.len() as int),
            array_elements(b@, i as int) == (match array_elements(b@, pos as int) {
                Some(rest) => Some(element_spans(acc@) + rest),
                None => None,
            }),
        decreases b@.len() - pos,
    {
        let v = skip_whitespace(b, pos);
        if v >= b.len() {
            return None;
        }
        let ve = find_value_end(b, v);
        let n = skip_whitespace(b, ve);
        if n >= b.len() {
            return None;
        }
        let ghost before = element_spans(acc@);
        acc.push((v, ve));
        assert(element_spans(acc@) =~= before + seq![(v as int, ve as int)]);
        if b[n] == 0x5d {
            assert(element_spans(acc@) =~= before + seq![(v as int, ve as int)] + Seq::<(int, int)>::empty());
            return Some(acc);
        }
        if b[n] != 0x2c {
            return None;
        }
        proof {
            match array_elements(b@, (n + 1) as int) {
                Some(rest) => {
                    assert(before + (seq![(v as int, ve as int)] + rest) =~= element_spans(acc@) + rest);
                },
                None => {},
            }
        }
        pos = n + 1;
    }
}

/// Finds the layout of the outermost value in `b` (see `json_shape`).
pub(crate) fn find_layout(b: &[u8]) -> (res: JsonLayout)
    ensures
        layout_shape(res) == json_shape(b@),
        match res {
            JsonLayout::Object(m) => members_within(m@, b@.len() as int),
            JsonLayout::Array(e) => elements_within(e@, b@.len() as int),
            JsonLayout::Other => true,
        },
{
    let s = skip_whitespace(b, 0);
    if s >= b.len() {
        return JsonLayout::Other;
    }
    if b[s] == 0x7b {
        let t = skip_whitespace(b, s + 1);
        if t < b.len() && b[t] == 0x7d {
            let empty: Vec<(usize, usize, usize, usize)> = Vec::new();
            assert(member_spans(empty@) =~= Seq::<(int, int, int, int)>::empty());
            return JsonLayout::Object(empty);
        }
        match find_members(b, s + 1) {
            Some(m) => JsonLayout::Object(m),
            None => JsonLayout::Other,
        }
    } else if b[s] == 0x5b {
        let t = skip_whitespace(b, s + 1);
        if t < b.len() && b[t] == 0x5d {
            let empty: Vec<(usize, usize)> = Vec::new();
            assert(element_spans(empty@) =~= Seq::<(int, int)>::empty());
            return JsonLayout::Array(empty);
        }
        match find_elements(b, s + 1) {
            Some(e) => JsonLayout::Array(e),
            None => JsonLayout::Other,
        }
    } else {
        JsonLayout::Other
    }
}

/// A string with no backslash in it ends just after its first quote: every other
/// byte, whitespace and brackets included, stays inside it.
pub proof fn lemma_plain_string_closes_at_first_quote(b: Seq<u8>, i: int, j: int)
    requires
        0 <= i <= j < b.len(),
        b[j] == 0x22,
        forall|k: int| i <= k < j ==> b[k] != 0x22 && b[k] != 0x5c,
    ensures
        close_of(b, i, 0, true, false) == j + 1,
    decreases j - i,
{
    if i < j {
        lemma_plain_string_closes_at_first_quote(b, i + 1, j);
    }
}

/// A quote after a backslash does not end a string: the string runs on past it.
pub proof fn lemma_escaped_quote_stays_inside(b: Seq<u8>, i: int)
    requires
        0 <= i,
        i + 2 <= b.len(),
        b[i] == 0x5c,
        b[i + 1] == 0x22,
    ensures
        close_of(b, i, 0, true, false) == close_of(b, i + 2, 0, true, false),
{
    assert(close_of(b, i + 1, 0, true, true) == close_of(b, i + 2, 0, true, false));
}

/// An object of one member whose key `k` and value `v` are strings with no
/// quote or backslash in them, `{"k":"v"}`, has that one member, with its key
/// and value spans running from quote to quote.
pub proof fn lemma_one_member_object(k: Seq<u8>, v: Seq<u8>)
    requires
        forall|q: int| 0 <= q < k.len() ==> k[q] != 0x22 && k[q] != 0x5c,
        forall|q: int| 0 <= q < v.len() ==> v[q] != 0x22 && v[q] != 0x5c,
    ensures
        ({
            let b = seq![0x7bu8, 0x22u8] + k + seq![0x22u8, 0x3au8, 0x22u8] + v + seq![0x22u8, 0x7du8];
            json_shape(b) == JsonShape::Object(seq![(1int, k.len() + 3int, k.len() + 4int, k.len() + v.len() + 6int)])
        }),
{
    let b = seq![0x7bu8, 0x22u8] + k + seq![0x22u8, 0x3au8, 0x22u8] + v + seq![0x22u8, 0x7du8];
    let kl = k.len() as int;
    let vl = v.len() as int;
    assert(b.len() == kl + vl + 7);
    assert(b[0] == 0x7b);
    assert(b[1] == 0x22);
    assert forall|q: int| 2 <= q < kl + 2 implies b[q] != 0x22 && b[q] != 0x5c by {
        assert(b[q] == k[q - 2]);
    }
    assert(b[kl + 2] == 0x22);
    assert(b[kl + 3] == 0x3a);
    assert(b[kl + 4] == 0x22);
    assert forall|q: int| kl + 5 <= q < kl + vl + 5 implies b[q] != 0x22 && b[q] != 0x5c by {
        assert(b[q] == v[q - kl - 5]);
    }
    assert(b[kl + vl + 5] == 0x22);
    assert(b[kl + vl + 6] == 0x7d);
    lemma_plain_string_closes_at_first_quote(b, 2, kl + 2);
    lemma_plain_string_closes_at_first_quote(b, kl + 5, kl + vl + 5);
    assert(!is_ws(b[0]));
    assert(skip_ws(b, 0) == 0);
    assert(!is_ws(b[1]));
    assert(skip_ws(b, 1) == 1);
    assert(!is_ws(b[kl + 3]));
    assert(skip_ws(b, kl + 3) == kl + 3);
    assert(!is_ws(b[kl + 4]));
    assert(skip_ws(b, kl + 4) == kl + 4);
    assert(value_end(b, kl + 4) == kl + vl + 6);
    assert(!is_ws(b[kl + vl + 6]));
    assert(skip_ws(b, kl + vl + 6) == kl + vl + 6);
    assert(object_members(b, 1) == Some(seq![(1int, kl + 3, kl + 4, kl + vl + 6)]));
}

} // verus!
