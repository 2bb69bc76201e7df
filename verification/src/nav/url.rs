//! URL and route parsing: percent-decoding, route locations, query strings
//! and `:param` route patterns.

use vstd::prelude::*;
use vstd::utf8::encode_utf8;
use crate::assoc::{spec_first_values, values_of, StringListMap, StringMap};
use crate::text::{
    find_either, first_index_of, first_index_of2, lemma_first_index_bounds, push_bytes, slice_range,
    lemma_trim_bounds, spec_split_once, spec_trim, split_from, split_once,
    str_eq, string_from_utf8_lossy, trim, utf8_lossy,
};

verus! {

/// The value of an ASCII hex digit.
pub open spec fn spec_hex_value(b: u8) -> Option<u8> {
    if 48 <= b && b <= 57 {
        Some((b - 48) as u8)
    } else if 97 <= b && b <= 102 {
        Some((b - 87) as u8)
    } else if 65 <= b && b <= 70 {
        Some((b - 55) as u8)
    } else {
        None
    }
}

fn hex_value(byte: u8) -> (r: Option<u8>)
    ensures
        r == spec_hex_value(byte),
{
    if byte >= 48 && byte <= 57 {
        Some(byte - 48)
    } else if byte >= 97 && byte <= 102 {
        Some(byte - 87)
    } else if byte >= 65 && byte <= 70 {
        Some(byte - 55)
    } else {
        None
    }
}

/// Percent-decoding of `s` from index `i`: `%XY` with two hex digits becomes
/// one byte, `+` becomes a space when `plus_as_space`, anything else is kept.
pub open spec fn decode_from(s: Seq<u8>, plus_as_space: bool, i: int) -> Seq<u8>
    decreases s.len() - i,
{
    if i < 0 || i >= s.len() {
        Seq::empty()
    } else if s[i] == 37 && i + 2 < s.len() && spec_hex_value(s[i + 1]) is Some
        && spec_hex_value(s[i + 2]) is Some {
        seq![(spec_hex_value(s[i + 1])->0 * 16 + spec_hex_value(s[i + 2])->0) as u8]
            + decode_from(s, plus_as_space, i + 3)
    } else if s[i] == 43 && plus_as_space {
        seq![32u8] + decode_from(s, plus_as_space, i + 1)
    } else {
        seq![s[i]] + decode_from(s, plus_as_space, i + 1)
    }
}

/// The percent-decoded bytes of `s`.
pub open spec fn percent_decode(s: Seq<u8>, plus_as_space: bool) -> Seq<u8> {
    decode_from(s, plus_as_space, 0)
}

/// The decoded text of a URL component, as the string that results.
pub open spec fn decoded_text(s: Seq<u8>, plus_as_space: bool) -> Seq<char> {
    utf8_lossy(percent_decode(s, plus_as_space))
}

/// Percent-decodes `input` into bytes.
pub fn percent_decode_bytes(input: &[u8], plus_as_space: bool) -> (r: Vec<u8>)
    ensures
        r@ == percent_decode(input@, plus_as_space),
{
    let n = input.len();
    let mut out: Vec<u8> = Vec::new();
    let mut index: usize = 0;
    while index < n
        invariant
            n == input@.len(),
            index <= n,
            percent_decode(input@, plus_as_space) == out@ + decode_from(
                input@,
                plus_as_space,
                index as int,
            ),
        decreases n - index,
    {
        let byte = input[index];
        if byte == 37 && n - index > 2 {
            let high = hex_value(input[index + 1]);
            let low = hex_value(input[index + 2]);
            if let (Some(h), Some(l)) = (high, low) {
                assert((h << 4u8) | l == h * 16 + l) by (bit_vector)
                    requires
                        h < 16,
                        l < 16,
                ;
                let ghost before = out@;
                out.push((h << 4u8) | l);
                assert(out@ == before + seq![(h * 16 + l) as u8]);
                assert(before + decode_from(input@, plus_as_space, index as int) == out@
                    + decode_from(input@, plus_as_space, index + 3));
                index = index + 3;
                continue;
            }
            let ghost before = out@;
            out.push(byte);
            assert(before + decode_from(input@, plus_as_space, index as int) == out@
                + decode_from(input@, plus_as_space, index + 1));
            index = index + 1;
        } else if byte == 43 && plus_as_space {
            let ghost before = out@;
            out.push(32);
            assert(before + decode_from(input@, plus_as_space, index as int) == out@
                + decode_from(input@, plus_as_space, index + 1));
            index = index + 1;
        } else {
            let ghost before = out@;
            out.push(byte);
            assert(before + decode_from(input@, plus_as_space, index as int) == out@
                + decode_from(input@, plus_as_space, index + 1));
            index = index + 1;
        }
    }
    assert(decode_from(input@, plus_as_space, index as int) == Seq::<u8>::empty());
    assert(out@ + Seq::<u8>::empty() == out@);
    out
}

/// Percent-decodes a URL component into a string; invalid UTF-8 in the
/// decoded bytes is replaced as `String::from_utf8_lossy` does.
pub fn decode_url_component(input: &[u8], plus_as_space: bool) -> (r: String)
    ensures
        r@ == decoded_text(input@, plus_as_space),
{
    let bytes = percent_decode_bytes(input, plus_as_space);
    string_from_utf8_lossy(bytes.as_slice())
}

/// The ASCII hex digit for a nibble `d` (below 16): `0`-`9`, then `a`-`f`,
/// or `A`-`F` when `upper`.
pub open spec fn hex_digit(d: u8, upper: bool) -> u8 {
    if d < 10 {
        (0x30 + d) as u8
    } else if upper {
        (0x41 + (d - 10)) as u8
    } else {
        (0x61 + (d - 10)) as u8
    }
}

/// Every byte survives a `%XY` escape: `%` followed by the two hex digits
/// of `x`, each in either ASCII case, decodes to `x` alone. So `%2f` and
/// `%2F` both decode to `/`.
pub proof fn lemma_percent_escape_roundtrip(x: u8, upper_high: bool, upper_low: bool, plus_as_space: bool)
    ensures
        percent_decode(seq![0x25u8, hex_digit(x / 16, upper_high), hex_digit(x % 16, upper_low)], plus_as_space)
            == seq![x],
{
    let s = seq![0x25u8, hex_digit(x / 16, upper_high), hex_digit(x % 16, upper_low)];
    let hi = x / 16;
    let lo = x % 16;
    assert(hi < 16 && lo < 16);
    assert(spec_hex_value(s[1]) == Some(hi));
    assert(spec_hex_value(s[2]) == Some(lo));
    assert(hi * 16 + lo == x);
    assert(decode_from(s, plus_as_space, 3) == Seq::<u8>::empty());
    assert(decode_from(s, plus_as_space, 0) == seq![x] + decode_from(s, plus_as_space, 3));
}

/// Decoding from inside `pre + b` reads only what follows, so past `pre` it
/// is the decoding of `b`.
proof fn lemma_decode_shift(pre: Seq<u8>, b: Seq<u8>, plus_as_space: bool, j: int)
    requires
        0 <= j,
    ensures
        decode_from(pre + b, plus_as_space, pre.len() + j) == decode_from(b, plus_as_space, j),
    decreases b.len() - j,
{
    let s = pre + b;
    let i = pre.len() + j;
    if j < b.len() {
        assert(s[i] == b[j]);
        if j + 1 < b.len() {
            assert(s[i + 1] == b[j + 1]);
        }
        if j + 2 < b.len() {
            assert(s[i + 2] == b[j + 2]);
        }
        lemma_decode_shift(pre, b, plus_as_space, j + 1);
        if j + 3 <= b.len() {
            lemma_decode_shift(pre, b, plus_as_space, j + 3);
        }
    }
}

/// Decoding `a + t` for a `t` that starts with `%` is decoding `a` and then
/// `t`: no escape of `a` reaches into `t`, since `%` is no hex digit.
proof fn lemma_decode_split(a: Seq<u8>, t: Seq<u8>, plus_as_space: bool, i: int)
    requires
        0 <= i <= a.len(),
        t.len() > 0,
        t[0] == 0x25,
    ensures
        decode_from(a + t, plus_as_space, i) == decode_from(a, plus_as_space, i) + decode_from(
            a + t,
            plus_as_space,
            a.len() as int,
        ),
    decreases a.len() - i,
{
    let s = a + t;
    if i < a.len() {
        assert(s[i] == a[i]);
        if i + 1 < a.len() {
            assert(s[i + 1] == a[i + 1]);
        } else {
            assert(s[i + 1] == t[0]);
        }
        if i + 2 < a.len() {
            assert(s[i + 2] == a[i + 2]);
        } else if i + 2 == a.len() {
            assert(s[i + 2] == t[0]);
        }
        lemma_decode_split(a, t, plus_as_space, i + 1);
        if i + 3 <= a.len() {
            lemma_decode_split(a, t, plus_as_space, i + 3);
        }
    } else {
        assert(decode_from(a, plus_as_space, i) == Seq::<u8>::empty());
    }
}

/// An escape decodes to its byte wherever it stands, and the text around it
/// decodes as it would alone: decoding `a`, then `%` and the two hex digits
/// of `x` (each in either ASCII case), then `b`, gives the decoding of `a`,
/// then `x`, then the decoding of `b`.
pub proof fn lemma_percent_escape_in_context(
    a: Seq<u8>,
    x: u8,
    upper_high: bool,
    upper_low: bool,
    b: Seq<u8>,
    plus_as_space: bool,
)
    ensures
        percent_decode(
            a + seq![0x25u8, hex_digit(x / 16, upper_high), hex_digit(x % 16, upper_low)] + b,
            plus_as_space,
        ) == percent_decode(a, plus_as_space) + seq![x] + percent_decode(b, plus_as_space),
{
    let esc = seq![0x25u8, hex_digit(x / 16, upper_high), hex_digit(x % 16, upper_low)];
    let s = a + esc + b;
    assert(s =~= a + (esc + b));
    lemma_decode_split(a, esc + b, plus_as_space, 0);
    lemma_percent_escape_roundtrip(x, upper_high, upper_low, plus_as_space);
    let i = a.len() as int;
    assert(s[i] == 0x25 && s[i + 1] == esc[1] && s[i + 2] == esc[2]);
    assert(spec_hex_value(esc[1]) == Some(x / 16));
    assert(spec_hex_value(esc[2]) == Some(x % 16));
    assert(decode_from(s, plus_as_space, i) == seq![x] + decode_from(s, plus_as_space, i + 3));
    lemma_decode_shift(a + esc, b, plus_as_space, 0);
    assert((a + esc).len() == i + 3);
}

} // verus!

verus! {

/// Whether the first two bytes are `//`.
pub open spec fn starts_with_double_slash(s: Seq<u8>) -> bool {
    s.len() >= 2 && s[0] == 47 && s[1] == 47
}

/// What follows an authority: from the first `/` or `?` on, or nothing.
pub open spec fn spec_strip_authority(s: Seq<u8>) -> Seq<u8> {
    match first_index_of2(s, 47, 63, 0) {
        Some(k) => s.subrange(k as int, s.len() as int),
        None => Seq::empty(),
    }
}

/// Whether `b` may appear in a URL scheme: ASCII letters and digits, `+`,
/// `-` and `.`.
pub open spec fn is_scheme_byte(b: u8) -> bool {
    (48 <= b && b <= 57) || (65 <= b && b <= 90) || (97 <= b && b <= 122) || b == 43 || b == 45
        || b == 46
}

/// Whether every byte of `s` may appear in a URL scheme.
pub open spec fn all_scheme_bytes(s: Seq<u8>) -> bool {
    forall|i: int| 0 <= i < s.len() ==> is_scheme_byte(#[trigger] s[i])
}

/// ASCII lower-casing of one byte.
pub open spec fn ascii_lower(b: u8) -> u8 {
    if 65 <= b && b <= 90 {
        (b + 32) as u8
    } else {
        b
    }
}

/// Whether `s` is `http` or `https`, ignoring ASCII case.
pub open spec fn is_http_scheme(s: Seq<u8>) -> bool {
    (s.len() == 4 || s.len() == 5) && ascii_lower(s[0]) == 104 && ascii_lower(s[1]) == 116
        && ascii_lower(s[2]) == 116 && ascii_lower(s[3]) == 112 && (s.len() == 5 ==> ascii_lower(
        s[4],
    ) == 115)
}

/// The route part of a URL: a leading `//authority`, or a `scheme:` prefix
/// (with the authority too for `http`/`https`), is removed.
pub open spec fn spec_strip_url_prefix(s: Seq<u8>) -> Seq<u8> {
    if starts_with_double_slash(s) {
        spec_strip_authority(s.subrange(2, s.len() as int))
    } else {
        match first_index_of(s, 58, 0) {
            None => s,
            Some(k) => {
                let scheme = s.subrange(0, k as int);
                let rest = s.subrange(k + 1int, s.len() as int);
                if !all_scheme_bytes(scheme) {
                    s
                } else if starts_with_double_slash(rest) {
                    if is_http_scheme(scheme) {
                        spec_strip_authority(rest.subrange(2, rest.len() as int))
                    } else {
                        rest.subrange(2, rest.len() as int)
                    }
                } else {
                    rest
                }
            },
        }
    }
}

/// Whether `s` spells `http` or `https`, each letter in either ASCII case.
pub open spec fn spells_http_or_https(s: Seq<u8>) -> bool {
    &&& s.len() == 4 || s.len() == 5
    &&& s[0] == 0x68 || s[0] == 0x48
    &&& s[1] == 0x74 || s[1] == 0x54
    &&& s[2] == 0x74 || s[2] == 0x54
    &&& s[3] == 0x70 || s[3] == 0x50
    &&& s.len() == 5 ==> (s[4] == 0x73 || s[4] == 0x53)
}

/// Whether `s` has no byte equal to `a` or `b`.
pub open spec fn lacks_bytes(s: Seq<u8>, a: u8, b: u8) -> bool {
    forall|i: int| 0 <= i < s.len() ==> #[trigger] s[i] != a && s[i] != b
}

/// The first `a` or `b` at or after `i` is at `j` when `s[j]` is one and
/// none comes between.
proof fn lemma_first_index_at(s: Seq<u8>, a: u8, b: u8, i: nat, j: nat)
    requires
        i <= j < s.len(),
        s[j as int] == a || s[j as int] == b,
        forall|k: int| i <= k < j ==> #[trigger] s[k] != a && s[k] != b,
    ensures
        first_index_of2(s, a, b, i) == Some(j),
    decreases j - i,
{
    if i < j {
        lemma_first_index_at(s, a, b, i + 1, j);
    }
}

/// No `a` or `b` at or after `i`: nothing is found.
proof fn lemma_first_index_absent(s: Seq<u8>, a: u8, b: u8, i: nat)
    requires
        forall|k: int| i <= k < s.len() ==> #[trigger] s[k] != a && s[k] != b,
    ensures
        first_index_of2(s, a, b, i) is None,
    decreases s.len() - i,
{
    if i < s.len() {
        lemma_first_index_absent(s, a, b, i + 1);
    }
}

/// A web URL `scheme://authority` followed by `rest`, for the scheme
/// `http` or `https` in any ASCII case, has the route part `rest`: the
/// authority (any bytes up to the first `/` or `?`) is dropped whatever it
/// is, and `http` is treated as `https` is.
pub proof fn lemma_web_url_drops_authority(scheme: Seq<u8>, authority: Seq<u8>, rest: Seq<u8>)
    requires
        spells_http_or_https(scheme),
        lacks_bytes(authority, 0x2f, 0x3f),
        rest.len() == 0 || rest[0] == 0x2f || rest[0] == 0x3f,
    ensures
        spec_strip_url_prefix(scheme + seq![0x3au8, 0x2f, 0x2f] + authority + rest) == rest,
{
    let s = scheme + seq![0x3au8, 0x2f, 0x2f] + authority + rest;
    let k = scheme.len();
    assert(s[k as int] == 0x3a);
    assert forall|i: int| 0 <= i < k implies #[trigger] s[i] != 0x3a && s[i] != 0x3a by {
        assert(s[i] == scheme[i]);
    }
    lemma_first_index_at(s, 0x3a, 0x3a, 0, k);
    assert(s.subrange(0, k as int) =~= scheme);
    assert(all_scheme_bytes(scheme));
    assert(is_http_scheme(scheme));
    let after = s.subrange(k + 1int, s.len() as int);
    assert(after =~= seq![0x2fu8, 0x2f] + authority + rest);
    let tail = after.subrange(2, after.len() as int);
    assert(tail =~= authority + rest);
    if rest.len() > 0 {
        assert(tail[authority.len() as int] == rest[0]);
        assert forall|i: int| 0 <= i < authority.len() implies #[trigger] tail[i] != 0x2f && tail[i] != 0x3f by {
            assert(tail[i] == authority[i]);
        }
        lemma_first_index_at(tail, 0x2f, 0x3f, 0, authority.len());
        assert(tail.subrange(authority.len() as int, tail.len() as int) =~= rest);
    } else {
        assert forall|i: int| 0 <= i < tail.len() implies #[trigger] tail[i] != 0x2f && tail[i] != 0x3f by {
            assert(tail[i] == authority[i]);
        }
        lemma_first_index_absent(tail, 0x2f, 0x3f, 0);
        assert(rest =~= Seq::<u8>::empty());
    }
}

/// A route that starts with `/` (and not `//`) or `?`, or is empty, has no
/// prefix to strip.
pub proof fn lemma_route_has_no_prefix(rest: Seq<u8>)
    requires
        rest.len() == 0 || rest[0] == 0x3f || (rest[0] == 0x2f && !(rest.len() >= 2 && rest[1] == 0x2f)),
    ensures
        spec_strip_url_prefix(rest) == rest,
{
    lemma_first_index_bounds(rest, 0x3a, 0x3a, 0);
    match first_index_of(rest, 0x3a, 0) {
        None => {},
        Some(k) => {
            let scheme = rest.subrange(0, k as int);
            assert(k > 0);
            assert(scheme[0] == rest[0]);
            assert(!is_scheme_byte(scheme[0]));
        },
    }
}

/// A hash-router route inside a fragment: the fragment (without a leading
/// `!`) when it starts with `/`.
pub open spec fn spec_hash_route_part(fragment: Seq<u8>) -> Option<Seq<u8>> {
    let route = if fragment.len() > 0 && fragment[0] == 33 {
        fragment.subrange(1, fragment.len() as int)
    } else {
        fragment
    };
    if route.len() > 0 && route[0] == 47 {
        Some(route)
    } else {
        None
    }
}

/// `w` without its trailing `/` bytes.
pub open spec fn strip_trailing_slashes(w: Seq<u8>) -> Seq<u8>
    decreases w.len(),
{
    if w.len() > 0 && w[w.len() - 1] == 47 {
        strip_trailing_slashes(w.subrange(0, w.len() - 1))
    } else {
        w
    }
}

/// The normalized route path: trimmed, with a leading `/`, and without
/// trailing `/` unless it is the single `/`.
pub open spec fn spec_normalize_route_path(path: Seq<u8>) -> Seq<u8> {
    let t = spec_trim(path);
    if t.len() == 0 {
        seq![47u8]
    } else {
        let w = if t[0] == 47 {
            t
        } else {
            seq![47u8] + t
        };
        if w.len() > 1 {
            strip_trailing_slashes(w)
        } else {
            w
        }
    }
}

fn strip_authority(input: &[u8]) -> (r: &[u8])
    ensures
        r@ == spec_strip_authority(input@),
{
    let n = input.len();
    match find_either(input, 47, 63, 0) {
        Some(k) => slice_range(input, k, n),
        None => slice_range(input, n, n),
    }
}

fn is_scheme(s: &[u8]) -> (r: bool)
    ensures
        r == all_scheme_bytes(s@),
{
    let n = s.len();
    let mut i: usize = 0;
    while i < n
        invariant
            n == s@.len(),
            i <= n,
            forall|j: int| 0 <= j < i ==> is_scheme_byte(#[trigger] s@[j]),
        decreases n - i,
    {
        let b = s[i];
        if !((b >= 48 && b <= 57) || (b >= 65 && b <= 90) || (b >= 97 && b <= 122) || b == 43 || b
            == 45 || b == 46) {
            return false;
        }
        i = i + 1;
    }
    true
}

fn lower(b: u8) -> (r: u8)
    ensures
        r == ascii_lower(b),
{
    if b >= 65 && b <= 90 {
        b + 32
    } else {
        b
    }
}

fn is_http(s: &[u8]) -> (r: bool)
    ensures
        r == is_http_scheme(s@),
{
    let n = s.len();
    if n != 4 && n != 5 {
        return false;
    }
    lower(s[0]) == 104 && lower(s[1]) == 116 && lower(s[2]) == 116 && lower(s[3]) == 112 && (n == 4
        || lower(s[4]) == 115)
}

fn double_slash(s: &[u8]) -> (r: bool)
    ensures
        r == starts_with_double_slash(s@),
{
    s.len() >= 2 && s[0] == 47 && s[1] == 47
}

/// Removes a URL's scheme and authority, leaving the route part.
pub fn strip_url_prefix(input: &[u8]) -> (r: &[u8])
    ensures
        r@ == spec_strip_url_prefix(input@),
{
    let n = input.len();
    if double_slash(input) {
        return strip_authority(slice_range(input, 2, n));
    }
    match find_either(input, 58, 58, 0) {
        None => input,
        Some(k) => {
            let scheme = slice_range(input, 0, k);
            let rest = slice_range(input, k + 1, n);
            if !is_scheme(scheme) {
                input
            } else if double_slash(rest) {
                let after = slice_range(rest, 2, rest.len());
                if is_http(scheme) {
                    strip_authority(after)
                } else {
                    after
                }
            } else {
                rest
            }
        },
    }
}

/// The hash-router route inside `fragment`, if it holds one.
pub fn hash_route_part(fragment: &[u8]) -> (r: Option<&[u8]>)
    ensures
        r matches Some(x) ==> spec_hash_route_part(fragment@) == Some(x@),
        r is None ==> spec_hash_route_part(fragment@) is None,
{
    let n = fragment.len();
    let route = if n > 0 && fragment[0] == 33 {
        slice_range(fragment, 1, n)
    } else {
        fragment
    };
    if route.len() > 0 && route[0] == 47 {
        Some(route)
    } else {
        None
    }
}

/// Normalizes a raw route path (see [`spec_normalize_route_path`]).
pub fn normalize_route_path(path: &[u8]) -> (r: Vec<u8>)
    ensures
        r@ == spec_normalize_route_path(path@),
{
    let t = trim(path);
    if t.len() == 0 {
        let mut v: Vec<u8> = Vec::new();
        v.push(47);
        assert(v@ == seq![47u8]);
        return v;
    }
    let mut w: Vec<u8> = Vec::new();
    if t[0] != 47 {
        w.push(47);
    }
    push_bytes(&mut w, t);
    assert(w@ == (if t@[0] == 47 { t@ } else { seq![47u8] + t@ }));
    if w.len() > 1 {
        let ghost full = w@;
        let mut k: usize = w.len();
        assert(full.subrange(0, k as int) == full);
        while k > 0 && w[k - 1] == 47
            invariant
                k <= w@.len(),
                w@ == full,
                strip_trailing_slashes(full) == strip_trailing_slashes(full.subrange(0, k as int)),
            decreases k,
        {
            assert(full.subrange(0, k as int).subrange(0, k - 1) == full.subrange(0, k - 1));
            k = k - 1;
        }
        w.truncate(k);
    }
    w
}

} // verus!

verus! {

/// `s` without its leading `?` bytes.
pub open spec fn strip_leading_question_marks(s: Seq<u8>) -> Seq<u8>
    decreases s.len(),
{
    if s.len() > 0 && s[0] == 63 {
        strip_leading_question_marks(s.subrange(1, s.len() as int))
    } else {
        s
    }
}

/// The decoded key of a `key=value` query pair.
pub open spec fn pair_key(p: Seq<u8>) -> Seq<char> {
    decoded_text(spec_split_once(p, 61).0, true)
}

/// The decoded value of a `key=value` query pair (empty without `=`).
pub open spec fn pair_value(p: Seq<u8>) -> Seq<char> {
    decoded_text(
        match spec_split_once(p, 61).1 {
            Some(v) => v,
            None => Seq::empty(),
        },
        true,
    )
}

/// The values of each decoded query key over a list of raw pairs, in order;
/// empty pairs and pairs with an empty key are skipped.
pub open spec fn query_group(parts: Seq<Seq<u8>>) -> Map<Seq<char>, Seq<Seq<char>>>
    decreases parts.len(),
{
    if parts.len() == 0 {
        Map::empty()
    } else {
        let m = query_group(parts.drop_last());
        let p = parts.last();
        if p.len() == 0 || pair_key(p).len() == 0 {
            m
        } else {
            m.insert(pair_key(p), values_of(m, pair_key(p)).push(pair_value(p)))
        }
    }
}

/// The decoded values of each key of a query string (leading `?`s are
/// ignored; pairs are separated by `&` or `;`).
pub open spec fn spec_parse_query_all(q: Seq<u8>) -> Map<Seq<char>, Seq<Seq<char>>> {
    query_group(split_from(strip_leading_question_marks(q), 38, 59, 0))
}

fn strip_question_marks(s: &[u8]) -> (r: &[u8])
    ensures
        r@ == strip_leading_question_marks(s@),
    decreases s@.len(),
{
    if s.len() > 0 && s[0] == 63 {
        strip_question_marks(slice_range(s, 1, s.len()))
    } else {
        s
    }
}

/// Parses a query string (bytes) into decoded repeated values.
pub fn parse_query_all_bytes(query: &[u8]) -> (r: StringListMap)
    ensures
        r@ == spec_parse_query_all(query@),
{
    let q = strip_question_marks(query);
    let n = q.len();
    let mut params = StringListMap::new();
    let mut start: usize = 0;
    let ghost mut done: Seq<Seq<u8>> = Seq::empty();
    assert(done + split_from(q@, 38, 59, 0) == split_from(q@, 38, 59, 0));
    loop
        invariant_except_break
            split_from(q@, 38, 59, 0) == done + split_from(q@, 38, 59, start as nat),
            params@ == query_group(done),
        invariant
            n == q@.len(),
            start <= n,
        ensures
            params@ == query_group(split_from(q@, 38, 59, 0)),
        decreases n - start,
    {
        let found = find_either(q, 38, 59, start);
        let end = match found {
            Some(k) => k,
            None => n,
        };
        let part = slice_range(q, start, end);
        proof {
            lemma_first_index_bounds(q@, 38, 59, start as nat);
            match found {
                Some(k) => {
                    assert(split_from(q@, 38, 59, start as nat) == seq![part@] + split_from(
                        q@,
                        38,
                        59,
                        (k + 1) as nat,
                    ));
                },
                None => {
                    assert(split_from(q@, 38, 59, start as nat) == seq![part@]);
                },
            }
            assert(done.push(part@).drop_last() == done);
        }
        if part.len() > 0 {
            let (key_raw, value_raw) = split_once(part, 61);
            let key = decode_url_component(key_raw, true);
            if !key.as_str().is_empty() {
                let value = match value_raw {
                    Some(v) => decode_url_component(v, true),
                    None => decode_url_component(slice_range(part, 0, 0), true),
                };
                params.push_value(key, value);
            }
        }
        proof {
            done = done.push(part@);
        }
        match found {
            Some(k) => {
                assert(split_from(q@, 38, 59, 0) == done + split_from(q@, 38, 59, (k + 1) as nat));
                start = k + 1;
            },
            None => {
                assert(split_from(q@, 38, 59, 0) == done);
                break ;
            },
        }
    }
    params
}

/// Parses a query string into decoded repeated values.
///
/// Accepts strings with or without a leading `?`; keys without `=` map to an
/// empty string value.
pub fn parse_query_all(query: &str) -> (r: StringListMap)
    ensures
        r@ == spec_parse_query_all(encode_utf8(query@)),
{
    parse_query_all_bytes(query.as_bytes())
}

/// Parses a query string into decoded first values.
///
/// Accepts strings with or without a leading `?`. Repeated keys keep the first
/// value.
pub fn parse_query(query: &str) -> (r: StringMap)
    ensures
        r@ == spec_first_values(spec_parse_query_all(encode_utf8(query@))),
{
    parse_query_all(query).first_values()
}

} // verus!

verus! {

/// The decoded fragment: present when the raw fragment is present and not
/// empty.
pub open spec fn fragment_text(raw: Option<Seq<u8>>) -> Option<Seq<char>> {
    match raw {
        Some(v) => if v.len() > 0 {
            Some(decoded_text(v, false))
        } else {
            None
        },
        None => None,
    }
}

/// The raw pieces of a route location: the normalized path bytes, the raw
/// query bytes and the decoded fragment. A hash-router fragment (`#/...` or
/// `#!/...`) supplies the path and query.
pub open spec fn location_parts(input: Seq<u8>) -> (Seq<u8>, Seq<u8>, Option<Seq<char>>)
    decreases input.len(),
{
    let t = spec_trim(input);
    let before = spec_split_once(t, 35).0;
    let raw_fragment = spec_split_once(t, 35).1;
    let hash = match raw_fragment {
        Some(v) => spec_hash_route_part(v),
        None => None,
    };
    if hash is Some && hash->0.len() < input.len() {
        let inner = location_parts(hash->0);
        (inner.0, inner.1, fragment_text(raw_fragment))
    } else {
        let route_part = spec_strip_url_prefix(before);
        let query = match spec_split_once(route_part, 63).1 {
            Some(q) => q,
            None => Seq::empty(),
        };
        (
            spec_normalize_route_path(spec_split_once(route_part, 63).0),
            query,
            fragment_text(raw_fragment),
        )
    }
}

/// The abstract value of a route location.
pub struct LocationView {
    /// Normalized route path.
    pub path: Seq<char>,
    /// First decoded value of each query key.
    pub query: Map<Seq<char>, Seq<char>>,
    /// All decoded values of each query key.
    pub query_all: Map<Seq<char>, Seq<Seq<char>>>,
    /// Decoded fragment without `#`.
    pub fragment: Option<Seq<char>>,
}

/// The location that a route, URL, deep link or hash route (as UTF-8
/// bytes) denotes.
pub open spec fn spec_location(input: Seq<u8>) -> LocationView {
    let parts = location_parts(input);
    let query_all = spec_parse_query_all(parts.1);
    LocationView {
        path: utf8_lossy(parts.0),
        query: spec_first_values(query_all),
        query_all,
        fragment: parts.2,
    }
}

/// Without a `#`, a route's location is read from its route part alone.
proof fn lemma_location_without_fragment(input: Seq<u8>)
    requires
        spec_trim(input) == input,
        lacks_bytes(input, 0x23, 0x23),
    ensures
        location_parts(input) == ({
            let route_part = spec_strip_url_prefix(input);
            let query = match spec_split_once(route_part, 63).1 {
                Some(q) => q,
                None => Seq::empty(),
            };
            (spec_normalize_route_path(spec_split_once(route_part, 63).0), query, None::<Seq<char>>)
        }),
{
    lemma_first_index_absent(input, 0x23, 0x23, 0);
}

/// A web URL `scheme://authority` + `rest`, with the scheme `http` or
/// `https` in any ASCII case, denotes the same location (path, query and
/// no fragment) as `rest` alone, whatever the authority:
/// `http://h/p?x=1`, `HTTPS://h/p?x=1` and `/p?x=1` all parse alike. Stated
/// for text without surrounding whitespace or `#`, and for a `rest` that
/// does not start with `//` (which would read as a second authority).
pub proof fn lemma_web_url_location(scheme: Seq<u8>, authority: Seq<u8>, rest: Seq<u8>)
    requires
        spells_http_or_https(scheme),
        lacks_bytes(authority, 0x2f, 0x3f),
        lacks_bytes(authority, 0x23, 0x23),
        lacks_bytes(rest, 0x23, 0x23),
        rest.len() == 0 || rest[0] == 0x3f || (rest[0] == 0x2f && !(rest.len() >= 2 && rest[1] == 0x2f)),
        spec_trim(scheme + seq![0x3au8, 0x2f, 0x2f] + authority + rest) == scheme + seq![0x3au8, 0x2f, 0x2f]
            + authority + rest,
        spec_trim(rest) == rest,
    ensures
        spec_location(scheme + seq![0x3au8, 0x2f, 0x2f] + authority + rest) == spec_location(rest),
{
    let url = scheme + seq![0x3au8, 0x2f, 0x2f] + authority + rest;
    assert forall|i: int| 0 <= i < url.len() implies #[trigger] url[i] != 0x23 && url[i] != 0x23 by {
        if i < scheme.len() {
            assert(url[i] == scheme[i]);
        } else if i < scheme.len() + 3 {
        } else if i < scheme.len() + 3 + authority.len() {
            assert(url[i] == authority[i - scheme.len() - 3]);
        } else {
            assert(url[i] == rest[i - scheme.len() - 3 - authority.len()]);
        }
    }
    lemma_web_url_drops_authority(scheme, authority, rest);
    lemma_route_has_no_prefix(rest);
    lemma_location_without_fragment(url);
    lemma_location_without_fragment(rest);
}

/// The view of an optional string.
pub open spec fn opt_view(o: Option<String>) -> Option<Seq<char>> {
    match o {
        Some(s) => Some(s@),
        None => None,
    }
}

/// Parsed route information for app/internal URLs.
///
/// `path` is the normalized route path without query or fragment, `query`
/// contains the first value for each query key, `query_all` keeps repeated
/// query keys, and `fragment` contains the decoded hash fragment without `#`.
#[derive(Clone, Debug, PartialEq, Eq)]
pub struct RouteLocation {
    /// Normalized route path without query or fragment.
    pub path: String,
    /// First decoded value for each decoded query key.
    pub query: StringMap,
    /// All decoded values for each decoded query key, preserving duplicate keys.
    pub query_all: StringListMap,
    /// Decoded URL fragment without the leading `#`, when present.
    pub fragment: Option<String>,
}

impl View for RouteLocation {
    type V = LocationView;

    open spec fn view(&self) -> LocationView {
        LocationView {
            path: self.path@,
            query: self.query@,
            query_all: self.query_all@,
            fragment: opt_view(self.fragment),
        }
    }
}

impl RouteLocation {
    /// Returns the first decoded value for `key`, if present.
    pub fn query_value(&self, key: &str) -> (r: Option<&str>)
        ensures
            match r {
                Some(v) => self.query@.contains_key(key@) && self.query@[key@] == v@,
                None => !self.query@.contains_key(key@),
            },
    {
        self.query.get(key)
    }

    /// Returns all decoded values for `key`, if present.
    pub fn query_values(&self, key: &str) -> (r: Option<&[String]>)
        ensures
            match r {
                Some(v) => self.query_all@.contains_key(key@) && self.query_all@[key@]
                    == v@.map_values(|s: String| s@),
                None => !self.query_all@.contains_key(key@),
            },
    {
        self.query_all.get(key)
    }
}

proof fn lemma_split_once_lengths(s: Seq<u8>, needle: u8)
    ensures
        spec_split_once(s, needle).1 matches Some(v) ==> v.len() < s.len(),
{
    lemma_first_index_bounds(s, needle, needle, 0);
}

fn optional_fragment_text(raw: Option<&[u8]>) -> (r: Option<String>)
    ensures
        opt_view(r) == fragment_text(
            match raw {
                Some(v) => Some(v@),
                None => None,
            },
        ),
{
    match raw {
        Some(v) => if v.len() > 0 {
            Some(decode_url_component(v, false))
        } else {
            None
        },
        None => None,
    }
}

/// Parses route bytes into a location (see [`spec_location`]).
pub fn parse_location_bytes(input: &[u8]) -> (r: RouteLocation)
    ensures
        r@ == spec_location(input@),
    decreases input@.len(),
{
    let t = trim(input);
    proof {
        lemma_trim_bounds(input@);
        lemma_split_once_lengths(t@, 35);
    }
    let (before, raw_fragment) = split_once(t, 35);
    let fragment = optional_fragment_text(raw_fragment);
    let hash = match raw_fragment {
        Some(v) => hash_route_part(v),
        None => None,
    };
    if let Some(h) = hash {
        let mut location = parse_location_bytes(h);
        location.fragment = fragment;
        return location;
    }
    let route_part = strip_url_prefix(before);
    let (raw_path, query_raw) = split_once(route_part, 63);
    let path_bytes = normalize_route_path(raw_path);
    let path = string_from_utf8_lossy(path_bytes.as_slice());
    let query_all = match query_raw {
        Some(q) => parse_query_all_bytes(q),
        None => {
            let empty = slice_range(route_part, 0, 0);
            assert(empty@ == Seq::<u8>::empty());
            parse_query_all_bytes(empty)
        },
    };
    let query = query_all.first_values();
    let r = RouteLocation { path, query, query_all, fragment };
    assert(r@.path == spec_location(input@).path);
    assert(r@.query_all == spec_location(input@).query_all);
    assert(r@.query == spec_location(input@).query);
    assert(r@.fragment == spec_location(input@).fragment);
    r
}

/// Parses a route, relative URL, absolute web URL, custom-scheme deep link, or
/// hash route into path/query/fragment pieces.
///
/// Supported forms include `/orders/42?tab=items#notes`,
/// `https://example.com/orders/42?tab=items`, `pablo://orders/42?tab=items`,
/// and hash-router URLs such as `https://example.com/#/orders/42?tab=items`.
pub fn parse_route_location(input: &str) -> (r: RouteLocation)
    ensures
        r@ == spec_location(encode_utf8(input@)),
{
    parse_location_bytes(input.as_bytes())
}

/// Parse a deep link URL into `(path, query_params)`.
///
/// Strips the scheme (e.g. `myapp://`), splits path from query string, and
/// parses query key/value pairs.
pub fn parse_deep_link(url: &str) -> (r: (String, StringMap))
    ensures
        r.0@ == spec_location(encode_utf8(url@)).path,
        r.1@ == spec_location(encode_utf8(url@)).query,
{
    let location = parse_route_location(url);
    (location.path, location.query)
}

} // verus!

verus! {

/// The non-empty segments of a list, in order.
pub open spec fn nonempty_only(segs: Seq<Seq<u8>>) -> Seq<Seq<u8>>
    decreases segs.len(),
{
    if segs.len() == 0 {
        Seq::empty()
    } else if segs.last().len() > 0 {
        nonempty_only(segs.drop_last()).push(segs.last())
    } else {
        nonempty_only(segs.drop_last())
    }
}

/// The non-empty `/`-separated segments of a path.
pub open spec fn path_segments(p: Seq<u8>) -> Seq<Seq<u8>> {
    nonempty_only(split_from(p, 47, 47, 0))
}

/// The parameters captured by the first `n` segment pairs, or `None` when a
/// static segment differs (after decoding) or a `:` segment has no name.
pub open spec fn params_prefix(ps: Seq<Seq<u8>>, rs: Seq<Seq<u8>>, n: int) -> Option<
    Map<Seq<char>, Seq<char>>,
>
    decreases n,
{
    if n <= 0 {
        Some(Map::empty())
    } else {
        match params_prefix(ps, rs, n - 1) {
            None => None,
            Some(m) => {
                let p = ps[n - 1];
                let r = rs[n - 1];
                if p.len() > 0 && p[0] == 58 {
                    if p.len() == 1 {
                        None
                    } else {
                        Some(m.insert(utf8_lossy(p.subrange(1, p.len() as int)), decoded_text(r, false)))
                    }
                } else if decoded_text(p, false) != decoded_text(r, false) {
                    None
                } else {
                    Some(m)
                }
            },
        }
    }
}

/// The `:param` values that a route path gives a pattern path, or `None`
/// when their shapes differ.
pub open spec fn spec_match_path_params(pattern_path: Seq<u8>, route_path: Seq<u8>) -> Option<
    Map<Seq<char>, Seq<char>>,
> {
    let ps = path_segments(pattern_path);
    let rs = path_segments(route_path);
    if ps.len() != rs.len() {
        None
    } else {
        params_prefix(ps, rs, ps.len() as int)
    }
}

proof fn lemma_params_prefix_none(ps: Seq<Seq<u8>>, rs: Seq<Seq<u8>>, i: int, n: int)
    requires
        0 <= i <= n,
        params_prefix(ps, rs, i) is None,
    ensures
        params_prefix(ps, rs, n) is None,
    decreases n - i,
{
    if i < n {
        lemma_params_prefix_none(ps, rs, i + 1, n);
    }
}

/// Whether a pattern segment is static: not a `:param` capture.
pub open spec fn is_static_segment(p: Seq<u8>) -> bool {
    !(p.len() > 0 && p[0] == 0x3a)
}

proof fn lemma_params_prefix_agrees(ps: Seq<Seq<u8>>, rs: Seq<Seq<u8>>, n: int)
    requires
        params_prefix(ps, rs, n) is Some,
    ensures
        forall|k: int| 0 <= k < n && is_static_segment(#[trigger] ps[k]) ==> decoded_text(ps[k], false)
            == decoded_text(rs[k], false),
    decreases n,
{
    if n > 0 {
        lemma_params_prefix_agrees(ps, rs, n - 1);
    }
}

/// A route path matches a pattern path only segment by segment: both have
/// the same number of non-empty segments, and at every position (the last
/// included) where the pattern's segment is static, the two segments are
/// equal once percent-decoded. So a static segment that differs at any
/// position means no match, and two static paths match only when they are
/// the same path once decoded.
pub proof fn lemma_match_agrees_on_static_segments(pattern_path: Seq<u8>, route_path: Seq<u8>)
    ensures
        spec_match_path_params(pattern_path, route_path) is Some ==> {
            let ps = path_segments(pattern_path);
            let rs = path_segments(route_path);
            &&& ps.len() == rs.len()
            &&& forall|k: int| 0 <= k < ps.len() && is_static_segment(#[trigger] ps[k]) ==> decoded_text(ps[k], false)
                == decoded_text(rs[k], false)
        },
{
    let ps = path_segments(pattern_path);
    let rs = path_segments(route_path);
    if spec_match_path_params(pattern_path, route_path) is Some {
        lemma_params_prefix_agrees(ps, rs, ps.len() as int);
    }
}

/// A static pattern segment that differs, once decoded, from the route's
/// segment at the same position rules the match out.
pub proof fn lemma_static_mismatch_rejects(pattern_path: Seq<u8>, route_path: Seq<u8>, k: int)
    requires
        0 <= k < path_segments(pattern_path).len(),
        k < path_segments(route_path).len(),
        is_static_segment(path_segments(pattern_path)[k]),
        decoded_text(path_segments(pattern_path)[k], false) != decoded_text(path_segments(route_path)[k], false),
    ensures
        spec_match_path_params(pattern_path, route_path) is None,
{
    lemma_match_agrees_on_static_segments(pattern_path, route_path);
}

/// Bounds of the non-empty `/`-separated segments of `p`.
fn path_segment_ranges(p: &[u8]) -> (r: Vec<(usize, usize)>)
    ensures
        r@.len() == path_segments(p@).len(),
        forall|i: int|
            0 <= i < r@.len() ==> (#[trigger] r@[i]).0 <= r@[i].1 <= p@.len() && p@.subrange(
                r@[i].0 as int,
                r@[i].1 as int,
            ) == path_segments(p@)[i],
{
    let n = p.len();
    let mut ranges: Vec<(usize, usize)> = Vec::new();
    let mut start: usize = 0;
    let ghost mut done: Seq<Seq<u8>> = Seq::empty();
    assert(done + split_from(p@, 47, 47, 0) == split_from(p@, 47, 47, 0));
    loop
        invariant_except_break
            split_from(p@, 47, 47, 0) == done + split_from(p@, 47, 47, start as nat),
            ranges@.len() == nonempty_only(done).len(),
            forall|i: int|
                0 <= i < ranges@.len() ==> (#[trigger] ranges@[i]).0 <= ranges@[i].1 <= p@.len()
                    && p@.subrange(ranges@[i].0 as int, ranges@[i].1 as int)
                    == nonempty_only(done)[i],
        invariant
            n == p@.len(),
            start <= n,
        ensures
            ranges@.len() == nonempty_only(split_from(p@, 47, 47, 0)).len(),
            forall|i: int|
                0 <= i < ranges@.len() ==> (#[trigger] ranges@[i]).0 <= ranges@[i].1 <= p@.len()
                    && p@.subrange(ranges@[i].0 as int, ranges@[i].1 as int)
                    == nonempty_only(split_from(p@, 47, 47, 0))[i],
        decreases n - start,
    {
        let found = find_either(p, 47, 47, start);
        let end = match found {
            Some(k) => k,
            None => n,
        };
        proof {
            lemma_first_index_bounds(p@, 47, 47, start as nat);
            match found {
                Some(k) => {
                    assert(split_from(p@, 47, 47, start as nat) == seq![
                        p@.subrange(start as int, end as int),
                    ] + split_from(p@, 47, 47, (k + 1) as nat));
                },
                None => {
                    assert(split_from(p@, 47, 47, start as nat) == seq![
                        p@.subrange(start as int, end as int),
                    ]);
                },
            }
        }
        let ghost seg = p@.subrange(start as int, end as int);
        assert(done.push(seg).drop_last() == done);
        assert(done.push(seg).last() == seg);
        let ghost old_ranges = ranges@;
        if end > start {
            ranges.push((start, end));
            assert(nonempty_only(done.push(seg)) == nonempty_only(done).push(seg));
            assert forall|i: int| 0 <= i < ranges@.len() implies (#[trigger] ranges@[i]).0
                <= ranges@[i].1 <= p@.len() && p@.subrange(ranges@[i].0 as int, ranges@[i].1 as int)
                == nonempty_only(done.push(seg))[i] by {
                if i < old_ranges.len() {
                    assert(ranges@[i] == old_ranges[i]);
                }
            }
        } else {
            assert(nonempty_only(done.push(seg)) == nonempty_only(done));
        }
        proof {
            done = done.push(seg);
        }
        match found {
            Some(k) => {
                assert(split_from(p@, 47, 47, 0) == done + split_from(p@, 47, 47, (k + 1) as nat));
                start = k + 1;
            },
            None => {
                assert(split_from(p@, 47, 47, 0) == done);
                break ;
            },
        }
    }
    ranges
}

/// Matches a pattern path's segments against a route path's segments.
pub fn match_path_params(pattern_path: &[u8], route_path: &[u8]) -> (r: Option<StringMap>)
    ensures
        match r {
            Some(m) => spec_match_path_params(pattern_path@, route_path@) == Some(m@),
            None => spec_match_path_params(pattern_path@, route_path@) is None,
        },
{
    let pattern_segs = path_segment_ranges(pattern_path);
    let route_segs = path_segment_ranges(route_path);
    let ghost ps = path_segments(pattern_path@);
    let ghost rs = path_segments(route_path@);
    if pattern_segs.len() != route_segs.len() {
        return None;
    }
    let n = pattern_segs.len();
    let mut params = StringMap::new();
    let mut i: usize = 0;
    while i < n
        invariant
            n == pattern_segs@.len(),
            n == route_segs@.len(),
            n == ps.len(),
            n == rs.len(),
            ps == path_segments(pattern_path@),
            rs == path_segments(route_path@),
            i <= n,
            forall|j: int|
                0 <= j < n ==> (#[trigger] pattern_segs@[j]).0 <= pattern_segs@[j].1
                    <= pattern_path@.len() && pattern_path@.subrange(
                    pattern_segs@[j].0 as int,
                    pattern_segs@[j].1 as int,
                ) == ps[j],
            forall|j: int|
                0 <= j < n ==> (#[trigger] route_segs@[j]).0 <= route_segs@[j].1
                    <= route_path@.len() && route_path@.subrange(
                    route_segs@[j].0 as int,
                    route_segs@[j].1 as int,
                ) == rs[j],
            params_prefix(ps, rs, i as int) == Some(params@),
        decreases n - i,
    {
        let (pa, pb) = pattern_segs[i];
        let (ra, rb) = route_segs[i];
        let p = slice_range(pattern_path, pa, pb);
        let r = slice_range(route_path, ra, rb);
        assert(p@ == ps[i as int]);
        assert(r@ == rs[i as int]);
        if p.len() > 0 && p[0] == 58 {
            if p.len() == 1 {
                proof {
                    lemma_params_prefix_none(ps, rs, i + 1, n as int);
                }
                return None;
            }
            let name = string_from_utf8_lossy(slice_range(p, 1, p.len()));
            let value = decode_url_component(r, false);
            params.insert(name, value);
        } else {
            let pd = decode_url_component(p, false);
            let rd = decode_url_component(r, false);
            if pd != rd {
                proof {
                    lemma_params_prefix_none(ps, rs, i + 1, n as int);
                }
                return None;
            }
        }
        i = i + 1;
    }
    Some(params)
}

/// Whether every key of the pattern's query has the same first value in the
/// route's query.
pub open spec fn query_constraints_hold(
    pattern_query: Map<Seq<char>, Seq<char>>,
    route_query: Map<Seq<char>, Seq<char>>,
) -> bool {
    forall|k: Seq<char>|
        #[trigger] pattern_query.contains_key(k) ==> route_query.contains_key(k)
            && route_query[k] == pattern_query[k]
}

} // verus!

verus! {

/// The parameters of a declarative match of `pattern` (as UTF-8 bytes)
/// against a location: the path parameters, when the pattern's query keys
/// have the same first values in the location and the pattern's fragment,
/// if any, equals the location's.
pub open spec fn spec_match_definition(pattern: Seq<u8>, location: LocationView) -> Option<
    Map<Seq<char>, Seq<char>>,
> {
    let pattern_location = spec_location(pattern);
    match spec_match_path_params(encode_utf8(pattern_location.path), encode_utf8(location.path)) {
        None => None,
        Some(params) => if !query_constraints_hold(pattern_location.query, location.query) {
            None
        } else if pattern_location.fragment is Some && location.fragment
            != pattern_location.fragment {
            None
        } else {
            Some(params)
        },
    }
}

/// A declarative route match holds only when the route's path agrees with
/// every static segment of the pattern's path, position by position, once
/// decoded; whatever the query and fragment constraints.
pub proof fn lemma_route_match_needs_static_agreement(pattern: Seq<u8>, location: LocationView)
    ensures
        spec_match_definition(pattern, location) is Some ==> {
            let ps = path_segments(encode_utf8(spec_location(pattern).path));
            let rs = path_segments(encode_utf8(location.path));
            &&& ps.len() == rs.len()
            &&& forall|k: int| 0 <= k < ps.len() && is_static_segment(#[trigger] ps[k]) ==> decoded_text(ps[k], false)
                == decoded_text(rs[k], false)
        },
{
    lemma_match_agrees_on_static_segments(encode_utf8(spec_location(pattern).path), encode_utf8(location.path));
}

/// The abstract value of a route match.
pub struct RouteMatchView {
    /// The route pattern that matched.
    pub pattern: Seq<char>,
    /// The location that matched it.
    pub location: LocationView,
    /// The captured `:param` values.
    pub params: Map<Seq<char>, Seq<char>>,
}

/// A successful declarative route match.
#[derive(Clone, Debug, PartialEq, Eq)]
pub struct RouteMatch {
    /// The route pattern that matched, e.g. `"/orders/:id"`.
    pub pattern: String,
    /// Normalized path that matched the pattern, without query or fragment.
    pub path: String,
    /// Decoded `:param` values captured from the path.
    pub params: StringMap,
    /// First decoded value for each query key.
    pub query: StringMap,
    /// All decoded values for each query key, preserving duplicate keys.
    pub query_all: StringListMap,
    /// Decoded URL fragment without the leading `#`, when present.
    pub fragment: Option<String>,
}

impl View for RouteMatch {
    type V = RouteMatchView;

    open spec fn view(&self) -> RouteMatchView {
        RouteMatchView {
            pattern: self.pattern@,
            location: LocationView {
                path: self.path@,
                query: self.query@,
                query_all: self.query_all@,
                fragment: opt_view(self.fragment),
            },
            params: self.params@,
        }
    }
}

impl RouteMatch {
    /// Returns a decoded path parameter value, if present.
    pub fn param(&self, key: &str) -> (r: Option<&str>)
        ensures
            match r {
                Some(v) => self.params@.contains_key(key@) && self.params@[key@] == v@,
                None => !self.params@.contains_key(key@),
            },
    {
        self.params.get(key)
    }

    /// Returns the first decoded query value for `key`, if present.
    pub fn query_value(&self, key: &str) -> (r: Option<&str>)
        ensures
            match r {
                Some(v) => self.query@.contains_key(key@) && self.query@[key@] == v@,
                None => !self.query@.contains_key(key@),
            },
    {
        self.query.get(key)
    }

    /// Returns all decoded query values for `key`, if present.
    pub fn query_values(&self, key: &str) -> (r: Option<&[String]>)
        ensures
            match r {
                Some(v) => self.query_all@.contains_key(key@) && self.query_all@[key@]
                    == v@.map_values(|s: String| s@),
                None => !self.query_all@.contains_key(key@),
            },
    {
        self.query_all.get(key)
    }
}

/// The match of `pattern` against `location`: `None` exactly when
/// [`spec_match_definition`] gives none; otherwise the pattern, the location
/// and the parameters.
pub open spec fn match_result(
    r: Option<RouteMatch>,
    pattern: Seq<char>,
    location: LocationView,
) -> bool {
    match spec_match_definition(encode_utf8(pattern), location) {
        None => r is None,
        Some(params) => r matches Some(m) && m@ == RouteMatchView { pattern, location, params },
    }
}

fn match_route_definition(pattern: &str, location: RouteLocation) -> (r: Option<RouteMatch>)
    ensures
        match_result(r, pattern@, location@),
{
    let pattern_location = parse_route_location(pattern);
    let params = match match_path_params(
        pattern_location.path.as_str().as_bytes(),
        location.path.as_str().as_bytes(),
    ) {
        Some(p) => p,
        None => return None,
    };
    if !pattern_location.query.is_submap_of(&location.query) {
        return None;
    }
    if let Some(pattern_fragment) = &pattern_location.fragment {
        let same = match &location.fragment {
            Some(f) => str_eq(f.as_str(), pattern_fragment.as_str()),
            None => false,
        };
        if !same {
            return None;
        }
    }
    let ghost lv = location@;
    let r = RouteMatch {
        pattern: pattern.to_owned(),
        path: location.path,
        params,
        query: location.query,
        query_all: location.query_all,
        fragment: location.fragment,
    };
    assert(r@.location == lv);
    Some(r)
}

/// Match a route `pattern` (e.g. `"/user/:id/post/:postId"`) against a
/// concrete `route` (e.g. `"/user/42/post/7"`). Returns a map of parameter
/// names to their values on success, or `None` if the shapes don't match.
/// Queries and fragments of both are ignored.
pub fn match_route(pattern: &str, route: &str) -> (r: Option<StringMap>)
    ensures
        match r {
            Some(m) => spec_match_path_params(
                encode_utf8(spec_location(encode_utf8(pattern@)).path),
                encode_utf8(spec_location(encode_utf8(route@)).path),
            ) == Some(m@),
            None => spec_match_path_params(
                encode_utf8(spec_location(encode_utf8(pattern@)).path),
                encode_utf8(spec_location(encode_utf8(route@)).path),
            ) is None,
        },
{
    let pattern_location = parse_route_location(pattern);
    let route_location = parse_route_location(route);
    match_path_params(
        pattern_location.path.as_str().as_bytes(),
        route_location.path.as_str().as_bytes(),
    )
}

/// Match a declarative route pattern against a route/URL and return all route
/// state needed by a screen renderer.
pub fn match_route_location(pattern: &str, route: &str) -> (r: Option<RouteMatch>)
    ensures
        match_result(r, pattern@, spec_location(encode_utf8(route@))),
{
    let location = parse_route_location(route);
    match_route_definition(pattern, location)
}

/// A declarative URL route definition: a pattern and what renders it.
pub struct UrlRoute<F> {
    pattern: String,
    render: F,
}

impl<F> UrlRoute<F> {
    /// The pattern of this route.
    pub closed spec fn spec_pattern(&self) -> Seq<char> {
        self.pattern@
    }

    /// The renderer of this route.
    pub closed spec fn spec_renderer(&self) -> F {
        self.render
    }

    /// Returns the route pattern for this definition.
    pub fn pattern(&self) -> (r: &str)
        ensures
            r@ == self.spec_pattern(),
    {
        self.pattern.as_str()
    }

    /// The renderer of this route.
    pub fn renderer(&self) -> (r: &F)
        ensures
            *r == self.spec_renderer(),
    {
        &self.render
    }

    /// Matches this definition against `route`, returning captured route state.
    pub fn matches(&self, route: &str) -> (r: Option<RouteMatch>)
        ensures
            match_result(r, self.spec_pattern(), spec_location(encode_utf8(route@))),
    {
        match_route_location(self.pattern.as_str(), route)
    }
}

/// Creates a declarative URL route.
///
/// `pattern` supports static path segments and `:param` captures. Query keys
/// and fragments in the pattern act as constraints, so `"/orders/:id?tab=items"`
/// only matches routes whose first `tab` query value is `"items"`.
pub fn route<F>(pattern: &str, render: F) -> (r: UrlRoute<F>)
    ensures
        r.spec_pattern() == pattern@,
        r.spec_renderer() == render,
{
    UrlRoute { pattern: pattern.to_owned(), render }
}

/// Picks the route to render for the current route string: the first
/// definition whose pattern matches, with its match, or `None` when none
/// matches (the not-found case).
pub fn url_routes<F>(routes: &Vec<UrlRoute<F>>, route: &str) -> (r: Option<(usize, RouteMatch)>)
    ensures
        match r {
            Some((i, m)) => {
                &&& i < routes@.len()
                &&& match_result(Some(m), routes@[i as int].spec_pattern(), spec_location(encode_utf8(route@)))
                &&& forall|j: int|
                    0 <= j < i ==> spec_match_definition(
                        encode_utf8(#[trigger] routes@[j].spec_pattern()),
                        spec_location(encode_utf8(route@)),
                    ) is None
            },
            None => forall|j: int|
                0 <= j < routes@.len() ==> spec_match_definition(
                    encode_utf8(#[trigger] routes@[j].spec_pattern()),
                    spec_location(encode_utf8(route@)),
                ) is None,
        },
{
    let mut i: usize = 0;
    while i < routes.len()
        invariant
            i <= routes@.len(),
            forall|j: int|
                0 <= j < i ==> spec_match_definition(
                    encode_utf8(#[trigger] routes@[j].spec_pattern()),
                    spec_location(encode_utf8(route@)),
                ) is None,
        decreases routes@.len() - i,
    {
        match routes[i].matches(route) {
            Some(m) => {
                return Some((i, m));
            },
            None => {},
        }
        i = i + 1;
    }
    None
}

} // verus!
