//! Byte-level text helpers shared by the routing and networking code.

use vstd::prelude::*;
use vstd::utf8::*;

verus! {

/// The characters that `String::from_utf8_lossy` produces for `bytes`.
pub uninterp spec fn utf8_lossy(bytes: Seq<u8>) -> Seq<char>;

/// Calls `String::from_utf8_lossy` and takes ownership of the result.
///
/// Claimed of the std function: the result is a function of the bytes alone
/// (named [`utf8_lossy`]), and valid UTF-8 input is decoded unchanged, as its
/// documentation says. What replaces invalid sequences is left unsaid.
#[verifier::external_body]
pub(crate) fn string_from_utf8_lossy(bytes: &[u8]) -> (r: String)
    ensures
        r@ == utf8_lossy(bytes@),
        valid_utf8(bytes@) ==> r@ == decode_utf8(bytes@),
{
    String::from_utf8_lossy(bytes).into_owned()
}

/// Index of the first byte at or after `i` that equals `a` or `b`.
pub open spec fn first_index_of2(s: Seq<u8>, a: u8, b: u8, i: nat) -> Option<nat>
    decreases s.len() - i,
{
    if i >= s.len() {
        None
    } else if s[i as int] == a || s[i as int] == b {
        Some(i)
    } else {
        first_index_of2(s, a, b, i + 1)
    }
}

/// A found index lies between the start and the end.
pub proof fn lemma_first_index_bounds(s: Seq<u8>, a: u8, b: u8, i: nat)
    ensures
        first_index_of2(s, a, b, i) matches Some(k) ==> i <= k < s.len() && (s[k as int] == a
            || s[k as int] == b),
    decreases s.len() - i,
{
    if i < s.len() && !(s[i as int] == a || s[i as int] == b) {
        lemma_first_index_bounds(s, a, b, i + 1);
    }
}

/// The segments of `s` from `start` on, between bytes equal to `d1` or `d2`
/// (as `str::split` gives them, empty segments included).
pub open spec fn split_from(s: Seq<u8>, d1: u8, d2: u8, start: nat) -> Seq<Seq<u8>>
    decreases s.len() - start,
{
    if start > s.len() {
        Seq::empty()
    } else {
        match first_index_of2(s, d1, d2, start) {
            Some(k) => {
                if k < start || k >= s.len() {
                    Seq::empty()
                } else {
                    seq![s.subrange(start as int, k as int)] + split_from(s, d1, d2, k + 1)
                }
            },
            None => seq![s.subrange(start as int, s.len() as int)],
        }
    }
}

/// Index of the first byte at or after `i` that equals `a`.
pub open spec fn first_index_of(s: Seq<u8>, a: u8, i: nat) -> Option<nat> {
    first_index_of2(s, a, a, i)
}

/// Finds the first byte at or after `start` equal to `a` or `b`.
pub fn find_either(s: &[u8], a: u8, b: u8, start: usize) -> (r: Option<usize>)
    requires
        start <= s@.len(),
    ensures
        match r {
            Some(k) => first_index_of2(s@, a, b, start as nat) == Some(k as nat) && start <= k
                < s@.len(),
            None => first_index_of2(s@, a, b, start as nat) is None,
        },
{
    let mut i = start;
    while i < s.len()
        invariant
            start <= i <= s@.len(),
            first_index_of2(s@, a, b, start as nat) == first_index_of2(s@, a, b, i as nat),
        decreases s@.len() - i,
    {
        if s[i] == a || s[i] == b {
            return Some(i);
        }
        i = i + 1;
    }
    None
}

/// Splits `s` at the first occurrence of `needle`: the part before it and,
/// when the byte occurs, the part after it.
pub open spec fn spec_split_once(s: Seq<u8>, needle: u8) -> (Seq<u8>, Option<Seq<u8>>) {
    match first_index_of(s, needle, 0) {
        Some(k) => (s.subrange(0, k as int), Some(s.subrange(k + 1int, s.len() as int))),
        None => (s, None),
    }
}

/// The bytes of `s` from `a` up to `b`.
pub fn slice_range(s: &[u8], a: usize, b: usize) -> (r: &[u8])
    requires
        a <= b <= s@.len(),
    ensures
        r@ == s@.subrange(a as int, b as int),
{
    let r = &s[a..b];
    assert(r@ == s@.subrange(a as int, b as int));
    r
}

/// Whether two byte strings are equal.
pub fn bytes_eq(a: &[u8], b: &[u8]) -> (r: bool)
    ensures
        r == (a@ == b@),
{
    let n = a.len();
    if n != b.len() {
        return false;
    }
    let mut i: usize = 0;
    while i < n
        invariant
            n == a@.len(),
            n == b@.len(),
            i <= n,
            forall|j: int| 0 <= j < i ==> a@[j] == b@[j],
        decreases n - i,
    {
        if a[i] != b[i] {
            return false;
        }
        i = i + 1;
    }
    assert(a@ =~= b@);
    true
}

/// Whether two strings hold the same characters.
pub fn str_eq(a: &str, b: &str) -> (r: bool)
    ensures
        r == (a@ == b@),
{
    broadcast use vstd::utf8::encode_utf8_decode_utf8;

    let r = bytes_eq(a.as_bytes(), b.as_bytes());
    assert(decode_utf8(encode_utf8(a@)) == a@);
    assert(decode_utf8(encode_utf8(b@)) == b@);
    r
}

/// Appends the bytes of `s` to `v`.
pub fn push_bytes(v: &mut Vec<u8>, s: &[u8])
    ensures
        final(v)@ == old(v)@ + s@,
{
    let n = s.len();
    let mut i: usize = 0;
    while i < n
        invariant
            n == s@.len(),
            i <= n,
            v@ == old(v)@ + s@.subrange(0, i as int),
        decreases n - i,
    {
        v.push(s[i]);
        assert(s@.subrange(0, i + 1) == s@.subrange(0, i as int).push(s@[i as int]));
        i = i + 1;
    }
    assert(s@.subrange(0, n as int) == s@);
}

/// Splits `input` at the first `needle`.
pub fn split_once(input: &[u8], needle: u8) -> (r: (&[u8], Option<&[u8]>))
    ensures
        r.0@ == spec_split_once(input@, needle).0,
        r.1 matches Some(x) ==> spec_split_once(input@, needle).1 == Some(x@),
        r.1 is None ==> spec_split_once(input@, needle).1 is None,
{
    let n = input.len();
    let found = find_either(input, needle, needle, 0);
    match found {
        Some(k) => {
            (slice_range(input, 0, k), Some(slice_range(input, k + 1, n)))
        },
        None => (input, None),
    }
}

/// Whether `b` is an ASCII whitespace byte (tab, line feed, vertical tab,
/// form feed, carriage return, space).
pub open spec fn is_ascii_ws(b: u8) -> bool {
    b == 9 || b == 10 || b == 11 || b == 12 || b == 13 || b == 32
}

/// Whether three bytes are the UTF-8 encoding of one of the three-byte
/// Unicode `White_Space` characters (U+1680, U+2000..U+200A, U+2028,
/// U+2029, U+202F, U+205F, U+3000).
pub open spec fn is_ws3(a: u8, b: u8, c: u8) -> bool {
    (a == 0xE1 && b == 0x9A && c == 0x80) || (a == 0xE2 && b == 0x80 && ((0x80 <= c
        && c <= 0x8A) || c == 0xA8 || c == 0xA9 || c == 0xAF)) || (a == 0xE2 && b == 0x81 && c
        == 0x9F) || (a == 0xE3 && b == 0x80 && c == 0x80)
}

/// Whether two bytes are the UTF-8 encoding of U+0085 or U+00A0.
pub open spec fn is_ws2(a: u8, b: u8) -> bool {
    a == 0xC2 && (b == 0x85 || b == 0xA0)
}

/// Length of the encoding of a Unicode `White_Space` character that starts
/// at `i` and ends by `hi`, or zero.
pub open spec fn ws_len_at(s: Seq<u8>, i: int, hi: int) -> int {
    if 0 <= i && i < hi && hi <= s.len() && is_ascii_ws(s[i]) {
        1
    } else if 0 <= i && i + 1 < hi && hi <= s.len() && is_ws2(s[i], s[i + 1]) {
        2
    } else if 0 <= i && i + 2 < hi && hi <= s.len() && is_ws3(s[i], s[i + 1], s[i + 2]) {
        3
    } else {
        0
    }
}

/// Length of the encoding of a Unicode `White_Space` character that ends
/// just before `j` and starts at or after `lo`, or zero.
pub open spec fn ws_len_before(s: Seq<u8>, lo: int, j: int) -> int {
    if 0 <= lo && lo <= j - 1 && j <= s.len() && is_ascii_ws(s[j - 1]) {
        1
    } else if 0 <= lo && lo <= j - 2 && j <= s.len() && is_ws2(s[j - 2], s[j - 1]) {
        2
    } else if 0 <= lo && lo <= j - 3 && j <= s.len() && is_ws3(s[j - 3], s[j - 2], s[j - 1]) {
        3
    } else {
        0
    }
}

/// Where the content starts once leading whitespace from `i` is skipped.
pub open spec fn trim_start_index(s: Seq<u8>, i: int) -> int
    decreases s.len() - i,
{
    if 0 <= i && i < s.len() && ws_len_at(s, i, s.len() as int) > 0 {
        trim_start_index(s, i + ws_len_at(s, i, s.len() as int))
    } else {
        i
    }
}

/// Where the content ends once trailing whitespace before `j` (and not
/// before `lo`) is skipped.
pub open spec fn trim_end_index(s: Seq<u8>, lo: int, j: int) -> int
    decreases j - lo,
{
    if 0 <= lo && lo < j && j <= s.len() && ws_len_before(s, lo, j) > 0 {
        trim_end_index(s, lo, j - ws_len_before(s, lo, j))
    } else {
        j
    }
}

/// The UTF-8 bytes of a string with leading and trailing Unicode
/// `White_Space` characters removed, as `str::trim` does.
pub open spec fn spec_trim(s: Seq<u8>) -> Seq<u8> {
    let a = trim_start_index(s, 0);
    s.subrange(a, trim_end_index(s, a, s.len() as int))
}

proof fn lemma_trim_start_bounds(s: Seq<u8>, i: int)
    requires
        0 <= i <= s.len(),
    ensures
        i <= trim_start_index(s, i) <= s.len(),
    decreases s.len() - i,
{
    if 0 <= i && i < s.len() && ws_len_at(s, i, s.len() as int) > 0 {
        lemma_trim_start_bounds(s, i + ws_len_at(s, i, s.len() as int));
    }
}

proof fn lemma_trim_end_bounds(s: Seq<u8>, lo: int, j: int)
    requires
        0 <= lo <= j <= s.len(),
    ensures
        lo <= trim_end_index(s, lo, j) <= j,
    decreases j - lo,
{
    if 0 <= lo && lo < j && j <= s.len() && ws_len_before(s, lo, j) > 0 {
        lemma_trim_end_bounds(s, lo, j - ws_len_before(s, lo, j));
    }
}

/// The trimmed bytes are a contiguous part of the input.
pub proof fn lemma_trim_bounds(s: Seq<u8>)
    ensures
        0 <= trim_start_index(s, 0) <= trim_end_index(s, trim_start_index(s, 0), s.len() as int)
            <= s.len(),
        spec_trim(s).len() <= s.len(),
{
    lemma_trim_start_bounds(s, 0);
    lemma_trim_end_bounds(s, trim_start_index(s, 0), s.len() as int);
}

fn ws_len_at_exec(s: &[u8], i: usize) -> (r: usize)
    requires
        i <= s@.len(),
    ensures
        r as int == ws_len_at(s@, i as int, s@.len() as int),
{
    let n = s.len();
    if i < n && (s[i] == 9 || s[i] == 10 || s[i] == 11 || s[i] == 12 || s[i] == 13 || s[i] == 32) {
        1
    } else if n - i > 1 && s[i] == 0xC2 && (s[i + 1] == 0x85 || s[i + 1] == 0xA0) {
        2
    } else if n - i > 2 && is_ws3_exec(s[i], s[i + 1], s[i + 2]) {
        3
    } else {
        0
    }
}

fn is_ws3_exec(a: u8, b: u8, c: u8) -> (r: bool)
    ensures
        r == is_ws3(a, b, c),
{
    (a == 0xE1 && b == 0x9A && c == 0x80) || (a == 0xE2 && b == 0x80 && ((0x80 <= c && c <= 0x8A)
        || c == 0xA8 || c == 0xA9 || c == 0xAF)) || (a == 0xE2 && b == 0x81 && c == 0x9F) || (a
        == 0xE3 && b == 0x80 && c == 0x80)
}

fn ws_len_before_exec(s: &[u8], lo: usize, j: usize) -> (r: usize)
    requires
        lo <= j <= s@.len(),
    ensures
        r as int == ws_len_before(s@, lo as int, j as int),
{
    if j - lo >= 1 && (s[j - 1] == 9 || s[j - 1] == 10 || s[j - 1] == 11 || s[j - 1] == 12 || s[j
        - 1] == 13 || s[j - 1] == 32) {
        1
    } else if j - lo >= 2 && s[j - 2] == 0xC2 && (s[j - 1] == 0x85 || s[j - 1] == 0xA0) {
        2
    } else if j - lo >= 3 && is_ws3_exec(s[j - 3], s[j - 2], s[j - 1]) {
        3
    } else {
        0
    }
}

/// Removes leading and trailing Unicode `White_Space` from UTF-8 bytes.
pub fn trim(s: &[u8]) -> (r: &[u8])
    ensures
        r@ == spec_trim(s@),
{
    let n = s.len();
    let mut a: usize = 0;
    while a < n && ws_len_at_exec(s, a) > 0
        invariant
            n == s@.len(),
            0 <= a <= n,
            trim_start_index(s@, 0) == trim_start_index(s@, a as int),
        decreases n - a,
    {
        a = a + ws_len_at_exec(s, a);
    }
    let mut b: usize = n;
    while a < b && ws_len_before_exec(s, a, b) > 0
        invariant
            n == s@.len(),
            0 <= a <= b <= n,
            trim_start_index(s@, 0) == a,
            trim_end_index(s@, a as int, n as int) == trim_end_index(s@, a as int, b as int),
        decreases b - a,
    {
        b = b - ws_len_before_exec(s, a, b);
    }
    slice_range(s, a, b)
}

/// The UTF-8 bytes of a string with leading Unicode `White_Space`
/// characters removed, as `str::trim_start` does.
pub open spec fn spec_trim_start(s: Seq<u8>) -> Seq<u8> {
    s.subrange(trim_start_index(s, 0), s.len() as int)
}

/// Removes leading Unicode `White_Space` characters.
pub fn trim_start(s: &[u8]) -> (r: &[u8])
    ensures
        r@ == spec_trim_start(s@),
{
    let n = s.len();
    let mut a: usize = 0;
    while a < n && ws_len_at_exec(s, a) > 0
        invariant
            n == s@.len(),
            0 <= a <= n,
            trim_start_index(s@, 0) == trim_start_index(s@, a as int),
        decreases n - a,
    {
        a = a + ws_len_at_exec(s, a);
    }
    slice_range(s, a, n)
}

/// `s` with every trailing occurrence of the byte `b` removed.
pub open spec fn strip_trailing(s: Seq<u8>, b: u8) -> Seq<u8>
    decreases s.len(),
{
    if s.len() > 0 && s.last() == b {
        strip_trailing(s.drop_last(), b)
    } else {
        s
    }
}

/// The length of `s` once every trailing `b` is removed.
pub fn strip_trailing_len(s: &[u8], b: u8) -> (r: usize)
    ensures
        r <= s@.len(),
        s@.subrange(0, r as int) == strip_trailing(s@, b),
{
    let mut n = s.len();
    assert(s@.subrange(0, n as int) == s@);
    while n > 0 && s[n - 1] == b
        invariant
            n <= s@.len(),
            strip_trailing(s@.subrange(0, n as int), b) == strip_trailing(s@, b),
        decreases n,
    {
        assert(s@.subrange(0, n as int).drop_last() == s@.subrange(0, n - 1));
        n = n - 1;
    }
    n
}

/// The decimal digits of `n`, most significant first.
pub open spec fn decimal_chars(n: nat) -> Seq<char>
    decreases n,
{
    if n < 10 {
        seq![digit_char(n)]
    } else {
        decimal_chars(n / 10).push(digit_char(n % 10))
    }
}

/// The character of the decimal digit `d` (for `d < 10`).
pub open spec fn digit_char(d: nat) -> char {
    if d == 0 { '0' } else if d == 1 { '1' } else if d == 2 { '2' } else if d == 3 { '3' }
    else if d == 4 { '4' } else if d == 5 { '5' } else if d == 6 { '6' } else if d == 7 { '7' }
    else if d == 8 { '8' } else { '9' }
}

fn digit_str(d: u64) -> (r: &'static str)
    requires
        d < 10,
    ensures
        r@ == seq![digit_char(d as nat)],
{
    proof {
        reveal_strlit("0");
        reveal_strlit("1");
        reveal_strlit("2");
        reveal_strlit("3");
        reveal_strlit("4");
        reveal_strlit("5");
        reveal_strlit("6");
        reveal_strlit("7");
        reveal_strlit("8");
        reveal_strlit("9");
    }
    if d == 0 { "0" } else if d == 1 { "1" } else if d == 2 { "2" } else if d == 3 { "3" }
    else if d == 4 { "4" } else if d == 5 { "5" } else if d == 6 { "6" } else if d == 7 { "7" }
    else if d == 8 { "8" } else { "9" }
}

/// Appends the decimal digits of `n` to `out`.
pub fn push_decimal(out: &mut String, n: u64)
    ensures
        final(out)@ == old(out)@ + decimal_chars(n as nat),
    decreases n,
{
    if n < 10 {
        out.append(digit_str(n));
    } else {
        push_decimal(out, n / 10);
        out.append(digit_str(n % 10));
        assert(decimal_chars(n as nat) == decimal_chars((n / 10) as nat).push(digit_char((n % 10) as nat)));
    }
}

} // verus!
