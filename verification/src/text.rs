//! Byte-level text utilities shared by the backend parsers.
//!
//! Tool output is treated as a sequence of bytes throughout the library;
//! every executable function here is specified against a spec-level
//! definition over `Seq<u8>`.

use vstd::prelude::*;

verus! {

/// The bytes of an ASCII string literal, as a spec-level sequence.
pub open spec fn ascii_of(s: &str) -> Seq<u8> {
    Seq::new(s@.len(), |i: int| s@[i] as u8)
}

/// Turns an ASCII string literal into its byte vector.
pub fn lit(s: &str) -> (r: Vec<u8>)
    requires
        s.is_ascii(),
    ensures
        r@ == ascii_of(s),
{
    broadcast use vstd::string::is_ascii_spec_bytes;

    let b = s.as_bytes();
    let r = vstd::slice::slice_to_vec(b);
    proof {
        assert(r@ =~= ascii_of(s));
    }
    r
}

/// ASCII whitespace, as trimmed from tool output.
pub open spec fn is_space(b: u8) -> bool {
    b == 32 || b == 9 || b == 10 || b == 13
}

/// ASCII lower-casing of one byte.
pub open spec fn lower_byte(b: u8) -> u8 {
    if 65 <= b && b <= 90 {
        (b + 32) as u8
    } else {
        b
    }
}

/// ASCII lower-casing of a byte sequence.
pub open spec fn lower_seq(s: Seq<u8>) -> Seq<u8> {
    s.map_values(|b: u8| lower_byte(b))
}

/// Lower-cases a byte vector (ASCII letters only).
pub fn to_lower(s: &Vec<u8>) -> (r: Vec<u8>)
    ensures
        r@ == lower_seq(s@),
{
    let mut r: Vec<u8> = Vec::new();
    let mut i: usize = 0;
    while i < s.len()
        invariant
            i <= s.len(),
            r@ == lower_seq(s@.take(i as int)),
        decreases s.len() - i,
    {
        let b = s[i];
        if 65 <= b && b <= 90 {
            r.push(b + 32);
        } else {
            r.push(b);
        }
        proof {
            assert(s@.take(i + 1 as int).map_values(|x: u8| lower_byte(x)) =~= s@.take(
                i as int,
            ).map_values(|x: u8| lower_byte(x)).push(lower_byte(s@[i as int])));
        }
        i = i + 1;
    }
    proof {
        assert(s@.take(s@.len() as int) =~= s@);
    }
    r
}

/// Clones a byte vector.
pub fn clone_bytes(v: &Vec<u8>) -> (c: Vec<u8>)
    ensures
        c@ == v@,
{
    let c = v.clone();
    proof {
        assert(c@ =~= v@);
    }
    c
}

/// Equality of two byte vectors.
pub fn bytes_eq(a: &Vec<u8>, b: &Vec<u8>) -> (r: bool)
    ensures
        r == (a@ == b@),
{
    if a.len() != b.len() {
        return false;
    }
    let mut i: usize = 0;
    while i < a.len()
        invariant
            i <= a.len(),
            a.len() == b.len(),
            forall|k: int| 0 <= k < i ==> a@[k] == b@[k],
        decreases a.len() - i,
    {
        if a[i] != b[i] {
            return false;
        }
        i = i + 1;
    }
    proof {
        assert(a@ =~= b@);
    }
    true
}

/// Copies the byte range `[from, to)` out of a vector.
pub fn sub_vec(s: &Vec<u8>, from: usize, to: usize) -> (r: Vec<u8>)
    requires
        from <= to <= s@.len(),
    ensures
        r@ == s@.subrange(from as int, to as int),
{
    let mut r: Vec<u8> = Vec::new();
    let mut i: usize = from;
    while i < to
        invariant
            from <= i <= to <= s@.len(),
            r@ == s@.subrange(from as int, i as int),
        decreases to - i,
    {
        r.push(s[i]);
        proof {
            assert(s@.subrange(from as int, i + 1 as int) =~= s@.subrange(from as int, i as int).push(
                s@[i as int],
            ));
        }
        i = i + 1;
    }
    r
}

/// Concatenation of two byte vectors.
pub fn concat_bytes(a: &Vec<u8>, b: &Vec<u8>) -> (r: Vec<u8>)
    ensures
        r@ == a@ + b@,
{
    let mut r: Vec<u8> = Vec::new();
    let mut i: usize = 0;
    while i < a.len()
        invariant
            i <= a.len(),
            r@ == a@.take(i as int),
        decreases a.len() - i,
    {
        r.push(a[i]);
        proof {
            assert(a@.take(i + 1 as int) =~= a@.take(i as int).push(a@[i as int]));
        }
        i = i + 1;
    }
    let mut j: usize = 0;
    while j < b.len()
        invariant
            j <= b.len(),
            r@ == a@.take(a@.len() as int) + b@.take(j as int),
        decreases b.len() - j,
    {
        r.push(b[j]);
        proof {
            assert(a@.take(a@.len() as int) + b@.take(j + 1 as int) =~= (a@.take(a@.len() as int)
                + b@.take(j as int)).push(b@[j as int]));
        }
        j = j + 1;
    }
    proof {
        assert(a@.take(a@.len() as int) =~= a@);
        assert(b@.take(b@.len() as int) =~= b@);
    }
    r
}

/// Index of the first occurrence of byte `b` in `s` at or after `i`.
pub open spec fn find_byte_from(s: Seq<u8>, b: u8, i: int) -> Option<int>
    decreases s.len() - i,
{
    if i < 0 || i >= s.len() {
        Option::None
    } else if s[i] == b {
        Option::Some(i)
    } else {
        find_byte_from(s, b, i + 1)
    }
}

/// The result of `find_byte_from` is a position of `b` no earlier than `i`.
pub proof fn lemma_find_byte_from(s: Seq<u8>, b: u8, i: int)
    requires
        0 <= i,
    ensures
        match find_byte_from(s, b, i) {
            Option::Some(j) => i <= j < s.len() && s[j] == b,
            Option::None => true,
        },
    decreases s.len() - i,
{
    if i < s.len() && s[i] != b {
        lemma_find_byte_from(s, b, i + 1);
    }
}

/// Finds the first occurrence of byte `b` in `s` at or after `from`.
pub fn find_byte(s: &Vec<u8>, b: u8, from: usize) -> (r: Option<usize>)
    ensures
        match r {
            Option::Some(j) => find_byte_from(s@, b, from as int) == Option::Some(j as int),
            Option::None => find_byte_from(s@, b, from as int) == Option::<int>::None,
        },
{
    let mut i: usize = from;
    while i < s.len()
        invariant
            from <= i,
            find_byte_from(s@, b, from as int) == find_byte_from(s@, b, i as int),
        decreases s.len() - i,
    {
        if s[i] == b {
            return Option::Some(i);
        }
        i = i + 1;
    }
    Option::None
}

/// Whether `n` occurs in `h` starting exactly at position `i`.
pub open spec fn sub_at(h: Seq<u8>, n: Seq<u8>, i: int) -> bool {
    0 <= i && i + n.len() <= h.len() && h.subrange(i, i + n.len()) == n
}

/// Index of the first occurrence of `n` as a contiguous subsequence of `h`,
/// at or after `i`.
pub open spec fn find_sub_from(h: Seq<u8>, n: Seq<u8>, i: int) -> Option<int>
    decreases h.len() - i,
{
    if i < 0 || i + n.len() > h.len() {
        Option::None
    } else if sub_at(h, n, i) {
        Option::Some(i)
    } else if i + 1 + n.len() <= h.len() {
        find_sub_from(h, n, i + 1)
    } else {
        Option::None
    }
}

/// Whether `n` occurs anywhere in `h` as a contiguous subsequence.
pub open spec fn has_sub(h: Seq<u8>, n: Seq<u8>) -> bool {
    find_sub_from(h, n, 0) is Some
}

/// The result of `find_sub_from` is a position of `n` no earlier than `i`.
pub proof fn lemma_find_sub_from(h: Seq<u8>, n: Seq<u8>, i: int)
    requires
        0 <= i,
    ensures
        match find_sub_from(h, n, i) {
            Option::Some(j) => i <= j && j + n.len() <= h.len() && sub_at(h, n, j),
            Option::None => true,
        },
    decreases h.len() - i,
{
    if i + n.len() <= h.len() && !sub_at(h, n, i) && i + 1 + n.len() <= h.len() {
        lemma_find_sub_from(h, n, i + 1);
    }
}

/// Checks whether `n` occurs in `h` starting exactly at `i`.
fn match_at(h: &Vec<u8>, n: &Vec<u8>, i: usize) -> (r: bool)
    requires
        i + n@.len() <= h@.len(),
    ensures
        r == sub_at(h@, n@, i as int),
{
    let hl = h.len();
    let mut j: usize = 0;
    while j < n.len()
        invariant
            hl == h@.len(),
            j <= n@.len(),
            i + n@.len() <= h@.len(),
            forall|k: int| 0 <= k < j ==> h@[i + k] == n@[k],
        decreases n.len() - j,
    {
        if h[i + j] != n[j] {
            proof {
                assert(h@.subrange(i as int, i + n@.len()) != n@) by {
                    assert(h@.subrange(i as int, i + n@.len())[j as int] == h@[i + j]);
                }
            }
            return false;
        }
        j = j + 1;
    }
    proof {
        assert(h@.subrange(i as int, i + n@.len()) =~= n@);
    }
    true
}

/// Finds the first occurrence of `n` as a contiguous subsequence of `h`.
pub fn find_sub(h: &Vec<u8>, n: &Vec<u8>) -> (r: Option<usize>)
    ensures
        match r {
            Option::Some(j) => find_sub_from(h@, n@, 0) == Option::Some(j as int),
            Option::None => find_sub_from(h@, n@, 0) == Option::<int>::None,
        },
{
    if n.len() > h.len() {
        return Option::None;
    }
    if n.len() == 0 {
        proof {
            assert(h@.subrange(0, 0) =~= n@);
        }
        return Option::Some(0);
    }
    let hl = h.len();
    let last = hl - n.len();
    let mut i: usize = 0;
    while i <= last
        invariant
            hl == h@.len(),
            1 <= n@.len() <= h@.len(),
            last == hl - n@.len(),
            i <= last + 1,
            find_sub_from(h@, n@, 0) == find_sub_from(h@, n@, i as int),
        decreases last + 1 - i,
    {
        if match_at(h, n, i) {
            return Option::Some(i);
        }
        i = i + 1;
    }
    Option::None
}

/// Checks whether `n` occurs anywhere in `h`.
pub fn contains_sub(h: &Vec<u8>, n: &Vec<u8>) -> (r: bool)
    ensures
        r == has_sub(h@, n@),
{
    find_sub(h, n).is_some()
}

/// Whether `p` is a prefix of `s`.
pub open spec fn spec_starts_with(s: Seq<u8>, p: Seq<u8>) -> bool {
    p.len() <= s.len() && s.take(p.len() as int) == p
}

/// Checks whether `p` is a prefix of `s`.
pub fn starts_with(s: &Vec<u8>, p: &Vec<u8>) -> (r: bool)
    ensures
        r == spec_starts_with(s@, p@),
{
    if p.len() > s.len() {
        return false;
    }
    let r = match_at(s, p, 0);
    proof {
        assert(s@.subrange(0, p@.len() as int) =~= s@.take(p@.len() as int));
    }
    r
}

/// `s` with leading ASCII whitespace removed.
pub open spec fn spec_trim_start(s: Seq<u8>) -> Seq<u8>
    decreases s.len(),
{
    if s.len() > 0 && is_space(s[0]) {
        spec_trim_start(s.skip(1))
    } else {
        s
    }
}

/// `s` with trailing ASCII whitespace removed.
pub open spec fn spec_trim_end(s: Seq<u8>) -> Seq<u8>
    decreases s.len(),
{
    if s.len() > 0 && is_space(s.last()) {
        spec_trim_end(s.drop_last())
    } else {
        s
    }
}

/// `s` with ASCII whitespace removed from both ends.
pub open spec fn spec_trim(s: Seq<u8>) -> Seq<u8> {
    spec_trim_start(spec_trim_end(s))
}

/// Checks for an ASCII whitespace byte.
fn is_ws(b: u8) -> (r: bool)
    ensures
        r == is_space(b),
{
    b == 32 || b == 9 || b == 10 || b == 13
}

proof fn lemma_trim_start_skip(s: Seq<u8>, i: int)
    requires
        0 <= i <= s.len(),
        forall|k: int| 0 <= k < i ==> is_space(s[k]),
        i == s.len() || !is_space(s[i]),
    ensures
        spec_trim_start(s) == s.skip(i),
    decreases i,
{
    if i == 0 {
        assert(s.skip(0) =~= s);
    } else {
        lemma_trim_start_skip(s.skip(1), i - 1);
        assert(s.skip(1).skip(i - 1) =~= s.skip(i));
    }
}

proof fn lemma_trim_end_take(s: Seq<u8>, i: int)
    requires
        0 <= i <= s.len(),
        forall|k: int| i <= k < s.len() ==> is_space(s[k]),
        i == 0 || !is_space(s[i - 1]),
    ensures
        spec_trim_end(s) == s.take(i),
    decreases s.len() - i,
{
    if i == s.len() {
        assert(s.take(i) =~= s);
    } else {
        lemma_trim_end_take(s.drop_last(), i);
        assert(s.drop_last().take(i) =~= s.take(i));
    }
}

/// Removes ASCII whitespace from both ends of `s`.
pub fn trim(s: &Vec<u8>) -> (r: Vec<u8>)
    ensures
        r@ == spec_trim(s@),
{
    let mut hi: usize = s.len();
    while hi > 0 && is_ws(s[hi - 1])
        invariant
            hi <= s.len(),
            forall|k: int| hi <= k < s@.len() ==> is_space(s@[k]),
        decreases hi,
    {
        hi = hi - 1;
    }
    let mut lo: usize = 0;
    while lo < hi && is_ws(s[lo])
        invariant
            lo <= hi <= s.len(),
            forall|k: int| hi <= k < s@.len() ==> is_space(s@[k]),
            hi == 0 || !is_space(s@[hi - 1]),
            forall|k: int| 0 <= k < lo ==> is_space(s@[k]),
        decreases hi - lo,
    {
        lo = lo + 1;
    }
    let r = sub_vec(s, lo, hi);
    proof {
        lemma_trim_end_take(s@, hi as int);
        let t = s@.take(hi as int);
        lemma_trim_start_skip(t, lo as int);
        assert(t.skip(lo as int) =~= s@.subrange(lo as int, hi as int));
    }
    r
}

/// Removes trailing ASCII whitespace from `s`.
pub fn trim_end(s: &Vec<u8>) -> (r: Vec<u8>)
    ensures
        r@ == spec_trim_end(s@),
{
    let mut hi: usize = s.len();
    while hi > 0 && is_ws(s[hi - 1])
        invariant
            hi <= s.len(),
            forall|k: int| hi <= k < s@.len() ==> is_space(s@[k]),
        decreases hi,
    {
        hi = hi - 1;
    }
    let r = sub_vec(s, 0, hi);
    proof {
        lemma_trim_end_take(s@, hi as int);
        assert(s@.subrange(0, hi as int) =~= s@.take(hi as int));
    }
    r
}

/// A line with one trailing carriage return removed.
pub open spec fn strip_cr(l: Seq<u8>) -> Seq<u8> {
    if l.len() > 0 && l.last() == 13 {
        l.drop_last()
    } else {
        l
    }
}

/// Line splitting, threaded as an accumulator pass: `cur` is the line being
/// collected and `out` the lines already complete.  Lines end at a line feed;
/// a carriage return immediately before the line feed is dropped; a final
/// line needs no terminator and keeps any stray carriage return.
pub open spec fn lines_acc(s: Seq<u8>, i: int, cur: Seq<u8>, out: Seq<Seq<u8>>) -> Seq<Seq<u8>>
    decreases s.len() - i,
{
    if i < 0 || i >= s.len() {
        if cur.len() > 0 {
            out.push(cur)
        } else {
            out
        }
    } else if s[i] == 10 {
        lines_acc(s, i + 1, Seq::empty(), out.push(strip_cr(cur)))
    } else {
        lines_acc(s, i + 1, cur.push(s[i]), out)
    }
}

/// The lines of `s`.
pub open spec fn spec_lines(s: Seq<u8>) -> Seq<Seq<u8>> {
    lines_acc(s, 0, Seq::empty(), Seq::empty())
}

/// Splits `s` into lines.
pub fn lines(s: &Vec<u8>) -> (r: Vec<Vec<u8>>)
    ensures
        r.deep_view() == spec_lines(s@),
{
    let mut out: Vec<Vec<u8>> = Vec::new();
    let mut cur: Vec<u8> = Vec::new();
    let mut i: usize = 0;
    proof {
        assert(out.deep_view() =~~= Seq::<Seq<u8>>::empty());
    }
    while i < s.len()
        invariant
            i <= s.len(),
            spec_lines(s@) == lines_acc(s@, i as int, cur@, out.deep_view()),
        decreases s.len() - i,
    {
        let b = s[i];
        if b == 10 {
            let ghost pre = cur@;
            if cur.len() > 0 && cur[cur.len() - 1] == 13 {
                cur.pop();
            }
            proof {
                assert(cur@ == strip_cr(pre));
            }
            let ghost outv = out.deep_view();
            let ghost cv = cur@;
            out.push(cur);
            proof {
                assert(out.deep_view() =~~= outv.push(cv));
            }
            cur = Vec::new();
        } else {
            cur.push(b);
        }
        i = i + 1;
    }
    if cur.len() > 0 {
        let ghost outv = out.deep_view();
        let ghost cv = cur@;
        out.push(cur);
        proof {
            assert(out.deep_view() =~~= outv.push(cv));
        }
    }
    out
}

/// Whether `b` is an ASCII decimal digit.
pub open spec fn is_digit(b: u8) -> bool {
    48 <= b <= 57
}

/// Whether `b` is an ASCII hexadecimal digit.
pub open spec fn is_hex_digit(b: u8) -> bool {
    is_digit(b) || (97 <= b <= 102) || (65 <= b <= 70)
}

/// Whether every byte of `s` is an ASCII decimal digit.
pub open spec fn all_digits(s: Seq<u8>) -> bool {
    forall|i: int| 0 <= i < s.len() ==> is_digit(s[i])
}

/// Whether every byte of `s` is an ASCII hexadecimal digit.
pub open spec fn all_hex_digits(s: Seq<u8>) -> bool {
    forall|i: int| 0 <= i < s.len() ==> is_hex_digit(s[i])
}

/// Checks that `s` is non-empty and entirely decimal digits.
pub fn is_decimal(s: &Vec<u8>) -> (r: bool)
    ensures
        r == (s@.len() > 0 && all_digits(s@)),
{
    if s.len() == 0 {
        return false;
    }
    let mut i: usize = 0;
    while i < s.len()
        invariant
            i <= s.len(),
            forall|k: int| 0 <= k < i ==> is_digit(s@[k]),
        decreases s.len() - i,
    {
        let b = s[i];
        if b < 48 || b > 57 {
            return false;
        }
        i = i + 1;
    }
    true
}

/// Checks that `s` is non-empty and entirely hexadecimal digits.
pub fn is_hexadecimal(s: &Vec<u8>) -> (r: bool)
    ensures
        r == (s@.len() > 0 && all_hex_digits(s@)),
{
    if s.len() == 0 {
        return false;
    }
    let mut i: usize = 0;
    while i < s.len()
        invariant
            i <= s.len(),
            forall|k: int| 0 <= k < i ==> is_hex_digit(s@[k]),
        decreases s.len() - i,
    {
        let b = s[i];
        if !(48 <= b && b <= 57) && !(97 <= b && b <= 102) && !(65 <= b && b <= 70) {
            return false;
        }
        i = i + 1;
    }
    true
}

/// The value of a string of decimal digits.
pub open spec fn digits_val(s: Seq<u8>) -> int
    decreases s.len(),
{
    if s.len() == 0 {
        0
    } else {
        digits_val(s.drop_last()) * 10 + (s.last() - 48)
    }
}

proof fn lemma_digits_val_nonneg(s: Seq<u8>)
    requires
        all_digits(s),
    ensures
        digits_val(s) >= 0,
    decreases s.len(),
{
    if s.len() > 0 {
        lemma_digits_val_nonneg(s.drop_last());
    }
}

proof fn lemma_digits_val_monotone(s: Seq<u8>, i: int)
    requires
        all_digits(s),
        0 <= i <= s.len(),
    ensures
        digits_val(s.take(i)) <= digits_val(s),
    decreases s.len() - i,
{
    if i < s.len() {
        lemma_digits_val_monotone(s, i + 1);
        let t = s.take(i + 1);
        assert(t.drop_last() =~= s.take(i));
        assert(forall|k: int| 0 <= k < t.len() ==> is_digit(t[k]));
        lemma_digits_val_nonneg(s.take(i));
        assert(digits_val(s.take(i)) <= digits_val(t));
    } else {
        assert(s.take(i) =~= s);
    }
}

/// Whether `s` carries a leading minus sign.
pub open spec fn leading_minus(s: Seq<u8>) -> bool {
    s.len() > 0 && s[0] == 45
}

/// `s` without its leading sign, if it has one.
pub open spec fn digits_part(s: Seq<u8>) -> Seq<u8> {
    if s.len() > 0 && (s[0] == 43 || s[0] == 45) {
        s.skip(1)
    } else {
        s
    }
}

/// The signed 64-bit integer denoted by `s`: an optional sign, then one or
/// more decimal digits, rejecting overflow — as the standard integer parser
/// accepts it.
pub open spec fn spec_parse_i64(s: Seq<u8>) -> Option<i64> {
    if digits_part(s).len() == 0 || !all_digits(digits_part(s)) {
        Option::None
    } else {
        let signed = if leading_minus(s) {
            -digits_val(digits_part(s))
        } else {
            digits_val(digits_part(s))
        };
        if i64::MIN <= signed <= i64::MAX {
            Option::Some(signed as i64)
        } else {
            Option::None
        }
    }
}

/// Parses a signed 64-bit decimal integer.
pub fn parse_i64(s: &Vec<u8>) -> (r: Option<i64>)
    ensures
        r == spec_parse_i64(s@),
{
    let mut start: usize = 0;
    let mut neg: bool = false;
    if s.len() > 0 && (s[0] == 43 || s[0] == 45) {
        neg = s[0] == 45;
        start = 1;
    }
    let ghost digits = if start == 1 {
        s@.skip(1)
    } else {
        s@
    };
    proof {
        assert(s@.skip(0) =~= s@);
    }
    if s.len() == start {
        return Option::None;
    }
    let mut mag: u128 = 0;
    let mut i: usize = start;
    while i < s.len()
        invariant
            start <= i <= s@.len(),
            start == 0 || start == 1,
            (start == 1) <==> (s@.len() > 0 && (s@[0] == 43 || s@[0] == 45)),
            neg == leading_minus(s@),
            digits == s@.skip(start as int),
            digits == digits_part(s@),
            forall|k: int| start <= k < i ==> is_digit(s@[k]),
            mag == digits_val(digits.take(i - start)),
            mag <= 0x8000_0000_0000_0000u128,
        decreases s.len() - i,
    {
        let b = s[i];
        if b < 48 || b > 57 {
            assert(!all_digits(digits)) by {
                assert(digits[i - start] == s@[i as int]);
            }
            return Option::None;
        }
        let d = (b - 48) as u128;
        let next = mag * 10 + d;
        proof {
            assert(digits.take(i + 1 - start).drop_last() =~= digits.take(i - start));
            assert(digits.take(i + 1 - start).last() == s@[i as int]);
            assert(digits_val(digits.take(i + 1 - start)) == digits_val(digits.take(i - start)) * 10
                + (s@[i as int] - 48));
        }
        if next > 0x8000_0000_0000_0000u128 {
            assert(spec_parse_i64(s@) is None) by {
                if all_digits(digits) {
                    lemma_digits_val_monotone(digits, i + 1 - start);
                }
            }
            return Option::None;
        }
        mag = next;
        i = i + 1;
    }
    proof {
        assert(digits.take(i - start) =~= digits);
    }
    if neg {
        if mag == 0x8000_0000_0000_0000u128 {
            Option::Some(i64::MIN)
        } else {
            Option::Some(-((mag as i64)))
        }
    } else {
        if mag == 0x8000_0000_0000_0000u128 {
            Option::None
        } else {
            Option::Some(mag as i64)
        }
    }
}

/// A log preview with carriage returns dropped and line feeds made
/// visible as a two-character marker.
pub open spec fn spec_log_normalize(s: Seq<u8>) -> Seq<u8>
    decreases s.len(),
{
    if s.len() == 0 {
        Seq::empty()
    } else {
        spec_log_normalize(s.drop_last()) + (if s.last() == 13 {
            Seq::<u8>::empty()
        } else if s.last() == 10 {
            seq![92u8, 110u8]
        } else {
            seq![s.last()]
        })
    }
}

/// The log preview of `s`, cut to `max` bytes with a truncation marker.
pub open spec fn spec_truncate_for_log(s: Seq<u8>, max: int) -> Seq<u8> {
    if spec_log_normalize(s).len() <= max {
        spec_log_normalize(s)
    } else {
        spec_log_normalize(s).take(max) + ascii_of("...(truncated)")
    }
}

/// Renders a raw-output preview for a diagnostic line: newlines become a
/// visible marker and the result is cut to `max_len` bytes.
pub fn truncate_for_log(value: &Vec<u8>, max_len: usize) -> (r: Vec<u8>)
    ensures
        r@ == spec_truncate_for_log(value@, max_len as int),
{
    let mut n: Vec<u8> = Vec::new();
    let mut i: usize = 0;
    while i < value.len()
        invariant
            i <= value@.len(),
            n@ == spec_log_normalize(value@.take(i as int)),
        decreases value.len() - i,
    {
        let b = value[i];
        if b == 10 {
            n.push(92);
            n.push(110);
        } else if b != 13 {
            n.push(b);
        }
        proof {
            assert(value@.take(i + 1 as int).drop_last() =~= value@.take(i as int));
            assert(value@.take(i + 1 as int).last() == value@[i as int]);
            assert(n@ =~= spec_log_normalize(value@.take(i + 1 as int)));
        }
        i = i + 1;
    }
    proof {
        assert(value@.take(value@.len() as int) =~= value@);
    }
    if n.len() <= max_len {
        return n;
    }
    let head = sub_vec(&n, 0, max_len);
    proof {
        reveal_strlit("...(truncated)");
        assert(n@.subrange(0, max_len as int) =~= n@.take(max_len as int));
    }
    let marker = lit("...(truncated)");
    concat_bytes(&head, &marker)
}

/// Everything in `l` before the first `c`, or all of `l` when it has none.
pub open spec fn head_sep(l: Seq<u8>, c: u8) -> Seq<u8> {
    match find_byte_from(l, c, 0) {
        Option::Some(t) => l.take(t),
        Option::None => l,
    }
}

/// The remainder of `l` after the first `c`, if any.
pub open spec fn after_sep(l: Seq<u8>, c: u8) -> Option<Seq<u8>> {
    match find_byte_from(l, c, 0) {
        Option::Some(t) => Option::Some(l.skip(t + 1)),
        Option::None => Option::None,
    }
}

/// Splits `l` at its first `c`.
pub fn split_at_byte(l: &Vec<u8>, c: u8) -> (r: (Vec<u8>, Option<Vec<u8>>))
    ensures
        r.0@ == head_sep(l@, c),
        match r.1 {
            Option::Some(rest) => after_sep(l@, c) == Option::Some(rest@),
            Option::None => after_sep(l@, c) == Option::<Seq<u8>>::None,
        },
{
    match find_byte(l, c, 0) {
        Option::Some(t) => {
            let ll = l.len();
            proof {
                lemma_find_byte_from(l@, c, 0);
            }
            let head = sub_vec(l, 0, t);
            let rest = sub_vec(l, t + 1, ll);
            proof {
                assert(l@.subrange(0, t as int) =~= l@.take(t as int));
                assert(l@.subrange(t + 1 as int, l@.len() as int) =~= l@.skip(t + 1 as int));
            }
            (head, Option::Some(rest))
        },
        Option::None => {
            let head = sub_vec(l, 0, l.len());
            proof {
                assert(l@.subrange(0, l@.len() as int) =~= l@);
            }
            (head, Option::None)
        },
    }
}

/// Replaces backslashes with forward slashes.
pub open spec fn spec_slashes(s: Seq<u8>) -> Seq<u8> {
    s.map_values(
        |b: u8|
            if b == 92 {
                47u8
            } else {
                b
            },
    )
}

/// Rewrites a path to forward-slash separators.
pub fn slashes(s: &Vec<u8>) -> (r: Vec<u8>)
    ensures
        r@ == spec_slashes(s@),
{
    let mut r: Vec<u8> = Vec::new();
    let mut i: usize = 0;
    while i < s.len()
        invariant
            i <= s.len(),
            r@ == spec_slashes(s@.take(i as int)),
        decreases s.len() - i,
    {
        let b = s[i];
        if b == 92 {
            r.push(47);
        } else {
            r.push(b);
        }
        proof {
            assert(spec_slashes(s@.take(i + 1 as int)) =~= spec_slashes(s@.take(i as int)).push(
                if s@[i as int] == 92 {
                    47u8
                } else {
                    s@[i as int]
                },
            ));
        }
        i = i + 1;
    }
    proof {
        assert(s@.take(s@.len() as int) =~= s@);
    }
    r
}

} // verus!
