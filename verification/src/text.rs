//! Verified text helpers: equality, substring search (exact and
//! ASCII-case-insensitive), substring replacement, and decimal
//! conversions. Every probe-evidence message the detectors produce is
//! assembled from these.

use vstd::prelude::*;
use vstd::string::StrSliceExecFns;
use vstd::string::StringExecFns;

verus! {

/// Lower-cases one character's scalar value, folding only the ASCII range.
pub open spec fn lower_scalar(c: int) -> int {
    if 65 <= c && c <= 90 {
        c + 32
    } else {
        c
    }
}

/// Two characters are equal up to ASCII case.
pub open spec fn chars_eq_ci(a: char, b: char) -> bool {
    lower_scalar(a as int) == lower_scalar(b as int)
}

/// `needle` occurs in `hay` at offset `i`, character for character.
pub open spec fn matches_at(hay: Seq<char>, needle: Seq<char>, i: int) -> bool {
    &&& 0 <= i
    &&& i + needle.len() <= hay.len()
    &&& forall|j: int| 0 <= j < needle.len() ==> hay[i + j] == needle[j]
}

/// `needle` occurs somewhere in `hay`, character for character.
pub open spec fn contains_seq(hay: Seq<char>, needle: Seq<char>) -> bool {
    exists|i: int| matches_at(hay, needle, i)
}

/// `needle` occurs in `hay` at offset `i`, up to ASCII case.
pub open spec fn matches_ci_at(hay: Seq<char>, needle: Seq<char>, i: int) -> bool {
    &&& 0 <= i
    &&& i + needle.len() <= hay.len()
    &&& forall|j: int| 0 <= j < needle.len() ==> chars_eq_ci(hay[i + j], needle[j])
}

/// `needle` occurs somewhere in `hay`, up to ASCII case.
pub open spec fn contains_ci(hay: Seq<char>, needle: Seq<char>) -> bool {
    exists|i: int| matches_ci_at(hay, needle, i)
}

/// Character-for-character string equality.
pub fn str_eq(a: &str, b: &str) -> (r: bool)
    ensures
        r == (a@ == b@),
{
    let a_len = a.unicode_len();
    let b_len = b.unicode_len();
    if a_len != b_len {
        return false;
    }
    let mut i: usize = 0;
    while i < a_len
        invariant
            a_len == a@.len(),
            a_len == b@.len(),
            i <= a_len,
            forall|k: int| 0 <= k < i ==> a@[k] == b@[k],
        decreases a_len - i,
    {
        if a.get_char(i) != b.get_char(i) {
            return false;
        }
        i = i + 1;
    }
    proof {
        assert(a@ =~= b@);
    }
    true
}

fn char_eq_ci(a: char, b: char) -> (r: bool)
    ensures
        r == chars_eq_ci(a, b),
{
    let au = a as u32;
    let bu = b as u32;
    let al = if 65 <= au && au <= 90 {
        au + 32
    } else {
        au
    };
    let bl = if 65 <= bu && bu <= 90 {
        bu + 32
    } else {
        bu
    };
    al == bl
}

/// Whether `needle` occurs in `hay`, character for character.
pub fn contains_substring(hay: &str, needle: &str) -> (r: bool)
    ensures
        r == contains_seq(hay@, needle@),
{
    let h_len = hay.unicode_len();
    let n_len = needle.unicode_len();
    if n_len > h_len {
        return false;
    }
    let mut i: usize = 0;
    while i <= h_len - n_len
        invariant
            h_len == hay@.len(),
            n_len == needle@.len(),
            n_len <= h_len,
            i <= h_len - n_len + 1,
            forall|k: int| 0 <= k < i ==> !matches_at(hay@, needle@, k),
        decreases h_len - n_len - i + 1,
    {
        let mut j: usize = 0;
        let mut ok = true;
        while j < n_len
            invariant
                h_len == hay@.len(),
                n_len == needle@.len(),
                i + n_len <= h_len,
                j <= n_len,
                ok <==> (forall|t: int| 0 <= t < j ==> hay@[i + t] == needle@[t]),
            decreases n_len - j,
        {
            if hay.get_char(i + j) != needle.get_char(j) {
                ok = false;
            }
            j = j + 1;
        }
        if ok {
            proof {
                assert(matches_at(hay@, needle@, i as int));
            }
            return true;
        }
        i = i + 1;
    }
    false
}

/// Whether `needle` occurs in `hay`, up to ASCII case.
pub fn contains_substring_ci(hay: &str, needle: &str) -> (r: bool)
    ensures
        r == contains_ci(hay@, needle@),
{
    let h_len = hay.unicode_len();
    let n_len = needle.unicode_len();
    if n_len > h_len {
        return false;
    }
    let mut i: usize = 0;
    while i <= h_len - n_len
        invariant
            h_len == hay@.len(),
            n_len == needle@.len(),
            n_len <= h_len,
            i <= h_len - n_len + 1,
            forall|k: int| 0 <= k < i ==> !matches_ci_at(hay@, needle@, k),
        decreases h_len - n_len - i + 1,
    {
        let mut j: usize = 0;
        let mut ok = true;
        while j < n_len
            invariant
                h_len == hay@.len(),
                n_len == needle@.len(),
                i + n_len <= h_len,
                j <= n_len,
                ok <==> (forall|t: int| 0 <= t < j ==> chars_eq_ci(hay@[i + t], needle@[t])),
            decreases n_len - j,
        {
            if !char_eq_ci(hay.get_char(i + j), needle.get_char(j)) {
                ok = false;
            }
            j = j + 1;
        }
        if ok {
            proof {
                assert(matches_ci_at(hay@, needle@, i as int));
            }
            return true;
        }
        i = i + 1;
    }
    false
}

/// The result of rewriting every occurrence of `from` in `s` to `to`,
/// scanning left to right over non-overlapping matches.
pub open spec fn replace_spec(s: Seq<char>, from: Seq<char>, to: Seq<char>) -> Seq<char>
    decreases s.len(),
        when from.len() > 0
{
    if s.len() < from.len() {
        s
    } else if s.subrange(0, from.len() as int) == from {
        to + replace_spec(s.skip(from.len() as int), from, to)
    } else {
        seq![s[0]] + replace_spec(s.skip(1), from, to)
    }
}

/// Rewrites every occurrence of `from` in `s` to `to`, scanning left to
/// right over non-overlapping matches.
pub fn replace_all(s: &str, from: &str, to: &str) -> (r: String)
    requires
        from@.len() > 0,
    ensures
        r@ == replace_spec(s@, from@, to@),
{
    let s_len = s.unicode_len();
    let from_len = from.unicode_len();
    let mut out = String::new();
    let mut i: usize = 0;
    proof {
        assert(s@.skip(0) =~= s@);
        assert(out@ + replace_spec(s@, from@, to@) =~= replace_spec(s@, from@, to@));
    }
    while from_len <= s_len - i && i <= s_len
        invariant
            s_len == s@.len(),
            from_len == from@.len(),
            from_len > 0,
            i <= s_len,
            out@ + replace_spec(s@.skip(i as int), from@, to@) == replace_spec(s@, from@, to@),
        decreases s_len - i,
    {
        let mut j: usize = 0;
        let mut ok = true;
        while j < from_len
            invariant
                s_len == s@.len(),
                from_len == from@.len(),
                i + from_len <= s_len,
                j <= from_len,
                ok <==> (forall|t: int| 0 <= t < j ==> s@[i + t] == from@[t]),
            decreases from_len - j,
        {
            if s.get_char(i + j) != from.get_char(j) {
                ok = false;
            }
            j = j + 1;
        }
        proof {
            let rest = s@.skip(i as int);
            assert(rest.len() >= from@.len());
            if ok {
                assert(rest.subrange(0, from@.len() as int) =~= from@);
                assert(rest.skip(from@.len() as int) =~= s@.skip(i + from@.len() as int));
            } else {
                let t = choose|t: int| 0 <= t < from@.len() && s@[i + t] != from@[t];
                assert(rest.subrange(0, from@.len() as int)[t] == s@[i + t]);
                assert(rest.subrange(0, from@.len() as int) != from@);
                assert(rest[0] == s@[i as int]);
                assert(rest.skip(1) =~= s@.skip(i + 1));
                assert(replace_spec(rest, from@, to@) == seq![s@[i as int]] + replace_spec(
                    s@.skip(i + 1),
                    from@,
                    to@,
                ));
            }
        }
        if ok {
            out.append(to);
            i = i + from_len;
        } else {
            let piece = s.substring_char(i, i + 1);
            proof {
                assert(piece@ =~= seq![s@[i as int]]);
            }
            out.append(piece);
            i = i + 1;
        }
    }
    let tail = s.substring_char(i, s_len);
    proof {
        let rest = s@.skip(i as int);
        assert(rest.len() < from@.len());
        assert(replace_spec(rest, from@, to@) == rest);
        assert(tail@ =~= rest);
    }
    out.append(tail);
    out
}

/// The index of the first comma in `s`, or `s.len()` when there is
/// none.
pub open spec fn first_comma(s: Seq<char>) -> int
    decreases s.len(),
{
    if s.len() == 0 {
        0
    } else if s[0] == ',' {
        0
    } else {
        1 + first_comma(s.skip(1))
    }
}

/// `first_comma` is within bounds, lands on a comma whenever one exists,
/// and nothing before it is a comma.
pub proof fn lemma_first_comma(s: Seq<char>)
    ensures
        0 <= first_comma(s) <= s.len(),
        first_comma(s) < s.len() ==> s[first_comma(s)] == ',',
        forall|t: int| 0 <= t < first_comma(s) ==> s[t] != ',',
    decreases s.len(),
{
    if s.len() == 0 {
    } else if s[0] == ',' {
    } else {
        lemma_first_comma(s.skip(1));
        assert forall|t: int| 0 <= t < first_comma(s) implies s[t] != ',' by {
            if t > 0 {
                assert(s.skip(1)[t - 1] == s[t]);
            }
        }
        if first_comma(s) < s.len() {
            assert(s.skip(1)[first_comma(s) - 1] == s[first_comma(s)]);
        }
    }
}

/// Whether `c` is an ASCII whitespace character.
pub open spec fn is_ascii_ws(c: char) -> bool {
    c == ' ' || c == '\t' || c == '\r' || c == '\n'
}

/// `s` with its trailing ASCII whitespace removed.
pub open spec fn trim_end_spec(s: Seq<char>) -> Seq<char>
    decreases s.len(),
{
    if s.len() > 0 && is_ascii_ws(s.last()) {
        trim_end_spec(s.drop_last())
    } else {
        s
    }
}

/// `s` with its leading and trailing ASCII whitespace removed.
pub open spec fn trim_spec(s: Seq<char>) -> Seq<char>
    decreases s.len(),
{
    if s.len() > 0 && is_ascii_ws(s[0]) {
        trim_spec(s.skip(1))
    } else {
        trim_end_spec(s)
    }
}

/// Dropping any number of leading whitespace characters leaves the
/// trimmed value unchanged.
proof fn lemma_trim_front(s: Seq<char>, a: int)
    requires
        0 <= a <= s.len(),
        forall|t: int| 0 <= t < a ==> is_ascii_ws(s[t]),
    ensures
        trim_spec(s) == trim_spec(s.skip(a)),
    decreases a,
{
    if a == 0 {
        assert(s.skip(0) =~= s);
    } else {
        assert(is_ascii_ws(s[0]));
        lemma_trim_front(s.skip(1), a - 1);
        assert(s.skip(1).skip(a - 1) =~= s.skip(a));
    }
}

/// Dropping any number of trailing whitespace characters leaves the
/// end-trimmed value unchanged.
proof fn lemma_trim_end(s: Seq<char>, b: int)
    requires
        0 <= b <= s.len(),
        forall|t: int| b <= t < s.len() ==> is_ascii_ws(s[t]),
    ensures
        trim_end_spec(s) == trim_end_spec(s.take(b)),
    decreases s.len() - b,
{
    if b == s.len() {
        assert(s.take(b) =~= s);
    } else {
        assert(is_ascii_ws(s.last()));
        lemma_trim_end(s.drop_last(), b);
        assert(s.drop_last().take(b) =~= s.take(b));
    }
}

fn is_ws_char(c: char) -> (r: bool)
    ensures
        r == is_ascii_ws(c),
{
    c == ' ' || c == '\t' || c == '\r' || c == '\n'
}

/// Cuts the segment `[seg_start, seg_end)` out of `s` and trims its
/// ASCII whitespace.
pub fn trimmed_segment(s: &str, seg_start: usize, seg_end: usize) -> (r: String)
    requires
        seg_start <= seg_end <= s@.len(),
    ensures
        r@ == trim_spec(s@.subrange(seg_start as int, seg_end as int)),
{
    let mut a = seg_start;
    while a < seg_end && is_ws_char(s.get_char(a))
        invariant
            seg_start <= a <= seg_end <= s@.len(),
            forall|t: int| seg_start <= t < a ==> is_ascii_ws(s@[t]),
        decreases seg_end - a,
    {
        a = a + 1;
    }
    let mut b = seg_end;
    while b > a && is_ws_char(s.get_char(b - 1))
        invariant
            a <= b <= seg_end <= s@.len(),
            a <= s@.len(),
            forall|t: int| b <= t < seg_end ==> is_ascii_ws(s@[t]),
        decreases b,
    {
        b = b - 1;
    }
    let piece = s.substring_char(a, b);
    proof {
        let seg = s@.subrange(seg_start as int, seg_end as int);
        lemma_trim_front(seg, a - seg_start);
        let mid = seg.skip(a - seg_start);
        assert(mid =~= s@.subrange(a as int, seg_end as int));
        if a == seg_end {
            assert(piece@ =~= mid);
        } else {
            assert(!is_ascii_ws(mid[0]));
            lemma_trim_end(mid, b - a);
            let core = mid.take(b - a);
            assert(core =~= s@.subrange(a as int, b as int));
            if b > a {
                assert(!is_ascii_ws(core.last()));
            }
            assert(trim_end_spec(core) == core);
            assert(piece@ =~= core);
        }
    }
    piece.to_owned()
}

/// Whether `c` is an ASCII decimal digit.
pub open spec fn is_dec_digit(c: char) -> bool {
    48 <= c as int && c as int <= 57
}

/// Whether every character of `s` is an ASCII decimal digit.
pub open spec fn all_dec_digits(s: Seq<char>) -> bool {
    forall|i: int| 0 <= i < s.len() ==> is_dec_digit(s[i])
}

/// The value of the digit character `c`.
pub open spec fn digit_val(c: char) -> int {
    c as int - 48
}

/// The number written by the digit string `s`, most significant first.
pub open spec fn dec_val(s: Seq<char>) -> int
    decreases s.len(),
{
    if s.len() == 0 {
        0
    } else {
        dec_val(s.drop_last()) * 10 + digit_val(s.last())
    }
}

/// The digits of a number written with an optional leading `+`.
pub open spec fn sign_stripped(s: Seq<char>) -> Seq<char> {
    if s.len() > 0 && s[0] == '+' {
        s.skip(1)
    } else {
        s
    }
}

/// The unsigned reading of `s` under the standard library's integer
/// grammar — an optional leading `+`, then one or more decimal digits,
/// value within `u32` range — with 0 for anything malformed.
pub open spec fn parse_u32_or_zero(s: Seq<char>) -> u32 {
    let body = sign_stripped(s);
    if body.len() > 0 && all_dec_digits(body) && dec_val(body) <= u32::MAX {
        dec_val(body) as u32
    } else {
        0
    }
}

/// Reads `s` as an unsigned decimal number, yielding 0 for malformed or
/// out-of-range input.
pub fn parse_u32(s: &str) -> (r: u32)
    ensures
        r == parse_u32_or_zero(s@),
{
    let len = s.unicode_len();
    let start: usize = if len > 0 && s.get_char(0) == '+' {
        1
    } else {
        0
    };
    let ghost body = sign_stripped(s@);
    proof {
        assert(s@.skip(0) =~= s@);
        assert(body =~= s@.skip(start as int));
    }
    if start == len {
        return 0;
    }
    let mut i: usize = start;
    let mut acc: u32 = 0;
    let mut overflow = false;
    while i < len
        invariant
            len == s@.len(),
            start <= i <= len,
            body == sign_stripped(s@),
            body == s@.skip(start as int),
            all_dec_digits(s@.subrange(start as int, i as int)),
            !overflow ==> acc == dec_val(s@.subrange(start as int, i as int)),
            overflow ==> dec_val(s@.subrange(start as int, i as int)) > u32::MAX,
        decreases len - i,
    {
        let c = s.get_char(i);
        let cu = c as u32;
        if cu < 48 || cu > 57 {
            proof {
                assert(body[i - start] == s@[i as int]);
                assert(!is_dec_digit(body[i - start]));
                assert(!all_dec_digits(body));
                assert(parse_u32_or_zero(s@) == 0);
            }
            return 0;
        }
        let d = cu - 48;
        proof {
            let p = s@.subrange(start as int, i as int);
            let q = s@.subrange(start as int, i + 1);
            assert(q.drop_last() =~= p);
            assert(q.last() == s@[i as int]);
            assert(dec_val(q) == dec_val(p) * 10 + digit_val(s@[i as int]));
        }
        if !overflow {
            if acc <= (u32::MAX - d) / 10 {
                proof {
                    assert(acc * 10 + d <= u32::MAX) by (nonlinear_arith)
                        requires
                            acc <= (u32::MAX - d) / 10,
                            d <= 9,
                    ;
                }
                acc = acc * 10 + d;
            } else {
                proof {
                    assert(acc * 10 + d > u32::MAX) by (nonlinear_arith)
                        requires
                            acc > (u32::MAX - d) / 10,
                            d <= 9,
                    ;
                }
                overflow = true;
            }
        } else {
            proof {
                let p = s@.subrange(start as int, i as int);
                assert(dec_val(p) * 10 + digit_val(s@[i as int]) > u32::MAX) by (nonlinear_arith)
                    requires
                        dec_val(p) > u32::MAX,
                        digit_val(s@[i as int]) >= 0,
                ;
            }
        }
        i = i + 1;
    }
    proof {
        assert(s@.subrange(start as int, len as int) =~= body);
    }
    if overflow {
        0
    } else {
        acc
    }
}

/// The digit character for `d`.
pub open spec fn dec_digit_char(d: int) -> char {
    if d == 0 {
        '0'
    } else if d == 1 {
        '1'
    } else if d == 2 {
        '2'
    } else if d == 3 {
        '3'
    } else if d == 4 {
        '4'
    } else if d == 5 {
        '5'
    } else if d == 6 {
        '6'
    } else if d == 7 {
        '7'
    } else if d == 8 {
        '8'
    } else {
        '9'
    }
}

/// The decimal writing of `n`, most significant digit first, without
/// leading zeros.
pub open spec fn dec_str(n: nat) -> Seq<char>
    decreases n,
{
    if n < 10 {
        seq![dec_digit_char(n as int)]
    } else {
        dec_str(n / 10).push(dec_digit_char((n % 10) as int))
    }
}

fn digit_str(d: u32) -> (r: &'static str)
    requires
        d < 10,
    ensures
        r@ == seq![dec_digit_char(d as int)],
{
    let r: &'static str = if d == 0 {
        "0"
    } else if d == 1 {
        "1"
    } else if d == 2 {
        "2"
    } else if d == 3 {
        "3"
    } else if d == 4 {
        "4"
    } else if d == 5 {
        "5"
    } else if d == 6 {
        "6"
    } else if d == 7 {
        "7"
    } else if d == 8 {
        "8"
    } else {
        "9"
    };
    proof {
        reveal_strlit("0");
        reveal_strlit("1");
        reveal_strlit("2");
        reveal_strlit("3");
        reveal_strlit("4");
        reveal_strlit("5");
        reveal_strlit("6");
        reveal_strlit("7");
        reveal_strlit("8");
        reveal_strlit("9");
        assert(r@ =~= seq![dec_digit_char(d as int)]);
    }
    r
}

/// Writes `n` in decimal.
pub fn u32_to_string(n: u32) -> (r: String)
    ensures
        r@ == dec_str(n as nat),
    decreases n,
{
    if n < 10 {
        let s = digit_str(n);
        s.to_owned()
    } else {
        let mut prefix = u32_to_string(n / 10);
        prefix.append(digit_str(n % 10));
        proof {
            assert(dec_str((n / 10) as nat) + seq![dec_digit_char((n % 10) as int)] =~= dec_str(
                (n / 10) as nat,
            ).push(dec_digit_char((n % 10) as int)));
        }
        prefix
    }
}

} // verus!
