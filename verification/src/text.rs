//! Character-level helpers for the extractors and classifiers.
//!
//! The protocol work in this crate is string work: cookie headers, HTML
//! markers, free-text server replies. Everything here operates on plain
//! `Vec<char>` / `Seq<char>` values; the two tiny bridges to `str` are the
//! only trusted pieces.

use vstd::prelude::*;

verus! {

/// Relies on `str::chars`: yields exactly the characters of the string,
/// in order, which is what the view of `str` already denotes.
#[verifier::external_body]
pub fn chars_of(s: &str) -> (r: Vec<char>)
    ensures
        r@ == s@,
{
    s.chars().collect()
}

/// Relies on `String: FromIterator<char>`: builds the string with exactly
/// the given characters, in order.
#[verifier::external_body]
pub fn string_from_chars(v: &Vec<char>) -> (r: String)
    ensures
        r@ == v@,
{
    v.iter().collect()
}

/// Whether two character vectors hold the same text.
pub fn chars_eq(a: &Vec<char>, b: &Vec<char>) -> (r: bool)
    ensures
        r == (a@ == b@),
{
    if a.len() != b.len() {
        return false;
    }
    let mut i: usize = 0;
    while i < a.len()
        invariant
            a@.len() == b@.len(),
            i <= a@.len(),
            forall|j: int| 0 <= j < i ==> a@[j] == b@[j],
        decreases a@.len() - i,
    {
        if a[i] != b[i] {
            return false;
        }
        i += 1;
    }
    proof {
        assert(a@ =~= b@);
    }
    true
}

/// Whether two string slices hold the same text.
pub fn str_eq(a: &str, b: &str) -> (r: bool)
    ensures
        r == (a@ == b@),
{
    let va = chars_of(a);
    let vb = chars_of(b);
    chars_eq(&va, &vb)
}

/// The first position at or after `from` holding `c`, if any.
pub fn find_char(v: &Vec<char>, from: usize, c: char) -> (r: Option<usize>)
    requires
        from <= v@.len(),
    ensures
        match r {
            Some(i) => from <= i < v@.len() && v@[i as int] == c && forall|j: int|
                from <= j < i ==> v@[j] != c,
            None => forall|j: int| from <= j < v@.len() ==> v@[j] != c,
        },
{
    let mut i: usize = from;
    while i < v.len()
        invariant
            from <= i <= v@.len(),
            forall|j: int| from <= j < i ==> v@[j] != c,
        decreases v@.len() - i,
    {
        if v[i] == c {
            return Some(i);
        }
        i += 1;
    }
    None
}

/// Whether `pat` occurs in `v` starting at position `at`.
pub open spec fn matches_at(v: Seq<char>, pat: Seq<char>, at: int) -> bool {
    &&& 0 <= at
    &&& at + pat.len() <= v.len()
    &&& v.subrange(at, at + pat.len()) == pat
}

/// Whether `pat` occurs anywhere in `v`.
pub open spec fn contains_seq(v: Seq<char>, pat: Seq<char>) -> bool {
    exists|at: int| matches_at(v, pat, at)
}

/// The position of the first occurrence of `pat` at or after `from`, or
/// one past the length of `v` when there is none.
pub open spec fn first_seq_at(v: Seq<char>, pat: Seq<char>, from: int) -> int
    decreases v.len() - from,
{
    if from < 0 || pat.len() == 0 || from + pat.len() > v.len() {
        v.len() as int + 1
    } else if matches_at(v, pat, from) {
        from
    } else {
        first_seq_at(v, pat, from + 1)
    }
}

/// What `first_seq_at` finds: either the first occurrence of `pat` at or
/// after `from`, or the out-of-range sentinel when there is none.
pub proof fn lemma_first_seq_at(v: Seq<char>, pat: Seq<char>, from: int)
    requires
        0 <= from,
        pat.len() > 0,
    ensures
        ({
            let m = first_seq_at(v, pat, from);
            ||| (from <= m && matches_at(v, pat, m) && forall|j: int|
                from <= j < m ==> !matches_at(v, pat, j))
            ||| (m == v.len() + 1 && forall|j: int| from <= j ==> !matches_at(v, pat, j))
        }),
    decreases v.len() - from,
{
    if from + pat.len() > v.len() {
        assert(forall|j: int| from <= j ==> !matches_at(v, pat, j));
    } else if matches_at(v, pat, from) {
    } else {
        lemma_first_seq_at(v, pat, from + 1);
    }
}

fn matches_here(v: &Vec<char>, pat: &Vec<char>, at: usize) -> (r: bool)
    requires
        at + pat@.len() <= v@.len(),
    ensures
        r == matches_at(v@, pat@, at as int),
{
    let len = v.len();
    assert(v@.len() == len);
    let mut k: usize = 0;
    while k < pat.len()
        invariant
            at + pat@.len() <= v@.len(),
            v@.len() <= usize::MAX,
            k <= pat@.len(),
            forall|j: int| 0 <= j < k ==> v@[at + j] == pat@[j],
        decreases pat@.len() - k,
    {
        if v[at + k] != pat[k] {
            assert(v@.subrange(at as int, at + pat@.len())[k as int] != pat@[k as int]);
            return false;
        }
        k += 1;
    }
    proof {
        assert(v@.subrange(at as int, at + pat@.len()) =~= pat@);
    }
    true
}

/// The position of the first `c` at or after `from`, or the length of
/// `s` when there is none.
pub open spec fn first_at(s: Seq<char>, from: int, c: char) -> int
    decreases s.len() - from,
{
    if from < 0 || from >= s.len() {
        s.len() as int
    } else if s[from] == c {
        from
    } else {
        first_at(s, from + 1, c)
    }
}

/// What `first_at` finds: a position in range, holding `c` when it is
/// short of the end, with no earlier `c` at or after `from`.
pub proof fn lemma_first_at(s: Seq<char>, from: int, c: char)
    requires
        0 <= from <= s.len(),
    ensures
        from <= first_at(s, from, c) <= s.len(),
        first_at(s, from, c) < s.len() ==> s[first_at(s, from, c)] == c,
        forall|j: int| from <= j < first_at(s, from, c) ==> s[j] != c,
    decreases s.len() - from,
{
    if from < s.len() && s[from] != c {
        lemma_first_at(s, from + 1, c);
    }
}

/// The position of the last `c` in `s`, or -1 when there is none.
pub open spec fn last_at(s: Seq<char>, c: char) -> int
    decreases s.len(),
{
    if s.len() == 0 {
        -1
    } else if s[s.len() - 1] == c {
        s.len() - 1
    } else {
        last_at(s.drop_last(), c)
    }
}

/// What `last_at` finds: the last position holding `c`, or -1 when no
/// position does.
pub proof fn lemma_last_at(s: Seq<char>, c: char)
    ensures
        -1 <= last_at(s, c) < s.len(),
        last_at(s, c) >= 0 ==> s[last_at(s, c)] == c,
        forall|j: int| last_at(s, c) < j < s.len() ==> s[j] != c,
    decreases s.len(),
{
    if s.len() > 0 && s[s.len() - 1] != c {
        lemma_last_at(s.drop_last(), c);
        assert(forall|j: int| 0 <= j < s.len() - 1 ==> s[j] == s.drop_last()[j]);
    }
}

/// The characters of `v` from `a` up to `b`.
pub fn slice_chars(v: &Vec<char>, a: usize, b: usize) -> (r: Vec<char>)
    requires
        a <= b <= v@.len(),
    ensures
        r@ == v@.subrange(a as int, b as int),
{
    let mut r: Vec<char> = Vec::new();
    let mut i: usize = a;
    while i < b
        invariant
            a <= i <= b <= v@.len(),
            r@ == v@.subrange(a as int, i as int),
        decreases b - i,
    {
        r.push(v[i]);
        proof {
            assert(v@.subrange(a as int, i + 1) =~= v@.subrange(a as int, i as int).push(
                v@[i as int],
            ));
        }
        i += 1;
    }
    r
}

/// The decimal digit for `d`.
pub open spec fn spec_digit(d: nat) -> char {
    ((48 + d) as u8) as char
}

/// The decimal text of `n`, most significant digit first, no sign and no
/// leading zero.
pub open spec fn spec_decimal(n: nat) -> Seq<char>
    decreases n,
{
    if n < 10 {
        seq![spec_digit(n)]
    } else {
        spec_decimal((n / 10) as nat).push(spec_digit((n % 10) as nat))
    }
}

/// The decimal text of an unsigned number.
pub fn fmt_u64(n: u64) -> (r: Vec<char>)
    ensures
        r@ == spec_decimal(n as nat),
    decreases n,
{
    if n < 10 {
        let d: char = (48 + (n as u8)) as char;
        let mut r: Vec<char> = Vec::new();
        r.push(d);
        proof {
            assert(r@ =~= seq![spec_digit(n as nat)]);
        }
        r
    } else {
        let mut r = fmt_u64(n / 10);
        let d: char = (48 + ((n % 10) as u8)) as char;
        r.push(d);
        r
    }
}

/// The decimal text of a signed number, with a leading `-` when it is
/// negative.
pub open spec fn spec_decimal_signed(n: int) -> Seq<char> {
    if n >= 0 {
        spec_decimal(n as nat)
    } else {
        seq!['-'] + spec_decimal((-n) as nat)
    }
}

/// The decimal text of a signed number.
pub fn fmt_i64(n: i64) -> (r: Vec<char>)
    ensures
        r@ == spec_decimal_signed(n as int),
{
    if n >= 0 {
        fmt_u64(n as u64)
    } else {
        let m: u64 = ((-(n + 1)) as u64) + 1;
        assert(m == -(n as int));
        let digits = fmt_u64(m);
        let mut r: Vec<char> = Vec::new();
        r.push('-');
        let mut i: usize = 0;
        while i < digits.len()
            invariant
                i <= digits@.len(),
                r@ == seq!['-'] + digits@.take(i as int),
            decreases digits@.len() - i,
        {
            r.push(digits[i]);
            proof {
                assert(seq!['-'] + digits@.take(i + 1) =~= (seq!['-'] + digits@.take(i as int)).push(
                    digits@[i as int],
                ));
            }
            i += 1;
        }
        proof {
            assert(digits@.take(digits@.len() as int) =~= digits@);
        }
        r
    }
}

/// Whether every character of `s` is a decimal digit.
pub open spec fn all_digits(s: Seq<char>) -> bool {
    forall|i: int| 0 <= i < s.len() ==> '0' <= #[trigger] s[i] <= '9'
}

/// The number a run of decimal digits denotes.
pub open spec fn digits_value(s: Seq<char>) -> int
    decreases s.len(),
{
    if s.len() == 0 {
        0
    } else {
        digits_value(s.drop_last()) * 10 + (s.last() as int - 48)
    }
}

/// The digits of a number after an optional sign.
pub open spec fn sign_body(s: Seq<char>) -> Seq<char> {
    if s.len() > 0 && (s[0] == '+' || s[0] == '-') {
        s.skip(1)
    } else {
        s
    }
}

/// Whether `s` is negative: it starts with `-`.
pub open spec fn has_minus(s: Seq<char>) -> bool {
    s.len() > 0 && s[0] == '-'
}

/// The integer `s` denotes when it parses as one.
pub open spec fn spec_i64_value(s: Seq<char>) -> int {
    if has_minus(s) {
        -digits_value(sign_body(s))
    } else {
        digits_value(sign_body(s))
    }
}

/// Whether `s` is text that `i64` parsing accepts: an optional sign,
/// then at least one digit and nothing else, denoting a value in range.
pub open spec fn valid_i64_text(s: Seq<char>) -> bool {
    &&& sign_body(s).len() > 0
    &&& all_digits(sign_body(s))
    &&& i64::MIN <= spec_i64_value(s) <= i64::MAX
}

/// Parses an integer the way `str::parse::<i64>` reads it: an optional
/// `+` or `-`, then decimal digits and nothing else, rejected when the
/// value leaves the `i64` range.
pub fn parse_i64_chars(s: &Vec<char>) -> (r: Option<i64>)
    ensures
        r is Some <==> valid_i64_text(s@),
        r matches Some(v) ==> v as int == spec_i64_value(s@),
{
    let mut start: usize = 0;
    let mut negative = false;
    if s.len() > 0 && (s[0] == '+' || s[0] == '-') {
        start = 1;
        negative = s[0] == '-';
    }
    let ghost body = sign_body(s@);
    proof {
        assert(body =~= s@.skip(start as int));
    }
    if start == s.len() {
        // no digits at all
        return None;
    }
    let limit: u64 = if negative {
        9223372036854775808u64
    } else {
        9223372036854775807u64
    };
    let mut acc: u64 = 0;
    let mut i: usize = start;
    while i < s.len()
        invariant
            start < s@.len(),
            start <= i <= s@.len(),
            body == s@.skip(start as int),
            body == sign_body(s@),
            negative == has_minus(s@),
            start <= 1,
            acc == digits_value(body.take(i - start)),
            all_digits(body.take(i - start)),
            acc <= limit,
            limit == if negative {
                9223372036854775808u64
            } else {
                9223372036854775807u64
            },
        decreases s@.len() - i,
    {
        let c = s[i];
        if c < '0' || c > '9' {
            proof {
                assert(body[i - start] == s@[i as int]);
                assert(!all_digits(body));
            }
            return None;
        }
        let d: u64 = (c as u8 - 48) as u64;
        let next = match acc.checked_mul(10) {
            Some(m) => m.checked_add(d),
            None => None,
        };
        let ghost prefix = body.take(i - start);
        let ghost prefix1 = body.take(i + 1 - start);
        proof {
            assert(prefix1.drop_last() =~= prefix);
            assert(prefix1.last() == s@[i as int]);
            assert(digits_value(prefix1) == acc * 10 + d);
        }
        match next {
            Some(n) => {
                if n > limit {
                    proof {
                        if all_digits(body) {
                            lemma_digits_prefix_exceeds(body, i + 1 - start, limit as int);
                        }
                    }
                    return None;
                }
                acc = n;
            },
            None => {
                proof {
                    assert(digits_value(prefix1) > u64::MAX) by {
                        if acc * 10 > u64::MAX {
                        } else {
                            assert(acc * 10 + d > u64::MAX);
                        }
                    }
                    if all_digits(body) {
                        lemma_digits_prefix_exceeds(body, i + 1 - start, limit as int);
                    }
                }
                return None;
            },
        }
        i += 1;
    }
    proof {
        assert(body.take(body.len() as int) =~= body);
        assert(all_digits(body));
        assert(digits_value(body) == acc);
    }
    if negative {
        if acc == 9223372036854775808u64 {
            Some(i64::MIN)
        } else {
            Some(-(acc as i64))
        }
    } else {
        Some(acc as i64)
    }
}

/// Once a digit prefix exceeds a bound, the whole run does.
proof fn lemma_digits_prefix_exceeds(body: Seq<char>, k: int, bound: int)
    requires
        0 <= k <= body.len(),
        digits_value(body.take(k)) > bound,
        bound >= 0,
        all_digits(body),
    ensures
        digits_value(body) > bound,
    decreases body.len() - k,
{
    if k < body.len() {
        let ghost next = body.take(k + 1);
        assert(next.drop_last() =~= body.take(k));
        assert(all_digits(next));
        assert(digits_value(next) == digits_value(body.take(k)) * 10 + (next.last() as int - 48));
        assert(digits_value(body.take(k)) * 10 >= digits_value(body.take(k))) by (nonlinear_arith)
            requires
                digits_value(body.take(k)) > 0,
        ;
        lemma_digits_prefix_exceeds(body, k + 1, bound);
    } else {
        assert(body.take(k) =~= body);
    }
}

/// The first position where `pat` occurs in `v`, if any.
pub fn find_seq(v: &Vec<char>, pat: &Vec<char>) -> (r: Option<usize>)
    ensures
        match r {
            Some(i) => matches_at(v@, pat@, i as int) && forall|j: int|
                0 <= j < i ==> !matches_at(v@, pat@, j),
            None => !contains_seq(v@, pat@),
        },
{
    if pat.len() > v.len() {
        return None;
    }
    let limit = v.len() - pat.len();
    let mut i: usize = 0;
    loop
        invariant
            pat@.len() <= v@.len(),
            limit == v@.len() - pat@.len(),
            i <= limit,
            forall|j: int| 0 <= j < i ==> !matches_at(v@, pat@, j),
        decreases limit - i,
    {
        if matches_here(v, pat, i) {
            return Some(i);
        }
        if i == limit {
            assert(forall|j: int| j > limit ==> !matches_at(v@, pat@, j));
            return None;
        }
        i += 1;
    }
}

} // verus!
