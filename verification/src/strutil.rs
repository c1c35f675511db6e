//! Verified helpers over `&str` and `String`: equality, searching,
//! decimal parsing and formatting. Everything here is executable code
//! proved against specs over `Seq<char>` views.

use vstd::multiset::Multiset;
use vstd::prelude::*;

verus! {

/// Character-for-character string equality.
pub fn str_eq(a: &str, b: &str) -> (r: bool)
    ensures
        r == (a@ == b@),
{
    let alen = a.unicode_len();
    let blen = b.unicode_len();
    if alen != blen {
        assert(a@ != b@) by {
            assert(a@.len() != b@.len());
        }
        return false;
    }
    let mut i: usize = 0;
    while i < alen
        invariant
            alen == a@.len(),
            alen == b@.len(),
            i <= alen,
            forall|k: int| 0 <= k < i ==> a@[k] == b@[k],
        decreases alen - i,
    {
        if a.get_char(i) != b.get_char(i) {
            return false;
        }
        i = i + 1;
    }
    assert(a@ =~= b@);
    true
}

/// A decimal digit.
pub open spec fn is_digit_char(c: char) -> bool {
    48 <= c as int <= 57
}

/// The numeric value of one decimal digit.
pub open spec fn digit_val(c: char) -> int {
    c as int - 48
}

/// Every character of the sequence is a decimal digit.
pub open spec fn all_digits(s: Seq<char>) -> bool {
    forall|i: int| 0 <= i < s.len() ==> is_digit_char(#[trigger] s[i])
}

/// The value of a sequence of decimal digits, most significant first.
pub open spec fn dec_value(s: Seq<char>) -> int
    decreases s.len(),
{
    if s.len() == 0 {
        0
    } else {
        dec_value(s.drop_last()) * 10 + digit_val(s.last())
    }
}

pub proof fn lemma_dec_value_nonneg(s: Seq<char>)
    requires
        all_digits(s),
    ensures
        dec_value(s) >= 0,
    decreases s.len(),
{
    if s.len() > 0 {
        assert(all_digits(s.drop_last()));
        lemma_dec_value_nonneg(s.drop_last());
    }
}

/// A digit prefix never exceeds the value of the whole digit string.
pub proof fn lemma_dec_value_prefix(s: Seq<char>, i: int)
    requires
        all_digits(s),
        0 <= i <= s.len(),
    ensures
        dec_value(s.take(i)) <= dec_value(s),
    decreases s.len() - i,
{
    if i == s.len() {
        assert(s.take(i) =~= s);
    } else {
        assert(s.drop_last().take(i) =~= s.take(i));
        assert(all_digits(s.drop_last()));
        lemma_dec_value_prefix(s.drop_last(), i);
        lemma_dec_value_nonneg(s.drop_last());
        assert(dec_value(s) == dec_value(s.drop_last()) * 10 + digit_val(s.last()));
    }
}

/// Parse an unsigned decimal number; `None` on an empty string, a
/// non-digit character, or a value over `u32::MAX`.
pub fn parse_u32(s: &str) -> (r: Option<u32>)
    ensures
        match r {
            Some(v) => s@.len() > 0 && all_digits(s@) && v == dec_value(s@),
            None => s@.len() == 0 || !all_digits(s@) || dec_value(s@) > u32::MAX,
        },
{
    let n = s.unicode_len();
    if n == 0 {
        return None;
    }
    let mut acc: u32 = 0;
    let mut i: usize = 0;
    while i < n
        invariant
            n == s@.len(),
            i <= n,
            all_digits(s@.take(i as int)),
            acc == dec_value(s@.take(i as int)),
        decreases n - i,
    {
        let c = s.get_char(i);
        let cv = c as u32;
        if cv < 48 || cv > 57 {
            assert(!is_digit_char(s@[i as int]));
            assert(!all_digits(s@));
            return None;
        }
        let d: u32 = cv - 48;
        assert(s@.take(i + 1 as int).drop_last() =~= s@.take(i as int));
        assert(s@.take(i + 1 as int).last() == s@[i as int]);
        if acc > (u32::MAX - d) / 10 {
            proof {
                assert(dec_value(s@.take(i + 1 as int)) > u32::MAX);
                if all_digits(s@) {
                    lemma_dec_value_prefix(s@, i + 1 as int);
                }
            }
            return None;
        }
        acc = acc * 10 + d;
        i = i + 1;
    }
    assert(s@.take(n as int) =~= s@);
    Some(acc)
}

/// `suf` is a suffix of `s`.
pub open spec fn spec_ends_with(s: Seq<char>, suf: Seq<char>) -> bool {
    suf.len() <= s.len() && s.skip(s.len() - suf.len()) == suf
}

pub fn ends_with(s: &str, suf: &str) -> (r: bool)
    ensures
        r == spec_ends_with(s@, suf@),
{
    let n = s.unicode_len();
    let m = suf.unicode_len();
    if m > n {
        return false;
    }
    let off = n - m;
    let mut k: usize = 0;
    while k < m
        invariant
            n == s@.len(),
            m == suf@.len(),
            m <= n,
            off == n - m,
            k <= m,
            forall|j: int| 0 <= j < k ==> s@[off + j] == suf@[j],
        decreases m - k,
    {
        if s.get_char(off + k) != suf.get_char(k) {
            assert(s@.skip(off as int)[k as int] != suf@[k as int]);
            return false;
        }
        k = k + 1;
    }
    assert(s@.skip(off as int) =~= suf@);
    true
}

/// Whitespace for token splitting and trimming.
pub open spec fn is_ws_char(c: char) -> bool {
    c == ' ' || c == '\t' || c == '\n' || c == '\r'
}

fn is_ws(c: char) -> (r: bool)
    ensures
        r == is_ws_char(c),
{
    c == ' ' || c == '\t' || c == '\n' || c == '\r'
}

/// The first index at or after `i` that holds a non-whitespace
/// character, or the length.
pub open spec fn ws_run_end(s: Seq<char>, i: int) -> int
    decreases s.len() - i,
{
    if 0 <= i < s.len() && is_ws_char(s[i]) {
        ws_run_end(s, i + 1)
    } else {
        i
    }
}

/// The first index at or after `i` that holds whitespace, or the
/// length.
pub open spec fn token_run_end(s: Seq<char>, i: int) -> int
    decreases s.len() - i,
{
    if 0 <= i < s.len() && !is_ws_char(s[i]) {
        token_run_end(s, i + 1)
    } else {
        i
    }
}

/// The first whitespace-separated token of `s`, empty when there is
/// none.
pub open spec fn spec_first_token(s: Seq<char>) -> Seq<char> {
    let a = ws_run_end(s, 0);
    s.subrange(a, token_run_end(s, a))
}

proof fn lemma_ws_run_end_bounds(s: Seq<char>, i: int)
    requires
        0 <= i <= s.len(),
    ensures
        i <= ws_run_end(s, i) <= s.len(),
        i <= token_run_end(s, i) <= s.len(),
    decreases s.len() - i,
{
    if i < s.len() {
        lemma_ws_run_end_bounds(s, i + 1);
    }
}

/// The first whitespace-separated token.
pub fn first_token(s: &str) -> (r: String)
    ensures
        r@ == spec_first_token(s@),
{
    let n = s.unicode_len();
    let mut a: usize = 0;
    proof {
        lemma_ws_run_end_bounds(s@, 0);
    }
    while a < n && is_ws(s.get_char(a))
        invariant
            n == s@.len(),
            0 <= a <= n,
            ws_run_end(s@, 0) == ws_run_end(s@, a as int),
        decreases n - a,
    {
        a = a + 1;
    }
    assert(ws_run_end(s@, a as int) == a as int);
    let mut b: usize = a;
    while b < n && !is_ws(s.get_char(b))
        invariant
            n == s@.len(),
            a <= b <= n,
            token_run_end(s@, a as int) == token_run_end(s@, b as int),
        decreases n - b,
    {
        b = b + 1;
    }
    assert(token_run_end(s@, b as int) == b as int);
    let tok = s.substring_char(a, b);
    String::from_str(tok)
}

/// The last index of `c` at or before `i`.
pub open spec fn spec_rfind_from(s: Seq<char>, c: char, i: int) -> Option<int>
    decreases i + 1,
{
    if i < 0 || i >= s.len() {
        None
    } else if s[i] == c {
        Some(i)
    } else {
        spec_rfind_from(s, c, i - 1)
    }
}

/// The last index of `c` in `s`.
pub open spec fn spec_rfind(s: Seq<char>, c: char) -> Option<int> {
    spec_rfind_from(s, c, s.len() - 1)
}

/// A found index is in range and holds the character.
pub proof fn lemma_rfind_from_range(s: Seq<char>, c: char, i: int)
    ensures
        spec_rfind_from(s, c, i) matches Some(j) ==> 0 <= j < s.len() && s[j] == c,
    decreases i + 1,
{
    if !(i < 0 || i >= s.len()) && s[i] != c {
        lemma_rfind_from_range(s, c, i - 1);
    }
}

pub fn rfind_char(s: &str, c: char) -> (r: Option<usize>)
    ensures
        match r {
            Some(i) => spec_rfind(s@, c) == Some(i as int),
            None => spec_rfind(s@, c) is None,
        },
{
    let n = s.unicode_len();
    let mut i: usize = n;
    while i > 0
        invariant
            n == s@.len(),
            0 <= i <= n,
            spec_rfind(s@, c) == spec_rfind_from(s@, c, i - 1),
        decreases i,
    {
        i = i - 1;
        if s.get_char(i) == c {
            return Some(i);
        }
    }
    None
}

/// `pat` occurs somewhere in `s`.
pub open spec fn spec_contains(s: Seq<char>, pat: Seq<char>) -> bool {
    exists|k: int|
        0 <= k <= s.len() - pat.len() && #[trigger] s.subrange(k, k + pat.len()) == pat
}

pub fn contains_sub(s: &str, pat: &str) -> (r: bool)
    ensures
        r == spec_contains(s@, pat@),
{
    let n = s.unicode_len();
    let m = pat.unicode_len();
    if m > n {
        assert(!spec_contains(s@, pat@));
        return false;
    }
    if m == 0 {
        assert(s@.subrange(0, 0 + pat@.len() as int) =~= pat@);
        return true;
    }
    let mut k: usize = 0;
    while k <= n - m
        invariant
            n == s@.len(),
            m == pat@.len(),
            0 < m <= n,
            0 <= k <= n - m + 1,
            forall|k2: int| 0 <= k2 < k ==> #[trigger] s@.subrange(k2, k2 + pat@.len()) != pat@,
        decreases n - k,
    {
        let mut j: usize = 0;
        while j < m && s.get_char(k + j) == pat.get_char(j)
            invariant
                n == s@.len(),
                m == pat@.len(),
                0 <= k <= n - m,
                0 <= j <= m,
                forall|j2: int| 0 <= j2 < j ==> s@[k + j2] == pat@[j2],
            decreases m - j,
        {
            j = j + 1;
        }
        if j == m {
            assert(s@.subrange(k as int, k + pat@.len()) =~= pat@);
            return true;
        }
        assert(s@.subrange(k as int, k + pat@.len())[j as int] != pat@[j as int]);
        k = k + 1;
    }
    assert(forall|k2: int|
        0 <= k2 <= s@.len() - pat@.len() ==> #[trigger] s@.subrange(k2, k2 + pat@.len()) != pat@);
    false
}

/// The first index after the trailing whitespace run that ends at
/// `i`.
pub open spec fn ws_back_start(s: Seq<char>, i: int) -> int
    decreases i,
{
    if 0 < i <= s.len() && is_ws_char(s[i - 1]) {
        ws_back_start(s, i - 1)
    } else {
        i
    }
}

/// `s` with leading and trailing whitespace removed.
pub open spec fn spec_trim(s: Seq<char>) -> Seq<char> {
    let a = ws_run_end(s, 0);
    if a == s.len() {
        Seq::empty()
    } else {
        s.subrange(a, ws_back_start(s, s.len() as int))
    }
}

proof fn lemma_ws_back_start_above(s: Seq<char>, i: int, a: int)
    requires
        0 <= a < i <= s.len(),
        !is_ws_char(s[a]),
    ensures
        a < ws_back_start(s, i) <= i,
    decreases i,
{
    if 0 < i <= s.len() && is_ws_char(s[i - 1]) {
        lemma_ws_back_start_above(s, i - 1, a);
    }
}

pub fn trim_ws<'a>(s: &'a str) -> (r: &'a str)
    ensures
        r@ == spec_trim(s@),
{
    let n = s.unicode_len();
    let mut a: usize = 0;
    while a < n && is_ws(s.get_char(a))
        invariant
            n == s@.len(),
            0 <= a <= n,
            ws_run_end(s@, 0) == ws_run_end(s@, a as int),
        decreases n - a,
    {
        a = a + 1;
    }
    assert(ws_run_end(s@, a as int) == a as int);
    if a == n {
        let r = s.substring_char(n, n);
        assert(r@ =~= Seq::<char>::empty());
        return r;
    }
    let mut b: usize = n;
    while b > a && is_ws(s.get_char(b - 1))
        invariant
            n == s@.len(),
            a < b <= n,
            a < n,
            !is_ws_char(s@[a as int]),
            ws_back_start(s@, n as int) == ws_back_start(s@, b as int),
        decreases b,
    {
        b = b - 1;
    }
    assert(ws_back_start(s@, b as int) == b as int);
    s.substring_char(a, b)
}

/// The character of one decimal digit.
pub open spec fn digit_char(d: int) -> char {
    if d == 0 {
        '0'
    } else if d == 1 {
        '1'
    } else if d == 2 {
        '2'
    } else if d == 3 {
        '3'
    } else if d == 4 {
        '4'
    } else if d == 5 {
        '5'
    } else if d == 6 {
        '6'
    } else if d == 7 {
        '7'
    } else if d == 8 {
        '8'
    } else {
        '9'
    }
}

/// The decimal digit string of a non-negative number, most
/// significant digit first.
pub open spec fn dec_str(n: int) -> Seq<char>
    decreases n,
{
    if n <= 0 {
        seq!['0']
    } else if n < 10 {
        seq![digit_char(n)]
    } else {
        dec_str(n / 10).push(digit_char(n % 10))
    }
}

fn digit_str(d: u64) -> (r: &'static str)
    requires
        d < 10,
    ensures
        r@ =~= seq![digit_char(d as int)],
{
    let digits = "0123456789";
    proof {
        reveal_strlit("0123456789");
    }
    let r = digits.substring_char(d as usize, d as usize + 1);
    assert(r@ =~= seq![digit_char(d as int)]);
    r
}

/// Format a number in decimal.
pub fn u64_to_string(n: u64) -> (r: String)
    ensures
        r@ == dec_str(n as int),
    decreases n,
{
    if n < 10 {
        let mut s = String::new();
        s.append(digit_str(n));
        assert(s@ =~= dec_str(n as int));
        s
    } else {
        let mut s = u64_to_string(n / 10);
        s.append(digit_str(n % 10));
        assert(s@ =~= dec_str(n as int));
        s
    }
}

/// Strict lexicographic order on character sequences, by code point.
pub open spec fn lex_lt(a: Seq<char>, b: Seq<char>) -> bool
    decreases a.len(),
{
    if b.len() == 0 {
        false
    } else if a.len() == 0 {
        true
    } else if a[0] == b[0] {
        lex_lt(a.drop_first(), b.drop_first())
    } else {
        (a[0] as int) < (b[0] as int)
    }
}

/// Lexicographic order, reflexively closed.
pub open spec fn lex_le(a: Seq<char>, b: Seq<char>) -> bool {
    lex_lt(a, b) || a == b
}

/// Equal heads and equal tails make equal sequences.
proof fn lemma_head_tail_eq(a: Seq<char>, b: Seq<char>)
    requires
        a.len() > 0,
        b.len() > 0,
        a[0] == b[0],
        a.drop_first() == b.drop_first(),
    ensures
        a == b,
{
    assert(a.drop_first().len() == a.len() - 1);
    assert(b.drop_first().len() == b.len() - 1);
    assert(a.len() == b.len());
    assert forall|i: int| 0 <= i < a.len() implies a[i] == b[i] by {
        if i >= 1 {
            assert(a[i] == a.drop_first()[i - 1]);
            assert(b[i] == b.drop_first()[i - 1]);
        }
    }
    assert(a =~= b);
}

/// Any two sequences compare one way or the other.
pub proof fn lemma_lex_total(a: Seq<char>, b: Seq<char>)
    ensures
        lex_le(a, b) || lex_le(b, a),
    decreases a.len(),
{
    if b.len() == 0 || a.len() == 0 {
        if a.len() == 0 && b.len() == 0 {
            assert(a =~= b);
        }
    } else if a[0] == b[0] {
        lemma_lex_total(a.drop_first(), b.drop_first());
        if a.drop_first() == b.drop_first() {
            lemma_head_tail_eq(a, b);
        }
    } else {
        assert((a[0] as int) != (b[0] as int));
    }
}

/// A common prefix does not decide the order.
proof fn lemma_lex_skip(a: Seq<char>, b: Seq<char>, i: int)
    requires
        0 <= i <= a.len(),
        i <= b.len(),
        forall|k: int| 0 <= k < i ==> a[k] == b[k],
    ensures
        lex_lt(a, b) == lex_lt(a.skip(i), b.skip(i)),
    decreases i,
{
    if i == 0 {
        assert(a.skip(0) =~= a);
        assert(b.skip(0) =~= b);
    } else {
        assert(a.len() > 0 && b.len() > 0 && a[0] == b[0]);
        assert(a.drop_first().skip(i - 1) =~= a.skip(i));
        assert(b.drop_first().skip(i - 1) =~= b.skip(i));
        assert(forall|k: int|
            0 <= k < i - 1 ==> a.drop_first()[k] == a[k + 1] && b.drop_first()[k] == b[k + 1]);
        lemma_lex_skip(a.drop_first(), b.drop_first(), i - 1);
    }
}

/// The order is transitive.
pub proof fn lemma_lex_trans(a: Seq<char>, b: Seq<char>, c: Seq<char>)
    requires
        lex_le(a, b),
        lex_le(b, c),
    ensures
        lex_le(a, c),
    decreases a.len(),
{
    if a == b || b == c {
    } else {
        assert(lex_lt(a, b) && lex_lt(b, c));
        assert(b.len() > 0 && c.len() > 0);
        if a.len() == 0 {
        } else if a[0] == b[0] && b[0] == c[0] {
            lemma_lex_trans(a.drop_first(), b.drop_first(), c.drop_first());
            if a.drop_first() == c.drop_first() {
                lemma_head_tail_eq(a, c);
            }
        } else if a[0] == b[0] {
            assert((b[0] as int) < (c[0] as int));
            assert(lex_lt(a, c));
        } else if b[0] == c[0] {
            assert((a[0] as int) < (b[0] as int));
            assert(lex_lt(a, c));
        } else {
            assert((a[0] as int) < (b[0] as int) && (b[0] as int) < (c[0] as int));
            assert((a[0] as int) < (c[0] as int));
            assert(a[0] != c[0]);
            assert(lex_lt(a, c));
        }
    }
}

/// Decide `lex_le` on strings.
pub fn str_le(a: &str, b: &str) -> (r: bool)
    ensures
        r == lex_le(a@, b@),
{
    let alen = a.unicode_len();
    let blen = b.unicode_len();
    let n = if alen < blen {
        alen
    } else {
        blen
    };
    let mut i: usize = 0;
    while i < n && a.get_char(i) == b.get_char(i)
        invariant
            alen == a@.len(),
            blen == b@.len(),
            n == if alen < blen { alen } else { blen },
            0 <= i <= n,
            forall|k: int| 0 <= k < i ==> a@[k] == b@[k],
        decreases n - i,
    {
        i = i + 1;
    }
    proof {
        lemma_lex_skip(a@, b@, i as int);
    }
    if i < n {
        let ca = a.get_char(i);
        let cb = b.get_char(i);
        proof {
            assert(a@.skip(i as int)[0] == a@[i as int]);
            assert(b@.skip(i as int)[0] == b@[i as int]);
            assert(a@ != b@) by {
                assert(a@[i as int] != b@[i as int]);
            }
        }
        (ca as u32) < (cb as u32)
    } else {
        if alen <= blen {
            proof {
                assert(a@.skip(i as int) =~= Seq::<char>::empty());
                if alen == blen {
                    assert(a@ =~= b@);
                }
            }
            true
        } else {
            proof {
                assert(b@.skip(i as int) =~= Seq::<char>::empty());
                assert(a@.skip(i as int).len() > 0);
                assert(a@ != b@) by {
                    assert(a@.len() != b@.len());
                }
            }
            false
        }
    }
}

/// Sorted, from smallest on.
pub open spec fn lex_sorted(vs: Seq<Seq<char>>) -> bool {
    forall|i: int, j: int| 0 <= i < j < vs.len() ==> lex_le(#[trigger] vs[i], #[trigger] vs[j])
}

/// The views of a string sequence.
pub open spec fn str_views(v: Seq<String>) -> Seq<Seq<char>> {
    v.map_values(|s: String| s@)
}

/// The position of a smallest element.
fn min_string_index(v: &Vec<String>) -> (r: usize)
    requires
        v@.len() > 0,
    ensures
        r < v@.len(),
        forall|k: int| 0 <= k < v@.len() ==> lex_le(v@[r as int]@, #[trigger] v@[k]@),
{
    let mut m: usize = 0;
    let mut i: usize = 1;
    while i < v.len()
        invariant
            m < i <= v@.len(),
            forall|k: int| 0 <= k < i ==> lex_le(v@[m as int]@, #[trigger] v@[k]@),
        decreases v@.len() - i,
    {
        if !str_le(v[m].as_str(), v[i].as_str()) {
            proof {
                lemma_lex_total(v@[m as int]@, v@[i as int]@);
            }
            assert forall|k: int| 0 <= k < i + 1 implies lex_le(v@[i as int]@, #[trigger] v@[k]@) by {
                if k < i {
                    lemma_lex_trans(v@[i as int]@, v@[m as int]@, v@[k]@);
                }
            }
            m = i;
        }
        i = i + 1;
    }
    m
}

/// Sort strings in lexicographic order; the result holds exactly the
/// input's strings.
pub fn sort_strings(v: Vec<String>) -> (r: Vec<String>)
    ensures
        lex_sorted(str_views(r@)),
        str_views(r@).to_multiset() == str_views(v@).to_multiset(),
{
    let ghost orig = str_views(v@);
    let mut src = v;
    let mut out: Vec<String> = Vec::new();
    proof {
        broadcast use vstd::multiset::group_multiset_axioms;

        assert(str_views(out@) =~= Seq::<Seq<char>>::empty());
        vstd::seq_lib::to_multiset_len::<Seq<char>>(str_views(out@));
        vstd::multiset::lemma_multiset_empty_len::<Seq<char>>(str_views(out@).to_multiset());
        assert(str_views(out@).to_multiset() =~= Multiset::<Seq<char>>::empty());
        assert(str_views(out@).to_multiset().add(str_views(src@).to_multiset())
            =~= orig.to_multiset());
    }
    while src.len() > 0
        invariant
            str_views(out@).to_multiset().add(str_views(src@).to_multiset())
                == orig.to_multiset(),
            lex_sorted(str_views(out@)),
            forall|i: int, j: int|
                0 <= i < out@.len() && 0 <= j < src@.len() ==> lex_le(
                    #[trigger] out@[i]@,
                    #[trigger] src@[j]@,
                ),
        decreases src@.len(),
    {
        let m = min_string_index(&src);
        let ghost src_before = src@;
        let ghost out_before = out@;
        let x = src.remove(m);
        out.push(x);
        proof {
            broadcast use vstd::multiset::group_multiset_axioms;

            let sv = str_views(src_before);
            let ov = str_views(out_before);
            assert(str_views(out@) =~= ov.push(x@));
            assert(str_views(src@) =~= sv.remove(m as int));
            assert(sv[m as int] == x@);
            vstd::seq_lib::to_multiset_remove::<Seq<char>>(sv, m as int);
            vstd::seq_lib::to_multiset_build::<Seq<char>>(ov, x@);
            vstd::seq_lib::to_multiset_contains::<Seq<char>>(sv, x@);
            assert(sv.contains(x@)) by {
                assert(sv[m as int] == x@);
            }
            assert(str_views(out@).to_multiset().add(str_views(src@).to_multiset())
                =~= orig.to_multiset());
            assert forall|i: int, j: int|
                0 <= i < j < str_views(out@).len() implies lex_le(
                str_views(out@)[i],
                str_views(out@)[j],
            ) by {
                if j < out_before.len() {
                } else {
                    assert(str_views(out@)[j] == x@);
                }
            }
            assert forall|i: int, j: int|
                0 <= i < out@.len() && 0 <= j < src@.len() implies lex_le(
                out@[i]@,
                src@[j]@,
            ) by {
                let jj = if j < m { j } else { j + 1 };
                assert(src@[j] == src_before[jj]);
                if i < out_before.len() {
                } else {
                    assert(out@[i] == x);
                }
            }
        }
    }
    proof {
        broadcast use vstd::multiset::group_multiset_axioms;

        assert(str_views(src@) =~= Seq::<Seq<char>>::empty());
        vstd::seq_lib::to_multiset_len::<Seq<char>>(str_views(src@));
        vstd::multiset::lemma_multiset_empty_len::<Seq<char>>(str_views(src@).to_multiset());
        assert(str_views(src@).to_multiset() =~= Multiset::<Seq<char>>::empty());
        assert(str_views(out@).to_multiset() =~= orig.to_multiset());
    }
    out
}

/// The strings joined by a separator.
pub open spec fn spec_join(xs: Seq<Seq<char>>, sep: Seq<char>) -> Seq<char>
    decreases xs.len(),
{
    if xs.len() == 0 {
        Seq::empty()
    } else if xs.len() == 1 {
        xs[0]
    } else {
        spec_join(xs.drop_last(), sep) + sep + xs.last()
    }
}

/// Join strings with a separator.
pub fn join_strings(v: &Vec<String>, sep: &str) -> (r: String)
    ensures
        r@ == spec_join(str_views(v@), sep@),
{
    let mut out = String::new();
    let mut i: usize = 0;
    proof {
        assert(str_views(v@).take(0) =~= Seq::<Seq<char>>::empty());
        assert(out@ =~= spec_join(str_views(v@).take(0), sep@));
    }
    while i < v.len()
        invariant
            i <= v@.len(),
            out@ == spec_join(str_views(v@).take(i as int), sep@),
        decreases v@.len() - i,
    {
        let ghost views = str_views(v@);
        if i > 0 {
            out.append(sep);
        }
        out.append(v[i].as_str());
        proof {
            assert(views.take(i + 1).drop_last() =~= views.take(i as int));
            assert(views.take(i + 1).last() == views[i as int]);
            if i == 0 {
                assert(out@ =~= spec_join(views.take(1), sep@));
            } else {
                assert(out@ =~= spec_join(views.take(i + 1), sep@));
            }
        }
        i = i + 1;
    }
    proof {
        assert(str_views(v@).take(v@.len() as int) =~= str_views(v@));
    }
    out
}

pub proof fn lemma_str_views_push(v: Seq<String>, x: String)
    ensures
        str_views(v.push(x)) == str_views(v).push(x@),
{
    assert(str_views(v.push(x)) =~= str_views(v).push(x@));
}

/// Equal multisets of views mean every element of the one sequence
/// occurs among the other's elements.
pub proof fn lemma_view_multiset_member(a: Seq<Seq<char>>, b: Seq<Seq<char>>, k: int)
    requires
        a.to_multiset() == b.to_multiset(),
        0 <= k < a.len(),
    ensures
        b.contains(a[k]),
{
    broadcast use vstd::multiset::group_multiset_axioms;

    vstd::seq_lib::to_multiset_contains::<Seq<char>>(a, a[k]);
    vstd::seq_lib::to_multiset_contains::<Seq<char>>(b, a[k]);
    assert(a.contains(a[k]));
}

} // verus!
