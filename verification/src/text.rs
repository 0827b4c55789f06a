//! Character-level text model shared by the parsers and message builders.
//!
//! Texts are reasoned about as `Seq<char>`; executable scans work on a
//! `Vec<char>` copy of the input and a window `[lo, hi)` of it.

use vstd::prelude::*;

verus! {

/// Unicode `White_Space` characters, the set `char::is_whitespace` recognizes.
pub open spec fn is_space(c: char) -> bool {
    let u = c as u32;
    ||| 0x09 <= u <= 0x0D
    ||| u == 0x20
    ||| u == 0x85
    ||| u == 0xA0
    ||| u == 0x1680
    ||| 0x2000 <= u <= 0x200A
    ||| u == 0x2028
    ||| u == 0x2029
    ||| u == 0x202F
    ||| u == 0x205F
    ||| u == 0x3000
}

/// `s` without its trailing whitespace.
pub open spec fn trim_end(s: Seq<char>) -> Seq<char>
    decreases s.len(),
{
    if s.len() > 0 && is_space(s.last()) {
        trim_end(s.drop_last())
    } else {
        s
    }
}

/// `s` without its leading whitespace.
pub open spec fn trim_start(s: Seq<char>) -> Seq<char>
    decreases s.len(),
{
    if s.len() > 0 && is_space(s[0]) {
        trim_start(s.drop_first())
    } else {
        s
    }
}

/// `s` without leading and trailing whitespace.
pub open spec fn trim(s: Seq<char>) -> Seq<char> {
    trim_start(trim_end(s))
}

/// `s` holds nothing but whitespace.
pub open spec fn is_blank(s: Seq<char>) -> bool {
    forall|i: int| 0 <= i < s.len() ==> is_space(#[trigger] s[i])
}

/// `pat` occurs in `s` starting at index `j`.
pub open spec fn matches_at(s: Seq<char>, pat: Seq<char>, j: int) -> bool {
    0 <= j && j + pat.len() <= s.len() && s.subrange(j, j + pat.len()) == pat
}

pub open spec fn contains(s: Seq<char>, pat: Seq<char>) -> bool {
    exists|j: int| matches_at(s, pat, j)
}

pub open spec fn starts_with(s: Seq<char>, pat: Seq<char>) -> bool {
    matches_at(s, pat, 0)
}

pub open spec fn ends_with(s: Seq<char>, pat: Seq<char>) -> bool {
    matches_at(s, pat, s.len() - pat.len())
}

/// The start of the last occurrence of `pat` in `s`.
pub closed spec fn rfind(s: Seq<char>, pat: Seq<char>) -> Option<int> {
    if contains(s, pat) {
        Some(
            choose|j: int|
                matches_at(s, pat, j) && forall|k: int| matches_at(s, pat, k) ==> k <= j,
        )
    } else {
        None
    }
}

/// The start of the first occurrence of `pat` in `s`.
pub closed spec fn find(s: Seq<char>, pat: Seq<char>) -> Option<int> {
    if contains(s, pat) {
        Some(
            choose|j: int|
                matches_at(s, pat, j) && forall|k: int| matches_at(s, pat, k) ==> j <= k,
        )
    } else {
        None
    }
}

/// The first occurrence found by `find` is an occurrence, and no earlier one exists.
pub proof fn lemma_find(s: Seq<char>, pat: Seq<char>)
    ensures
        find(s, pat) is None <==> !contains(s, pat),
        find(s, pat) is Some ==> matches_at(s, pat, find(s, pat)->0),
        find(s, pat) is Some ==> forall|k: int|
            matches_at(s, pat, k) ==> find(s, pat)->0 <= k,
{
    if contains(s, pat) {
        lemma_first_match_exists(s, pat, 0);
    }
}

proof fn lemma_first_match_exists(s: Seq<char>, pat: Seq<char>, bottom: int)
    requires
        contains(s, pat),
        0 <= bottom,
        forall|k: int| matches_at(s, pat, k) ==> bottom <= k,
    ensures
        exists|j: int| matches_at(s, pat, j) && forall|k: int| matches_at(s, pat, k) ==> j <= k,
    decreases s.len() + 1 - bottom,
{
    if matches_at(s, pat, bottom) {
    } else {
        let j = choose|j: int| matches_at(s, pat, j);
        assert(j <= s.len());
        lemma_first_match_exists(s, pat, bottom + 1);
    }
}

/// The last occurrence found by `rfind` is an occurrence, and no later one exists.
pub proof fn lemma_rfind(s: Seq<char>, pat: Seq<char>)
    ensures
        rfind(s, pat) is None <==> !contains(s, pat),
        rfind(s, pat) is Some ==> matches_at(s, pat, rfind(s, pat)->0),
        rfind(s, pat) is Some ==> forall|k: int|
            matches_at(s, pat, k) ==> k <= rfind(s, pat)->0,
{
    if contains(s, pat) {
        let j = choose|j: int| matches_at(s, pat, j);
        assert(0 <= j <= s.len());
        lemma_last_match_exists(s, pat, s.len() as int);
    }
}

proof fn lemma_last_match_exists(s: Seq<char>, pat: Seq<char>, top: int)
    requires
        contains(s, pat),
        forall|k: int| matches_at(s, pat, k) ==> k <= top,
    ensures
        exists|j: int| matches_at(s, pat, j) && forall|k: int| matches_at(s, pat, k) ==> k <= j,
    decreases top + 1,
{
    if matches_at(s, pat, top) {
    } else {
        let j = choose|j: int| matches_at(s, pat, j);
        assert(j <= top);
        assert(j >= 0);
        lemma_last_match_exists(s, pat, top - 1);
    }
}

/// The decimal digit for `d < 10`.
pub open spec fn digit(d: int) -> char {
    if d == 0 {
        '0'
    } else if d == 1 {
        '1'
    } else if d == 2 {
        '2'
    } else if d == 3 {
        '3'
    } else if d == 4 {
        '4'
    } else if d == 5 {
        '5'
    } else if d == 6 {
        '6'
    } else if d == 7 {
        '7'
    } else if d == 8 {
        '8'
    } else {
        '9'
    }
}

/// The decimal numeral of `n`, as `format!("{}", n)` writes it.
pub open spec fn decimal(n: nat) -> Seq<char>
    decreases n,
{
    if n < 10 {
        seq![digit(n as int)]
    } else {
        decimal(n / 10).push(digit((n % 10) as int))
    }
}

/// The decimal numeral of a signed `n`, with a leading `-` when negative.
pub open spec fn signed_decimal(n: int) -> Seq<char> {
    if n < 0 {
        seq!['-'] + decimal((-n) as nat)
    } else {
        decimal(n as nat)
    }
}

pub fn char_is_space(c: char) -> (b: bool)
    ensures
        b == is_space(c),
{
    let u = c as u32;
    (0x09 <= u && u <= 0x0D) || u == 0x20 || u == 0x85 || u == 0xA0 || u == 0x1680 || (0x2000
        <= u && u <= 0x200A) || u == 0x2028 || u == 0x2029 || u == 0x202F || u == 0x205F || u
        == 0x3000
}

/// The characters of `s`, in order.
pub fn chars_of(s: &str) -> (v: Vec<char>)
    ensures
        v@ == s@,
{
    let mut v: Vec<char> = Vec::new();
    for c in it: s.chars()
        invariant
            v@ == it.seq().take(it.index() as int),
            it.seq() == s@,
    {
        v.push(c);
    }
    v
}

/// The end of `v[lo..hi]` once trailing whitespace is removed.
pub fn trim_end_index(v: &Vec<char>, lo: usize, hi: usize) -> (k: usize)
    requires
        lo <= hi <= v@.len(),
    ensures
        lo <= k <= hi,
        v@.subrange(lo as int, k as int) == trim_end(v@.subrange(lo as int, hi as int)),
{
    let mut k = hi;
    while k > lo && char_is_space(v[k - 1])
        invariant
            lo <= k <= hi <= v@.len(),
            trim_end(v@.subrange(lo as int, k as int)) == trim_end(
                v@.subrange(lo as int, hi as int),
            ),
        decreases k,
    {
        assert(v@.subrange(lo as int, k as int).drop_last() == v@.subrange(
            lo as int,
            k - 1 as int,
        ));
        k = k - 1;
    }
    k
}

/// The start of `v[lo..hi]` once leading whitespace is removed.
pub fn trim_start_index(v: &Vec<char>, lo: usize, hi: usize) -> (k: usize)
    requires
        lo <= hi <= v@.len(),
    ensures
        lo <= k <= hi,
        v@.subrange(k as int, hi as int) == trim_start(v@.subrange(lo as int, hi as int)),
{
    let mut k = lo;
    while k < hi && char_is_space(v[k])
        invariant
            lo <= k <= hi <= v@.len(),
            trim_start(v@.subrange(k as int, hi as int)) == trim_start(
                v@.subrange(lo as int, hi as int),
            ),
        decreases hi - k,
    {
        assert(v@.subrange(k as int, hi as int).drop_first() == v@.subrange(
            k + 1 as int,
            hi as int,
        ));
        k = k + 1;
    }
    k
}

/// Whether `pat` occurs in `v` at index `j` (an index within `v`, not relative).
pub fn matches_at_index(v: &Vec<char>, lo: usize, hi: usize, pat: &Vec<char>, j: usize) -> (b: bool)
    requires
        lo <= j,
        lo <= hi <= v@.len(),
    ensures
        b == matches_at(v@.subrange(lo as int, hi as int), pat@, j - lo),
{
    let ghost w = v@.subrange(lo as int, hi as int);
    if j > hi || pat.len() > hi - j {
        return false;
    }
    let mut i: usize = 0;
    while i < pat.len()
        invariant
            lo <= j <= hi <= v@.len(),
            j + pat@.len() <= hi,
            i <= pat@.len(),
            w == v@.subrange(lo as int, hi as int),
            forall|t: int| 0 <= t < i ==> v@[j + t] == pat@[t],
        decreases pat@.len() - i,
    {
        if v[j + i] != pat[i] {
            assert(w.subrange(j - lo, j - lo + pat@.len())[i as int] != pat@[i as int]);
            return false;
        }
        i = i + 1;
    }
    assert(w.subrange(j - lo, j - lo + pat@.len()) =~= pat@);
    true
}

/// Whether the window `v[lo..hi]` ends with `pat`.
pub fn window_ends_with(v: &Vec<char>, lo: usize, hi: usize, pat: &Vec<char>) -> (b: bool)
    requires
        lo <= hi <= v@.len(),
    ensures
        b == ends_with(v@.subrange(lo as int, hi as int), pat@),
{
    if pat.len() > hi - lo {
        return false;
    }
    matches_at_index(v, lo, hi, pat, hi - pat.len())
}

/// Whether the window `v[lo..hi]` starts with `pat`.
pub fn window_starts_with(v: &Vec<char>, lo: usize, hi: usize, pat: &Vec<char>) -> (b: bool)
    requires
        lo <= hi <= v@.len(),
    ensures
        b == starts_with(v@.subrange(lo as int, hi as int), pat@),
{
    matches_at_index(v, lo, hi, pat, lo)
}

/// Whether `pat` occurs in the window `v[lo..hi]`.
pub fn window_contains(v: &Vec<char>, lo: usize, hi: usize, pat: &Vec<char>) -> (b: bool)
    requires
        lo <= hi <= v@.len(),
    ensures
        b == contains(v@.subrange(lo as int, hi as int), pat@),
{
    let ghost w = v@.subrange(lo as int, hi as int);
    let mut j = lo;
    while j <= hi
        invariant
            lo <= j <= hi + 1,
            lo <= hi <= v@.len(),
            w == v@.subrange(lo as int, hi as int),
            forall|k: int| 0 <= k < j - lo ==> !matches_at(w, pat@, k),
        decreases hi + 1 - j,
    {
        if matches_at_index(v, lo, hi, pat, j) {
            return true;
        }
        if j == hi {
            assert forall|k: int| matches_at(w, pat@, k) implies false by {
                assert(0 <= k <= w.len());
            }
            return false;
        }
        j = j + 1;
    }
    false
}

/// The index in `v` of the last occurrence of `pat` within the window `v[lo..hi]`.
pub fn window_rfind(v: &Vec<char>, lo: usize, hi: usize, pat: &Vec<char>) -> (r: Option<usize>)
    requires
        lo <= hi <= v@.len(),
    ensures
        match r {
            Some(j) => lo <= j <= hi && rfind(v@.subrange(lo as int, hi as int), pat@) == Some(
                j - lo,
            ),
            None => rfind(v@.subrange(lo as int, hi as int), pat@) is None,
        },
{
    let ghost w = v@.subrange(lo as int, hi as int);
    let mut j = hi;
    loop
        invariant
            lo <= j <= hi <= v@.len(),
            w == v@.subrange(lo as int, hi as int),
            forall|k: int| j - lo < k <= w.len() ==> !matches_at(w, pat@, k),
        decreases j,
    {
        if matches_at_index(v, lo, hi, pat, j) {
            let ghost c = choose|c: int|
                matches_at(w, pat@, c) && forall|k: int| matches_at(w, pat@, k) ==> k <= c;
            assert(matches_at(w, pat@, j - lo));
            assert forall|k: int| matches_at(w, pat@, k) implies k <= j - lo by {
                if k > j - lo {
                    assert(k <= w.len());
                }
            }
            assert(contains(w, pat@));
            assert(matches_at(w, pat@, c) && forall|k: int| matches_at(w, pat@, k) ==> k <= c);
            return Some(j);
        }
        if j == lo {
            assert forall|k: int| matches_at(w, pat@, k) implies false by {
                assert(0 <= k <= w.len());
            }
            return None;
        }
        j = j - 1;
    }
}

/// The index in `v` of the first occurrence of `pat` within the window `v[lo..hi]`.
pub fn window_find(v: &Vec<char>, lo: usize, hi: usize, pat: &Vec<char>) -> (r: Option<usize>)
    requires
        lo <= hi <= v@.len(),
    ensures
        match r {
            Some(j) => lo <= j <= hi && find(v@.subrange(lo as int, hi as int), pat@) == Some(
                j - lo,
            ),
            None => find(v@.subrange(lo as int, hi as int), pat@) is None,
        },
{
    let ghost w = v@.subrange(lo as int, hi as int);
    let mut j = lo;
    while j <= hi
        invariant
            lo <= j <= hi + 1,
            lo <= hi <= v@.len(),
            w == v@.subrange(lo as int, hi as int),
            forall|k: int| 0 <= k < j - lo ==> !matches_at(w, pat@, k),
        decreases hi + 1 - j,
    {
        if matches_at_index(v, lo, hi, pat, j) {
            proof {
                lemma_find(w, pat@);
                assert(contains(w, pat@));
            }
            return Some(j);
        }
        if j == hi {
            proof {
                lemma_find(w, pat@);
                assert forall|k: int| matches_at(w, pat@, k) implies false by {
                    assert(0 <= k <= w.len());
                }
            }
            return None;
        }
        j = j + 1;
    }
    proof {
        lemma_find(w, pat@);
    }
    None
}

/// The decimal digit character of `d < 10`.
pub fn digit_char(d: u64) -> (c: char)
    requires
        d < 10,
    ensures
        c == digit(d as int),
{
    if d == 0 {
        '0'
    } else if d == 1 {
        '1'
    } else if d == 2 {
        '2'
    } else if d == 3 {
        '3'
    } else if d == 4 {
        '4'
    } else if d == 5 {
        '5'
    } else if d == 6 {
        '6'
    } else if d == 7 {
        '7'
    } else if d == 8 {
        '8'
    } else {
        '9'
    }
}

/// The decimal numeral of `n`.
pub fn decimal_chars(n: u64) -> (v: Vec<char>)
    ensures
        v@ == decimal(n as nat),
    decreases n,
{
    if n < 10 {
        let mut v = Vec::new();
        v.push(digit_char(n));
        assert(v@ =~= seq![digit(n as int)]);
        v
    } else {
        let mut v = decimal_chars(n / 10);
        v.push(digit_char(n % 10));
        v
    }
}

/// The decimal numeral of `n`, as a `String`.
pub fn decimal_string(n: u64) -> (s: String)
    ensures
        s@ == decimal(n as nat),
    decreases n,
{
    let digits = "0123456789";
    proof {
        reveal_strlit("0123456789");
    }
    let d = (n % 10) as usize;
    let one = digits.substring_char(d, d + 1);
    assert(one@ =~= seq![digit(d as int)]);
    if n < 10 {
        String::from_str(one)
    } else {
        let head = decimal_string(n / 10);
        head.concat(one)
    }
}

/// The decimal numeral of a signed `n`, as a `String`.
pub fn signed_decimal_string(n: i64) -> (s: String)
    ensures
        s@ == signed_decimal(n as int),
{
    if n < 0 {
        let magnitude: u64 = (0i128 - n as i128) as u64;
        let minus = String::from_str("-");
        proof {
            reveal_strlit("-");
        }
        let digits = decimal_string(magnitude);
        let s = minus.concat(digits.as_str());
        assert(s@ =~= seq!['-'] + decimal((-n) as nat));
        s
    } else {
        decimal_string(n as u64)
    }
}

/// `s` without leading and trailing whitespace.
pub fn trim_str(s: &str) -> (r: &str)
    ensures
        r@ == trim(s@),
{
    let v = chars_of(s);
    let hi = trim_end_index(&v, 0, v.len());
    let lo = trim_start_index(&v, 0, hi);
    assert(v@.subrange(0, v@.len() as int) =~= v@);
    s.substring_char(lo, hi)
}

/// Whether `s` is empty once trimmed, as `s.trim().is_empty()` reports it.
pub fn is_blank_str(s: &str) -> (b: bool)
    ensures
        b == (trim(s@).len() == 0),
{
    trim_str(s).is_empty()
}

/// Whether `a` and `b` hold the same characters.
pub fn str_equals(a: &str, b: &str) -> (r: bool)
    ensures
        r == (a@ == b@),
{
    let x = chars_of(a);
    let y = chars_of(b);
    if x.len() != y.len() {
        return false;
    }
    let mut i: usize = 0;
    while i < x.len()
        invariant
            x@ == a@,
            y@ == b@,
            x@.len() == y@.len(),
            i <= x@.len(),
            forall|j: int| 0 <= j < i ==> x@[j] == y@[j],
        decreases x@.len() - i,
    {
        if x[i] != y[i] {
            return false;
        }
        i = i + 1;
    }
    assert(x@ =~= y@);
    true
}

} // verus!
