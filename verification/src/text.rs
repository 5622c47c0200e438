//! Character-level text helpers shared by the parsers of the library.
//!
//! Texts are handled as sequences of `char`; the spec functions here state
//! what the standard library's string operations compute (white space as
//! Unicode's `White_Space`, ASCII case folding, unsigned number parsing).
use vstd::prelude::*;
use vstd::utf8::{encode_scalar, encode_utf8};

verus! {

broadcast use vstd::string::group_string_axioms;

/// The characters of a string slice, in order.
pub fn chars_of(s: &str) -> (v: Vec<char>)
    ensures
        v@ == s@,
{
    let mut v: Vec<char> = Vec::new();
    for c in it: s.chars()
        invariant
            v@ == it.seq().take(it.index() as int),
    {
        v.push(c);
    }
    v
}

/// `Iterator::collect` of characters into a `String`. Claimed: the string
/// holds exactly those characters, in order.
#[verifier::external_body]
pub(crate) fn string_from_chars(v: &[char]) -> (s: String)
    ensures
        s@ == v@,
{
    v.iter().collect()
}

/// Whether two string slices hold the same characters.
pub fn str_eq(a: &str, b: &str) -> (r: bool)
    ensures
        r == (a@ == b@),
{
    let x = chars_of(a);
    let y = chars_of(b);
    chars_eq(&x, &y)
}

/// Whether two character slices are equal.
pub fn chars_eq(x: &[char], y: &[char]) -> (r: bool)
    ensures
        r == (x@ == y@),
{
    if x.len() != y.len() {
        return false;
    }
    let mut i: usize = 0;
    while i < x.len()
        invariant
            x@.len() == y@.len(),
            0 <= i <= x@.len(),
            forall|j: int| 0 <= j < i ==> x@[j] == y@[j],
        decreases x@.len() - i,
    {
        if x[i] != y[i] {
            return false;
        }
        i = i + 1;
    }
    assert(x@ =~= y@);
    true
}

/// Unicode `White_Space`, as `char::is_whitespace` tests it.
pub open spec fn is_ws(c: char) -> bool {
    let u = c as u32;
    (9 <= u <= 13) || u == 32 || u == 0x85 || u == 0xA0 || u == 0x1680 || (0x2000 <= u <= 0x200A)
        || u == 0x2028 || u == 0x2029 || u == 0x202F || u == 0x205F || u == 0x3000
}

/// Whether a character is white space.
pub fn is_ws_exec(c: char) -> (r: bool)
    ensures
        r == is_ws(c),
{
    let u = c as u32;
    (9 <= u && u <= 13) || u == 32 || u == 0x85 || u == 0xA0 || u == 0x1680 || (0x2000 <= u && u
        <= 0x200A) || u == 0x2028 || u == 0x2029 || u == 0x202F || u == 0x205F || u == 0x3000
}

/// The code of a character after ASCII lower-casing.
pub open spec fn lower_code(c: char) -> u32 {
    let u = c as u32;
    if 65 <= u <= 90 {
        (u + 32) as u32
    } else {
        u
    }
}

/// `s` begins with `p`.
pub open spec fn starts_with(s: Seq<char>, p: Seq<char>) -> bool {
    s.len() >= p.len() && s.take(p.len() as int) == p
}

/// `s`, ASCII lower-cased, begins with `p` at position `i`.
pub open spec fn matches_ci_at(s: Seq<char>, p: Seq<char>, i: int) -> bool {
    0 <= i && i + p.len() <= s.len() && forall|k: int|
        0 <= k < p.len() ==> lower_code(#[trigger] s[i + k]) == p[k] as u32
}

/// `s`, ASCII lower-cased, contains `p`.
pub open spec fn contains_ci(s: Seq<char>, p: Seq<char>) -> bool {
    exists|i: int| matches_ci_at(s, p, i)
}

/// `s` contains `p`.
pub open spec fn contains(s: Seq<char>, p: Seq<char>) -> bool {
    exists|i: int| 0 <= i && i + p.len() <= s.len() && #[trigger] s.subrange(i, i + p.len()) == p
}

/// Whether `p` occurs at `i` in `s`, ASCII case ignored.
pub fn matches_ci_at_exec(s: &[char], p: &[char], i: usize) -> (r: bool)
    ensures
        r == matches_ci_at(s@, p@, i as int),
{
    if i > s.len() || p.len() > s.len() - i {
        return false;
    }
    let mut k: usize = 0;
    while k < p.len()
        invariant
            i + p@.len() <= s@.len(),
            s@.len() <= usize::MAX,
            0 <= k <= p@.len(),
            forall|j: int| 0 <= j < k ==> lower_code(#[trigger] s@[i + j]) == p@[j] as u32,
        decreases p@.len() - k,
    {
        assert(i + k < s@.len());
        let u = s[i + k] as u32;
        let l = if 65 <= u && u <= 90 {
            u + 32
        } else {
            u
        };
        if l != p[k] as u32 {
            assert(lower_code(s@[i + k as int]) != p@[k as int] as u32);
            return false;
        }
        k = k + 1;
    }
    true
}

/// Whether `p` occurs in `s`, ASCII case ignored.
pub fn contains_ci_exec(s: &[char], p: &[char]) -> (r: bool)
    ensures
        r == contains_ci(s@, p@),
{
    if p.len() > s.len() {
        assert forall|i: int| !matches_ci_at(s@, p@, i) by {}
        return false;
    }
    let last = s.len() - p.len();
    let mut i: usize = 0;
    loop
        invariant
            p@.len() <= s@.len(),
            last == s@.len() - p@.len(),
            0 <= i <= last,
            forall|j: int| 0 <= j < i ==> !matches_ci_at(s@, p@, j),
        decreases last - i,
    {
        if matches_ci_at_exec(s, p, i) {
            return true;
        }
        if i == last {
            assert forall|j: int| !matches_ci_at(s@, p@, j) by {
                if 0 <= j < i {
                }
            }
            return false;
        }
        i = i + 1;
    }
}

/// Whether `s` starts with `p`.
pub fn starts_with_exec(s: &[char], p: &[char]) -> (r: bool)
    ensures
        r == starts_with(s@, p@),
{
    if p.len() > s.len() {
        return false;
    }
    let mut k: usize = 0;
    while k < p.len()
        invariant
            p@.len() <= s@.len(),
            0 <= k <= p@.len(),
            forall|j: int| 0 <= j < k ==> s@[j] == p@[j],
        decreases p@.len() - k,
    {
        if s[k] != p[k] {
            assert(s@.take(p@.len() as int)[k as int] != p@[k as int]);
            return false;
        }
        k = k + 1;
    }
    assert(s@.take(p@.len() as int) =~= p@);
    true
}

/// Whether `p` occurs in `s`.
pub fn contains_exec(s: &[char], p: &[char]) -> (r: bool)
    ensures
        r == contains(s@, p@),
{
    if p.len() > s.len() {
        return false;
    }
    let last = s.len() - p.len();
    let mut i: usize = 0;
    loop
        invariant
            p@.len() <= s@.len(),
            last == s@.len() - p@.len(),
            s@.len() <= usize::MAX,
            0 <= i <= last,
            forall|j: int| 0 <= j < i ==> #[trigger] s@.subrange(j, j + p@.len()) != p@,
        decreases last - i,
    {
        let mut k: usize = 0;
        let mut ok = true;
        while k < p.len()
            invariant
                i + p@.len() <= s@.len(),
                s@.len() <= usize::MAX,
                0 <= k <= p@.len(),
                ok ==> forall|j: int| 0 <= j < k ==> s@[i + j] == p@[j],
                !ok ==> s@.subrange(i as int, i + p@.len()) != p@,
            decreases p@.len() - k,
        {
            assert(i + k < s@.len());
            if s[i + k] != p[k] {
                assert(s@.subrange(i as int, i + p@.len())[k as int] != p@[k as int]);
                ok = false;
            }
            k = k + 1;
        }
        if ok {
            assert(s@.subrange(i as int, i + p@.len()) =~= p@);
            return true;
        }
        if i == last {
            assert forall|j: int| 0 <= j && j + p@.len() <= s@.len() implies #[trigger] s@.subrange(
                j,
                j + p@.len(),
            ) != p@ by {
                if j < i {
                }
            }
            return false;
        }
        i = i + 1;
    }
}

/// Index of the first `c` at or after `i`, or the length when there is none.
pub open spec fn find_from(s: Seq<char>, c: char, i: int) -> int
    decreases s.len() - i,
{
    if i < 0 || i >= s.len() {
        s.len() as int
    } else if s[i] == c {
        i
    } else {
        find_from(s, c, i + 1)
    }
}

/// The first position of `c` from `i` on, or the length.
pub fn find_from_exec(s: &[char], c: char, i: usize) -> (r: usize)
    requires
        i <= s@.len(),
    ensures
        r as int == find_from(s@, c, i as int),
{
    let mut j = i;
    while j < s.len() && s[j] != c
        invariant
            i <= j <= s@.len(),
            find_from(s@, c, j as int) == find_from(s@, c, i as int),
        decreases s@.len() - j,
    {
        j = j + 1;
    }
    j
}

/// End of the run of white space that starts at `i`.
pub open spec fn ws_end(s: Seq<char>, i: int) -> int
    decreases s.len() - i,
{
    if 0 <= i < s.len() && is_ws(s[i]) {
        ws_end(s, i + 1)
    } else {
        i
    }
}

/// End of the run of non-white-space that starts at `i`.
pub open spec fn tok_end(s: Seq<char>, i: int) -> int
    decreases s.len() - i,
{
    if 0 <= i < s.len() && !is_ws(s[i]) {
        tok_end(s, i + 1)
    } else {
        i
    }
}

/// Start of the run of white space that ends at `j`.
pub open spec fn rws_start(s: Seq<char>, j: int) -> int
    decreases j,
{
    if 0 < j <= s.len() && is_ws(s[j - 1]) {
        rws_start(s, j - 1)
    } else {
        j
    }
}

/// The end of white space lies between its start and the end.
pub proof fn lemma_ws_end_bounds(s: Seq<char>, i: int)
    requires
        0 <= i <= s.len(),
    ensures
        i <= ws_end(s, i) <= s.len(),
    decreases s.len() - i,
{
    if i < s.len() && is_ws(s[i]) {
        lemma_ws_end_bounds(s, i + 1);
    }
}

/// The end of a token lies between its start and the end.
pub proof fn lemma_tok_end_bounds(s: Seq<char>, i: int)
    requires
        0 <= i <= s.len(),
    ensures
        i <= tok_end(s, i) <= s.len(),
    decreases s.len() - i,
{
    if i < s.len() && !is_ws(s[i]) {
        lemma_tok_end_bounds(s, i + 1);
    }
}

/// The start of trailing white space lies within the text.
pub proof fn lemma_rws_start_bounds(s: Seq<char>, j: int)
    requires
        0 <= j <= s.len(),
    ensures
        0 <= rws_start(s, j) <= j,
    decreases j,
{
    if 0 < j && is_ws(s[j - 1]) {
        lemma_rws_start_bounds(s, j - 1);
    }
}

/// A found position lies between the start and the end.
pub proof fn lemma_find_from_bounds(s: Seq<char>, c: char, i: int)
    requires
        0 <= i <= s.len(),
    ensures
        i <= find_from(s, c, i) <= s.len(),
        find_from(s, c, i) < s.len() ==> s[find_from(s, c, i)] == c,
    decreases s.len() - i,
{
    if i < s.len() && s[i] != c {
        lemma_find_from_bounds(s, c, i + 1);
    }
}

/// The end of the white space from `i` on.
pub fn ws_end_exec(s: &[char], i: usize) -> (r: usize)
    requires
        i <= s@.len(),
    ensures
        r as int == ws_end(s@, i as int),
{
    let mut j = i;
    while j < s.len() && is_ws_exec(s[j])
        invariant
            i <= j <= s@.len(),
            ws_end(s@, j as int) == ws_end(s@, i as int),
        decreases s@.len() - j,
    {
        j = j + 1;
    }
    j
}

/// The end of the token from `i` on.
pub fn tok_end_exec(s: &[char], i: usize) -> (r: usize)
    requires
        i <= s@.len(),
    ensures
        r as int == tok_end(s@, i as int),
{
    let mut j = i;
    while j < s.len() && !is_ws_exec(s[j])
        invariant
            i <= j <= s@.len(),
            tok_end(s@, j as int) == tok_end(s@, i as int),
        decreases s@.len() - j,
    {
        j = j + 1;
    }
    j
}

/// The start of the white space that ends at `j`.
pub fn rws_start_exec(s: &[char], j: usize) -> (r: usize)
    requires
        j <= s@.len(),
    ensures
        r as int == rws_start(s@, j as int),
{
    let mut k = j;
    while k > 0 && is_ws_exec(s[k - 1])
        invariant
            k <= j <= s@.len(),
            rws_start(s@, k as int) == rws_start(s@, j as int),
        decreases k,
    {
        k = k - 1;
    }
    k
}

/// `str::trim`: `s` without its leading and trailing white space.
pub open spec fn trim(s: Seq<char>) -> Seq<char> {
    let a = ws_end(s, 0);
    let b = rws_start(s, s.len() as int);
    if b <= a {
        Seq::empty()
    } else {
        s.subrange(a, b)
    }
}

/// The text without leading and trailing white space.
pub fn trim_exec(s: &[char]) -> (r: Vec<char>)
    ensures
        r@ == trim(s@),
{
    let a = ws_end_exec(s, 0);
    let b = rws_start_exec(s, s.len());
    proof {
        lemma_ws_end_bounds(s@, 0);
        lemma_rws_start_bounds(s@, s@.len() as int);
    }
    if b <= a {
        Vec::new()
    } else {
        slice_range(s, a, b)
    }
}

/// A copy of `s[a..b]`.
pub fn slice_range(s: &[char], a: usize, b: usize) -> (r: Vec<char>)
    requires
        a <= b <= s@.len(),
    ensures
        r@ == s@.subrange(a as int, b as int),
{
    let mut r: Vec<char> = Vec::new();
    let mut i = a;
    while i < b
        invariant
            a <= i <= b <= s@.len(),
            r@ == s@.subrange(a as int, i as int),
        decreases b - i,
    {
        r.push(s[i]);
        i = i + 1;
        assert(r@ =~= s@.subrange(a as int, i as int));
    }
    r
}

/// The second item of `str::split_whitespace`.
pub open spec fn second_token(s: Seq<char>) -> Option<Seq<char>> {
    let a = ws_end(s, 0);
    let b = tok_end(s, a);
    let c = ws_end(s, b);
    let d = tok_end(s, c);
    if a == b || c == d {
        None
    } else {
        Some(s.subrange(c, d))
    }
}

/// The second white space separated word.
pub fn second_token_exec(s: &[char]) -> (r: Option<Vec<char>>)
    ensures
        r matches Some(t) ==> second_token(s@) == Some(t@),
        r is None ==> second_token(s@) is None,
{
    let a = ws_end_exec(s, 0);
    proof {
        lemma_ws_end_bounds(s@, 0);
    }
    let b = tok_end_exec(s, a);
    proof {
        lemma_tok_end_bounds(s@, a as int);
    }
    let c = ws_end_exec(s, b);
    proof {
        lemma_ws_end_bounds(s@, b as int);
    }
    let d = tok_end_exec(s, c);
    proof {
        lemma_tok_end_bounds(s@, c as int);
    }
    if a == b || c == d {
        None
    } else {
        Some(slice_range(s, c, d))
    }
}

/// The second item of `str::split(':')`: the text between the first colon
/// and the next one (or the end).
pub open spec fn colon_field(s: Seq<char>) -> Option<Seq<char>> {
    let a = find_from(s, ':', 0);
    if a >= s.len() {
        None
    } else {
        Some(s.subrange(a + 1, find_from(s, ':', a + 1)))
    }
}

/// The text between the first and the second colon.
pub fn colon_field_exec(s: &[char]) -> (r: Option<Vec<char>>)
    ensures
        r matches Some(t) ==> colon_field(s@) == Some(t@),
        r is None ==> colon_field(s@) is None,
{
    let a = find_from_exec(s, ':', 0);
    proof {
        lemma_find_from_bounds(s@, ':', 0);
    }
    if a >= s.len() {
        None
    } else {
        let b = find_from_exec(s, ':', a + 1);
        proof {
            lemma_find_from_bounds(s@, ':', a + 1);
        }
        Some(slice_range(s, a + 1, b))
    }
}

/// The value of a digit in the given radix (at most 16), if it is one.
pub open spec fn digit_value(c: char, radix: nat) -> Option<nat> {
    let u = c as u32;
    let v: int = if 48 <= u <= 57 {
        u - 48
    } else if 97 <= u <= 122 {
        u - 97 + 10
    } else if 65 <= u <= 90 {
        u - 65 + 10
    } else {
        99
    };
    if v < radix {
        Some(v as nat)
    } else {
        None
    }
}

/// Every character is a digit of the radix.
pub open spec fn all_digits(s: Seq<char>, radix: nat) -> bool {
    forall|i: int| 0 <= i < s.len() ==> (#[trigger] digit_value(s[i], radix)) is Some
}

/// The number that a sequence of digits writes, most significant first.
pub open spec fn digits_value(s: Seq<char>, radix: nat) -> nat
    decreases s.len(),
{
    if s.len() == 0 {
        0
    } else {
        digits_value(s.drop_last(), radix) * radix + match digit_value(s.last(), radix) {
            Some(d) => d,
            None => 0,
        }
    }
}

/// What `from_str_radix` gives for an unsigned type whose largest value is `max`:
/// an optional `+`, then at least one digit, and no overflow.
pub open spec fn unsigned_digits(s: Seq<char>) -> Seq<char> {
    if s.len() > 0 && s[0] == '+' {
        s.drop_first()
    } else {
        s
    }
}

/// An unsigned number as `from_str_radix` reads it: an optional `+`, then
/// digits of the radix, at most `max`.
pub open spec fn parse_unsigned(s: Seq<char>, radix: nat, max: nat) -> Option<nat> {
    let d = unsigned_digits(s);
    if d.len() == 0 || !all_digits(d, radix) || digits_value(d, radix) > max {
        None
    } else {
        Some(digits_value(d, radix))
    }
}

/// The value of a digit of the radix.
pub fn digit_value_exec(c: char, radix: u32) -> (r: Option<u32>)
    requires
        2 <= radix <= 16,
    ensures
        r matches Some(v) ==> digit_value(c, radix as nat) == Some(v as nat),
        r is None ==> digit_value(c, radix as nat) is None,
{
    let u = c as u32;
    let v: u32 = if 48 <= u && u <= 57 {
        u - 48
    } else if 97 <= u && u <= 122 {
        u - 97 + 10
    } else if 65 <= u && u <= 90 {
        u - 65 + 10
    } else {
        99
    };
    if v < radix {
        Some(v)
    } else {
        None
    }
}

proof fn lemma_digits_value_prefix(s: Seq<char>, radix: nat, i: int)
    requires
        0 <= i < s.len(),
        radix >= 1,
    ensures
        digits_value(s.take(i + 1), radix) == digits_value(s.take(i), radix) * radix + match digit_value(
            s[i],
            radix,
        ) {
            Some(d) => d,
            None => 0,
        },
{
    assert(s.take(i + 1).drop_last() =~= s.take(i));
    assert(s.take(i + 1).last() == s[i]);
}

proof fn lemma_digits_value_monotone(s: Seq<char>, radix: nat, i: int)
    requires
        0 <= i <= s.len(),
        radix >= 1,
    ensures
        digits_value(s.take(i), radix) <= digits_value(s, radix),
    decreases s.len() - i,
{
    if i < s.len() {
        lemma_digits_value_prefix(s, radix, i);
        lemma_digits_value_monotone(s, radix, i + 1);
        let a = digits_value(s.take(i), radix);
        assert(a <= a * radix) by (nonlinear_arith)
            requires
                radix >= 1,
        ;
    } else {
        assert(s.take(i) =~= s);
    }
}

/// Parses an unsigned number the way `from_str_radix` does, with `max` as the
/// largest value of the target type.
pub fn parse_unsigned_exec(s: &[char], radix: u32, max: u64) -> (r: Option<u64>)
    requires
        2 <= radix <= 16,
    ensures
        r matches Some(v) ==> parse_unsigned(s@, radix as nat, max as nat) == Some(v as nat),
        r is None ==> parse_unsigned(s@, radix as nat, max as nat) is None,
{
    let start: usize = if s.len() > 0 && s[0] == '+' {
        1
    } else {
        0
    };
    let ghost d = unsigned_digits(s@);
    assert(d =~= s@.subrange(start as int, s@.len() as int));
    if start == s.len() {
        assert(d.len() == 0);
        assert(parse_unsigned(s@, radix as nat, max as nat) is None);
        return None;
    }
    let mut i = start;
    while i < s.len()
        invariant
            start <= i <= s@.len(),
            d =~= s@.subrange(start as int, s@.len() as int),
            d == unsigned_digits(s@),
            forall|j: int| 0 <= j < i - start ==> (#[trigger] digit_value(d[j], radix as nat)) is Some,
            2 <= radix <= 16,
        decreases s@.len() - i,
    {
        if digit_value_exec(s[i], radix).is_none() {
            assert(d[i - start] == s@[i as int]);
            assert(digit_value(d[i - start], radix as nat) is None);
            assert(!all_digits(d, radix as nat));
            assert(parse_unsigned(s@, radix as nat, max as nat) is None);
            return None;
        }
        i = i + 1;
    }
    assert(all_digits(d, radix as nat));
    let mut v: u64 = 0;
    let mut k = start;
    while k < s.len()
        invariant
            start <= k <= s@.len(),
            d =~= s@.subrange(start as int, s@.len() as int),
            d == unsigned_digits(s@),
            all_digits(d, radix as nat),
            v as nat == digits_value(d.take(k - start), radix as nat),
            v <= max,
            2 <= radix <= 16,
        decreases s@.len() - k,
    {
        let dv = digit_value_exec(s[k], radix).unwrap();
        proof {
            lemma_digits_value_prefix(d, radix as nat, k - start);
            assert(digit_value(d[k - start], radix as nat) is Some);
        }
        let m = v.checked_mul(radix as u64);
        if m.is_none() {
            proof {
                lemma_digits_value_monotone(d, radix as nat, k - start + 1);
            }
            return None;
        }
        let n = m.unwrap().checked_add(dv as u64);
        if n.is_none() || n.unwrap() > max {
            proof {
                lemma_digits_value_monotone(d, radix as nat, k - start + 1);
            }
            return None;
        }
        v = n.unwrap();
        k = k + 1;
    }
    assert(d.take(d.len() as int) =~= d);
    Some(v)
}

/// Number of occurrences of `c` in `s`.
pub open spec fn count_char(s: Seq<char>, c: char) -> nat
    decreases s.len(),
{
    if s.len() == 0 {
        0
    } else {
        count_char(s.drop_last(), c) + if s.last() == c {
            1nat
        } else {
            0nat
        }
    }
}

/// How often `c` occurs.
pub fn count_char_exec(s: &[char], c: char) -> (r: usize)
    ensures
        r as nat == count_char(s@, c),
{
    let mut n: usize = 0;
    let mut i: usize = 0;
    while i < s.len()
        invariant
            0 <= i <= s@.len(),
            n as nat == count_char(s@.take(i as int), c),
            n <= i,
        decreases s@.len() - i,
    {
        assert(s@.take(i + 1).drop_last() =~= s@.take(i as int));
        if s[i] == c {
            n = n + 1;
        }
        i = i + 1;
    }
    assert(s@.take(s@.len() as int) =~= s@);
    n
}

/// The decimal digit for a value below ten.
pub open spec fn digit_char(d: nat) -> char {
    ((48 + d) as u32) as char
}

/// The decimal text of a natural number, as `to_string` writes it.
pub open spec fn decimal(n: nat) -> Seq<char>
    decreases n,
{
    if n < 10 {
        seq![digit_char(n)]
    } else {
        decimal(n / 10) + seq![digit_char(n % 10)]
    }
}

/// The decimal text of an integer, with a leading `-` when it is negative.
pub open spec fn signed_decimal(n: int) -> Seq<char> {
    if n < 0 {
        seq!['-'] + decimal((-n) as nat)
    } else {
        decimal(n as nat)
    }
}

fn digit_char_exec(d: u64) -> (c: char)
    requires
        d < 10,
    ensures
        c == digit_char(d as nat),
{
    let v: u8 = (48 + d) as u8;
    v as char
}

/// The decimal text of `n`, as characters.
pub fn decimal_chars(n: u64) -> (r: Vec<char>)
    ensures
        r@ == decimal(n as nat),
{
    let mut acc: Vec<char> = Vec::new();
    let mut q = n;
    assert(decimal(n as nat) =~= decimal(q as nat) + acc@);
    while q >= 10
        invariant
            decimal(n as nat) == decimal(q as nat) + acc@,
        decreases q,
    {
        let ghost old_acc = acc@;
        let c = digit_char_exec(q % 10);
        acc.insert(0, c);
        assert(decimal(q as nat) == decimal((q / 10) as nat) + seq![c]);
        q = q / 10;
        assert(decimal(n as nat) =~= decimal(q as nat) + acc@);
    }
    let c = digit_char_exec(q);
    acc.insert(0, c);
    assert(decimal(n as nat) =~= acc@);
    acc
}

/// The decimal text of `n`.
pub fn decimal_string(n: u64) -> (r: String)
    ensures
        r@ == decimal(n as nat),
{
    let c = decimal_chars(n);
    string_from_chars(&c)
}

/// The decimal text of `n`, with `-` in front when it is negative.
pub fn signed_decimal_string(n: i64) -> (r: String)
    ensures
        r@ == signed_decimal(n as int),
{
    if n < 0 {
        let m: u64 = if n == i64::MIN {
            9223372036854775808u64
        } else {
            (-n) as u64
        };
        let mut c = decimal_chars(m);
        c.insert(0, '-');
        assert(c@ =~= seq!['-'] + decimal((-(n as int)) as nat));
        string_from_chars(&c)
    } else {
        decimal_string(n as u64)
    }
}

/// UTF-8 encoding distributes over concatenation.
pub proof fn lemma_encode_utf8_concat(a: Seq<char>, b: Seq<char>)
    ensures
        encode_utf8(a + b) == encode_utf8(a) + encode_utf8(b),
    decreases a.len(),
{
    if a.len() == 0 {
        assert(a + b =~= b);
        assert(encode_utf8(a) =~= Seq::<u8>::empty());
        assert(encode_utf8(a) + encode_utf8(b) =~= encode_utf8(b));
    } else {
        assert((a + b).drop_first() =~= a.drop_first() + b);
        assert((a + b)[0] == a[0]);
        lemma_encode_utf8_concat(a.drop_first(), b);
        assert(encode_utf8(a + b) =~= encode_scalar(a[0] as u32) + encode_utf8(a.drop_first() + b));
    }
}

} // verus!
