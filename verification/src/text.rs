//! Small verified helpers on text.

use vstd::prelude::*;
use vstd::slice::{slice_subrange, slice_to_vec};

verus! {

/// `String::push` appends one character.
pub assume_specification[ String::push ](s: &mut String, c: char)
    ensures
        final(s)@ == old(s)@.push(c),
;

/// The characters of `s`, in order.
pub fn chars_of(s: &str) -> (v: Vec<char>)
    ensures
        v@ == s@,
{
    let mut v: Vec<char> = Vec::new();
    for c in it: s.chars()
        invariant
            v@ == it.seq().take(it.index()),
            it.seq() == s@,
    {
        v.push(c);
    }
    v
}

/// The string made of the characters of `v`, in order.
pub fn string_of(v: &[char]) -> (s: String)
    ensures
        s@ == v@,
{
    let mut s = String::new();
    let mut i: usize = 0;
    while i < v.len()
        invariant
            i <= v.len(),
            s@ == v@.take(i as int),
        decreases v.len() - i,
    {
        s.push(v[i]);
        i += 1;
    }
    assert(v@.take(v.len() as int) == v@);
    s
}

/// The decimal digit `d`.
pub open spec fn spec_digit(d: int) -> char {
    if d == 0 {
        '0'
    } else if d == 1 {
        '1'
    } else if d == 2 {
        '2'
    } else if d == 3 {
        '3'
    } else if d == 4 {
        '4'
    } else if d == 5 {
        '5'
    } else if d == 6 {
        '6'
    } else if d == 7 {
        '7'
    } else if d == 8 {
        '8'
    } else {
        '9'
    }
}

/// Decimal numeral of `n`, without sign or leading zeros.
pub open spec fn spec_decimal(n: nat) -> Seq<char>
    decreases n,
{
    if n < 10 {
        seq![spec_digit(n as int)]
    } else {
        spec_decimal(n / 10).push(spec_digit((n % 10) as int))
    }
}

/// Decimal numeral of `n`, padded with zeros on the left to `width` digits.
pub open spec fn spec_decimal_padded(n: nat, width: nat) -> Seq<char> {
    let d = spec_decimal(n);
    if d.len() >= width {
        d
    } else {
        Seq::new((width - d.len()) as nat, |i: int| '0') + d
    }
}

/// The quotient `num / den` rounded to the nearest integer, a tie going to the
/// even neighbour.
pub open spec fn spec_round_half_even(num: nat, den: nat) -> nat
    recommends
        den > 0,
{
    let q = num / den;
    let r = num % den;
    if 2 * r > den || (2 * r == den && q % 2 == 1) {
        q + 1
    } else {
        q
    }
}

fn digit(d: u64) -> (c: char)
    requires
        d < 10,
    ensures
        c == spec_digit(d as int),
{
    if d == 0 {
        '0'
    } else if d == 1 {
        '1'
    } else if d == 2 {
        '2'
    } else if d == 3 {
        '3'
    } else if d == 4 {
        '4'
    } else if d == 5 {
        '5'
    } else if d == 6 {
        '6'
    } else if d == 7 {
        '7'
    } else if d == 8 {
        '8'
    } else {
        '9'
    }
}

/// Appends the decimal numeral of `n` to `out`.
pub fn push_decimal(out: &mut String, n: u64)
    ensures
        final(out)@ == old(out)@ + spec_decimal(n as nat),
    decreases n,
{
    if n < 10 {
        out.push(digit(n));
        assert(out@ =~= old(out)@ + spec_decimal(n as nat));
    } else {
        push_decimal(out, n / 10);
        out.push(digit(n % 10));
        assert(out@ =~= old(out)@ + spec_decimal(n as nat));
    }
}

/// Appends the decimal numeral of `n`, padded with zeros on the left to two
/// digits.
pub fn push_decimal2(out: &mut String, n: u64)
    ensures
        final(out)@ == old(out)@ + spec_decimal_padded(n as nat, 2),
{
    if n < 10 {
        out.push('0');
        out.push(digit(n));
        assert(spec_decimal(n as nat).len() == 1);
        assert(out@ =~= old(out)@ + spec_decimal_padded(n as nat, 2));
    } else {
        proof {
            lemma_decimal_len(n as nat);
        }
        push_decimal(out, n);
    }
}

/// A numeral has at least one digit, and at least two from ten on.
pub proof fn lemma_decimal_len(n: nat)
    ensures
        spec_decimal(n).len() >= 1,
        n >= 10 ==> spec_decimal(n).len() >= 2,
    decreases n,
{
    if n >= 10 {
        lemma_decimal_len(n / 10);
    }
}

/// The decimal numeral of `n`.
pub fn decimal(n: u64) -> (s: String)
    ensures
        s@ == spec_decimal(n as nat),
{
    let mut s = String::new();
    push_decimal(&mut s, n);
    assert(Seq::<char>::empty() + spec_decimal(n as nat) =~= spec_decimal(n as nat));
    s
}

/// Appends the characters of `t` to `out`.
pub fn push_text(out: &mut String, t: &str)
    ensures
        final(out)@ == old(out)@ + t@,
{
    out.append(t);
}

/// `num / den` rounded to the nearest integer, a tie going to the even
/// neighbour.
pub fn round_half_even(num: u128, den: u128) -> (q: u128)
    requires
        den > 0,
    ensures
        q == spec_round_half_even(num as nat, den as nat),
{
    let q = num / den;
    let r = num % den;
    // r < den, so den - r does not underflow; r > den - r says 2r > den
    let up = r > den - r || (r == den - r && q % 2 == 1);
    if up {
        // a remainder means a divisor of two at least, so the quotient is far from the top
        assert(q < u128::MAX) by (nonlinear_arith)
            requires
                q == num / den,
                r == num % den,
                den > 0,
                r > 0,
                num <= u128::MAX,
        {
        }
        q + 1
    } else {
        q
    }
}

/// Whether `s` begins with `p`.
pub open spec fn spec_starts_with(s: Seq<char>, p: Seq<char>) -> bool {
    p.len() <= s.len() && s.subrange(0, p.len() as int) == p
}

/// Whether `s` ends with `p`.
pub open spec fn spec_ends_with(s: Seq<char>, p: Seq<char>) -> bool {
    p.len() <= s.len() && s.subrange(s.len() - p.len(), s.len() as int) == p
}

/// Whether `p` occurs in `s` at position `i`.
pub open spec fn spec_occurs_at(s: Seq<char>, p: Seq<char>, i: int) -> bool {
    0 <= i && i + p.len() <= s.len() && s.subrange(i, i + p.len()) == p
}

/// Whether `p` occurs somewhere in `s`. The empty text occurs in every text.
pub open spec fn spec_contains(s: Seq<char>, p: Seq<char>) -> bool {
    exists|i: int| spec_occurs_at(s, p, i)
}

/// Position of the first `c` in `s` at or after `from`, or the length of `s`
/// where there is none.
pub open spec fn spec_find_char(s: Seq<char>, c: char, from: int) -> int
    decreases s.len() - from,
{
    if from < 0 || from >= s.len() {
        s.len() as int
    } else if s[from] == c {
        from
    } else {
        spec_find_char(s, c, from + 1)
    }
}

/// Whether `s` begins with `p`.
pub fn starts_with(s: &[char], p: &[char]) -> (b: bool)
    ensures
        b == spec_starts_with(s@, p@),
{
    if p.len() > s.len() {
        return false;
    }
    let mut i: usize = 0;
    while i < p.len()
        invariant
            i <= p.len() <= s.len(),
            forall|j: int| 0 <= j < i ==> s@[j] == p@[j],
        decreases p.len() - i,
    {
        if s[i] != p[i] {
            assert(s@.subrange(0, p.len() as int)[i as int] != p@[i as int]);
            return false;
        }
        i += 1;
    }
    assert(s@.subrange(0, p.len() as int) =~= p@);
    true
}

/// Whether `s` ends with `p`.
pub fn ends_with(s: &[char], p: &[char]) -> (b: bool)
    ensures
        b == spec_ends_with(s@, p@),
{
    if p.len() > s.len() {
        return false;
    }
    let tail = slice_subrange(s, s.len() - p.len(), s.len());
    let b = starts_with(tail, p);
    assert(tail@.subrange(0, p.len() as int) =~= tail@);
    b
}

/// Whether `p` occurs somewhere in `s`.
pub fn contains(s: &[char], p: &[char]) -> (b: bool)
    ensures
        b == spec_contains(s@, p@),
{
    if p.len() > s.len() {
        assert(forall|i: int| !spec_occurs_at(s@, p@, i));
        return false;
    }
    let last: usize = s.len() - p.len();
    let mut i: usize = 0;
    loop
        invariant
            i <= last,
            last == s.len() - p.len(),
            p.len() <= s.len(),
            forall|j: int| 0 <= j < i ==> !spec_occurs_at(s@, p@, j),
        decreases last - i,
    {
        let window = slice_subrange(s, i, s.len());
        assert(window@.subrange(0, p.len() as int) =~= s@.subrange(i as int, i + p.len()));
        if starts_with(window, p) {
            assert(spec_occurs_at(s@, p@, i as int));
            return true;
        }
        assert(!spec_occurs_at(s@, p@, i as int));
        if i == last {
            assert(forall|j: int| !spec_occurs_at(s@, p@, j));
            return false;
        }
        i += 1;
    }
}

/// Position of the first `c` in `s` at or after `from`, or the length of `s`.
pub fn find_char(s: &[char], c: char, from: usize) -> (at: usize)
    ensures
        at == spec_find_char(s@, c, from as int),
        from <= s.len() ==> from <= at <= s.len(),
        at < s.len() ==> s@[at as int] == c,
        forall|j: int| from <= j < at && j < s.len() ==> s@[j] != c,
{
    if from >= s.len() {
        return s.len();
    }
    let mut i: usize = from;
    while i < s.len()
        invariant
            from <= i <= s.len(),
            spec_find_char(s@, c, from as int) == spec_find_char(s@, c, i as int),
            forall|j: int| from <= j < i ==> s@[j] != c,
        decreases s.len() - i,
    {
        if s[i] == c {
            return i;
        }
        i += 1;
    }
    i
}

/// Whether `c` is white space: the characters with the Unicode property
/// `White_Space`.
pub open spec fn spec_is_whitespace(c: char) -> bool {
    let n = c as u32;
    (0x09 <= n <= 0x0d) || n == 0x20 || n == 0x85 || n == 0xa0 || n == 0x1680 || (0x2000 <= n
        <= 0x200a) || n == 0x2028 || n == 0x2029 || n == 0x202f || n == 0x205f || n == 0x3000
}

/// Whether `c` is white space.
pub fn is_whitespace(c: char) -> (b: bool)
    ensures
        b == spec_is_whitespace(c),
{
    let n: u32 = c as u32;
    (0x09 <= n && n <= 0x0d) || n == 0x20 || n == 0x85 || n == 0xa0 || n == 0x1680 || (0x2000 <= n
        && n <= 0x200a) || n == 0x2028 || n == 0x2029 || n == 0x202f || n == 0x205f || n == 0x3000
}

/// Position of the first character of `s` at or after `from` that is not
/// white space, or the length of `s`.
pub open spec fn spec_skip_whitespace(s: Seq<char>, from: int) -> int
    decreases s.len() - from,
{
    if from < 0 || from >= s.len() {
        s.len() as int
    } else if !spec_is_whitespace(s[from]) {
        from
    } else {
        spec_skip_whitespace(s, from + 1)
    }
}

/// Position after the last character of `s` before `upto` that is not white
/// space, and at least `floor`.
pub open spec fn spec_drop_whitespace(s: Seq<char>, floor: int, upto: int) -> int
    decreases upto,
{
    if upto <= floor || upto <= 0 || upto > s.len() {
        floor
    } else if !spec_is_whitespace(s[upto - 1]) {
        upto
    } else {
        spec_drop_whitespace(s, floor, upto - 1)
    }
}

/// `s` without the white space at its two ends.
pub open spec fn spec_trim(s: Seq<char>) -> Seq<char> {
    let a = spec_skip_whitespace(s, 0);
    let b = spec_drop_whitespace(s, a, s.len() as int);
    s.subrange(a, b)
}

/// `s` without the white space at its two ends.
pub fn trim(s: &[char]) -> (t: &[char])
    ensures
        t@ == spec_trim(s@),
{
    let mut a: usize = 0;
    while a < s.len() && is_whitespace(s[a])
        invariant
            a <= s.len(),
            spec_skip_whitespace(s@, 0) == spec_skip_whitespace(s@, a as int),
        decreases s.len() - a,
    {
        a += 1;
    }
    let mut b: usize = s.len();
    while b > a && is_whitespace(s[b - 1])
        invariant
            a <= b <= s.len(),
            spec_drop_whitespace(s@, a as int, s@.len() as int) == spec_drop_whitespace(
                s@,
                a as int,
                b as int,
            ),
        decreases b,
    {
        b -= 1;
    }
    slice_subrange(s, a, b)
}

/// The text that `String::from_utf8_lossy` makes of a byte string: valid
/// UTF-8 decoded, every ill-formed part replaced by U+FFFD.
pub uninterp spec fn spec_utf8_lossy(bytes: Seq<u8>) -> Seq<char>;

/// `String::from_utf8_lossy`, owned. Bytes that are all ASCII come out as the
/// characters with the same numbers.
#[verifier::external_body]
pub(crate) fn utf8_lossy(bytes: &[u8]) -> (s: String)
    ensures
        s@ == spec_utf8_lossy(bytes@),
        (forall|i: int| 0 <= i < bytes@.len() ==> bytes@[i] < 128) ==> s@ == bytes@.map_values(
            |b: u8| b as char,
        ),
{
    String::from_utf8_lossy(bytes).into_owned()
}

/// The number that the decimal digit `c` stands for.
pub open spec fn spec_digit_value(c: char) -> Option<nat> {
    let n = c as u32;
    if 48 <= n <= 57 {
        Some((n - 48) as nat)
    } else {
        None
    }
}

/// The number written by the digits of `s` before position `n`, and none
/// where one of them is no digit.
pub open spec fn spec_digits_value(s: Seq<char>, n: int) -> Option<nat>
    decreases n,
{
    if n <= 0 {
        Some(0)
    } else {
        match (spec_digits_value(s, n - 1), spec_digit_value(s[n - 1])) {
            (Some(v), Some(d)) => Some(v * 10 + d),
            _ => None,
        }
    }
}

/// The 32-bit number that `s` writes in decimal: at least one digit, an
/// optional plus sign before them, nothing else, and a value that fits.
pub open spec fn spec_parse_u32(s: Seq<char>) -> Option<u32> {
    let digits = if s.len() > 0 && s[0] == '+' {
        s.subrange(1, s.len() as int)
    } else {
        s
    };
    if digits.len() == 0 {
        None
    } else {
        match spec_digits_value(digits, digits.len() as int) {
            Some(v) => if v <= u32::MAX {
                Some(v as u32)
            } else {
                None
            },
            None => None,
        }
    }
}

/// The number written by more digits is no smaller.
pub proof fn lemma_digits_value_grows(s: Seq<char>, i: int, n: int)
    requires
        0 <= i <= n <= s.len(),
    ensures
        spec_digits_value(s, i) is None ==> spec_digits_value(s, n) is None,
        spec_digits_value(s, n) matches Some(v) ==> spec_digits_value(s, i)->0 <= v,
    decreases n - i,
{
    if i < n {
        lemma_digits_value_grows(s, i, n - 1);
    }
}

/// Reads a 32-bit number written in decimal.
pub fn parse_u32(s: &[char]) -> (r: Option<u32>)
    ensures
        r == spec_parse_u32(s@),
{
    let digits = if s.len() > 0 && s[0] == '+' {
        slice_subrange(s, 1, s.len())
    } else {
        s
    };
    if digits.len() == 0 {
        return None;
    }
    let mut v: u64 = 0;
    let mut i: usize = 0;
    while i < digits.len()
        invariant
            i <= digits.len(),
            v <= u32::MAX,
            digits.len() > 0,
            digits@ == if s@.len() > 0 && s@[0] == '+' {
                s@.subrange(1, s@.len() as int)
            } else {
                s@
            },
            spec_digits_value(digits@, i as int) == Some(v as nat),
        decreases digits.len() - i,
    {
        let c = digits[i];
        let n: u32 = c as u32;
        if n < 48 || n > 57 {
            proof {
                assert(spec_digit_value(c) is None);
                assert(spec_digits_value(digits@, i + 1) is None);
                lemma_digits_value_grows(digits@, i + 1, digits@.len() as int);
            }
            return None;
        }
        let d: u64 = (n - 48) as u64;
        assert(spec_digit_value(c) == Some(d as nat));
        let next: u64 = v * 10 + d;
        if next > u32::MAX as u64 {
            proof {
                assert(spec_digits_value(digits@, i + 1) == Some(next as nat));
                lemma_digits_value_grows(digits@, i + 1, digits@.len() as int);
            }
            return None;
        }
        v = next;
        i += 1;
    }
    Some(v as u32)
}

/// The text that `str::to_lowercase` makes of a text: each character
/// replaced by its lowercase form as Unicode defines it.
pub uninterp spec fn spec_lowercase(s: Seq<char>) -> Seq<char>;

/// `str::to_lowercase`.
#[verifier::external_body]
pub(crate) fn lowercase(s: &str) -> (lower: String)
    ensures
        lower@ == spec_lowercase(s@),
{
    s.to_lowercase()
}

/// `s` without any trailing repetitions of `p`.
pub open spec fn spec_trim_end_matches(s: Seq<char>, p: Seq<char>) -> Seq<char>
    decreases s.len(),
{
    if p.len() > 0 && spec_ends_with(s, p) {
        spec_trim_end_matches(s.subrange(0, s.len() - p.len()), p)
    } else {
        s
    }
}

/// Length of `s` without any trailing repetitions of `p`.
pub fn trim_end_matches_len(s: &[char], p: &[char]) -> (n: usize)
    ensures
        n <= s.len(),
        s@.subrange(0, n as int) == spec_trim_end_matches(s@, p@),
{
    let mut n: usize = s.len();
    assert(s@.subrange(0, n as int) =~= s@);
    if p.len() == 0 {
        return n;
    }
    loop
        invariant
            n <= s.len(),
            p.len() > 0,
            spec_trim_end_matches(s@, p@) == spec_trim_end_matches(s@.subrange(0, n as int), p@),
        decreases n,
    {
        let head = slice_subrange(s, 0, n);
        if ends_with(head, p) {
            assert(head@.subrange(0, head@.len() - p@.len()) =~= s@.subrange(
                0,
                (n - p.len()) as int,
            ));
            n = n - p.len();
        } else {
            return n;
        }
    }
}

/// Position of the first white space in `s` at or after `from`, or the
/// length of `s`.
pub open spec fn spec_token_end(s: Seq<char>, from: int) -> int
    decreases s.len() - from,
{
    if from < 0 || from >= s.len() {
        s.len() as int
    } else if spec_is_whitespace(s[from]) {
        from
    } else {
        spec_token_end(s, from + 1)
    }
}

/// The texts that a list of character vectors holds.
pub open spec fn spec_texts(list: Seq<Vec<char>>) -> Seq<Seq<char>> {
    list.map_values(|w: Vec<char>| w@)
}

/// The words of `s` from position `from` on: what white space separates.
pub open spec fn spec_tokens(s: Seq<char>, from: int) -> Seq<Seq<char>>
    decreases s.len() - from,
{
    let start = spec_skip_whitespace(s, from);
    let end = spec_token_end(s, start);
    if from < 0 || start < from || start >= s.len() || end <= start || end > s.len() {
        Seq::empty()
    } else {
        seq![s.subrange(start, end)] + spec_tokens(s, end)
    }
}

/// Where white space is skipped from, the position reached is not before it.
pub proof fn lemma_skip_whitespace(s: Seq<char>, from: int)
    requires
        0 <= from <= s.len(),
    ensures
        from <= spec_skip_whitespace(s, from) <= s.len(),
        spec_skip_whitespace(s, from) < s.len() ==> !spec_is_whitespace(
            s[spec_skip_whitespace(s, from)],
        ),
    decreases s.len() - from,
{
    if from < s.len() && spec_is_whitespace(s[from]) {
        lemma_skip_whitespace(s, from + 1);
    }
}

/// A word that begins with a character that is no white space has an end
/// after its beginning.
pub proof fn lemma_token_end(s: Seq<char>, from: int)
    requires
        0 <= from <= s.len(),
    ensures
        from <= spec_token_end(s, from) <= s.len(),
        from < s.len() && !spec_is_whitespace(s[from]) ==> from < spec_token_end(s, from),
    decreases s.len() - from,
{
    if from < s.len() && !spec_is_whitespace(s[from]) {
        lemma_token_end(s, from + 1);
    }
}

/// The words of `s`.
pub fn tokens(s: &[char]) -> (words: Vec<Vec<char>>)
    ensures
        spec_texts(words@) == spec_tokens(s@, 0),
{
    let mut words: Vec<Vec<char>> = Vec::new();
    let mut from: usize = 0;
    assert(spec_texts(words@) =~= Seq::<Seq<char>>::empty());
    loop
        invariant
            from <= s.len(),
            spec_texts(words@) + spec_tokens(s@, from as int) == spec_tokens(s@, 0),
        ensures
            spec_texts(words@) == spec_tokens(s@, 0),
        decreases s.len() - from,
    {
        let mut start: usize = from;
        while start < s.len() && is_whitespace(s[start])
            invariant
                from <= start <= s.len(),
                spec_skip_whitespace(s@, from as int) == spec_skip_whitespace(s@, start as int),
            decreases s.len() - start,
        {
            start += 1;
        }
        if start >= s.len() {
            proof {
                lemma_skip_whitespace(s@, from as int);
            }
            assert(spec_texts(words@) + Seq::<Seq<char>>::empty() =~= spec_texts(words@));
            break ;
        }
        let mut end: usize = start;
        while end < s.len() && !is_whitespace(s[end])
            invariant
                start <= end <= s.len(),
                spec_token_end(s@, start as int) == spec_token_end(s@, end as int),
            decreases s.len() - end,
        {
            end += 1;
        }
        proof {
            lemma_token_end(s@, start as int);
            lemma_skip_whitespace(s@, from as int);
        }
        let ghost before = spec_texts(words@);
        let ghost rest = spec_tokens(s@, end as int);
        let word = slice_to_vec(slice_subrange(s, start, end));
        words.push(word);
        assert(spec_texts(words@) =~= before + seq![s@.subrange(start as int, end as int)]);
        assert((before + seq![s@.subrange(start as int, end as int)]) + rest =~= before + (seq![
            s@.subrange(start as int, end as int),
        ] + rest));
        from = end;
    }
    words
}

/// The line of `s` that begins at `from`: up to the next newline, without
/// the carriage return that may stand before it.
pub open spec fn spec_line_at(s: Seq<char>, from: int) -> Seq<char> {
    let nl = spec_find_char(s, '\n', from);
    if nl < s.len() && nl > from && s[nl - 1] == '\r' {
        s.subrange(from, nl - 1)
    } else {
        s.subrange(from, nl)
    }
}

/// The lines of `s` from position `from` on. What follows the last newline
/// is a line unless it is empty.
pub open spec fn spec_lines_from(s: Seq<char>, from: int) -> Seq<Seq<char>>
    decreases s.len() - from,
{
    if from < 0 || from >= s.len() {
        Seq::empty()
    } else {
        let nl = spec_find_char(s, '\n', from);
        if nl < from || nl >= s.len() {
            seq![spec_line_at(s, from)]
        } else {
            seq![spec_line_at(s, from)] + spec_lines_from(s, nl + 1)
        }
    }
}

/// The lines of `s`.
pub fn lines(s: &[char]) -> (out: Vec<Vec<char>>)
    ensures
        spec_texts(out@) == spec_lines_from(s@, 0),
{
    let mut out: Vec<Vec<char>> = Vec::new();
    let mut from: usize = 0;
    assert(spec_texts(out@) =~= Seq::<Seq<char>>::empty());
    while from < s.len()
        invariant
            from <= s.len(),
            spec_texts(out@) + spec_lines_from(s@, from as int) == spec_lines_from(s@, 0),
        decreases s.len() - from,
    {
        let nl = find_char(s, '\n', from);
        let end: usize = if nl < s.len() && nl > from && s[nl - 1] == '\r' {
            nl - 1
        } else {
            nl
        };
        let ghost before = spec_texts(out@);
        let ghost line = spec_line_at(s@, from as int);
        let ghost rest = spec_lines_from(s@, nl + 1);
        out.push(slice_to_vec(slice_subrange(s, from, end)));
        assert(spec_texts(out@) =~= before + seq![line]);
        assert((before + seq![line]) + rest =~= before + (seq![line] + rest));
        if nl >= s.len() {
            assert(before + seq![line] =~= before + spec_lines_from(s@, from as int));
            return out;
        }
        from = nl + 1;
    }
    assert(spec_texts(out@) + Seq::<Seq<char>>::empty() =~= spec_texts(out@));
    out
}

/// The 64-bit number that `s` writes in decimal: at least one digit, an
/// optional plus sign before them, nothing else, and a value that fits.
pub open spec fn spec_parse_u64(s: Seq<char>) -> Option<u64> {
    let digits = if s.len() > 0 && s[0] == '+' {
        s.subrange(1, s.len() as int)
    } else {
        s
    };
    if digits.len() == 0 {
        None
    } else {
        match spec_digits_value(digits, digits.len() as int) {
            Some(v) => if v <= u64::MAX {
                Some(v as u64)
            } else {
                None
            },
            None => None,
        }
    }
}

/// Reads a 64-bit number written in decimal.
pub fn parse_u64(s: &[char]) -> (r: Option<u64>)
    ensures
        r == spec_parse_u64(s@),
{
    let digits = if s.len() > 0 && s[0] == '+' {
        slice_subrange(s, 1, s.len())
    } else {
        s
    };
    if digits.len() == 0 {
        return None;
    }
    let mut v: u128 = 0;
    let mut i: usize = 0;
    while i < digits.len()
        invariant
            i <= digits.len(),
            v <= u64::MAX,
            digits.len() > 0,
            digits@ == if s@.len() > 0 && s@[0] == '+' {
                s@.subrange(1, s@.len() as int)
            } else {
                s@
            },
            spec_digits_value(digits@, i as int) == Some(v as nat),
        decreases digits.len() - i,
    {
        let c = digits[i];
        let n: u32 = c as u32;
        if n < 48 || n > 57 {
            proof {
                assert(spec_digit_value(c) is None);
                assert(spec_digits_value(digits@, i + 1) is None);
                lemma_digits_value_grows(digits@, i + 1, digits@.len() as int);
            }
            return None;
        }
        let d: u128 = (n - 48) as u128;
        assert(spec_digit_value(c) == Some(d as nat));
        let next: u128 = v * 10 + d;
        if next > u64::MAX as u128 {
            proof {
                assert(spec_digits_value(digits@, i + 1) == Some(next as nat));
                lemma_digits_value_grows(digits@, i + 1, digits@.len() as int);
            }
            return None;
        }
        v = next;
        i += 1;
    }
    Some(v as u64)
}

/// Whether two texts are the same.
pub fn same_text(a: &[char], b: &[char]) -> (same: bool)
    ensures
        same == (a@ == b@),
{
    if a.len() != b.len() {
        return false;
    }
    let same = starts_with(a, b);
    assert(a@.subrange(0, b@.len() as int) =~= a@);
    same
}

/// What a run of characters is worth as a decimal numeral.
#[derive(Debug, Clone, Copy, PartialEq, Eq, Structural)]
pub enum Digits {
    /// Some character is no digit.
    Invalid,
    /// The value does not fit 64 bits.
    TooLarge,
    /// The value; zero for no digit at all.
    Value(u64),
}

/// What the characters of `s` are worth as a decimal numeral.
pub open spec fn spec_digits(s: Seq<char>) -> Digits {
    match spec_digits_value(s, s.len() as int) {
        None => Digits::Invalid,
        Some(v) => if v <= u64::MAX {
            Digits::Value(v as u64)
        } else {
            Digits::TooLarge
        },
    }
}

/// What the characters of `s` are worth as a decimal numeral.
pub fn digits(s: &[char]) -> (d: Digits)
    ensures
        d == spec_digits(s@),
{
    let mut v: u128 = 0;
    let mut large = false;
    let mut i: usize = 0;
    while i < s.len()
        invariant
            i <= s.len(),
            v <= u64::MAX,
            match spec_digits_value(s@, i as int) {
                Some(x) => if large {
                    x > u64::MAX
                } else {
                    x == v
                },
                None => false,
            },
        decreases s.len() - i,
    {
        let c = s[i];
        let n: u32 = c as u32;
        if n < 48 || n > 57 {
            proof {
                assert(spec_digit_value(c) is None);
                assert(spec_digits_value(s@, i + 1) is None);
                lemma_digits_value_grows(s@, i + 1, s@.len() as int);
            }
            return Digits::Invalid;
        }
        let d: u128 = (n - 48) as u128;
        assert(spec_digit_value(c) == Some(d as nat));
        if !large {
            let next: u128 = v * 10 + d;
            if next > u64::MAX as u128 {
                large = true;
            } else {
                v = next;
            }
        }
        i += 1;
    }
    if large {
        Digits::TooLarge
    } else {
        Digits::Value(v as u64)
    }
}

/// The digit at position `i` of a fraction, zero past its end.
pub open spec fn spec_fraction_digit(frac: Seq<char>, i: int) -> nat {
    if 0 <= i < frac.len() {
        match spec_digit_value(frac[i]) {
            Some(d) => d,
            None => 0,
        }
    } else {
        0
    }
}

/// The number that `s` writes with a decimal point, in hundredths and cut
/// after the second decimal place: digits, a point, digits, with at least
/// one digit in all and an optional plus sign in front. None where `s` is
/// written otherwise or the hundredths do not fit 64 bits.
pub open spec fn spec_parse_hundredths(s: Seq<char>) -> Option<u64> {
    let body = if s.len() > 0 && s[0] == '+' {
        s.subrange(1, s.len() as int)
    } else {
        s
    };
    let dot = spec_find_char(body, '.', 0);
    let whole = body.subrange(0, dot);
    let frac = if dot < body.len() {
        body.subrange(dot + 1, body.len() as int)
    } else {
        Seq::empty()
    };
    if whole.len() + frac.len() == 0 || spec_digits(frac) is Invalid {
        None
    } else {
        match spec_digits(whole) {
            Digits::Value(w) => {
                let total = w * 100 + spec_fraction_digit(frac, 0) * 10 + spec_fraction_digit(
                    frac,
                    1,
                );
                if total <= u64::MAX {
                    Some(total as u64)
                } else {
                    None
                }
            },
            _ => None,
        }
    }
}

/// A run of digits has a digit at every position.
pub proof fn lemma_digits_valid(s: Seq<char>, n: int, i: int)
    requires
        0 <= i < n <= s.len(),
        spec_digits_value(s, n) is Some,
    ensures
        spec_digit_value(s[i]) is Some,
    decreases n,
{
    if i < n - 1 {
        lemma_digits_value_grows(s, n - 1, n);
        lemma_digits_valid(s, n - 1, i);
    }
}

/// Reads a number written with a decimal point, in hundredths.
pub fn parse_hundredths(s: &[char]) -> (r: Option<u64>)
    ensures
        r == spec_parse_hundredths(s@),
{
    let body = if s.len() > 0 && s[0] == '+' {
        slice_subrange(s, 1, s.len())
    } else {
        s
    };
    let dot = find_char(body, '.', 0);
    let whole = slice_subrange(body, 0, dot);
    let frac = if dot < body.len() {
        slice_subrange(body, dot + 1, body.len())
    } else {
        slice_subrange(body, 0, 0)
    };
    assert(dot >= body.len() ==> frac@ =~= Seq::<char>::empty());
    if whole.len() + frac.len() == 0 {
        return None;
    }
    match digits(frac) {
        Digits::Invalid => {
            return None;
        },
        _ => {},
    }
    let w: u64 = match digits(whole) {
        Digits::Value(w) => w,
        _ => {
            return None;
        },
    };
    let d1: u128 = if frac.len() > 0 {
        proof {
            lemma_digits_valid(frac@, frac@.len() as int, 0);
        }
        (frac[0] as u32 - 48) as u128
    } else {
        0
    };
    let d2: u128 = if frac.len() > 1 {
        proof {
            lemma_digits_valid(frac@, frac@.len() as int, 1);
        }
        (frac[1] as u32 - 48) as u128
    } else {
        0
    };
    let total: u128 = w as u128 * 100 + d1 * 10 + d2;
    if total <= u64::MAX as u128 {
        Some(total as u64)
    } else {
        None
    }
}

} // verus!
