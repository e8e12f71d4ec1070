//! Character-level text primitives: the vocabulary in which the parsers and
//! the argument builders state what they compute.
//!
//! Every operation has a mathematical definition over `Seq<char>` and an
//! executable counterpart over `&[char]` proved equal to it.

use vstd::prelude::*;
use vstd::slice::slice_subrange;

verus! {

/// Appending one character to a `String` extends its character sequence by
/// exactly that character, as `String::push` documents.
pub assume_specification[ String::push ](s: &mut String, c: char)
    ensures
        final(s)@ == old(s)@.push(c),
;

/// The characters of `s`, in order.
pub fn chars_of(s: &str) -> (v: Vec<char>)
    ensures
        v@ == s@,
{
    let mut v: Vec<char> = Vec::new();
    for c in iter: s.chars()
        invariant
            iter.seq() == s@,
            v@ =~= s@.take(iter.index()),
    {
        v.push(c);
    }
    assert(s@.take(s@.len() as int) =~= s@);
    v
}

/// The string whose characters are `v`, in order.
pub fn string_of(v: &[char]) -> (s: String)
    ensures
        s@ == v@,
{
    let mut s = String::new();
    let mut i: usize = 0;
    while i < v.len()
        invariant
            i <= v.len(),
            s@ =~= v@.take(i as int),
        decreases v.len() - i,
    {
        s.push(v[i]);
        i += 1;
    }
    assert(v@.take(v@.len() as int) =~= v@);
    s
}

/// The characters with the Unicode `White_Space` property.
pub open spec fn is_whitespace(c: char) -> bool {
    let n = c as u32;
    (0x09 <= n && n <= 0x0D) || n == 0x20 || n == 0x85 || n == 0xA0 || n == 0x1680 || (0x2000 <= n
        && n <= 0x200A) || n == 0x2028 || n == 0x2029 || n == 0x202F || n == 0x205F || n == 0x3000
}

/// Whether `c` is whitespace.
pub fn char_is_whitespace(c: char) -> (b: bool)
    ensures
        b == is_whitespace(c),
{
    let n: u32 = c as u32;
    (0x09 <= n && n <= 0x0D) || n == 0x20 || n == 0x85 || n == 0xA0 || n == 0x1680 || (0x2000 <= n
        && n <= 0x200A) || n == 0x2028 || n == 0x2029 || n == 0x202F || n == 0x205F || n == 0x3000
}

/// `s` without its leading whitespace.
pub open spec fn trim_start(s: Seq<char>) -> Seq<char>
    decreases s.len(),
{
    if s.len() > 0 && is_whitespace(s[0]) {
        trim_start(s.skip(1))
    } else {
        s
    }
}

/// `s` without its trailing whitespace.
pub open spec fn trim_end(s: Seq<char>) -> Seq<char>
    decreases s.len(),
{
    if s.len() > 0 && is_whitespace(s.last()) {
        trim_end(s.drop_last())
    } else {
        s
    }
}

/// `s` without leading and trailing whitespace.
pub open spec fn trim(s: Seq<char>) -> Seq<char> {
    trim_end(trim_start(s))
}

/// `s` without leading and trailing whitespace.
pub fn trim_slice(s: &[char]) -> (r: &[char])
    ensures
        r@ == trim(s@),
{
    let mut a: usize = 0;
    assert(s@.skip(0) =~= s@);
    while a < s.len() && char_is_whitespace(s[a])
        invariant
            a <= s.len(),
            trim_start(s@) == trim_start(s@.skip(a as int)),
        decreases s.len() - a,
    {
        assert(s@.skip(a as int).skip(1) =~= s@.skip(a as int + 1));
        a += 1;
    }
    let mut b: usize = s.len();
    assert(s@.subrange(a as int, b as int) =~= s@.skip(a as int));
    while b > a && char_is_whitespace(s[b - 1])
        invariant
            a <= b <= s.len(),
            trim(s@) == trim_end(s@.subrange(a as int, b as int)),
        decreases b,
    {
        assert(s@.subrange(a as int, b as int).drop_last() =~= s@.subrange(a as int, b as int - 1));
        b -= 1;
    }
    slice_subrange(s, a, b)
}

/// `s` without leading and trailing whitespace, as a string.
pub fn trimmed(s: &str) -> (r: String)
    ensures
        r@ == trim(s@),
{
    let text = chars_of(s);
    string_of(trim_slice(text.as_slice()))
}

/// Length of the leading run of characters of `s` that are not line feeds.
pub open spec fn line_len(s: Seq<char>) -> nat
    decreases s.len(),
{
    if s.len() > 0 && s[0] != '\n' {
        1 + line_len(s.skip(1))
    } else {
        0
    }
}

/// `s` without one trailing carriage return, if it ends in one.
pub open spec fn strip_cr(s: Seq<char>) -> Seq<char> {
    if s.len() > 0 && s.last() == '\r' {
        s.drop_last()
    } else {
        s
    }
}

/// The lines of `s`: the runs between line feeds, where a carriage return
/// directly before a line feed belongs to the line ending and the final line
/// needs no terminator.
pub open spec fn lines(s: Seq<char>) -> Seq<Seq<char>>
    decreases s.len(),
{
    if s.len() == 0 {
        Seq::empty()
    } else {
        let n = line_len(s);
        if n >= s.len() {
            seq![s]
        } else {
            seq![strip_cr(s.take(n as int))] + lines(s.skip(n as int + 1))
        }
    }
}

/// The lines of `s`.
pub fn split_lines(s: &[char]) -> (out: Vec<&[char]>)
    ensures
        out.deep_view() == lines(s@),
{
    let mut out: Vec<&[char]> = Vec::new();
    let mut i: usize = 0;
    assert(s@.skip(0) =~= s@);
    assert(out.deep_view() =~= Seq::<Seq<char>>::empty());
    while i < s.len()
        invariant
            i <= s.len(),
            out.deep_view() + lines(s@.skip(i as int)) == lines(s@),
        decreases s.len() - i,
    {
        let ghost rest = s@.skip(i as int);
        let mut j: usize = i;
        assert(s@.skip(j as int) =~= rest.skip(0));
        while j < s.len() && s[j] != '\n'
            invariant
                i <= j <= s.len(),
                rest == s@.skip(i as int),
                line_len(rest) == (j - i) + line_len(s@.skip(j as int)),
            decreases s.len() - j,
        {
            assert(s@.skip(j as int).skip(1) =~= s@.skip(j as int + 1));
            j += 1;
        }
        assert(line_len(rest) == j - i);
        let ghost before = out.deep_view();
        if j >= s.len() {
            let piece = slice_subrange(s, i, j);
            assert(piece@ =~= rest);
            assert(piece.deep_view() =~= piece@);
            out.push(piece);
            assert(out.deep_view() =~= before.push(rest));
            assert(lines(rest) == seq![rest]);
            assert(s@.skip(j as int) =~= Seq::<char>::empty());
            assert(before + seq![rest] =~= before.push(rest));
            assert(out.deep_view() + lines(s@.skip(j as int)) =~= out.deep_view());
            i = j;
        } else {
            let end: usize = if j > i && s[j - 1] == '\r' {
                j - 1
            } else {
                j
            };
            let piece = slice_subrange(s, i, end);
            assert(rest.take(j - i) =~= s@.subrange(i as int, j as int));
            assert(piece@ =~= strip_cr(rest.take(j - i)));
            assert(piece.deep_view() =~= piece@);
            out.push(piece);
            assert(out.deep_view() =~= before.push(piece@));
            assert(rest.skip(j - i + 1) =~= s@.skip(j as int + 1));
            assert(lines(rest) == seq![piece@] + lines(s@.skip(j as int + 1)));
            assert(before.push(piece@) + lines(s@.skip(j as int + 1)) =~= before + (seq![piece@]
                + lines(s@.skip(j as int + 1))));
            i = j + 1;
        }
    }
    assert(s@.skip(i as int) =~= Seq::<char>::empty());
    assert(out.deep_view() + lines(s@.skip(i as int)) =~= out.deep_view());
    out
}

/// Length of the leading run of characters of `s` that are not whitespace.
pub open spec fn word_len(s: Seq<char>) -> nat
    decreases s.len(),
{
    if s.len() > 0 && !is_whitespace(s[0]) {
        1 + word_len(s.skip(1))
    } else {
        0
    }
}

/// The whitespace-separated tokens of `s`, in order: its maximal runs of
/// characters that are not whitespace.
pub open spec fn tokens(s: Seq<char>) -> Seq<Seq<char>>
    decreases s.len(),
{
    if s.len() == 0 {
        Seq::empty()
    } else if is_whitespace(s[0]) {
        tokens(s.skip(1))
    } else {
        let n = word_len(s);
        if 0 < n <= s.len() {
            seq![s.take(n as int)] + tokens(s.skip(n as int))
        } else {
            Seq::empty()
        }
    }
}

/// The whitespace-separated tokens of `s`.
pub fn split_whitespace(s: &[char]) -> (out: Vec<&[char]>)
    ensures
        out.deep_view() == tokens(s@),
{
    let mut out: Vec<&[char]> = Vec::new();
    let mut i: usize = 0;
    assert(s@.skip(0) =~= s@);
    assert(out.deep_view() =~= Seq::<Seq<char>>::empty());
    while i < s.len()
        invariant
            i <= s.len(),
            out.deep_view() + tokens(s@.skip(i as int)) == tokens(s@),
        decreases s.len() - i,
    {
        let ghost rest = s@.skip(i as int);
        if char_is_whitespace(s[i]) {
            assert(rest.skip(1) =~= s@.skip(i as int + 1));
            i += 1;
        } else {
            let mut j: usize = i;
            assert(s@.skip(j as int) =~= rest.skip(0));
            while j < s.len() && !char_is_whitespace(s[j])
                invariant
                    i <= j <= s.len(),
                    rest == s@.skip(i as int),
                    word_len(rest) == (j - i) + word_len(s@.skip(j as int)),
                decreases s.len() - j,
            {
                assert(s@.skip(j as int).skip(1) =~= s@.skip(j as int + 1));
                j += 1;
            }
            assert(word_len(rest) == j - i);
            let ghost before = out.deep_view();
            let piece = slice_subrange(s, i, j);
            assert(piece@ =~= rest.take(j - i));
            assert(piece.deep_view() =~= piece@);
            out.push(piece);
            assert(out.deep_view() =~= before.push(piece@));
            assert(rest.skip(j - i) =~= s@.skip(j as int));
            assert(tokens(rest) == seq![piece@] + tokens(s@.skip(j as int)));
            assert(before.push(piece@) + tokens(s@.skip(j as int)) =~= before + (seq![piece@]
                + tokens(s@.skip(j as int))));
            i = j;
        }
    }
    assert(s@.skip(i as int) =~= Seq::<char>::empty());
    assert(out.deep_view() + tokens(s@.skip(i as int)) =~= out.deep_view());
    out
}

/// Whether `s` begins with `prefix`.
pub open spec fn starts_with(s: Seq<char>, prefix: Seq<char>) -> bool {
    prefix.len() <= s.len() && s.take(prefix.len() as int) == prefix
}

/// Whether `needle` occurs in `s` at offset `at`.
pub open spec fn occurs_at(s: Seq<char>, needle: Seq<char>, at: int) -> bool {
    0 <= at && at + needle.len() <= s.len() && s.subrange(at, at + needle.len()) == needle
}

/// Whether `needle` occurs somewhere in `s`.
pub open spec fn contains(s: Seq<char>, needle: Seq<char>) -> bool {
    exists|at: int| occurs_at(s, needle, at)
}

/// Whether `needle` occurs in `s` at offset `at`.
pub fn slice_occurs_at(s: &[char], needle: &[char], at: usize) -> (b: bool)
    ensures
        b == occurs_at(s@, needle@, at as int),
{
    if at > s.len() || needle.len() > s.len() - at {
        return false;
    }
    let mut k: usize = 0;
    while k < needle.len()
        invariant
            k <= needle.len(),
            at + needle.len() <= s.len(),
            forall|j: int| 0 <= j < k ==> s@[at + j] == needle@[j],
        decreases needle.len() - k,
    {
        if s[at + k] != needle[k] {
            assert(s@.subrange(at as int, at + needle.len())[k as int] == s@[at + k]);
            return false;
        }
        k += 1;
    }
    assert(s@.subrange(at as int, at + needle.len()) =~= needle@);
    true
}

/// Whether `s` begins with `prefix`.
pub fn slice_starts_with(s: &[char], prefix: &[char]) -> (b: bool)
    ensures
        b == starts_with(s@, prefix@),
{
    let b = slice_occurs_at(s, prefix, 0);
    assert(prefix@.len() <= s@.len() ==> s@.take(prefix@.len() as int) =~= s@.subrange(
        0,
        0 + prefix@.len() as int,
    ));
    b
}

/// Whether `needle` occurs somewhere in `s`.
pub fn slice_contains(s: &[char], needle: &[char]) -> (b: bool)
    ensures
        b == contains(s@, needle@),
{
    let mut at: usize = 0;
    while at < s.len()
        invariant
            at <= s.len(),
            forall|k: int| 0 <= k < at ==> !occurs_at(s@, needle@, k),
        decreases s.len() - at,
    {
        if slice_occurs_at(s, needle, at) {
            return true;
        }
        at += 1;
    }
    slice_occurs_at(s, needle, at)
}

/// Whether two character slices hold the same text.
pub fn same_text(a: &[char], b: &[char]) -> (r: bool)
    ensures
        r == (a@ == b@),
{
    if a.len() != b.len() {
        return false;
    }
    let r = slice_occurs_at(a, b, 0);
    assert(a@.subrange(0, 0 + b@.len() as int) =~= a@);
    r
}

/// Whether a string holds exactly the text `b`.
pub fn str_is(a: &str, b: &str) -> (r: bool)
    ensures
        r == (a@ == b@),
{
    let x = chars_of(a);
    let y = chars_of(b);
    same_text(x.as_slice(), y.as_slice())
}

/// Offset of the first occurrence of `c` in `s`, or the length of `s` when
/// there is none.
pub open spec fn find_char(s: Seq<char>, c: char) -> nat
    decreases s.len(),
{
    if s.len() > 0 && s[0] != c {
        1 + find_char(s.skip(1), c)
    } else {
        0
    }
}

/// The first occurrence is an occurrence, and nothing before it is one.
pub proof fn lemma_find_char(s: Seq<char>, c: char)
    ensures
        find_char(s, c) <= s.len(),
        find_char(s, c) < s.len() ==> s[find_char(s, c) as int] == c,
        forall|i: int| 0 <= i < find_char(s, c) ==> s[i] != c,
        find_char(s, c) < s.len() <==> s.contains(c),
    decreases s.len(),
{
    if s.len() > 0 && s[0] != c {
        lemma_find_char(s.skip(1), c);
        assert forall|i: int| 0 <= i < find_char(s, c) implies s[i] != c by {
            if i > 0 {
                assert(s.skip(1)[i - 1] == s[i]);
            }
        }
    }
    if s.contains(c) {
        let i = choose|i: int| 0 <= i < s.len() && s[i] == c;
        assert(i >= find_char(s, c));
    }
}

/// The offset of the first `c` in `s`, or the length of `s`.
pub fn slice_find_char(s: &[char], c: char) -> (at: usize)
    ensures
        at == find_char(s@, c),
        at <= s.len(),
{
    let mut j: usize = 0;
    assert(s@.skip(0) =~= s@);
    while j < s.len() && s[j] != c
        invariant
            j <= s.len(),
            find_char(s@, c) == j + find_char(s@.skip(j as int), c),
        decreases s.len() - j,
    {
        assert(s@.skip(j as int).skip(1) =~= s@.skip(j as int + 1));
        j += 1;
    }
    j
}

/// Whether `c` is one of the ten ASCII decimal digits.
pub open spec fn is_digit(c: char) -> bool {
    '0' <= c && c <= '9'
}

/// The value of the ASCII decimal digit `c`.
pub open spec fn digit_value(c: char) -> nat {
    (c as u32 - '0' as u32) as nat
}

/// Whether `s` consists of ASCII decimal digits only.
pub open spec fn all_digits(s: Seq<char>) -> bool {
    forall|i: int| 0 <= i < s.len() ==> is_digit(#[trigger] s[i])
}

/// The number that the decimal digits `s` write, most significant first.
pub open spec fn decimal_value(s: Seq<char>) -> nat
    decreases s.len(),
{
    if s.len() == 0 {
        0
    } else {
        10 * decimal_value(s.drop_last()) + digit_value(s.last())
    }
}

/// The integer that `s` writes in decimal: an optional sign (`+`, or `-`
/// where `signed`) followed by at least one digit and nothing else.
pub open spec fn parse_int(s: Seq<char>, signed: bool) -> Option<int> {
    let negative = signed && s.len() > 0 && s[0] == '-';
    let digits = if s.len() > 0 && (s[0] == '+' || negative) {
        s.skip(1)
    } else {
        s
    };
    if digits.len() > 0 && all_digits(digits) {
        Some(
            if negative {
                -(decimal_value(digits) as int)
            } else {
                decimal_value(digits) as int
            },
        )
    } else {
        None
    }
}

/// The `u16` that `s` writes in decimal, if it writes one.
pub open spec fn parse_u16(s: Seq<char>) -> Option<u16> {
    match parse_int(s, false) {
        Some(v) => if v <= u16::MAX {
            Some(v as u16)
        } else {
            None
        },
        None => None,
    }
}

/// The `i64` that `s` writes in decimal, if it writes one.
pub open spec fn parse_i64(s: Seq<char>) -> Option<i64> {
    match parse_int(s, true) {
        Some(v) => if i64::MIN <= v <= i64::MAX {
            Some(v as i64)
        } else {
            None
        },
        None => None,
    }
}

/// The digits of a prefix write no more than all the digits.
pub proof fn lemma_decimal_value_monotone(s: Seq<char>, k: int)
    requires
        0 <= k <= s.len(),
    ensures
        decimal_value(s.take(k)) <= decimal_value(s),
    decreases s.len() - k,
{
    if k < s.len() {
        assert(s.take(k + 1).drop_last() =~= s.take(k));
        lemma_decimal_value_monotone(s, k + 1);
    } else {
        assert(s.take(k) =~= s);
    }
}

/// Reads the digits of `s` from `from` on. Gives the value they write when it
/// is at most `limit`, and nothing when a character is no digit, when there
/// is no digit at all, or when the value exceeds `limit`.
fn read_digits(s: &[char], from: usize, limit: u64) -> (r: Option<u64>)
    requires
        from <= s.len(),
    ensures
        r == if s@.skip(from as int).len() > 0 && all_digits(s@.skip(from as int))
            && decimal_value(s@.skip(from as int)) <= limit {
            Some(decimal_value(s@.skip(from as int)) as u64)
        } else {
            None::<u64>
        },
{
    let ghost d = s@.skip(from as int);
    if from == s.len() {
        return None;
    }
    let mut acc: u64 = 0;
    let mut i: usize = from;
    assert(d.take(0) =~= Seq::<char>::empty());
    while i < s.len()
        invariant
            from <= i <= s.len(),
            d == s@.skip(from as int),
            all_digits(d.take(i - from)),
            acc == decimal_value(d.take(i - from)),
            acc <= limit,
        decreases s.len() - i,
    {
        let c = s[i];
        assert(d[i - from] == c);
        if !('0' <= c && c <= '9') {
            assert(!is_digit(d[i - from]));
            return None;
        }
        let digit: u128 = (c as u32 - '0' as u32) as u128;
        let next: u128 = acc as u128 * 10 + digit;
        assert(d.take(i - from + 1).drop_last() =~= d.take(i - from));
        assert(d.take(i - from + 1).last() == c);
        assert(next == decimal_value(d.take(i - from + 1)));
        assert(all_digits(d.take(i - from + 1))) by {
            assert forall|k: int| 0 <= k < d.take(i - from + 1).len() implies is_digit(
                #[trigger] d.take(i - from + 1)[k],
            ) by {
                if k < i - from {
                    assert(d.take(i - from)[k] == d[k]);
                }
            }
        }
        if next > limit as u128 {
            proof {
                lemma_decimal_value_monotone(d, i - from + 1);
            }
            return None;
        }
        acc = next as u64;
        i += 1;
    }
    assert(d.take(i - from) =~= d);
    Some(acc)
}

/// Reads `s` as a decimal `u16`.
pub fn slice_parse_u16(s: &[char]) -> (r: Option<u16>)
    ensures
        r == parse_u16(s@),
{
    let from: usize = if s.len() > 0 && s[0] == '+' {
        1
    } else {
        0
    };
    assert(s@.skip(0) =~= s@);
    match read_digits(s, from, 65535) {
        Some(v) => Some(v as u16),
        None => None,
    }
}

/// Reads `s` as a decimal `i64`.
pub fn slice_parse_i64(s: &[char]) -> (r: Option<i64>)
    ensures
        r == parse_i64(s@),
{
    let negative = s.len() > 0 && s[0] == '-';
    let from: usize = if s.len() > 0 && (s[0] == '+' || negative) {
        1
    } else {
        0
    };
    assert(s@.skip(0) =~= s@);
    if negative {
        match read_digits(s, from, 9223372036854775808) {
            Some(v) => if v == 9223372036854775808 {
                Some(i64::MIN)
            } else {
                Some(-(v as i64))
            },
            None => None,
        }
    } else {
        match read_digits(s, from, 9223372036854775807) {
            Some(v) => Some(v as i64),
            None => None,
        }
    }
}

/// The character that writes the digit `d`.
pub open spec fn digit_char(d: nat) -> char {
    if d == 0 {
        '0'
    } else if d == 1 {
        '1'
    } else if d == 2 {
        '2'
    } else if d == 3 {
        '3'
    } else if d == 4 {
        '4'
    } else if d == 5 {
        '5'
    } else if d == 6 {
        '6'
    } else if d == 7 {
        '7'
    } else if d == 8 {
        '8'
    } else {
        '9'
    }
}

/// `n` written in decimal without leading zeros.
pub open spec fn decimal(n: nat) -> Seq<char>
    decreases n,
{
    if n < 10 {
        seq![digit_char(n)]
    } else {
        decimal(n / 10).push(digit_char(n % 10))
    }
}

/// The character that writes the digit `d`.
fn digit_to_char(d: u128) -> (c: char)
    requires
        d < 10,
    ensures
        c == digit_char(d as nat),
{
    if d == 0 {
        '0'
    } else if d == 1 {
        '1'
    } else if d == 2 {
        '2'
    } else if d == 3 {
        '3'
    } else if d == 4 {
        '4'
    } else if d == 5 {
        '5'
    } else if d == 6 {
        '6'
    } else if d == 7 {
        '7'
    } else if d == 8 {
        '8'
    } else {
        '9'
    }
}

/// Appends `n`, written in decimal, to `s`.
pub fn push_decimal(s: &mut String, n: u128)
    ensures
        final(s)@ == old(s)@ + decimal(n as nat),
    decreases n,
{
    if n >= 10 {
        push_decimal(s, n / 10);
    }
    s.push(digit_to_char(n % 10));
    assert(final(s)@ =~= old(s)@ + decimal(n as nat));
}

/// `n` written in decimal, as `to_string` writes an unsigned integer.
pub fn decimal_text(n: u128) -> (s: String)
    ensures
        s@ == decimal(n as nat),
{
    let mut s = String::new();
    push_decimal(&mut s, n);
    assert(Seq::<char>::empty() + decimal(n as nat) =~= decimal(n as nat));
    s
}

/// `n` written in decimal, as `to_string` writes an unsigned integer.
pub fn decimal_string(n: u64) -> (s: String)
    ensures
        s@ == decimal(n as nat),
{
    decimal_text(n as u128)
}

/// The sequences of `parts` written one after another with `sep` between
/// each two neighbours.
pub open spec fn join(parts: Seq<Seq<char>>, sep: Seq<char>) -> Seq<char>
    decreases parts.len(),
{
    if parts.len() == 0 {
        Seq::empty()
    } else if parts.len() == 1 {
        parts[0]
    } else {
        join(parts.drop_last(), sep) + sep + parts.last()
    }
}

/// Joins `parts[from..to]` with `sep` between neighbours.
pub fn join_range(parts: &Vec<&[char]>, from: usize, to: usize, sep: char) -> (s: String)
    requires
        from <= to <= parts.len(),
    ensures
        s@ == join(parts.deep_view().subrange(from as int, to as int), seq![sep]),
{
    let ghost all = parts.deep_view().subrange(from as int, to as int);
    let mut s = String::new();
    let mut i: usize = from;
    assert(all.take(0) =~= Seq::<Seq<char>>::empty());
    while i < to
        invariant
            from <= i <= to <= parts.len(),
            all == parts.deep_view().subrange(from as int, to as int),
            s@ == join(all.take(i - from), seq![sep]),
        decreases to - i,
    {
        let ghost before = s@;
        if i > from {
            s.push(sep);
        }
        let piece = parts[i];
        assert(piece.deep_view() =~= piece@);
        assert(all[i - from] == piece@);
        let mut k: usize = 0;
        let ghost base = s@;
        while k < piece.len()
            invariant
                k <= piece.len(),
                s@ =~= base + piece@.take(k as int),
            decreases piece.len() - k,
        {
            s.push(piece[k]);
            k += 1;
        }
        assert(piece@.take(piece@.len() as int) =~= piece@);
        assert(all.take(i - from + 1).drop_last() =~= all.take(i - from));
        assert(all.take(i - from + 1).last() == piece@);
        assert(s@ =~= join(all.take(i - from + 1), seq![sep])) by {
            if i > from {
                assert(base =~= before + seq![sep]);
            } else {
                assert(base =~= Seq::<char>::empty());
                assert(all.take(1).len() == 1);
                assert(all.take(1)[0] == piece@);
            }
        }
        i += 1;
    }
    assert(all.take(i - from) =~= all);
    s
}

/// Whether `w` is a word: not empty and free of whitespace.
pub open spec fn is_word(w: Seq<char>) -> bool {
    w.len() > 0 && forall|i: int| 0 <= i < w.len() ==> !is_whitespace(#[trigger] w[i])
}

/// Whether every one of `ws` is a word.
pub open spec fn all_words(ws: Seq<Seq<char>>) -> bool {
    forall|i: int| 0 <= i < ws.len() ==> is_word(#[trigger] ws[i])
}

/// The leading word of `s` ends where `s` ends or whitespace begins.
pub proof fn lemma_word_len(s: Seq<char>)
    ensures
        word_len(s) <= s.len(),
        forall|i: int| 0 <= i < word_len(s) ==> !is_whitespace(#[trigger] s[i]),
        word_len(s) < s.len() ==> is_whitespace(s[word_len(s) as int]),
    decreases s.len(),
{
    if s.len() > 0 && !is_whitespace(s[0]) {
        lemma_word_len(s.skip(1));
        assert forall|i: int| 0 <= i < word_len(s) implies !is_whitespace(#[trigger] s[i]) by {
            if i > 0 {
                assert(s.skip(1)[i - 1] == s[i]);
            }
        }
    }
}

/// Every token is a word.
pub proof fn lemma_tokens_are_words(s: Seq<char>)
    ensures
        all_words(tokens(s)),
    decreases s.len(),
{
    if s.len() == 0 {
    } else if is_whitespace(s[0]) {
        lemma_tokens_are_words(s.skip(1));
    } else {
        let n = word_len(s);
        lemma_word_len(s);
        lemma_tokens_are_words(s.skip(n as int));
        let first = s.take(n as int);
        let rest = tokens(s.skip(n as int));
        assert(is_word(first)) by {
            assert forall|i: int| 0 <= i < first.len() implies !is_whitespace(
                #[trigger] first[i],
            ) by {
                assert(first[i] == s[i]);
            }
        }
        assert forall|i: int| 0 <= i < tokens(s).len() implies is_word(#[trigger] tokens(s)[i]) by {
            if i > 0 {
                assert(tokens(s)[i] == rest[i - 1]);
            }
        }
    }
}

/// A run free of whitespace, followed by nothing or by whitespace, is a
/// leading word.
pub proof fn lemma_word_len_of_run(w: Seq<char>, rest: Seq<char>)
    requires
        forall|i: int| 0 <= i < w.len() ==> !is_whitespace(#[trigger] w[i]),
        rest.len() == 0 || is_whitespace(rest[0]),
    ensures
        word_len(w + rest) == w.len(),
    decreases w.len(),
{
    if w.len() == 0 {
        assert(w + rest =~= rest);
    } else {
        assert((w + rest)[0] == w[0]);
        assert((w + rest).skip(1) =~= w.skip(1) + rest);
        assert forall|i: int| 0 <= i < w.skip(1).len() implies !is_whitespace(
            #[trigger] w.skip(1)[i],
        ) by {
            assert(w.skip(1)[i] == w[i + 1]);
        }
        lemma_word_len_of_run(w.skip(1), rest);
    }
}

/// A word followed by nothing or by whitespace is the first token.
pub proof fn lemma_tokens_after_word(w: Seq<char>, rest: Seq<char>)
    requires
        is_word(w),
        rest.len() == 0 || is_whitespace(rest[0]),
    ensures
        tokens(w + rest) == seq![w] + tokens(rest),
{
    let s = w + rest;
    lemma_word_len_of_run(w, rest);
    assert(s[0] == w[0]);
    assert(s.take(w.len() as int) =~= w);
    assert(s.skip(w.len() as int) =~= rest);
}

/// Joining from the front: the first part, the separator, and the rest
/// joined.
pub proof fn lemma_join_front(parts: Seq<Seq<char>>, sep: Seq<char>)
    requires
        parts.len() >= 2,
    ensures
        join(parts, sep) == parts[0] + sep + join(parts.skip(1), sep),
    decreases parts.len(),
{
    let front = parts.drop_last();
    let tail = parts.skip(1);
    if parts.len() == 2 {
        assert(front.len() == 1 && front[0] == parts[0]);
        assert(tail.len() == 1 && tail[0] == parts[1]);
        assert(join(front, sep) == parts[0]);
        assert(join(tail, sep) == parts[1]);
    } else {
        lemma_join_front(front, sep);
        assert(tail.drop_last() =~= front.skip(1));
        assert(tail.last() == parts.last());
        assert(front[0] == parts[0]);
        assert(join(parts, sep) =~= parts[0] + sep + join(tail, sep));
    }
}

/// Words joined by single spaces are read back as the same words.
pub proof fn lemma_tokens_of_join(words: Seq<Seq<char>>)
    requires
        all_words(words),
    ensures
        tokens(join(words, seq![' '])) == words,
    decreases words.len(),
{
    let sep = seq![' '];
    if words.len() == 0 {
    } else if words.len() == 1 {
        lemma_tokens_after_word(words[0], Seq::empty());
        assert(words[0] + Seq::<char>::empty() =~= words[0]);
        assert(seq![words[0]] + tokens(Seq::<char>::empty()) =~= words);
    } else {
        let tail = words.skip(1);
        assert forall|i: int| 0 <= i < tail.len() implies is_word(#[trigger] tail[i]) by {
            assert(tail[i] == words[i + 1]);
        }
        lemma_join_front(words, sep);
        lemma_tokens_of_join(tail);
        let after = sep + join(tail, sep);
        assert(after[0] == ' ');
        assert(words[0] + sep + join(tail, sep) =~= words[0] + after);
        lemma_tokens_after_word(words[0], after);
        assert(after.skip(1) =~= join(tail, sep));
        assert(tokens(after) == tokens(join(tail, sep)));
        assert(seq![words[0]] + tail =~= words);
    }
}

/// Words joined by single spaces hold no whitespace but those spaces.
pub proof fn lemma_join_has_only_spaces(words: Seq<Seq<char>>)
    requires
        all_words(words),
    ensures
        forall|i: int|
            0 <= i < join(words, seq![' ']).len() ==> {
                let c = #[trigger] join(words, seq![' '])[i];
                c == ' ' || !is_whitespace(c)
            },
        words.len() > 0 ==> join(words, seq![' ']).len() > 0 && !is_whitespace(
            join(words, seq![' ']).last(),
        ),
    decreases words.len(),
{
    let sep = seq![' '];
    if words.len() >= 2 {
        let front = words.drop_last();
        assert forall|i: int| 0 <= i < front.len() implies is_word(#[trigger] front[i]) by {
            assert(front[i] == words[i]);
        }
        lemma_join_has_only_spaces(front);
        let a = join(front, sep);
        let w = words.last();
        assert(is_word(w));
        assert forall|i: int| 0 <= i < join(words, sep).len() implies {
            let c = #[trigger] join(words, sep)[i];
            c == ' ' || !is_whitespace(c)
        } by {
            if i < a.len() {
                assert(join(words, sep)[i] == a[i]);
            } else if i == a.len() {
                assert(join(words, sep)[i] == ' ');
            } else {
                assert(join(words, sep)[i] == w[i - a.len() - 1]);
            }
        }
        assert(join(words, sep).last() == w.last());
    } else if words.len() == 1 {
        assert(is_word(words[0]));
    }
}

/// The decimal text of a number is made of digits, of at least one, and
/// writes that number.
pub proof fn lemma_decimal_reads_back(n: nat)
    ensures
        decimal(n).len() > 0,
        all_digits(decimal(n)),
        decimal_value(decimal(n)) == n,
    decreases n,
{
    if n < 10 {
        let s = seq![digit_char(n)];
        assert(s.drop_last() =~= Seq::<char>::empty());
        assert(s.last() == digit_char(n));
        assert(digit_value(digit_char(n)) == n);
        reveal_with_fuel(decimal_value, 2);
    } else {
        lemma_decimal_reads_back(n / 10);
        let front = decimal(n / 10);
        let last = digit_char(n % 10);
        assert(decimal(n).drop_last() =~= front);
        assert(decimal(n).last() == last);
        assert(digit_value(last) == n % 10);
        assert forall|i: int| 0 <= i < decimal(n).len() implies is_digit(
            #[trigger] decimal(n)[i],
        ) by {
            if i < front.len() {
                assert(decimal(n)[i] == front[i]);
            }
        }
    }
}

/// The decimal text of a number that fits is read as that number.
pub proof fn lemma_parse_decimal(n: nat)
    requires
        n <= i64::MAX,
    ensures
        parse_i64(decimal(n)) == Some(n as i64),
        is_word(decimal(n)),
{
    lemma_decimal_reads_back(n);
    let s = decimal(n);
    assert(is_digit(s[0]));
    assert forall|i: int| 0 <= i < s.len() implies !is_whitespace(#[trigger] s[i]) by {
        assert(is_digit(s[i]));
    }
}

} // verus!
