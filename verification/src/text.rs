//! Character-level helpers on strings: trimming, clipping, comparison and
//! the ASCII character classes used by the validators.

use vstd::prelude::*;
use vstd::utf8::encode_utf8;

verus! {

/// Number of bytes in the UTF-8 encoding of a character sequence; this is
/// what `str::len` reports.
pub open spec fn byte_len(s: Seq<char>) -> nat {
    encode_utf8(s).len()
}

/// The number of bytes of a string, as `str::len` reports it.
pub fn byte_length(s: &str) -> (r: usize)
    ensures
        r == byte_len(s@),
{
    s.as_bytes().len()
}

/// Whether a character has the Unicode `White_Space` property, which
/// `char::is_whitespace` reports: U+0009 to U+000D, U+0020, U+0085,
/// U+00A0, U+1680, U+2000 to U+200A, U+2028, U+2029, U+202F, U+205F and
/// U+3000.
pub open spec fn unicode_white_space(c: char) -> bool {
    let v = c as u32;
    ||| 0x09 <= v <= 0x0d
    ||| v == 0x20
    ||| v == 0x85
    ||| v == 0xa0
    ||| v == 0x1680
    ||| 0x2000 <= v <= 0x200a
    ||| v == 0x2028
    ||| v == 0x2029
    ||| v == 0x202f
    ||| v == 0x205f
    ||| v == 0x3000
}

/// Whether a character is in the Unicode general category `Cc`, which
/// `char::is_control` reports: U+0000 to U+001F and U+007F to U+009F.
pub open spec fn unicode_control(c: char) -> bool {
    let v = c as u32;
    v <= 0x1f || (0x7f <= v <= 0x9f)
}

/// Whether a character is white space, as `char::is_whitespace` answers.
pub(crate) fn is_whitespace(c: char) -> (r: bool)
    ensures
        r == unicode_white_space(c),
{
    let v = c as u32;
    (0x09 <= v && v <= 0x0d) || v == 0x20 || v == 0x85 || v == 0xa0 || v == 0x1680 || (0x2000 <= v
        && v <= 0x200a) || v == 0x2028 || v == 0x2029 || v == 0x202f || v == 0x205f || v == 0x3000
}

/// Whether a character is a control character, as `char::is_control`
/// answers.
pub(crate) fn is_control(c: char) -> (r: bool)
    ensures
        r == unicode_control(c),
{
    let v = c as u32;
    v <= 0x1f || (0x7f <= v && v <= 0x9f)
}

pub open spec fn is_ascii_digit(c: char) -> bool {
    '0' <= c && c <= '9'
}

pub open spec fn is_ascii_alphanumeric(c: char) -> bool {
    ||| ('0' <= c && c <= '9')
    ||| ('a' <= c && c <= 'z')
    ||| ('A' <= c && c <= 'Z')
}

pub fn ascii_digit(c: char) -> (r: bool)
    ensures
        r == is_ascii_digit(c),
{
    '0' <= c && c <= '9'
}

pub fn ascii_alphanumeric(c: char) -> (r: bool)
    ensures
        r == is_ascii_alphanumeric(c),
{
    ('0' <= c && c <= '9') || ('a' <= c && c <= 'z') || ('A' <= c && c <= 'Z')
}

/// The sequence with its leading whitespace removed.
pub open spec fn trim_start_spec(s: Seq<char>) -> Seq<char>
    decreases s.len(),
{
    if s.len() > 0 && unicode_white_space(s[0]) {
        trim_start_spec(s.drop_first())
    } else {
        s
    }
}

/// The sequence with its trailing whitespace removed.
pub open spec fn trim_end_spec(s: Seq<char>) -> Seq<char>
    decreases s.len(),
{
    if s.len() > 0 && unicode_white_space(s.last()) {
        trim_end_spec(s.drop_last())
    } else {
        s
    }
}

/// What `str::trim` returns: leading and trailing whitespace removed.
pub open spec fn trim_spec(s: Seq<char>) -> Seq<char> {
    trim_end_spec(trim_start_spec(s))
}

proof fn lemma_trim_start_shape(s: Seq<char>)
    ensures
        ({
            let t = trim_start_spec(s);
            &&& t.len() <= s.len()
            &&& t == s.subrange(s.len() - t.len(), s.len() as int)
            &&& t.len() > 0 ==> !unicode_white_space(t[0])
        }),
    decreases s.len(),
{
    if s.len() > 0 && unicode_white_space(s[0]) {
        lemma_trim_start_shape(s.drop_first());
        let t = trim_start_spec(s);
        assert(s.drop_first().subrange(s.drop_first().len() - t.len(), s.drop_first().len() as int)
            =~= s.subrange(s.len() - t.len(), s.len() as int));
    } else {
        assert(s.subrange(0, s.len() as int) =~= s);
    }
}

proof fn lemma_trim_end_shape(s: Seq<char>)
    ensures
        ({
            let t = trim_end_spec(s);
            &&& t.len() <= s.len()
            &&& t == s.subrange(0, t.len() as int)
            &&& t.len() > 0 ==> !unicode_white_space(t.last())
        }),
    decreases s.len(),
{
    if s.len() > 0 && unicode_white_space(s.last()) {
        lemma_trim_end_shape(s.drop_last());
        let t = trim_end_spec(s);
        assert(s.drop_last().subrange(0, t.len() as int) =~= s.subrange(0, t.len() as int));
    } else {
        assert(s.subrange(0, s.len() as int) =~= s);
    }
}

/// Trimming is idempotent: a trimmed string has nothing left to trim.
pub proof fn lemma_trim_idempotent(s: Seq<char>)
    ensures
        trim_spec(trim_spec(s)) == trim_spec(s),
{
    let a = trim_start_spec(s);
    let t = trim_end_spec(a);
    lemma_trim_start_shape(s);
    lemma_trim_end_shape(a);
    if t.len() > 0 {
        assert(t[0] == a[0]);
        assert(trim_start_spec(t) == t);
        lemma_trim_end_shape(t);
        assert(trim_end_spec(t) == t);
    } else {
        assert(trim_start_spec(t) == t);
        assert(trim_end_spec(t) == t);
    }
}

/// Leading and trailing whitespace removed, as `str::trim` does.
pub fn trim(s: &str) -> (r: &str)
    ensures
        r@ == trim_spec(s@),
{
    let n = s.unicode_len();
    let mut lo: usize = 0;
    assert(s@.subrange(0, n as int) =~= s@);
    while lo < n
        invariant
            n == s@.len(),
            lo <= n,
            trim_start_spec(s@) == trim_start_spec(s@.subrange(lo as int, n as int)),
        ensures
            lo <= n,
            trim_start_spec(s@) == trim_start_spec(s@.subrange(lo as int, n as int)),
            lo == n || !unicode_white_space(s@[lo as int]),
        decreases n - lo,
    {
        let c = s.get_char(lo);
        if !is_whitespace(c) {
            break;
        }
        assert(s@.subrange(lo as int, n as int).drop_first() =~= s@.subrange(
            lo + 1,
            n as int,
        ));
        lo = lo + 1;
    }
    let ghost front = s@.subrange(lo as int, n as int);
    assert(trim_start_spec(front) == front);
    assert(trim_start_spec(s@) == front);
    let mut hi: usize = n;
    while hi > lo
        invariant
            n == s@.len(),
            lo <= hi <= n,
            front == s@.subrange(lo as int, n as int),
            trim_end_spec(front) == trim_end_spec(s@.subrange(lo as int, hi as int)),
        ensures
            lo <= hi <= n,
            trim_end_spec(front) == trim_end_spec(s@.subrange(lo as int, hi as int)),
            hi == lo || !unicode_white_space(s@[hi - 1]),
        decreases hi - lo,
    {
        let c = s.get_char(hi - 1);
        if !is_whitespace(c) {
            break;
        }
        assert(s@.subrange(lo as int, hi as int).drop_last() =~= s@.subrange(
            lo as int,
            hi - 1,
        ));
        hi = hi - 1;
    }
    let ghost back = s@.subrange(lo as int, hi as int);
    assert(trim_end_spec(back) == back);
    s.substring_char(lo, hi)
}

/// The first `n` characters of a sequence, or the whole sequence when it
/// is shorter.
pub open spec fn clip_spec(s: Seq<char>, n: nat) -> Seq<char> {
    if s.len() <= n {
        s
    } else {
        s.take(n as int)
    }
}

/// Clipping twice to the same bound changes nothing more.
pub proof fn lemma_clip_idempotent(s: Seq<char>, n: nat)
    ensures
        clip_spec(clip_spec(s, n), n) == clip_spec(s, n),
        clip_spec(s, n).len() <= n,
        clip_spec(s, n).len() == 0 <==> s.len() == 0 || n == 0,
{
}

/// The first `max_chars` characters of `value`.
pub fn clip(value: &str, max_chars: usize) -> (r: String)
    ensures
        r@ == clip_spec(value@, max_chars as nat),
{
    let n = value.unicode_len();
    if n <= max_chars {
        value.to_owned()
    } else {
        value.substring_char(0, max_chars).to_owned()
    }
}

/// Character-wise equality of two strings.
pub fn str_eq(a: &str, b: &str) -> (r: bool)
    ensures
        r == (a@ == b@),
{
    let n = a.unicode_len();
    let m = b.unicode_len();
    if n != m {
        return false;
    }
    let mut i: usize = 0;
    while i < n
        invariant
            n == a@.len(),
            m == b@.len(),
            n == m,
            i <= n,
            forall|j: int| 0 <= j < i ==> a@[j] == b@[j],
        decreases n - i,
    {
        if a.get_char(i) != b.get_char(i) {
            return false;
        }
        i = i + 1;
    }
    assert(a@ =~= b@);
    true
}

/// Whether `suffix` is a suffix of `s`.
pub open spec fn has_suffix(s: Seq<char>, suffix: Seq<char>) -> bool {
    suffix.len() <= s.len() && s.subrange(s.len() - suffix.len(), s.len() as int) == suffix
}

pub fn ends_with(s: &str, suffix: &str) -> (r: bool)
    ensures
        r == has_suffix(s@, suffix@),
{
    let n = s.unicode_len();
    let m = suffix.unicode_len();
    if m > n {
        return false;
    }
    let off = n - m;
    let mut i: usize = 0;
    while i < m
        invariant
            n == s@.len(),
            m == suffix@.len(),
            off == n - m,
            i <= m,
            forall|j: int| 0 <= j < i ==> s@[off + j] == suffix@[j],
        decreases m - i,
    {
        if s.get_char(off + i) != suffix.get_char(i) {
            assert(s@.subrange(off as int, n as int)[i as int] != suffix@[i as int]);
            return false;
        }
        i = i + 1;
    }
    assert(s@.subrange(off as int, n as int) =~= suffix@);
    true
}

/// Whether `c` occurs in `s`.
pub fn contains_char(s: &str, c: char) -> (r: bool)
    ensures
        r == s@.contains(c),
{
    let n = s.unicode_len();
    let mut i: usize = 0;
    while i < n
        invariant
            n == s@.len(),
            i <= n,
            forall|j: int| 0 <= j < i ==> s@[j] != c,
        decreases n - i,
    {
        if s.get_char(i) == c {
            return true;
        }
        i = i + 1;
    }
    false
}

/// The concatenation of two strings.
pub fn join(a: &str, b: &str) -> (r: String)
    ensures
        r@ == a@ + b@,
{
    let mut r = String::from_str(a);
    r.append(b);
    r
}

/// An owned copy of a string.
pub fn owned(a: &str) -> (r: String)
    ensures
        r@ == a@,
{
    String::from_str(a)
}


/// The character of a decimal digit.
pub open spec fn digit_char(d: nat) -> char {
    if d == 0 { '0' } else if d == 1 { '1' } else if d == 2 { '2' } else if d == 3 { '3' }
    else if d == 4 { '4' } else if d == 5 { '5' } else if d == 6 { '6' } else if d == 7 { '7' }
    else if d == 8 { '8' } else { '9' }
}

/// The decimal notation of a natural number, without leading zeros.
pub open spec fn decimal_spec(n: nat) -> Seq<char>
    decreases n,
{
    if n < 10 {
        seq![digit_char(n)]
    } else {
        decimal_spec(n / 10).push(digit_char(n % 10))
    }
}

/// The decimal notation of an integer, with a leading `-` when negative;
/// what `to_string` gives for an integer.
pub open spec fn signed_decimal_spec(v: int) -> Seq<char> {
    if v < 0 {
        seq!['-'] + decimal_spec((-v) as nat)
    } else {
        decimal_spec(v as nat)
    }
}

fn digit_str(d: u64) -> (r: &'static str)
    requires
        d < 10,
    ensures
        r@ == seq![digit_char(d as nat)],
{
    proof {
        reveal_strlit("0");
        reveal_strlit("1");
        reveal_strlit("2");
        reveal_strlit("3");
        reveal_strlit("4");
        reveal_strlit("5");
        reveal_strlit("6");
        reveal_strlit("7");
        reveal_strlit("8");
        reveal_strlit("9");
    }
    if d == 0 { "0" } else if d == 1 { "1" } else if d == 2 { "2" } else if d == 3 { "3" }
    else if d == 4 { "4" } else if d == 5 { "5" } else if d == 6 { "6" } else if d == 7 { "7" }
    else if d == 8 { "8" } else { "9" }
}

/// The decimal notation of `n`.
pub fn decimal(n: u64) -> (r: String)
    ensures
        r@ == decimal_spec(n as nat),
    decreases n,
{
    if n < 10 {
        owned(digit_str(n))
    } else {
        let mut s = decimal(n / 10);
        s.append(digit_str(n % 10));
        s
    }
}

/// The decimal notation of `v`, with a leading `-` when negative.
pub fn signed_decimal(v: i64) -> (r: String)
    ensures
        r@ == signed_decimal_spec(v as int),
{
    if v < 0 {
        let m: i128 = v as i128;
        let magnitude: u64 = (-m) as u64;
        proof {
            reveal_strlit("-");
        }
        let mut s = owned("-");
        s.append(decimal(magnitude).as_str());
        s
    } else {
        decimal(v as u64)
    }
}

/// The value of a sequence of decimal digits.
pub open spec fn digits_value(s: Seq<char>) -> nat
    decreases s.len(),
{
    if s.len() == 0 {
        0
    } else {
        digits_value(s.drop_last()) * 10 + ((s.last() as nat) - ('0' as nat)) as nat
    }
}

pub open spec fn all_digits(s: Seq<char>) -> bool {
    forall|i: int| 0 <= i < s.len() ==> is_ascii_digit(#[trigger] s[i])
}

/// The digits that follow an optional leading `+`.
pub open spec fn unsigned_body(s: Seq<char>) -> Seq<char> {
    if s.len() > 0 && s[0] == '+' {
        s.drop_first()
    } else {
        s
    }
}

/// What `str::parse::<u8>` gives: an optional `+`, then one or more
/// decimal digits whose value is at most 255.
pub open spec fn parse_u8_spec(s: Seq<char>) -> Option<u8> {
    let d = unsigned_body(s);
    if d.len() > 0 && all_digits(d) && digits_value(d) <= 255 {
        Some(digits_value(d) as u8)
    } else {
        None
    }
}

/// What `str::parse::<i64>` gives: an optional sign, then one or more
/// decimal digits whose signed value fits in an `i64`.
pub open spec fn parse_i64_spec(s: Seq<char>) -> Option<i64> {
    if s.len() > 0 && s[0] == '-' {
        let d = s.drop_first();
        if d.len() > 0 && all_digits(d) && digits_value(d) <= 0x8000_0000_0000_0000 {
            Some((-(digits_value(d) as int)) as i64)
        } else {
            None
        }
    } else {
        let d = unsigned_body(s);
        if d.len() > 0 && all_digits(d) && digits_value(d) <= 0x7fff_ffff_ffff_ffff {
            Some(digits_value(d) as i64)
        } else {
            None
        }
    }
}

pub open spec fn min_nat(a: nat, b: nat) -> nat {
    if a <= b { a } else { b }
}

/// Reads the digits of `s` from `from` on: whether all are decimal digits,
/// and their value, held at `cap + 1` once it exceeds `cap`.
fn read_digits(s: &str, from: usize, cap: u64) -> (r: (bool, u64))
    requires
        from <= s@.len(),
        cap < 0xffff_ffff_ffff_ffff,
    ensures
        r.0 == all_digits(s@.skip(from as int)),
        r.0 ==> r.1 == min_nat(digits_value(s@.skip(from as int)), (cap + 1) as nat),
{
    let n = s.unicode_len();
    let mut i: usize = from;
    let mut acc: u64 = 0;
    assert(s@.subrange(from as int, from as int) =~= Seq::<char>::empty());
    while i < n
        invariant
            n == s@.len(),
            from <= i <= n,
            cap < 0xffff_ffff_ffff_ffff,
            all_digits(s@.subrange(from as int, i as int)),
            acc == min_nat(digits_value(s@.subrange(from as int, i as int)), (cap + 1) as nat),
        decreases n - i,
    {
        let c = s.get_char(i);
        if !ascii_digit(c) {
            assert(s@.skip(from as int)[i - from] == c);
            return (false, 0);
        }
        let d: u64 = (c as u64) - ('0' as u64);
        let ghost prev = s@.subrange(from as int, i as int);
        let ghost nseq = s@.subrange(from as int, i + 1);
        assert(nseq.drop_last() =~= prev);
        assert(nseq.last() == c);
        let next: u128 = (acc as u128) * 10 + (d as u128);
        if next > cap as u128 {
            acc = cap + 1;
        } else {
            acc = next as u64;
        }
        proof {
            let v = digits_value(prev);
            assert(digits_value(nseq) == v * 10 + d);
            if v > cap {
                assert(v * 10 + d > cap);
            }
        }
        i = i + 1;
    }
    assert(s@.subrange(from as int, n as int) =~= s@.skip(from as int));
    (true, acc)
}

/// `s` as an unsigned byte, as `str::parse::<u8>` reads it.
pub fn parse_u8(s: &str) -> (r: Option<u8>)
    ensures
        r == parse_u8_spec(s@),
{
    let n = s.unicode_len();
    let from: usize = if n > 0 && s.get_char(0) == '+' { 1 } else { 0 };
    assert(s@.skip(from as int) =~= unsigned_body(s@));
    if from == n {
        return None;
    }
    let (ok, v) = read_digits(s, from, 255);
    if ok && v <= 255 {
        Some(v as u8)
    } else {
        None
    }
}

/// `s` as a signed 64-bit integer, as `str::parse::<i64>` reads it.
pub fn parse_i64(s: &str) -> (r: Option<i64>)
    ensures
        r == parse_i64_spec(s@),
{
    let n = s.unicode_len();
    if n > 0 && s.get_char(0) == '-' {
        assert(s@.skip(1) =~= s@.drop_first());
        if n == 1 {
            return None;
        }
        let (ok, v) = read_digits(s, 1, 0x8000_0000_0000_0000);
        if ok && v <= 0x8000_0000_0000_0000 {
            let w: i128 = -(v as i128);
            Some(w as i64)
        } else {
            None
        }
    } else {
        let from: usize = if n > 0 && s.get_char(0) == '+' { 1 } else { 0 };
        assert(s@.skip(from as int) =~= unsigned_body(s@));
        if from == n {
            return None;
        }
        let (ok, v) = read_digits(s, from, 0x7fff_ffff_ffff_ffff);
        if ok && v <= 0x7fff_ffff_ffff_ffff {
            Some(v as i64)
        } else {
            None
        }
    }
}


/// The decimal notation of a number is a non-empty run of digits that
/// reads back as the number.
pub proof fn lemma_decimal_digits(n: nat)
    ensures
        decimal_spec(n).len() > 0,
        all_digits(decimal_spec(n)),
        digits_value(decimal_spec(n)) == n,
    decreases n,
{
    lemma_digit_char_value(n % 10);
    let s = decimal_spec(n);
    if n >= 10 {
        lemma_decimal_digits(n / 10);
        assert(s.drop_last() =~= decimal_spec(n / 10));
        assert(n == (n / 10) * 10 + n % 10);
    } else {
        assert(s.drop_last() =~= Seq::<char>::empty());
        assert(digits_value(Seq::<char>::empty()) == 0);
    }
    assert(s.last() == digit_char(n % 10));
}

proof fn lemma_digit_char_value(d: nat)
    requires
        d < 10,
    ensures
        is_ascii_digit(digit_char(d)),
        (digit_char(d) as nat) - ('0' as nat) == d,
{
}

/// Reading the decimal notation of a byte gives the byte back.
pub proof fn lemma_parse_u8_decimal(v: u8)
    ensures
        parse_u8_spec(decimal_spec(v as nat)) == Some(v),
{
    lemma_decimal_digits(v as nat);
    let s = decimal_spec(v as nat);
    assert(is_ascii_digit(s[0]));
    assert(unsigned_body(s) == s);
}

/// Reading the decimal notation of a 64-bit integer gives it back.
pub proof fn lemma_parse_i64_decimal(v: i64)
    ensures
        parse_i64_spec(signed_decimal_spec(v as int)) == Some(v),
{
    if v < 0 {
        let m = (-(v as int)) as nat;
        lemma_decimal_digits(m);
        let s = signed_decimal_spec(v as int);
        assert(s.drop_first() =~= decimal_spec(m));
    } else {
        lemma_decimal_digits(v as nat);
        let s = decimal_spec(v as nat);
        assert(is_ascii_digit(s[0]));
        assert(unsigned_body(s) == s);
    }
}


/// Whether `pat` occurs in `s` as a contiguous run.
pub open spec fn has_infix(s: Seq<char>, pat: Seq<char>) -> bool {
    exists|i: int| 0 <= i && i + pat.len() <= s.len() && #[trigger] s.subrange(i, i + pat.len()) == pat
}

fn matches_at(s: &str, pat: &str, at: usize) -> (r: bool)
    requires
        at + pat@.len() <= s@.len(),
    ensures
        r == (s@.subrange(at as int, at + pat@.len()) == pat@),
{
    let m = pat.unicode_len();
    let _n = s.unicode_len();
    let mut j: usize = 0;
    while j < m
        invariant
            m == pat@.len(),
            _n == s@.len(),
            at + m <= s@.len(),
            j <= m,
            forall|k: int| 0 <= k < j ==> s@[at + k] == pat@[k],
        decreases m - j,
    {
        if s.get_char(at + j) != pat.get_char(j) {
            assert(s@.subrange(at as int, at + m)[j as int] != pat@[j as int]);
            return false;
        }
        j = j + 1;
    }
    assert(s@.subrange(at as int, at + m) =~= pat@);
    true
}

/// Whether `pat` occurs in `s`, as `str::contains` with a string pattern.
pub fn contains_str(s: &str, pat: &str) -> (r: bool)
    ensures
        r == has_infix(s@, pat@),
{
    let n = s.unicode_len();
    let m = pat.unicode_len();
    if m > n {
        return false;
    }
    let mut i: usize = 0;
    loop
        invariant
            n == s@.len(),
            m == pat@.len(),
            m <= n,
            i <= n - m,
            forall|k: int| 0 <= k < i ==> #[trigger] s@.subrange(k, k + m) != pat@,
        decreases n - m - i,
    {
        if matches_at(s, pat, i) {
            return true;
        }
        if i == n - m {
            return false;
        }
        i = i + 1;
    }
}

} // verus!
