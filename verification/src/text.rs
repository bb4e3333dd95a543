//! Character-level helpers shared by the parsers and formatters.

use vstd::prelude::*;
use vstd::string::StringExecFns;

verus! {

/// `char::is_whitespace`: the Unicode `White_Space` property.
pub open spec fn is_white_space(c: char) -> bool {
    let u = c as u32;
    ||| 0x9 <= u <= 0xD
    ||| u == 0x20
    ||| u == 0x85
    ||| u == 0xA0
    ||| u == 0x1680
    ||| 0x2000 <= u <= 0x200A
    ||| u == 0x2028
    ||| u == 0x2029
    ||| u == 0x202F
    ||| u == 0x205F
    ||| u == 0x3000
}

/// `char::is_control`: the Unicode general category `Cc`.
pub open spec fn is_control(c: char) -> bool {
    let u = c as u32;
    u <= 0x1F || (0x7F <= u <= 0x9F)
}

/// Leading white space removed.
pub open spec fn trim_start(s: Seq<char>) -> Seq<char>
    decreases s.len(),
{
    if s.len() > 0 && is_white_space(s[0]) {
        trim_start(s.drop_first())
    } else {
        s
    }
}

/// Trailing white space removed.
pub open spec fn trim_end(s: Seq<char>) -> Seq<char>
    decreases s.len(),
{
    if s.len() > 0 && is_white_space(s.last()) {
        trim_end(s.drop_last())
    } else {
        s
    }
}

/// `str::trim`.
pub open spec fn trim(s: Seq<char>) -> Seq<char> {
    trim_end(trim_start(s))
}

/// Index of the first `c` at or after `i`, or the length when there is none.
pub open spec fn first_from(s: Seq<char>, c: char, i: int) -> int
    decreases s.len() - i,
{
    if i < 0 || i >= s.len() {
        s.len() as int
    } else if s[i] == c {
        i
    } else {
        first_from(s, c, i + 1)
    }
}

/// The words of `s` split at white space, with the word still open at its end.
pub open spec fn word_scan(s: Seq<char>) -> (Seq<Seq<char>>, Seq<char>)
    decreases s.len(),
{
    if s.len() == 0 {
        (Seq::empty(), Seq::empty())
    } else {
        let (done, cur) = word_scan(s.drop_last());
        if is_white_space(s.last()) {
            if cur.len() > 0 {
                (done.push(cur), Seq::empty())
            } else {
                (done, Seq::empty())
            }
        } else {
            (done, cur.push(s.last()))
        }
    }
}

/// `str::split_whitespace`: the non-empty runs of non-white-space characters.
pub open spec fn words(s: Seq<char>) -> Seq<Seq<char>> {
    let (done, cur) = word_scan(s);
    if cur.len() > 0 {
        done.push(cur)
    } else {
        done
    }
}

/// The ASCII digit for `d < 10`.
pub open spec fn digit_char(d: nat) -> char {
    (48 + d) as char
}

/// Decimal notation of a natural number, without leading zeros.
pub open spec fn decimal(n: nat) -> Seq<char>
    decreases n,
{
    if n < 10 {
        seq![digit_char(n)]
    } else {
        decimal(n / 10).push(digit_char(n % 10))
    }
}

/// Decimal notation of an integer, with a minus sign when negative.
pub open spec fn signed_decimal(n: int) -> Seq<char> {
    if n < 0 {
        seq!['-'] + decimal((-n) as nat)
    } else {
        decimal(n as nat)
    }
}

/// The upper-case hexadecimal digit for `d < 16`.
pub open spec fn hex_digit_char(d: nat) -> char {
    if d < 10 {
        (48 + d) as char
    } else {
        (55 + d) as char
    }
}

/// Upper-case hexadecimal notation of a natural number, without leading zeros.
pub open spec fn hex(n: nat) -> Seq<char>
    decreases n,
{
    if n < 16 {
        seq![hex_digit_char(n)]
    } else {
        hex(n / 16).push(hex_digit_char(n % 16))
    }
}

/// `s` left-padded with `pad` to at least `width` characters.
pub open spec fn left_pad(s: Seq<char>, pad: char, width: nat) -> Seq<char> {
    if s.len() < width {
        Seq::new((width - s.len()) as nat, |_i: int| pad) + s
    } else {
        s
    }
}

/// Upper-case hexadecimal notation zero-padded to `width` digits, as `{:0width$X}` writes it.
pub open spec fn hex_padded(n: nat, width: nat) -> Seq<char> {
    left_pad(hex(n), '0', width)
}

/// What `format!("{:?}", s)` writes for a string slice.
pub uninterp spec fn debug_quoted(s: Seq<char>) -> Seq<char>;

/// Appends one character to a `String` (`String::push`).
#[verifier::external_body]
pub(crate) fn push_char(s: &mut String, c: char)
    ensures
        final(s)@ == old(s)@.push(c),
{
    s.push(c);
}

/// The `Debug` rendering of a string slice (`format!("{:?}", s)`): quoted and escaped.
#[verifier::external_body]
pub(crate) fn debug_str(s: &str) -> (out: String)
    ensures
        out@ == debug_quoted(s@),
{
    format!("{:?}", s)
}

/// Decides `char::is_whitespace`.
pub fn char_is_whitespace(c: char) -> (b: bool)
    ensures
        b == is_white_space(c),
{
    let u = c as u32;
    (0x9 <= u && u <= 0xD) || u == 0x20 || u == 0x85 || u == 0xA0 || u == 0x1680 || (0x2000
        <= u && u <= 0x200A) || u == 0x2028 || u == 0x2029 || u == 0x202F || u == 0x205F || u
        == 0x3000
}

/// Decides `char::is_control`.
pub fn char_is_control(c: char) -> (b: bool)
    ensures
        b == is_control(c),
{
    let u = c as u32;
    u <= 0x1F || (0x7F <= u && u <= 0x9F)
}

/// Collects the characters of a string slice into a vector.
pub fn chars_of(s: &str) -> (out: Vec<char>)
    ensures
        out@ == s@,
{
    let mut out: Vec<char> = Vec::new();
    for c in it: s.chars()
        invariant
            out@ == it.seq().take(it.index() as int),
            it.seq() == s@,
    {
        out.push(c);
    }
    out
}

/// A `String` holding `v[lo..hi]`.
pub fn string_of(v: &[char], lo: usize, hi: usize) -> (out: String)
    requires
        lo <= hi <= v@.len(),
    ensures
        out@ == v@.subrange(lo as int, hi as int),
{
    let mut out = String::new();
    let mut i = lo;
    while i < hi
        invariant
            lo <= i <= hi <= v@.len(),
            out@ == v@.subrange(lo as int, i as int),
        decreases hi - i,
    {
        push_char(&mut out, v[i]);
        i += 1;
        assert(out@ =~= v@.subrange(lo as int, i as int));
    }
    out
}

/// Whether `v[lo..hi]` spells exactly `lit`.
pub fn chars_eq(v: &[char], lo: usize, hi: usize, lit: &str) -> (b: bool)
    requires
        lo <= hi <= v@.len(),
    ensures
        b == (v@.subrange(lo as int, hi as int) == lit@),
{
    let w = chars_of(lit);
    if hi - lo != w.len() {
        return false;
    }
    let mut i: usize = 0;
    while i < w.len()
        invariant
            hi - lo == w@.len(),
            lo <= hi <= v@.len(),
            w@ == lit@,
            i <= w@.len(),
            forall|j: int| 0 <= j < i ==> v@[lo + j] == w@[j],
        decreases w@.len() - i,
    {
        if v[lo + i] != w[i] {
            assert(v@.subrange(lo as int, hi as int)[i as int] != lit@[i as int]);
            return false;
        }
        i += 1;
    }
    assert(v@.subrange(lo as int, hi as int) =~= lit@);
    true
}

/// Whether two strings hold the same characters.
pub fn str_eq(a: &str, b: &str) -> (r: bool)
    ensures
        r == (a@ == b@),
{
    let v = chars_of(a);
    let r = chars_eq(&v, 0, v.len(), b);
    assert(v@.subrange(0, v@.len() as int) =~= v@);
    r
}

/// Appends the decimal notation of `n`.
pub fn push_decimal(s: &mut String, n: u64)
    ensures
        final(s)@ == old(s)@ + decimal(n as nat),
    decreases n,
{
    if n >= 10 {
        push_decimal(s, n / 10);
    }
    let d = (n % 10) as u8;
    push_char(s, (48u8 + d) as char);
    assert(final(s)@ =~= old(s)@ + decimal(n as nat));
}

/// Appends the decimal notation of `n`, with a minus sign when it is negative.
pub fn push_signed_decimal(s: &mut String, n: i64)
    ensures
        final(s)@ == old(s)@ + signed_decimal(n as int),
{
    if n < 0 {
        push_char(s, '-');
        let m: u64 = if n == i64::MIN {
            0x8000_0000_0000_0000u64
        } else {
            (-n) as u64
        };
        push_decimal(s, m);
        assert(final(s)@ =~= old(s)@ + signed_decimal(n as int));
    } else {
        push_decimal(s, n as u64);
    }
}

/// Appends the upper-case hexadecimal notation of `n`.
pub fn push_hex(s: &mut String, n: u64)
    ensures
        final(s)@ == old(s)@ + hex(n as nat),
    decreases n,
{
    if n >= 16 {
        push_hex(s, n / 16);
    }
    let d = (n % 16) as u8;
    let c = if d < 10 {
        (48u8 + d) as char
    } else {
        (55u8 + d) as char
    };
    push_char(s, c);
    assert(final(s)@ =~= old(s)@ + hex(n as nat));
}

/// Number of hexadecimal digits of `n`.
pub fn hex_len(n: u64) -> (len: usize)
    ensures
        len == hex(n as nat).len(),
        len <= 16,
    decreases n,
{
    if n >= 16 {
        let l = hex_len(n / 16);
        proof {
            lemma_hex_len_bound(n as nat);
        }
        l + 1
    } else {
        1
    }
}

proof fn lemma_hex_len_bound(n: nat)
    ensures
        n < 0x1_0000_0000_0000_0000 ==> hex(n).len() <= 16,
        hex(n).len() >= 1,
    decreases n,
{
    if n >= 16 {
        lemma_hex_len_bound(n / 16);
    }
    if n < 0x1_0000_0000_0000_0000 {
        assert(pow16(16) == 0x1_0000_0000_0000_0000) by {
            reveal_with_fuel(pow16, 17);
        }
        lemma_hex_len_small(n, 16);
    }
}

proof fn lemma_hex_len_small(n: nat, k: nat)
    requires
        k >= 1,
        n < pow16(k),
    ensures
        hex(n).len() <= k,
    decreases k,
{
    if n >= 16 {
        assert(k >= 2) by {
            if k == 1 {
                assert(pow16(1) == 16 * pow16(0));
            }
        }
        assert(pow16(k) == 16 * pow16((k - 1) as nat));
        assert(n / 16 < pow16((k - 1) as nat));
        lemma_hex_len_small(n / 16, (k - 1) as nat);
    }
}

spec fn pow16(k: nat) -> nat
    decreases k,
{
    if k == 0 {
        1
    } else {
        16 * pow16((k - 1) as nat)
    }
}

/// Appends `n` in upper-case hexadecimal, zero-padded to `width` digits.
pub fn push_hex_padded(s: &mut String, n: u64, width: usize)
    ensures
        final(s)@ == old(s)@ + hex_padded(n as nat, width as nat),
{
    let len = hex_len(n);
    let ghost start = s@;
    let mut k: usize = len;
    while k < width
        invariant
            len == hex(n as nat).len(),
            len <= k,
            k <= width || k == len,
            s@ == start + Seq::new((k - len) as nat, |_i: int| '0'),
        decreases width - k,
    {
        push_char(s, '0');
        k += 1;
        assert(s@ =~= start + Seq::new((k - len) as nat, |_i: int| '0'));
    }
    push_hex(s, n);
    proof {
        if len < width {
            assert(s@ =~= start + hex_padded(n as nat, width as nat));
        } else {
            assert(s@ =~= start + hex_padded(n as nat, width as nat));
        }
    }
}

/// Appends a string slice.
pub fn push_str(s: &mut String, t: &str)
    ensures
        final(s)@ == old(s)@ + t@,
{
    s.append(t);
}

/// A new `String` holding `t`.
pub fn string_from(t: &str) -> (out: String)
    ensures
        out@ == t@,
{
    String::from_str(t)
}

/// Bounds of `v[lo..hi]` with white space trimmed from both ends.
pub fn trim_bounds(v: &[char], lo: usize, hi: usize) -> (r: (usize, usize))
    requires
        lo <= hi <= v@.len(),
    ensures
        lo <= r.0 <= r.1 <= hi,
        v@.subrange(r.0 as int, r.1 as int) == trim(v@.subrange(lo as int, hi as int)),
{
    let mut a = lo;
    while a < hi && char_is_whitespace(v[a])
        invariant
            lo <= a <= hi <= v@.len(),
            trim_start(v@.subrange(lo as int, hi as int)) == trim_start(
                v@.subrange(a as int, hi as int),
            ),
        decreases hi - a,
    {
        assert(v@.subrange(a as int, hi as int).drop_first() =~= v@.subrange(
            a + 1,
            hi as int,
        ));
        a += 1;
    }
    let mut b = hi;
    while b > a && char_is_whitespace(v[b - 1])
        invariant
            lo <= a <= b <= hi <= v@.len(),
            trim_end(v@.subrange(a as int, hi as int)) == trim_end(
                v@.subrange(a as int, b as int),
            ),
        decreases b - a,
    {
        assert(v@.subrange(a as int, b as int).drop_last() =~= v@.subrange(
            a as int,
            b - 1,
        ));
        b -= 1;
    }
    (a, b)
}

/// Index of the first `c` in `v[lo..hi]`, or `hi` when there is none.
pub fn find_char(v: &[char], lo: usize, hi: usize, c: char) -> (r: usize)
    requires
        lo <= hi <= v@.len(),
    ensures
        lo <= r <= hi,
        r - lo == first_from(v@.subrange(lo as int, hi as int), c, 0),
{
    let ghost s = v@.subrange(lo as int, hi as int);
    let mut i = lo;
    while i < hi && v[i] != c
        invariant
            lo <= i <= hi <= v@.len(),
            s == v@.subrange(lo as int, hi as int),
            first_from(s, c, 0) == first_from(s, c, i - lo),
        decreases hi - i,
    {
        i += 1;
    }
    i
}

/// The white-space separated words of `v[lo..hi]`.
pub fn split_words(v: &[char], lo: usize, hi: usize) -> (out: Vec<(usize, usize)>)
    requires
        lo <= hi <= v@.len(),
    ensures
        out@.len() == words(v@.subrange(lo as int, hi as int)).len(),
        forall|k: int|
            0 <= k < out@.len() ==> {
                &&& lo <= (#[trigger] out@[k]).0 <= out@[k].1 <= hi
                &&& v@.subrange(out@[k].0 as int, out@[k].1 as int) == words(
                    v@.subrange(lo as int, hi as int),
                )[k]
            },
{
    let mut out: Vec<(usize, usize)> = Vec::new();
    let mut start = lo;
    let mut i = lo;
    while i < hi
        invariant
            lo <= start <= i <= hi <= v@.len(),
            word_scan(v@.subrange(lo as int, i as int)).1 == v@.subrange(start as int, i as int),
            out@.len() == word_scan(v@.subrange(lo as int, i as int)).0.len(),
            forall|k: int|
                0 <= k < out@.len() ==> {
                    &&& lo <= (#[trigger] out@[k]).0 <= out@[k].1 <= hi
                    &&& v@.subrange(out@[k].0 as int, out@[k].1 as int) == word_scan(
                        v@.subrange(lo as int, i as int),
                    ).0[k]
                },
        decreases hi - i,
    {
        let ghost prev = v@.subrange(lo as int, i as int);
        let ghost next = v@.subrange(lo as int, i + 1);
        assert(next.drop_last() =~= prev);
        assert(next.last() == v@[i as int]);
        if char_is_whitespace(v[i]) {
            if start < i {
                out.push((start, i));
            }
            start = i + 1;
            assert(v@.subrange(start as int, (i + 1) as int) =~= Seq::<char>::empty());
        } else {
            assert(v@.subrange(start as int, i + 1) =~= v@.subrange(start as int, i as int).push(
                v@[i as int],
            ));
        }
        i += 1;
    }
    if start < hi {
        out.push((start, hi));
    }
    out
}

/// The lower-case hexadecimal digit for `d < 16`.
pub open spec fn hex_digit_lower(d: nat) -> char {
    if d < 10 {
        (48 + d) as char
    } else {
        (87 + d) as char
    }
}

/// Lower-case hexadecimal notation of a natural number, without leading zeros.
pub open spec fn hex_lower(n: nat) -> Seq<char>
    decreases n,
{
    if n < 16 {
        seq![hex_digit_lower(n)]
    } else {
        hex_lower(n / 16).push(hex_digit_lower(n % 16))
    }
}

/// Appends the lower-case hexadecimal notation of `n`.
pub fn push_hex_lower(s: &mut String, n: u64)
    ensures
        final(s)@ == old(s)@ + hex_lower(n as nat),
    decreases n,
{
    if n >= 16 {
        push_hex_lower(s, n / 16);
    }
    let d = (n % 16) as u8;
    let c = if d < 10 {
        (48u8 + d) as char
    } else {
        (87u8 + d) as char
    };
    push_char(s, c);
    assert(final(s)@ =~= old(s)@ + hex_lower(n as nat));
}

/// ASCII upper-case letters mapped to lower case, everything else kept.
pub open spec fn ascii_lower(c: char) -> char {
    if 'A' <= c <= 'Z' {
        ((c as u32) + 32) as char
    } else {
        c
    }
}

/// `str::eq_ignore_ascii_case`.
pub open spec fn eq_ignore_ascii_case(a: Seq<char>, b: Seq<char>) -> bool {
    a.len() == b.len() && forall|i: int| 0 <= i < a.len() ==> ascii_lower(#[trigger] a[i])
        == ascii_lower(b[i])
}

/// Lower-cases one ASCII letter.
pub fn to_ascii_lower(c: char) -> (r: char)
    ensures
        r == ascii_lower(c),
{
    if 'A' <= c && c <= 'Z' {
        ((c as u8) + 32) as char
    } else {
        c
    }
}

/// Decides `eq_ignore_ascii_case`.
pub fn str_eq_ignore_ascii_case(a: &str, b: &str) -> (r: bool)
    ensures
        r == eq_ignore_ascii_case(a@, b@),
{
    let x = chars_of(a);
    let y = chars_of(b);
    if x.len() != y.len() {
        return false;
    }
    let mut i: usize = 0;
    while i < x.len()
        invariant
            x@ == a@,
            y@ == b@,
            x@.len() == y@.len(),
            i <= x@.len(),
            forall|j: int| 0 <= j < i ==> ascii_lower(#[trigger] x@[j]) == ascii_lower(y@[j]),
        decreases x@.len() - i,
    {
        if to_ascii_lower(x[i]) != to_ascii_lower(y[i]) {
            return false;
        }
        i += 1;
    }
    true
}

/// What `String::from_utf8_lossy` makes of a byte sequence.
pub uninterp spec fn utf8_lossy_text(bytes: Seq<u8>) -> Seq<char>;

/// A UTF-16 unit that starts a surrogate pair.
pub open spec fn is_high_surrogate(u: u16) -> bool {
    0xD800 <= u <= 0xDBFF
}

/// A UTF-16 unit that ends a surrogate pair.
pub open spec fn is_low_surrogate(u: u16) -> bool {
    0xDC00 <= u <= 0xDFFF
}

/// The character a surrogate pair encodes.
pub open spec fn pair_value(hi: u16, lo: u16) -> int {
    0x10000 + (hi - 0xD800) * 0x400 + (lo - 0xDC00)
}

/// UTF-16 decoding, with each unit that is not part of a surrogate pair replaced by U+FFFD
/// (what `String::from_utf16_lossy` does).
pub open spec fn utf16_lossy_text(units: Seq<u16>) -> Seq<char>
    decreases units.len(),
{
    if units.len() == 0 {
        Seq::empty()
    } else if is_high_surrogate(units[0]) && units.len() > 1 && is_low_surrogate(units[1]) {
        seq![pair_value(units[0], units[1]) as char] + utf16_lossy_text(
            units.subrange(2, units.len() as int),
        )
    } else if is_high_surrogate(units[0]) || is_low_surrogate(units[0]) {
        seq!['\u{FFFD}'] + utf16_lossy_text(units.drop_first())
    } else {
        seq![units[0] as char] + utf16_lossy_text(units.drop_first())
    }
}

/// UTF-16 decoding: `None` when a unit is not part of a surrogate pair (what
/// `String::from_utf16` refuses).
pub open spec fn utf16_text(units: Seq<u16>) -> Option<Seq<char>>
    decreases units.len(),
{
    if units.len() == 0 {
        Some(Seq::empty())
    } else if is_high_surrogate(units[0]) && units.len() > 1 && is_low_surrogate(units[1]) {
        match utf16_text(units.subrange(2, units.len() as int)) {
            Some(rest) => Some(seq![pair_value(units[0], units[1]) as char] + rest),
            None => None,
        }
    } else if is_high_surrogate(units[0]) || is_low_surrogate(units[0]) {
        None
    } else {
        match utf16_text(units.drop_first()) {
            Some(rest) => Some(seq![units[0] as char] + rest),
            None => None,
        }
    }
}

/// The character with scalar value `x`, when there is one (`char::from_u32`).
#[verifier::external_body]
pub(crate) fn char_from_u32(x: u32) -> (c: Option<char>)
    ensures
        (x <= 0x10FFFF && !(0xD800 <= x <= 0xDFFF)) <==> c is Some,
        c matches Some(ch) ==> ch == x as char,
{
    char::from_u32(x)
}

/// Decodes the units from `i` on; `lossy` replaces units outside surrogate pairs, otherwise
/// they stop the decoding with `None`.
fn utf16_decode(units: &[u16], lossy: bool) -> (r: Option<String>)
    ensures
        lossy ==> (r matches Some(s) && s@ == utf16_lossy_text(units@)),
        !lossy ==> match r {
            Some(s) => utf16_text(units@) == Some(s@),
            None => utf16_text(units@) is None,
        },
{
    let n = units.len();
    let mut out = String::new();
    let mut i: usize = 0;
    assert(units@.subrange(0, n as int) =~= units@);
    assert(out@ + utf16_lossy_text(units@) =~= utf16_lossy_text(units@));
    while i < n
        invariant
            n == units@.len(),
            i <= n,
            lossy ==> out@ + utf16_lossy_text(units@.subrange(i as int, n as int))
                == utf16_lossy_text(units@),
            !lossy ==> (utf16_text(units@) is Some <==> utf16_text(
                units@.subrange(i as int, n as int),
            ) is Some),
            !lossy ==> (utf16_text(units@) matches Some(all) ==> all == out@ + utf16_text(
                units@.subrange(i as int, n as int),
            )->0),
        decreases n - i,
    {
        let ghost rest = units@.subrange(i as int, n as int);
        assert(rest[0] == units@[i as int]);
        let u = units[i];
        if 0xD800 <= u && u <= 0xDBFF && i + 1 < n && 0xDC00 <= units[i + 1] && units[i + 1] <= 0xDFFF {
            let lo = units[i + 1];
            assert(rest[1] == lo);
            assert(rest.subrange(2, rest.len() as int) =~= units@.subrange(i + 2, n as int));
            let x: u32 = 0x10000 + ((u - 0xD800) as u32) * 0x400 + ((lo - 0xDC00) as u32);
            assert(x == pair_value(u, lo));
            match char_from_u32(x) {
                Some(c) => push_char(&mut out, c),
                None => {},
            }
            proof {
                assert(seq![pair_value(u, lo) as char] == seq![x as char]);
            }
            i = i + 2;
        } else if 0xD800 <= u && u <= 0xDFFF {
            assert(rest.drop_first() =~= units@.subrange(i + 1, n as int));
            if !lossy {
                return None;
            }
            push_char(&mut out, '\u{FFFD}');
            i = i + 1;
        } else {
            assert(rest.drop_first() =~= units@.subrange(i + 1, n as int));
            match char_from_u32(u as u32) {
                Some(c) => push_char(&mut out, c),
                None => {},
            }
            i = i + 1;
        }
    }
    assert(units@.subrange(n as int, n as int) =~= Seq::<u16>::empty());
    Some(out)
}

/// Decodes UTF-8, replacing invalid sequences (`String::from_utf8_lossy`).
#[verifier::external_body]
pub(crate) fn utf8_lossy(bytes: &[u8]) -> (s: String)
    ensures
        s@ == utf8_lossy_text(bytes@),
{
    String::from_utf8_lossy(bytes).to_string()
}

/// Decodes UTF-16, replacing units outside surrogate pairs with U+FFFD.
pub fn utf16_lossy(units: &[u16]) -> (s: String)
    ensures
        s@ == utf16_lossy_text(units@),
{
    match utf16_decode(units, true) {
        Some(s) => s,
        None => String::new(),
    }
}

/// Decodes UTF-16, refusing units outside surrogate pairs.
pub fn utf16_strict(units: &[u16]) -> (s: Option<String>)
    ensures
        match s {
            Some(t) => utf16_text(units@) == Some(t@),
            None => utf16_text(units@) is None,
        },
{
    utf16_decode(units, false)
}

} // verus!
