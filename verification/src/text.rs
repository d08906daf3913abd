//! Character-level text building blocks: pushing characters, decimal
//! rendering and parsing of integers, and Unicode whitespace trimming.

use vstd::prelude::*;
use vstd::string::*;

verus! {

/// Appends one character to a string: `String::push`, which the contract
/// claims appends exactly `c`.
#[verifier::external_body]
pub(crate) fn push_char(s: &mut String, c: char)
    ensures
        final(s)@ == old(s)@.push(c),
{
    s.push(c);
}

/// The ASCII digit for `d` (taken modulo 10).
pub open spec fn digit_char(d: nat) -> char {
    ((d % 10) + 48) as char
}

/// The decimal rendering of `n`, without leading zeros (`"0"` for zero).
pub open spec fn decimal(n: nat) -> Seq<char>
    decreases n,
{
    if n < 10 {
        seq![digit_char(n)]
    } else {
        decimal(n / 10).push(digit_char(n % 10))
    }
}

/// The digit character for a value below ten.
pub fn digit(d: u64) -> (c: char)
    requires
        d < 10,
    ensures
        c == digit_char(d as nat),
{
    let v: u8 = (d as u8) + 48;
    v as char
}

/// Appends the decimal rendering of `n`.
pub fn push_decimal(s: &mut String, n: u64)
    ensures
        final(s)@ == old(s)@ + decimal(n as nat),
    decreases n,
{
    if n >= 10 {
        push_decimal(s, n / 10);
    }
    let c = digit(n % 10);
    push_char(s, c);
    proof {
        if n < 10 {
            assert(old(s)@ + decimal(n as nat) =~= old(s)@.push(c));
        } else {
            assert(decimal(n as nat) == decimal((n / 10) as nat).push(digit_char((n % 10) as nat)));
        }
    }
}

/// The decimal rendering of `n` as a new string.
pub fn decimal_string(n: u64) -> (s: String)
    ensures
        s@ == decimal(n as nat),
{
    let mut s = String::new();
    push_decimal(&mut s, n);
    assert(Seq::<char>::empty() + decimal(n as nat) =~= decimal(n as nat));
    s
}

/// Appends the characters of `t`.
pub fn push_str(s: &mut String, t: &str)
    ensures
        final(s)@ == old(s)@ + t@,
{
    s.append(t);
}

/// Whether `c` is an ASCII decimal digit.
pub open spec fn is_digit(c: char) -> bool {
    '0' <= c && c <= '9'
}

/// The value of a run of decimal digits (leading zeros allowed).
pub open spec fn digits_value(s: Seq<char>) -> nat
    decreases s.len(),
{
    if s.len() == 0 {
        0
    } else {
        digits_value(s.drop_last()) * 10 + ((s.last() as nat) - 48) as nat
    }
}

/// The text after an optional leading `+`.
pub open spec fn unsigned_part(s: Seq<char>) -> Seq<char> {
    if s.len() > 0 && s[0] == '+' { s.skip(1) } else { s }
}

/// Whether every character is an ASCII digit.
pub open spec fn all_digits(s: Seq<char>) -> bool {
    forall|i: int| 0 <= i < s.len() ==> is_digit(#[trigger] s[i])
}

/// What `str::parse::<u32>` accepts: an optional `+`, then one or more ASCII
/// digits whose value fits in `u32`.
pub open spec fn spec_parse_u32(s: Seq<char>) -> Option<u32> {
    let ds = unsigned_part(s);
    if ds.len() > 0 && all_digits(ds) && digits_value(ds) <= u32::MAX {
        Some(digits_value(ds) as u32)
    } else {
        None
    }
}

proof fn lemma_digits_value_prefix(s: Seq<char>, i: int)
    requires
        0 <= i < s.len(),
    ensures
        digits_value(s.take(i + 1)) == digits_value(s.take(i)) * 10 + ((s[i] as nat) - 48) as nat,
{
    assert(s.take(i + 1).drop_last() =~= s.take(i));
}

proof fn lemma_digits_value_monotone(s: Seq<char>, i: int)
    requires
        0 <= i <= s.len(),
        forall|k: int| 0 <= k < s.len() ==> is_digit(#[trigger] s[k]),
    ensures
        digits_value(s.take(i)) <= digits_value(s),
    decreases s.len() - i,
{
    if i < s.len() {
        lemma_digits_value_prefix(s, i);
        lemma_digits_value_monotone(s, i + 1);
    } else {
        assert(s.take(i) =~= s);
    }
}

/// Parses a `u32` exactly as `str::parse::<u32>` does.
pub fn parse_u32(s: &str) -> (res: Option<u32>)
    ensures
        res == spec_parse_u32(s@),
{
    let n = s.unicode_len();
    let mut start: usize = 0;
    if n > 0 && s.get_char(0) == '+' {
        start = 1;
    }
    let ghost ds = unsigned_part(s@);
    if start >= n {
        return None;
    }
    let mut value: u64 = 0;
    let mut i: usize = start;
    while i < n
        invariant
            n == s@.len(),
            start <= i <= n,
            start < n,
            ds == s@.skip(start as int),
            ds == unsigned_part(s@),
            forall|k: int| 0 <= k < i - start ==> is_digit(#[trigger] ds[k]),
            value == digits_value(ds.take(i - start)),
            value <= u32::MAX,
        decreases n - i,
    {
        let c = s.get_char(i);
        assert(ds[i - start] == c);
        if !('0' <= c && c <= '9') {
            assert(!is_digit(ds[i - start]));
            assert(!all_digits(ds));
            return None;
        }
        proof {
            lemma_digits_value_prefix(ds, i - start);
        }
        let d = (c as u32 - 48u32) as u64;
        let next = value * 10 + d;
        if next > u32::MAX as u64 {
            proof {
                if all_digits(ds) {
                    lemma_digits_value_monotone(ds, i - start + 1);
                }
            }
            return None;
        }
        value = next;
        i = i + 1;
    }
    assert(ds.take(i - start) =~= ds);
    Some(value as u32)
}

/// The value of `ds` if it is a non-empty run of digits worth at most `limit`.
pub open spec fn bounded_digits(ds: Seq<char>, limit: nat) -> Option<nat> {
    if ds.len() > 0 && all_digits(ds) && digits_value(ds) <= limit {
        Some(digits_value(ds))
    } else {
        None
    }
}

/// The value of the digits of `s` from position `start` on (see
/// [`bounded_digits`]).
fn digits_upto(s: &str, start: usize, limit: u64) -> (r: Option<u64>)
    requires
        start <= s@.len(),
    ensures
        match bounded_digits(s@.skip(start as int), limit as nat) {
            Some(v) => r == Some(v as u64),
            None => r is None,
        },
{
    let n = s.unicode_len();
    let ghost ds = s@.skip(start as int);
    if start >= n {
        return None;
    }
    let mut value: u128 = 0;
    let mut i: usize = start;
    while i < n
        invariant
            n == s@.len(),
            start <= i <= n,
            start < n,
            ds == s@.skip(start as int),
            forall|k: int| 0 <= k < i - start ==> is_digit(#[trigger] ds[k]),
            value == digits_value(ds.take(i - start)),
            value <= limit,
        decreases n - i,
    {
        let c = s.get_char(i);
        assert(ds[i - start] == c);
        if !('0' <= c && c <= '9') {
            assert(!is_digit(ds[i - start]));
            assert(!all_digits(ds));
            return None;
        }
        proof {
            lemma_digits_value_prefix(ds, i - start);
        }
        let d = (c as u32 - 48u32) as u128;
        let next = value * 10 + d;
        if next > limit as u128 {
            proof {
                if all_digits(ds) {
                    lemma_digits_value_monotone(ds, i - start + 1);
                }
            }
            return None;
        }
        value = next;
        i = i + 1;
    }
    assert(ds.take(i - start) =~= ds);
    Some(value as u64)
}

/// The decimal rendering of a signed number (`i64::to_string`).
pub open spec fn signed_decimal(n: int) -> Seq<char> {
    if n < 0 { seq!['-'] + decimal((-n) as nat) } else { decimal(n as nat) }
}

/// Appends the decimal rendering of a signed number.
pub fn push_i64(s: &mut String, n: i64)
    ensures
        final(s)@ == old(s)@ + signed_decimal(n as int),
{
    if n < 0 {
        push_char(s, '-');
        let magnitude: u64 = if n == i64::MIN { 9223372036854775808u64 } else { (-n) as u64 };
        push_decimal(s, magnitude);
        assert(s@ =~= old(s)@ + signed_decimal(n as int));
    } else {
        push_decimal(s, n as u64);
    }
}

/// What `str::parse::<i64>` accepts: an optional sign, then one or more
/// ASCII digits whose signed value fits in `i64`.
pub open spec fn spec_parse_i64(s: Seq<char>) -> Option<i64> {
    if s.len() > 0 && s[0] == '-' {
        match bounded_digits(s.skip(1), 9223372036854775808) {
            Some(v) => Some((0 - v) as i64),
            None => None,
        }
    } else {
        match bounded_digits(unsigned_part(s), 9223372036854775807) {
            Some(v) => Some(v as i64),
            None => None,
        }
    }
}

/// Parses an `i64` exactly as `str::parse::<i64>` does.
pub fn parse_i64(s: &str) -> (res: Option<i64>)
    ensures
        res == spec_parse_i64(s@),
{
    let n = s.unicode_len();
    if n > 0 && s.get_char(0) == '-' {
        match digits_upto(s, 1, 9223372036854775808u64) {
            Some(v) => {
                if v == 9223372036854775808u64 {
                    Some(i64::MIN)
                } else {
                    Some(0 - (v as i64))
                }
            },
            None => None,
        }
    } else {
        let start: usize = if n > 0 && s.get_char(0) == '+' { 1 } else { 0 };
        assert(unsigned_part(s@) == s@.skip(start as int)) by {
            if start == 0 {
                assert(s@.skip(0) =~= s@);
            }
        }
        match digits_upto(s, start, 9223372036854775807u64) {
            Some(v) => Some(v as i64),
            None => None,
        }
    }
}

/// The decimal rendering consists of digits and spells its number.
pub proof fn lemma_decimal_digits(n: nat)
    ensures
        decimal(n).len() > 0,
        all_digits(decimal(n)),
        digits_value(decimal(n)) == n,
    decreases n,
{
    assert((digit_char(n % 10) as nat) == n % 10 + 48);
    if n < 10 {
        assert(decimal(n).drop_last() =~= Seq::<char>::empty());
        assert(digits_value(decimal(n)) == digits_value(decimal(n).drop_last()) * 10 + ((decimal(n).last() as nat) - 48) as nat);
    }
    if n >= 10 {
        lemma_decimal_digits(n / 10);
        let d = decimal(n);
        assert(d.drop_last() == decimal(n / 10));
        assert(d.last() == digit_char(n % 10));
        assert(digits_value(d) == digits_value(d.drop_last()) * 10 + ((d.last() as nat) - 48) as nat);
        assert((n / 10) * 10 + n % 10 == n);
        assert forall|i: int| 0 <= i < d.len() implies is_digit(#[trigger] d[i]) by {
            if i < d.len() - 1 {
                assert(d[i] == decimal(n / 10)[i]);
            }
        }
    }
}

/// Parsing the signed decimal rendering of a number gives the number back.
pub proof fn lemma_parse_signed_decimal(n: i64)
    ensures
        spec_parse_i64(signed_decimal(n as int)) == Some(n),
{
    if n >= 0 {
        lemma_decimal_digits(n as nat);
        let d = decimal(n as nat);
        assert(is_digit(d[0]));
        assert(unsigned_part(d) == d);
    } else {
        let m = (-(n as int)) as nat;
        lemma_decimal_digits(m);
        let s = signed_decimal(n as int);
        assert(s == seq!['-'] + decimal(m));
        assert(s.skip(1) =~= decimal(m));
    }
}

/// The characters `str::trim` removes: the Unicode `White_Space` property.
pub open spec fn is_whitespace(c: char) -> bool {
    ||| ('\u{9}' <= c && c <= '\u{d}')
    ||| c == ' '
    ||| c == '\u{85}'
    ||| c == '\u{a0}'
    ||| c == '\u{1680}'
    ||| ('\u{2000}' <= c && c <= '\u{200a}')
    ||| c == '\u{2028}'
    ||| c == '\u{2029}'
    ||| c == '\u{202f}'
    ||| c == '\u{205f}'
    ||| c == '\u{3000}'
}

/// Whether `c` has the Unicode `White_Space` property (`char::is_whitespace`).
pub fn char_is_whitespace(c: char) -> (b: bool)
    ensures
        b == is_whitespace(c),
{
    ('\u{9}' <= c && c <= '\u{d}') || c == ' ' || c == '\u{85}' || c == '\u{a0}' || c == '\u{1680}'
        || ('\u{2000}' <= c && c <= '\u{200a}') || c == '\u{2028}' || c == '\u{2029}' || c == '\u{202f}'
        || c == '\u{205f}' || c == '\u{3000}'
}

/// `s` with leading and trailing whitespace removed, as `str::trim` does: the
/// part from the first to the last non-whitespace character.
pub open spec fn trim_spec(s: Seq<char>) -> Seq<char> {
    trim_end_spec(trim_start_spec(s))
}

/// `s` without its leading whitespace.
pub open spec fn trim_start_spec(s: Seq<char>) -> Seq<char>
    decreases s.len(),
{
    if s.len() > 0 && is_whitespace(s[0]) {
        trim_start_spec(s.skip(1))
    } else {
        s
    }
}

/// `s` without its trailing whitespace.
pub open spec fn trim_end_spec(s: Seq<char>) -> Seq<char>
    decreases s.len(),
{
    if s.len() > 0 && is_whitespace(s.last()) {
        trim_end_spec(s.drop_last())
    } else {
        s
    }
}

proof fn lemma_trim_start_skip(s: Seq<char>, i: int)
    requires
        0 <= i <= s.len(),
        forall|k: int| 0 <= k < i ==> is_whitespace(#[trigger] s[k]),
    ensures
        trim_start_spec(s) == trim_start_spec(s.skip(i)),
    decreases i,
{
    if i > 0 {
        assert(s.skip(1).skip(i - 1) =~= s.skip(i));
        lemma_trim_start_skip(s.skip(1), i - 1);
    } else {
        assert(s.skip(0) =~= s);
    }
}

proof fn lemma_trim_end_take(s: Seq<char>, j: int)
    requires
        0 <= j <= s.len(),
        forall|k: int| j <= k < s.len() ==> is_whitespace(#[trigger] s[k]),
    ensures
        trim_end_spec(s) == trim_end_spec(s.take(j)),
    decreases s.len() - j,
{
    if j < s.len() {
        assert(s.drop_last().take(j) =~= s.take(j));
        lemma_trim_end_take(s.drop_last(), j);
    } else {
        assert(s.take(j) =~= s);
    }
}

/// `str::trim`: the text without leading and trailing whitespace.
pub fn trim(s: &str) -> (t: String)
    ensures
        t@ == trim_spec(s@),
{
    let n = s.unicode_len();
    let mut i: usize = 0;
    while i < n && char_is_whitespace(s.get_char(i))
        invariant
            n == s@.len(),
            i <= n,
            forall|k: int| 0 <= k < i ==> is_whitespace(#[trigger] s@[k]),
        decreases n - i,
    {
        i = i + 1;
    }
    proof {
        lemma_trim_start_skip(s@, i as int);
    }
    let mut j: usize = n;
    while j > i && char_is_whitespace(s.get_char(j - 1))
        invariant
            n == s@.len(),
            i <= j <= n,
            forall|k: int| j <= k < n ==> is_whitespace(#[trigger] s@[k]),
        decreases j,
    {
        j = j - 1;
    }
    let ghost rest = s@.skip(i as int);
    proof {
        if i < n {
            assert(!is_whitespace(rest[0]));
        }
        assert(trim_start_spec(rest) == rest);
        assert forall|k: int| j - i <= k < rest.len() implies is_whitespace(#[trigger] rest[k]) by {
            assert(rest[k] == s@[k + i]);
        }
        lemma_trim_end_take(rest, j - i);
        let r2 = rest.take(j - i);
        if j > i {
            assert(r2.last() == s@[j - 1]);
        }
        assert(trim_end_spec(r2) == r2);
        assert(r2 =~= s@.subrange(i as int, j as int));
    }
    String::from_str(s.substring_char(i, j))
}

/// The lowercase hexadecimal digit for `d` (taken modulo 16).
pub open spec fn hex_char(d: nat) -> char {
    let v = d % 16;
    if v < 10 { (v + 48) as char } else { (v + 87) as char }
}

/// The lowercase hexadecimal digit for a value below sixteen.
pub fn hex_digit(d: u64) -> (c: char)
    requires
        d < 16,
    ensures
        c == hex_char(d as nat),
{
    if d < 10 {
        let v: u8 = (d as u8) + 48;
        v as char
    } else {
        let v: u8 = (d as u8) + 87;
        v as char
    }
}

/// The last `width` hexadecimal digits of `n`, zero-padded (`{:0width$x}` for
/// values below `16^width`).
pub open spec fn hex_fixed(n: nat, width: nat) -> Seq<char>
    decreases width,
{
    if width == 0 {
        Seq::empty()
    } else {
        hex_fixed(n / 16, (width - 1) as nat).push(hex_char(n % 16))
    }
}

/// Appends the sixteen-digit lowercase hexadecimal rendering of `n`
/// (`{:016x}`).
pub fn push_hex16(s: &mut String, n: u64)
    ensures
        final(s)@ == old(s)@ + hex_fixed(n as nat, 16),
{
    let mut digits: Vec<char> = Vec::new();
    let mut k: u64 = n;
    let mut i: usize = 0;
    proof {
        lemma_pow16_zero(n as nat);
    }
    while i < 16
        invariant
            i <= 16,
            digits@.len() == i,
            k as nat == (n as nat) / pow16(i as nat),
            forall|j: int| 0 <= j < i ==> #[trigger] digits@[j] == hex_char((n as nat) / pow16(j as nat)),
        decreases 16 - i,
    {
        proof {
            lemma_pow16_step(n as nat, i as nat);
        }
        digits.push(hex_digit(k % 16));
        k = k / 16;
        i = i + 1;
    }
    let ghost start = s@;
    let mut j: usize = 16;
    while j > 0
        invariant
            j <= 16,
            digits@.len() == 16,
            forall|m: int| 0 <= m < 16 ==> #[trigger] digits@[m] == hex_char((n as nat) / pow16(m as nat)),
            s@ == start + hex_fixed((n as nat) / pow16(j as nat), (16 - j) as nat),
        decreases j,
    {
        j = j - 1;
        proof {
            lemma_pow16_step(n as nat, j as nat);
            lemma_hex_fixed_push((n as nat) / pow16((j + 1) as nat), (n as nat) / pow16(j as nat), (16 - j - 1) as nat);
        }
        push_char(s, digits[j]);
    }
    proof {
        lemma_pow16_zero(n as nat);
    }
}

proof fn lemma_pow16_zero(n: nat)
    ensures
        n / pow16(0) == n,
{
    assert(pow16(0) == 1);
    vstd::arithmetic::div_mod::lemma_div_basics(n as int);
}

/// `16^k`.
pub open spec fn pow16(k: nat) -> nat
    decreases k,
{
    if k == 0 { 1 } else { 16 * pow16((k - 1) as nat) }
}

proof fn lemma_pow16_step(n: nat, i: nat)
    ensures
        pow16(i) > 0,
        n / pow16(i + 1) == (n / pow16(i)) / 16,
        hex_char(n / pow16(i)) == hex_char((n / pow16(i)) % 16),
    decreases i,
{
    if i > 0 {
        lemma_pow16_step(n, (i - 1) as nat);
    }
    assert(pow16(i + 1) == 16 * pow16(i));
    vstd::arithmetic::div_mod::lemma_div_denominator(n as int, pow16(i) as int, 16);
    assert(pow16(i) * 16 == 16 * pow16(i)) by (nonlinear_arith);
}

/// Prepending the next higher digit to a fixed-width rendering.
proof fn lemma_hex_fixed_push(hi: nat, lo: nat, w: nat)
    requires
        hi == lo / 16,
    ensures
        hex_fixed(hi, w).push(hex_char(lo % 16)) == hex_fixed(lo, w + 1),
{
}

/// The lowercase hexadecimal rendering of a byte string, two digits per byte.
pub open spec fn hex_bytes(b: Seq<u8>) -> Seq<char>
    decreases b.len(),
{
    if b.len() == 0 {
        Seq::empty()
    } else {
        hex_bytes(b.drop_last()) + seq![hex_char((b.last() / 16) as nat), hex_char((b.last() % 16) as nat)]
    }
}

/// Appends the lowercase hexadecimal rendering of `b`.
pub fn push_hex_bytes(s: &mut String, b: &[u8])
    ensures
        final(s)@ == old(s)@ + hex_bytes(b@),
{
    let ghost start = s@;
    let mut i: usize = 0;
    while i < b.len()
        invariant
            i <= b@.len(),
            s@ == start + hex_bytes(b@.take(i as int)),
        decreases b@.len() - i,
    {
        let byte = b[i];
        push_char(s, hex_digit((byte / 16) as u64));
        push_char(s, hex_digit((byte % 16) as u64));
        proof {
            let t = b@.take(i + 1);
            assert(t.drop_last() =~= b@.take(i as int));
            assert(t.last() == byte);
        }
        i = i + 1;
    }
    assert(b@.take(b@.len() as int) =~= b@);
}

/// Whether two texts are equal, character for character.
pub fn same_text(a: &str, b: &str) -> (r: bool)
    ensures
        r == (a@ == b@),
{
    let n = a.unicode_len();
    if n != b.unicode_len() {
        return false;
    }
    let mut i: usize = 0;
    while i < n
        invariant
            n == a@.len(),
            n == b@.len(),
            i <= n,
            forall|k: int| 0 <= k < i ==> a@[k] == b@[k],
        decreases n - i,
    {
        if a.get_char(i) != b.get_char(i) {
            return false;
        }
        i = i + 1;
    }
    assert(a@ =~= b@);
    true
}

/// `str::trim_start`: the text without its leading whitespace.
pub fn trim_start(s: &str) -> (t: String)
    ensures
        t@ == trim_start_spec(s@),
{
    let n = s.unicode_len();
    let mut i: usize = 0;
    while i < n && char_is_whitespace(s.get_char(i))
        invariant
            n == s@.len(),
            i <= n,
            forall|k: int| 0 <= k < i ==> is_whitespace(#[trigger] s@[k]),
        decreases n - i,
    {
        i = i + 1;
    }
    proof {
        lemma_trim_start_skip(s@, i as int);
        let rest = s@.skip(i as int);
        if i < n {
            assert(!is_whitespace(rest[0]));
        }
        assert(trim_start_spec(rest) == rest);
        assert(rest =~= s@.subrange(i as int, n as int));
    }
    String::from_str(s.substring_char(i, n))
}

/// `str::trim_end`: the text without its trailing whitespace.
pub fn trim_end(s: &str) -> (t: String)
    ensures
        t@ == trim_end_spec(s@),
{
    let n = s.unicode_len();
    let mut j: usize = n;
    while j > 0 && char_is_whitespace(s.get_char(j - 1))
        invariant
            n == s@.len(),
            j <= n,
            forall|k: int| j <= k < n ==> is_whitespace(#[trigger] s@[k]),
        decreases j,
    {
        j = j - 1;
    }
    proof {
        lemma_trim_end_take(s@, j as int);
        let r = s@.take(j as int);
        if j > 0 {
            assert(r.last() == s@[j - 1]);
        }
        assert(trim_end_spec(r) == r);
        assert(r =~= s@.subrange(0, j as int));
    }
    String::from_str(s.substring_char(0, j))
}

/// `s` without the copies of `c` at its start.
pub open spec fn strip_start(s: Seq<char>, c: char) -> Seq<char>
    decreases s.len(),
{
    if s.len() > 0 && s[0] == c { strip_start(s.skip(1), c) } else { s }
}

/// `s` without the copies of `c` at its end.
pub open spec fn strip_end(s: Seq<char>, c: char) -> Seq<char>
    decreases s.len(),
{
    if s.len() > 0 && s.last() == c { strip_end(s.drop_last(), c) } else { s }
}

proof fn lemma_strip_start_skip(s: Seq<char>, c: char, i: int)
    requires
        0 <= i <= s.len(),
        forall|k: int| 0 <= k < i ==> #[trigger] s[k] == c,
    ensures
        strip_start(s, c) == strip_start(s.skip(i), c),
    decreases i,
{
    if i > 0 {
        assert(s.skip(1).skip(i - 1) =~= s.skip(i));
        assert forall|k: int| 0 <= k < i - 1 implies #[trigger] s.skip(1)[k] == c by {
            assert(s.skip(1)[k] == s[k + 1]);
        }
        lemma_strip_start_skip(s.skip(1), c, i - 1);
    } else {
        assert(s.skip(0) =~= s);
    }
}

proof fn lemma_strip_end_take(s: Seq<char>, c: char, j: int)
    requires
        0 <= j <= s.len(),
        forall|k: int| j <= k < s.len() ==> #[trigger] s[k] == c,
    ensures
        strip_end(s, c) == strip_end(s.take(j), c),
    decreases s.len() - j,
{
    if j < s.len() {
        assert(s.drop_last().take(j) =~= s.take(j));
        assert forall|k: int| j <= k < s.drop_last().len() implies #[trigger] s.drop_last()[k] == c by {
            assert(s.drop_last()[k] == s[k]);
        }
        lemma_strip_end_take(s.drop_last(), c, j);
    } else {
        assert(s.take(j) =~= s);
    }
}

/// `str::trim_start_matches(c)` for one character.
pub fn trim_char_start(s: &str, c: char) -> (t: String)
    ensures
        t@ == strip_start(s@, c),
{
    let n = s.unicode_len();
    let mut i: usize = 0;
    while i < n && s.get_char(i) == c
        invariant
            n == s@.len(),
            i <= n,
            forall|k: int| 0 <= k < i ==> #[trigger] s@[k] == c,
        decreases n - i,
    {
        i = i + 1;
    }
    proof {
        lemma_strip_start_skip(s@, c, i as int);
        let rest = s@.skip(i as int);
        if i < n {
            assert(rest[0] != c);
        }
        assert(strip_start(rest, c) == rest);
        assert(rest =~= s@.subrange(i as int, n as int));
    }
    String::from_str(s.substring_char(i, n))
}

/// `str::trim_matches(c)` for one character: the text without the copies
/// of `c` at either end.
pub fn trim_char(s: &str, c: char) -> (t: String)
    ensures
        t@ == strip_end(strip_start(s@, c), c),
{
    let n = s.unicode_len();
    let mut i: usize = 0;
    while i < n && s.get_char(i) == c
        invariant
            n == s@.len(),
            i <= n,
            forall|k: int| 0 <= k < i ==> #[trigger] s@[k] == c,
        decreases n - i,
    {
        i = i + 1;
    }
    let mut j: usize = n;
    while j > i && s.get_char(j - 1) == c
        invariant
            n == s@.len(),
            i <= j <= n,
            forall|k: int| j <= k < n ==> #[trigger] s@[k] == c,
        decreases j,
    {
        j = j - 1;
    }
    let ghost rest = s@.skip(i as int);
    proof {
        lemma_strip_start_skip(s@, c, i as int);
        if i < n {
            assert(rest[0] != c);
        }
        assert(strip_start(rest, c) == rest);
        assert forall|k: int| j - i <= k < rest.len() implies #[trigger] rest[k] == c by {
            assert(rest[k] == s@[k + i]);
        }
        lemma_strip_end_take(rest, c, j - i);
        let r2 = rest.take(j - i);
        if j > i {
            assert(r2.last() == s@[j - 1]);
        }
        assert(strip_end(r2, c) == r2);
        assert(r2 =~= s@.subrange(i as int, j as int));
    }
    String::from_str(s.substring_char(i, j))
}

/// Whitespace collapsing: each run of whitespace becomes one space; the
/// result and whether the text ends inside a run.
pub open spec fn collapse_state(s: Seq<char>) -> (Seq<char>, bool)
    decreases s.len(),
{
    if s.len() == 0 {
        (Seq::empty(), false)
    } else {
        let (out, in_run) = collapse_state(s.drop_last());
        let c = s.last();
        if is_whitespace(c) {
            if in_run { (out, true) } else { (out.push(' '), true) }
        } else {
            (out.push(c), false)
        }
    }
}

/// `s` with each run of whitespace replaced by one space.
pub open spec fn collapse_spec(s: Seq<char>) -> Seq<char> {
    collapse_state(s).0
}

/// Replaces each run of whitespace in `text` by one space.
pub fn collapse_whitespace(text: &str) -> (out: String)
    ensures
        out@ == collapse_spec(text@),
{
    let n = text.unicode_len();
    let mut out = String::new();
    let mut last_ws = false;
    let mut i: usize = 0;
    while i < n
        invariant
            n == text@.len(),
            i <= n,
            (out@, last_ws) == collapse_state(text@.take(i as int)),
        decreases n - i,
    {
        let c = text.get_char(i);
        proof {
            assert(text@.take(i + 1).drop_last() =~= text@.take(i as int));
            assert(text@.take(i + 1).last() == c);
        }
        if char_is_whitespace(c) {
            if !last_ws {
                push_char(&mut out, ' ');
            }
            last_ws = true;
        } else {
            push_char(&mut out, c);
            last_ws = false;
        }
        i = i + 1;
    }
    assert(text@.take(n as int) =~= text@);
    out
}

} // verus!
