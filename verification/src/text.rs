//! Small verified text helpers: pushing characters and writing decimals.

use vstd::prelude::*;

verus! {

/// Appends one character to `s` (`String::push`).
#[verifier::external_body]
pub(crate) fn push_char(s: &mut String, c: char)
    ensures
        final(s)@ == old(s)@.push(c),
{
    s.push(c);
}

/// The ASCII digit for `d < 10`.
pub open spec fn digit_char(d: nat) -> char {
    ((48 + d) as u32) as char
}

/// Decimal notation of `n`, without leading zeros.
pub open spec fn spec_decimal(n: nat) -> Seq<char>
    decreases n,
{
    if n < 10 {
        seq![digit_char(n)]
    } else {
        spec_decimal(n / 10).push(digit_char(n % 10))
    }
}

/// Appends the decimal notation of `n` to `s`.
pub fn push_decimal(s: &mut String, n: u64)
    ensures
        final(s)@ == old(s)@ + spec_decimal(n as nat),
    decreases n,
{
    if n >= 10 {
        push_decimal(s, n / 10);
    }
    let d = (n % 10) as u8;
    let c = (48u8 + d) as char;
    assert(c == digit_char((n % 10) as nat));
    push_char(s, c);
    assert(spec_decimal(n as nat) == if n < 10 {
        seq![digit_char(n as nat)]
    } else {
        spec_decimal((n / 10) as nat).push(digit_char((n % 10) as nat))
    });
    proof {
        if n < 10 {
            assert(old(s)@.push(c) =~= old(s)@ + seq![c]);
        } else {
            assert((old(s)@ + spec_decimal((n / 10) as nat)).push(c) =~= old(s)@ + spec_decimal((n / 10) as nat).push(c));
        }
    }
}

/// Whether `a` and `b` hold the same characters, compared byte by byte.
pub fn str_equals(a: &str, b: &str) -> (equal: bool)
    ensures
        equal == (a@ == b@),
{
    let x = a.as_bytes();
    let y = b.as_bytes();
    proof {
        vstd::utf8::encode_utf8_decode_utf8(a@);
        vstd::utf8::encode_utf8_decode_utf8(b@);
    }
    if x.len() != y.len() {
        assert(x@ != y@);
        return false;
    }
    let mut i: usize = 0;
    while i < x.len()
        invariant
            x@ == vstd::utf8::encode_utf8(a@),
            y@ == vstd::utf8::encode_utf8(b@),
            x@.len() == y@.len(),
            i <= x@.len(),
            forall|j: int| 0 <= j < i ==> x@[j] == y@[j],
        decreases x@.len() - i,
    {
        if x[i] != y[i] {
            assert(x@ != y@);
            return false;
        }
        i = i + 1;
    }
    assert(x@ =~= y@);
    true
}

/// Unicode general category Cc (`char::is_control`).
pub open spec fn spec_is_control(c: char) -> bool {
    (c as u32) <= 0x1f || (0x7f <= (c as u32) && (c as u32) <= 0x9f)
}

/// Whether `c` is a control character.
pub fn is_control(c: char) -> (control: bool)
    ensures
        control == spec_is_control(c),
{
    let code = c as u32;
    code <= 0x1f || (0x7f <= code && code <= 0x9f)
}

/// Bytes in the UTF-8 encoding of `c` (`char::len_utf8`).
pub open spec fn spec_char_utf8_len(c: char) -> nat {
    if (c as u32) < 0x80 {
        1
    } else if (c as u32) < 0x800 {
        2
    } else if (c as u32) < 0x1_0000 {
        3
    } else {
        4
    }
}

/// Bytes in the UTF-8 encoding of `c`.
pub fn char_utf8_len(c: char) -> (len: usize)
    ensures
        len == spec_char_utf8_len(c),
{
    let code = c as u32;
    if code < 0x80 {
        1
    } else if code < 0x800 {
        2
    } else if code < 0x1_0000 {
        3
    } else {
        4
    }
}

/// Bytes in the UTF-8 encoding of `s`.
pub open spec fn utf8_len(s: Seq<char>) -> nat
    decreases s.len(),
{
    if s.len() == 0 {
        0
    } else {
        utf8_len(s.drop_last()) + spec_char_utf8_len(s.last())
    }
}

/// The encoded length of a prefix never exceeds that of a longer prefix.
pub proof fn lemma_utf8_len_prefix_monotone(s: Seq<char>, i: int, j: int)
    requires
        0 <= i <= j <= s.len(),
    ensures
        utf8_len(s.take(i)) <= utf8_len(s.take(j)),
    decreases j - i,
{
    if i < j {
        lemma_utf8_len_prefix_monotone(s, i, j - 1);
        assert(s.take(j).drop_last() =~= s.take(j - 1));
    }
}

/// Whether `bytes` is a lowercase hexadecimal SHA-256 digest: 64 characters
/// from `0-9a-f`.
pub open spec fn is_lower_hex_sha256(bytes: Seq<u8>) -> bool {
    &&& bytes.len() == 64
    &&& forall|i: int| 0 <= i < 64 ==> is_lower_hex_byte(#[trigger] bytes[i])
}

pub open spec fn is_lower_hex_byte(b: u8) -> bool {
    (0x30 <= b && b <= 0x39) || (0x61 <= b && b <= 0x66)
}

/// Whether `value` is a lowercase hexadecimal SHA-256 digest.
pub fn lower_hex_sha256(value: &str) -> (valid: bool)
    ensures
        valid == is_lower_hex_sha256(vstd::utf8::encode_utf8(value@)),
{
    let bytes = value.as_bytes();
    if bytes.len() != 64 {
        return false;
    }
    let mut i: usize = 0;
    while i < 64
        invariant
            bytes@ == vstd::utf8::encode_utf8(value@),
            bytes@.len() == 64,
            i <= 64,
            forall|j: int| 0 <= j < i ==> is_lower_hex_byte(#[trigger] bytes@[j]),
        decreases 64 - i,
    {
        let b = bytes[i];
        if !((0x30 <= b && b <= 0x39) || (0x61 <= b && b <= 0x66)) {
            return false;
        }
        i = i + 1;
    }
    true
}

/// `char::is_whitespace`: the Unicode White_Space property.
pub open spec fn spec_is_whitespace(c: char) -> bool {
    let u = c as u32;
    (0x09 <= u && u <= 0x0d) || u == 0x20 || u == 0x85 || u == 0xa0 || u == 0x1680
        || (0x2000 <= u && u <= 0x200a) || u == 0x2028 || u == 0x2029 || u == 0x202f
        || u == 0x205f || u == 0x3000
}

/// Whether `c` is white space.
pub fn is_whitespace(c: char) -> (white: bool)
    ensures
        white == spec_is_whitespace(c),
{
    let u = c as u32;
    (0x09 <= u && u <= 0x0d) || u == 0x20 || u == 0x85 || u == 0xa0 || u == 0x1680
        || (0x2000 <= u && u <= 0x200a) || u == 0x2028 || u == 0x2029 || u == 0x202f
        || u == 0x205f || u == 0x3000
}

/// `s` without leading white space.
pub open spec fn spec_trim_start(s: Seq<char>) -> Seq<char>
    decreases s.len(),
{
    if s.len() > 0 && spec_is_whitespace(s[0]) {
        spec_trim_start(s.drop_first())
    } else {
        s
    }
}

/// `s` without trailing white space.
pub open spec fn spec_trim_end(s: Seq<char>) -> Seq<char>
    decreases s.len(),
{
    if s.len() > 0 && spec_is_whitespace(s.last()) {
        spec_trim_end(s.drop_last())
    } else {
        s
    }
}

/// `str::trim`: `s` without leading and trailing white space.
pub open spec fn spec_trim(s: Seq<char>) -> Seq<char> {
    spec_trim_end(spec_trim_start(s))
}

/// `s` without trailing `c` characters (`str::trim_end_matches` with a char).
pub open spec fn spec_trim_end_char(s: Seq<char>, c: char) -> Seq<char>
    decreases s.len(),
{
    if s.len() > 0 && s.last() == c {
        spec_trim_end_char(s.drop_last(), c)
    } else {
        s
    }
}

/// Trimming keeps a contiguous part of the text: no character is added.
pub proof fn lemma_trim_within(s: Seq<char>)
    ensures
        spec_trim(s).len() <= s.len(),
        forall|i: int| 0 <= i < spec_trim(s).len() ==> s.contains(#[trigger] spec_trim(s)[i]),
{
    lemma_trim_start_within(s);
    lemma_trim_end_within(spec_trim_start(s));
}

proof fn lemma_trim_start_within(s: Seq<char>)
    ensures
        spec_trim_start(s).len() <= s.len(),
        forall|i: int| 0 <= i < spec_trim_start(s).len() ==> s.contains(#[trigger] spec_trim_start(s)[i]),
    decreases s.len(),
{
    if s.len() > 0 && spec_is_whitespace(s[0]) {
        lemma_trim_start_within(s.drop_first());
        assert forall|i: int| 0 <= i < spec_trim_start(s).len() implies s.contains(#[trigger] spec_trim_start(s)[i]) by {
            let c = spec_trim_start(s)[i];
            assert(s.drop_first().contains(c));
            let j = choose|j: int| 0 <= j < s.drop_first().len() && s.drop_first()[j] == c;
            assert(s[j + 1] == c);
        }
    } else {
        assert forall|i: int| 0 <= i < spec_trim_start(s).len() implies s.contains(#[trigger] spec_trim_start(s)[i]) by {
            assert(s[i] == spec_trim_start(s)[i]);
        }
    }
}

proof fn lemma_trim_end_within(s: Seq<char>)
    ensures
        spec_trim_end(s).len() <= s.len(),
        forall|i: int| 0 <= i < spec_trim_end(s).len() ==> s.contains(#[trigger] spec_trim_end(s)[i]),
    decreases s.len(),
{
    if s.len() > 0 && spec_is_whitespace(s.last()) {
        lemma_trim_end_within(s.drop_last());
        assert forall|i: int| 0 <= i < spec_trim_end(s).len() implies s.contains(#[trigger] spec_trim_end(s)[i]) by {
            let c = spec_trim_end(s)[i];
            assert(s.drop_last().contains(c));
            let j = choose|j: int| 0 <= j < s.drop_last().len() && s.drop_last()[j] == c;
            assert(s[j] == c);
        }
    } else {
        assert forall|i: int| 0 <= i < spec_trim_end(s).len() implies s.contains(#[trigger] spec_trim_end(s)[i]) by {
            assert(s[i] == spec_trim_end(s)[i]);
        }
    }
}

proof fn lemma_trim_start_at(s: Seq<char>, start: int)
    requires
        0 <= start <= s.len(),
        forall|j: int| 0 <= j < start ==> spec_is_whitespace(#[trigger] s[j]),
        start < s.len() ==> !spec_is_whitespace(s[start]),
    ensures
        spec_trim_start(s) == s.subrange(start, s.len() as int),
    decreases start,
{
    if start > 0 {
        assert forall|j: int| 0 <= j < start - 1 implies spec_is_whitespace(#[trigger] s.drop_first()[j]) by {
            assert(s.drop_first()[j] == s[j + 1]);
        }
        lemma_trim_start_at(s.drop_first(), start - 1);
        assert(s.drop_first().subrange(start - 1, s.len() - 1) =~= s.subrange(start, s.len() as int));
    } else {
        assert(s.subrange(0, s.len() as int) =~= s);
    }
}

proof fn lemma_trim_end_at(s: Seq<char>, end: int)
    requires
        0 <= end <= s.len(),
        forall|j: int| end <= j < s.len() ==> spec_is_whitespace(#[trigger] s[j]),
        end > 0 ==> !spec_is_whitespace(s[end - 1]),
    ensures
        spec_trim_end(s) == s.subrange(0, end),
    decreases s.len() - end,
{
    if end < s.len() {
        lemma_trim_end_at(s.drop_last(), end);
        assert(s.drop_last().subrange(0, end) =~= s.subrange(0, end));
    } else {
        assert(s.subrange(0, s.len() as int) =~= s);
    }
}

proof fn lemma_trim_end_char_at(s: Seq<char>, c: char, end: int)
    requires
        0 <= end <= s.len(),
        forall|j: int| end <= j < s.len() ==> #[trigger] s[j] == c,
        end > 0 ==> s[end - 1] != c,
    ensures
        spec_trim_end_char(s, c) == s.subrange(0, end),
    decreases s.len() - end,
{
    if end < s.len() {
        lemma_trim_end_char_at(s.drop_last(), c, end);
        assert(s.drop_last().subrange(0, end) =~= s.subrange(0, end));
    } else {
        assert(s.subrange(0, s.len() as int) =~= s);
    }
}

/// `s` without leading `c` characters.
pub open spec fn spec_trim_start_char(s: Seq<char>, c: char) -> Seq<char>
    decreases s.len(),
{
    if s.len() > 0 && s[0] == c {
        spec_trim_start_char(s.drop_first(), c)
    } else {
        s
    }
}

/// `str::trim_matches` with a char: `s` without leading and trailing `c`.
pub open spec fn spec_trim_matches_char(s: Seq<char>, c: char) -> Seq<char> {
    spec_trim_end_char(spec_trim_start_char(s, c), c)
}

proof fn lemma_trim_start_char_at(s: Seq<char>, c: char, start: int)
    requires
        0 <= start <= s.len(),
        forall|j: int| 0 <= j < start ==> #[trigger] s[j] == c,
        start < s.len() ==> s[start] != c,
    ensures
        spec_trim_start_char(s, c) == s.subrange(start, s.len() as int),
    decreases start,
{
    if start > 0 {
        assert forall|j: int| 0 <= j < start - 1 implies #[trigger] s.drop_first()[j] == c by {
            assert(s.drop_first()[j] == s[j + 1]);
        }
        lemma_trim_start_char_at(s.drop_first(), c, start - 1);
        assert(s.drop_first().subrange(start - 1, s.len() - 1) =~= s.subrange(start, s.len() as int));
    } else {
        assert(s.subrange(0, s.len() as int) =~= s);
    }
}

/// The characters of `s`.
pub fn chars_of(s: &str) -> (chars: Vec<char>)
    ensures
        chars@ == s@,
{
    let mut chars: Vec<char> = Vec::new();
    for c in iter: s.chars()
        invariant
            iter.seq() == s@,
            chars@ == iter.seq().take(iter.index() as int),
    {
        chars.push(c);
        assert(chars@ =~= iter.seq().take(iter.index() + 1));
    }
    assert(chars@ =~= s@);
    chars
}

/// A string holding `chars[start..end]`.
pub fn string_from_chars(chars: &Vec<char>, start: usize, end: usize) -> (s: String)
    requires
        start <= end <= chars@.len(),
    ensures
        s@ == chars@.subrange(start as int, end as int),
{
    let mut s = String::new();
    let mut i = start;
    while i < end
        invariant
            start <= i <= end,
            end <= chars@.len(),
            s@ == chars@.subrange(start as int, i as int),
        decreases end - i,
    {
        push_char(&mut s, chars[i]);
        assert(s@ =~= chars@.subrange(start as int, i + 1));
        i = i + 1;
    }
    s
}

/// `s` without leading and trailing white space.
pub fn trim(s: &str) -> (trimmed: String)
    ensures
        trimmed@ == spec_trim(s@),
{
    let chars = chars_of(s);
    let mut start: usize = 0;
    while start < chars.len() && is_whitespace(chars[start])
        invariant
            start <= chars@.len(),
            forall|j: int| 0 <= j < start ==> spec_is_whitespace(#[trigger] chars@[j]),
        decreases chars@.len() - start,
    {
        start = start + 1;
    }
    proof {
        lemma_trim_start_at(chars@, start as int);
    }
    let ghost rest = chars@.subrange(start as int, chars@.len() as int);
    let mut end: usize = chars.len();
    while end > start && is_whitespace(chars[end - 1])
        invariant
            start <= end <= chars@.len(),
            rest == chars@.subrange(start as int, chars@.len() as int),
            forall|j: int| end <= j < chars@.len() ==> spec_is_whitespace(#[trigger] chars@[j]),
        decreases end,
    {
        end = end - 1;
    }
    proof {
        assert forall|j: int| end - start <= j < rest.len() implies spec_is_whitespace(#[trigger] rest[j]) by {
            assert(rest[j] == chars@[start + j]);
        }
        lemma_trim_end_at(rest, end - start);
        assert(rest.subrange(0, end - start) =~= chars@.subrange(start as int, end as int));
    }
    string_from_chars(&chars, start, end)
}

/// `s` without leading and trailing `c` characters.
pub fn trim_matches_char(s: &str, c: char) -> (trimmed: String)
    ensures
        trimmed@ == spec_trim_matches_char(s@, c),
{
    let chars = chars_of(s);
    let mut start: usize = 0;
    while start < chars.len() && chars[start] == c
        invariant
            start <= chars@.len(),
            forall|j: int| 0 <= j < start ==> #[trigger] chars@[j] == c,
        decreases chars@.len() - start,
    {
        start = start + 1;
    }
    proof {
        lemma_trim_start_char_at(chars@, c, start as int);
    }
    let ghost rest = chars@.subrange(start as int, chars@.len() as int);
    let mut end: usize = chars.len();
    while end > start && chars[end - 1] == c
        invariant
            start <= end <= chars@.len(),
            rest == chars@.subrange(start as int, chars@.len() as int),
            forall|j: int| end <= j < chars@.len() ==> #[trigger] chars@[j] == c,
        decreases end,
    {
        end = end - 1;
    }
    proof {
        assert forall|j: int| end - start <= j < rest.len() implies #[trigger] rest[j] == c by {
            assert(rest[j] == chars@[start + j]);
        }
        lemma_trim_end_char_at(rest, c, end - start);
        assert(rest.subrange(0, end - start) =~= chars@.subrange(start as int, end as int));
    }
    string_from_chars(&chars, start, end)
}

/// `s` without trailing `c` characters.
pub fn trim_end_char(s: &str, c: char) -> (trimmed: String)
    ensures
        trimmed@ == spec_trim_end_char(s@, c),
{
    let chars = chars_of(s);
    let mut end: usize = chars.len();
    while end > 0 && chars[end - 1] == c
        invariant
            end <= chars@.len(),
            forall|j: int| end <= j < chars@.len() ==> #[trigger] chars@[j] == c,
        decreases end,
    {
        end = end - 1;
    }
    proof {
        lemma_trim_end_char_at(chars@, c, end as int);
    }
    string_from_chars(&chars, 0, end)
}

/// Whether some character of `s` is a control character.
pub open spec fn has_control(s: Seq<char>) -> bool {
    exists|i: int| 0 <= i < s.len() && spec_is_control(#[trigger] s[i])
}

/// Whether `s` contains a control character.
pub fn contains_control(s: &str) -> (found: bool)
    ensures
        found == has_control(s@),
{
    let chars = chars_of(s);
    let mut i: usize = 0;
    while i < chars.len()
        invariant
            chars@ == s@,
            i <= chars@.len(),
            forall|j: int| 0 <= j < i ==> !spec_is_control(#[trigger] chars@[j]),
        decreases chars@.len() - i,
    {
        if is_control(chars[i]) {
            return true;
        }
        i = i + 1;
    }
    false
}

/// ASCII lower case of `c` (`char::to_ascii_lowercase`).
pub open spec fn ascii_lower(c: char) -> char {
    if 'A' <= c && c <= 'Z' { ((c as u32) + 32) as char } else { c }
}

/// `str::eq_ignore_ascii_case`.
pub open spec fn eq_ignore_ascii_case(a: Seq<char>, b: Seq<char>) -> bool {
    a.len() == b.len() && forall|i: int| 0 <= i < a.len() ==> ascii_lower(#[trigger] a[i]) == ascii_lower(b[i])
}

fn lower(c: char) -> (l: char)
    ensures
        l == ascii_lower(c),
{
    if 'A' <= c && c <= 'Z' {
        ((c as u8) + 32) as char
    } else {
        c
    }
}

/// Whether `a` and `b` are equal up to ASCII case.
pub fn equals_ignore_ascii_case(a: &str, b: &str) -> (equal: bool)
    ensures
        equal == eq_ignore_ascii_case(a@, b@),
{
    let x = chars_of(a);
    let y = chars_of(b);
    if x.len() != y.len() {
        return false;
    }
    let mut i: usize = 0;
    while i < x.len()
        invariant
            x@ == a@,
            y@ == b@,
            x@.len() == y@.len(),
            i <= x@.len(),
            forall|j: int| 0 <= j < i ==> ascii_lower(#[trigger] x@[j]) == ascii_lower(y@[j]),
        decreases x@.len() - i,
    {
        if lower(x[i]) != lower(y[i]) {
            return false;
        }
        i = i + 1;
    }
    true
}

/// Whether the UTF-8 encoding of `s` is longer than `limit` bytes.
pub fn exceeds_utf8_len(s: &str, limit: usize) -> (longer: bool)
    ensures
        longer == (utf8_len(s@) > limit),
{
    let chars = chars_of(s);
    let mut used: usize = 0;
    let mut i: usize = 0;
    while i < chars.len()
        invariant
            chars@ == s@,
            i <= chars@.len(),
            used == utf8_len(chars@.take(i as int)),
            used <= limit,
        decreases chars@.len() - i,
    {
        assert(chars@.take(i + 1).drop_last() =~= chars@.take(i as int));
        let width = char_utf8_len(chars[i]);
        if width > limit || used > limit - width {
            proof {
                lemma_utf8_len_prefix_monotone(chars@, i + 1, chars@.len() as int);
                assert(chars@.take(chars@.len() as int) =~= chars@);
            }
            return true;
        }
        used = used + width;
        i = i + 1;
    }
    assert(chars@.take(i as int) =~= s@);
    false
}

/// The UTF-8 length of `s` when it is at most `limit` bytes.
pub fn utf8_len_within(s: &str, limit: usize) -> (bytes: Option<usize>)
    ensures
        match bytes {
            Some(n) => n == utf8_len(s@) && n <= limit,
            None => utf8_len(s@) > limit,
        },
{
    let chars = chars_of(s);
    let mut used: usize = 0;
    let mut i: usize = 0;
    while i < chars.len()
        invariant
            chars@ == s@,
            i <= chars@.len(),
            used == utf8_len(chars@.take(i as int)),
            used <= limit,
        decreases chars@.len() - i,
    {
        assert(chars@.take(i + 1).drop_last() =~= chars@.take(i as int));
        let width = char_utf8_len(chars[i]);
        if width > limit || used > limit - width {
            proof {
                lemma_utf8_len_prefix_monotone(chars@, i + 1, chars@.len() as int);
                assert(chars@.take(chars@.len() as int) =~= chars@);
            }
            return None;
        }
        used = used + width;
        i = i + 1;
    }
    assert(chars@.take(i as int) =~= s@);
    Some(used)
}

/// UTF-16 code units of `c` (`char::len_utf16`).
pub open spec fn spec_char_utf16_len(c: char) -> nat {
    if (c as u32) < 0x1_0000 {
        1
    } else {
        2
    }
}

/// UTF-16 code units in the encoding of `s` (`str::encode_utf16().count()`).
pub open spec fn utf16_len(s: Seq<char>) -> nat
    decreases s.len(),
{
    if s.len() == 0 {
        0
    } else {
        utf16_len(s.drop_last()) + spec_char_utf16_len(s.last())
    }
}

/// The UTF-16 length of a prefix never exceeds that of a longer prefix.
pub proof fn lemma_utf16_len_prefix_monotone(s: Seq<char>, i: int, j: int)
    requires
        0 <= i <= j <= s.len(),
    ensures
        utf16_len(s.take(i)) <= utf16_len(s.take(j)),
    decreases j - i,
{
    if i < j {
        lemma_utf16_len_prefix_monotone(s, i, j - 1);
        assert(s.take(j).drop_last() =~= s.take(j - 1));
    }
}

/// The UTF-16 length of `s` when it is at most `limit` code units.
pub fn utf16_len_within(s: &str, limit: usize) -> (units: Option<usize>)
    ensures
        match units {
            Some(n) => n == utf16_len(s@) && n <= limit,
            None => utf16_len(s@) > limit,
        },
{
    let chars = chars_of(s);
    let mut used: usize = 0;
    let mut i: usize = 0;
    while i < chars.len()
        invariant
            chars@ == s@,
            i <= chars@.len(),
            used == utf16_len(chars@.take(i as int)),
            used <= limit,
        decreases chars@.len() - i,
    {
        assert(chars@.take(i + 1).drop_last() =~= chars@.take(i as int));
        let width: usize = if (chars[i] as u32) < 0x1_0000 { 1 } else { 2 };
        if width > limit || used > limit - width {
            proof {
                lemma_utf16_len_prefix_monotone(chars@, i + 1, chars@.len() as int);
                assert(chars@.take(chars@.len() as int) =~= chars@);
            }
            return None;
        }
        used = used + width;
        i = i + 1;
    }
    assert(chars@.take(i as int) =~= s@);
    Some(used)
}

/// The lowercase hexadecimal digit for `n` below 16.
pub open spec fn hex_digit(n: u8) -> char {
    if n < 10 {
        (('0' as u8) + n) as char
    } else {
        (('a' as u8) + (n - 10)) as char
    }
}

/// `bytes` in lowercase hexadecimal, two digits a byte, high digit first.
pub open spec fn lower_hex(bytes: Seq<u8>) -> Seq<char>
    decreases bytes.len(),
{
    if bytes.len() == 0 {
        Seq::empty()
    } else {
        lower_hex(bytes.drop_last()).push(hex_digit(bytes.last() / 16)).push(hex_digit(bytes.last() % 16))
    }
}

/// Whether `c` is a lowercase hexadecimal digit.
pub open spec fn is_lower_hex_char(c: char) -> bool {
    ('0' <= c && c <= '9') || ('a' <= c && c <= 'f')
}

/// Hexadecimal text has two digits a byte, each a lowercase hexadecimal digit.
pub proof fn lemma_lower_hex_shape(bytes: Seq<u8>)
    ensures
        lower_hex(bytes).len() == 2 * bytes.len(),
        forall|i: int| 0 <= i < lower_hex(bytes).len() ==> is_lower_hex_char(#[trigger] lower_hex(bytes)[i]),
    decreases bytes.len(),
{
    if bytes.len() > 0 {
        let rest = bytes.drop_last();
        lemma_lower_hex_shape(rest);
        let high = bytes.last() / 16;
        let low = bytes.last() % 16;
        assert(is_lower_hex_char(hex_digit(high)));
        assert(is_lower_hex_char(hex_digit(low)));
        let whole = lower_hex(rest).push(hex_digit(high)).push(hex_digit(low));
        assert forall|i: int| 0 <= i < whole.len() implies is_lower_hex_char(#[trigger] whole[i]) by {
            if i < lower_hex(rest).len() {
                assert(whole[i] == lower_hex(rest)[i]);
            }
        }
    }
}

pub(crate) fn hex_digit_char(n: u8) -> (c: char)
    requires
        n < 16,
    ensures
        c == hex_digit(n),
{
    if n < 10 {
        ((48u8 + n) as char)
    } else {
        ((97u8 + (n - 10)) as char)
    }
}

/// `bytes` written in lowercase hexadecimal.
pub fn to_lower_hex(bytes: &[u8]) -> (hex: String)
    ensures
        hex@ == lower_hex(bytes@),
{
    let mut hex = String::new();
    let mut i: usize = 0;
    while i < bytes.len()
        invariant
            i <= bytes@.len(),
            hex@ == lower_hex(bytes@.take(i as int)),
        decreases bytes@.len() - i,
    {
        let byte = bytes[i];
        push_char(&mut hex, hex_digit_char(byte / 16));
        push_char(&mut hex, hex_digit_char(byte % 16));
        proof {
            assert(bytes@.take(i + 1).drop_last() =~= bytes@.take(i as int));
        }
        i = i + 1;
    }
    proof {
        assert(bytes@.take(i as int) =~= bytes@);
    }
    hex
}

/// Whether `s` begins with `prefix`.
pub open spec fn spec_has_prefix(s: Seq<char>, prefix: Seq<char>) -> bool {
    prefix.len() <= s.len() && s.subrange(0, prefix.len() as int) == prefix
}

/// Whether `needle` occurs in `s` at position `at`.
pub open spec fn occurs_at(s: Seq<char>, needle: Seq<char>, at: int) -> bool {
    0 <= at && at + needle.len() <= s.len() && s.subrange(at, at + needle.len()) == needle
}

/// Whether `needle` occurs anywhere in `s` (`str::contains`).
pub open spec fn spec_contains(s: Seq<char>, needle: Seq<char>) -> bool {
    exists|at: int| #[trigger] occurs_at(s, needle, at)
}

fn chars_match_at(s: &Vec<char>, needle: &Vec<char>, at: usize) -> (found: bool)
    requires
        at + needle@.len() <= s@.len(),
    ensures
        found == occurs_at(s@, needle@, at as int),
{
    let mut i: usize = 0;
    while i < needle.len()
        invariant
            at + needle@.len() <= s@.len(),
            s@.len() == s.len(),
            i <= needle@.len(),
            forall|j: int| 0 <= j < i ==> s@[at + j] == needle@[j],
        decreases needle@.len() - i,
    {
        if s[at + i] != needle[i] {
            assert(s@.subrange(at as int, at + needle@.len())[i as int] != needle@[i as int]);
            return false;
        }
        i = i + 1;
    }
    assert(s@.subrange(at as int, at + needle@.len()) =~= needle@);
    true
}

/// Whether `s` begins with `prefix` (`str::starts_with`).
pub fn has_prefix(s: &str, prefix: &str) -> (found: bool)
    ensures
        found == spec_has_prefix(s@, prefix@),
{
    let chars = chars_of(s);
    let wanted = chars_of(prefix);
    if wanted.len() > chars.len() {
        return false;
    }
    chars_match_at(&chars, &wanted, 0)
}

/// `s` without its leading `prefix` (`str::strip_prefix`); none when `s`
/// does not begin with it.
pub fn strip_prefix(s: &str, prefix: &str) -> (rest: Option<String>)
    ensures
        match rest {
            Some(r) => spec_has_prefix(s@, prefix@) && r@ == s@.subrange(prefix@.len() as int, s@.len() as int),
            None => !spec_has_prefix(s@, prefix@),
        },
{
    if !has_prefix(s, prefix) {
        return None;
    }
    let chars = chars_of(s);
    let start = chars_of(prefix).len();
    Some(string_from_chars(&chars, start, chars.len()))
}

/// Whether `needle` occurs in `s` (`str::contains`).
pub fn contains_text(s: &str, needle: &str) -> (found: bool)
    ensures
        found == spec_contains(s@, needle@),
{
    let chars = chars_of(s);
    let wanted = chars_of(needle);
    if wanted.len() > chars.len() {
        assert forall|at: int| !occurs_at(s@, needle@, at) by {}
        return false;
    }
    let last = chars.len() - wanted.len();
    let mut at: usize = 0;
    while at <= last
        invariant
            chars@ == s@,
            wanted@ == needle@,
            last + wanted@.len() == chars@.len(),
            forall|k: int| 0 <= k < at ==> !occurs_at(s@, needle@, k),
        decreases last + 1 - at,
    {
        if chars_match_at(&chars, &wanted, at) {
            return true;
        }
        if at == last {
            assert forall|k: int| !occurs_at(s@, needle@, k) by {
                if 0 <= k <= last {
                } else {
                }
            }
            return false;
        }
        at = at + 1;
    }
    false
}

/// `str::to_lowercase` of `text`: full Unicode lower case.
pub uninterp spec fn unicode_lowercase(text: Seq<char>) -> Seq<char>;

/// `str::to_lowercase`.
#[verifier::external_body]
pub(crate) fn lowercase(text: &str) -> (lower: String)
    ensures
        lower@ == unicode_lowercase(text@),
{
    text.to_lowercase()
}

} // verus!
