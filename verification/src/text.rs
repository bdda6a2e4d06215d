//! Byte-level text rules shared by every contract version: identifiers, bounded text,
//! lowercase hex digests, byte-wise ordering and uniqueness of string lists.
use vstd::prelude::*;
use vstd::utf8::*;

verus! {

pub const MAX_IDENTIFIER_BYTES: usize = 160;

/// The UTF-8 bytes of a string view.
pub open spec fn utf8(s: Seq<char>) -> Seq<u8> {
    encode_utf8(s)
}

/// The length of a string in bytes, as `str::len` counts it.
pub open spec fn byte_len(s: Seq<char>) -> nat {
    encode_utf8(s).len()
}

pub open spec fn is_identifier_byte(b: u8) -> bool {
    (48 <= b <= 57) || (65 <= b <= 90) || (97 <= b <= 122) || b == 95 || b == 45 || b == 46
        || b == 58
}

/// Non-empty, at most 160 bytes, and only ASCII letters, digits, `_`, `-`, `.` and `:`.
pub open spec fn spec_valid_identifier(s: Seq<char>) -> bool {
    let b = utf8(s);
    &&& 0 < b.len() <= MAX_IDENTIFIER_BYTES
    &&& forall|i: int| 0 <= i < b.len() ==> #[trigger] is_identifier_byte(b[i])
}

pub open spec fn spec_valid_optional_identifier(s: Option<Seq<char>>) -> bool {
    match s {
        Some(v) => spec_valid_identifier(v),
        None => true,
    }
}

/// Non-empty text of at most `max` bytes.
pub open spec fn spec_valid_text(s: Seq<char>, max: nat) -> bool {
    0 < byte_len(s) <= max
}

pub open spec fn spec_valid_optional_text(s: Option<Seq<char>>, max: nat) -> bool {
    match s {
        Some(v) => spec_valid_text(v, max),
        None => true,
    }
}

pub open spec fn opt_view(s: Option<String>) -> Option<Seq<char>> {
    match s {
        Some(v) => Some(v@),
        None => None,
    }
}

/// Lexicographic order of byte strings, as `str` and `[u8]` compare.
pub open spec fn lex_lt(a: Seq<u8>, b: Seq<u8>) -> bool
    decreases a.len(),
{
    if a.len() == 0 {
        b.len() > 0
    } else if b.len() == 0 {
        false
    } else if a[0] < b[0] {
        true
    } else if a[0] > b[0] {
        false
    } else {
        lex_lt(a.drop_first(), b.drop_first())
    }
}

/// Each string is below the next one in byte order.
pub open spec fn strictly_sorted_views(s: Seq<Seq<char>>) -> bool {
    forall|i: int| 0 <= i < s.len() - 1 ==> #[trigger] lex_lt(utf8(s[i]), utf8(s[i + 1]))
}

pub open spec fn string_views(v: Seq<String>) -> Seq<Seq<char>> {
    v.map_values(|s: String| s@)
}

pub open spec fn hex_char(n: u8) -> char {
    if n < 10 {
        (48 + n) as char
    } else {
        (87 + n) as char
    }
}

/// Two lowercase hex digits per byte, high nibble first.
pub open spec fn spec_hex(b: Seq<u8>) -> Seq<char> {
    Seq::new(
        2 * b.len(),
        |i: int|
            if i % 2 == 0 {
                hex_char(b[i / 2] / 16)
            } else {
                hex_char(b[i / 2] % 16)
            },
    )
}

pub open spec fn hex_value(c: u8) -> u8 {
    if 48 <= c <= 57 {
        (c - 48) as u8
    } else {
        (c - 87) as u8
    }
}

pub open spec fn is_lower_hex_byte(c: u8) -> bool {
    (48 <= c <= 57) || (97 <= c <= 102)
}

/// A 64-digit lowercase hex string names 32 bytes; anything else names none.
pub open spec fn spec_parse_hex_digest(s: Seq<char>) -> Option<Seq<u8>> {
    let b = utf8(s);
    if b.len() == 64 && forall|i: int| 0 <= i < 64 ==> #[trigger] is_lower_hex_byte(b[i]) {
        Some(Seq::new(32, |i: int| (hex_value(b[2 * i]) * 16 + hex_value(b[2 * i + 1])) as u8))
    } else {
        None
    }
}

/// Every character of a hex rendering is a lowercase ASCII hex digit.
pub proof fn lemma_hex_is_ascii(b: Seq<u8>)
    ensures
        is_ascii_chars(spec_hex(b)),
        forall|i: int|
            0 <= i < spec_hex(b).len() ==> is_lower_hex_byte(#[trigger] spec_hex(b)[i] as u8),
{
    assert forall|i: int| 0 <= i < spec_hex(b).len() implies '\0' <= #[trigger] spec_hex(b)[i]
        <= '\u{7f}' && is_lower_hex_byte(spec_hex(b)[i] as u8) by {
        let n: u8 = if i % 2 == 0 {
            b[i / 2] / 16
        } else {
            b[i / 2] % 16
        };
        assert(spec_hex(b)[i] == hex_char(n));
        assert(n < 16);
    }
}

/// A lowercase hex digit: `0`-`9` or `a`-`f`.
pub open spec fn is_lower_hex_char(c: char) -> bool {
    ('0' <= c && c <= '9') || ('a' <= c && c <= 'f')
}

/// A hex rendering is two digits per byte, each a lowercase hex digit.
pub proof fn lemma_hex_digits(b: Seq<u8>)
    ensures
        spec_hex(b).len() == 2 * b.len(),
        forall|i: int| 0 <= i < spec_hex(b).len() ==> is_lower_hex_char(#[trigger] spec_hex(b)[i]),
{
    assert forall|i: int| 0 <= i < spec_hex(b).len() implies is_lower_hex_char(
        #[trigger] spec_hex(b)[i],
    ) by {
        let n: u8 = if i % 2 == 0 {
            b[i / 2] / 16
        } else {
            b[i / 2] % 16
        };
        assert(spec_hex(b)[i] == hex_char(n));
        assert(n < 16);
    }
}

/// A string of ASCII identifier characters is an identifier when its length is in bounds, and
/// its byte length is its length.
pub proof fn lemma_ascii_identifier(s: Seq<char>)
    requires
        is_ascii_chars(s),
        forall|i: int| 0 <= i < s.len() ==> is_identifier_byte(#[trigger] s[i] as u8),
    ensures
        byte_len(s) == s.len(),
        spec_valid_identifier(s) <==> 0 < s.len() <= MAX_IDENTIFIER_BYTES,
{
    is_ascii_chars_encode_utf8(s);
    if 0 < s.len() <= MAX_IDENTIFIER_BYTES {
        assert forall|i: int| 0 <= i < utf8(s).len() implies #[trigger] is_identifier_byte(
            utf8(s)[i],
        ) by {
            assert(s[i] as u8 == utf8(s)[i]);
        }
    }
}

/// The UTF-8 bytes of a string.
pub(crate) fn string_bytes(s: &str) -> (r: &[u8])
    ensures
        r@ == utf8(s@),
{
    s.as_bytes()
}

pub fn valid_identifier(value: &str) -> (r: bool)
    ensures
        r == spec_valid_identifier(value@),
{
    let bytes = string_bytes(value);
    let n = bytes.len();
    if n == 0 || n > MAX_IDENTIFIER_BYTES {
        return false;
    }
    let mut i: usize = 0;
    while i < n
        invariant
            n == bytes@.len(),
            bytes@ == utf8(value@),
            0 <= i <= n,
            forall|j: int| 0 <= j < i ==> #[trigger] is_identifier_byte(bytes@[j]),
        decreases n - i,
    {
        let b = bytes[i];
        let ok = (48 <= b && b <= 57) || (65 <= b && b <= 90) || (97 <= b && b <= 122) || b == 95
            || b == 45 || b == 46 || b == 58;
        if !ok {
            assert(!is_identifier_byte(bytes@[i as int]));
            return false;
        }
        i += 1;
    }
    true
}

pub fn valid_optional_identifier(value: &Option<String>) -> (r: bool)
    ensures
        r == spec_valid_optional_identifier(opt_view(*value)),
{
    match value {
        Some(v) => valid_identifier(v),
        None => true,
    }
}

pub(crate) fn byte_length(value: &str) -> (r: usize)
    ensures
        r == byte_len(value@),
{
    string_bytes(value).len()
}

pub fn valid_text(value: &str, max_bytes: usize) -> (r: bool)
    ensures
        r == spec_valid_text(value@, max_bytes as nat),
{
    let n = byte_length(value);
    n != 0 && n <= max_bytes
}

pub fn valid_optional_text(value: &Option<String>, max_bytes: usize) -> (r: bool)
    ensures
        r == spec_valid_optional_text(opt_view(*value), max_bytes as nat),
{
    match value {
        Some(v) => valid_text(v, max_bytes),
        None => true,
    }
}

/// Byte-wise `a < b`.
pub(crate) fn bytes_lt(a: &[u8], b: &[u8]) -> (r: bool)
    ensures
        r == lex_lt(a@, b@),
{
    let mut i: usize = 0;
    assert(a@.skip(0) =~= a@);
    assert(b@.skip(0) =~= b@);
    while i < a.len() && i < b.len()
        invariant
            0 <= i <= a@.len(),
            i <= b@.len(),
            lex_lt(a@, b@) == lex_lt(a@.skip(i as int), b@.skip(i as int)),
        decreases a@.len() - i,
    {
        proof {
            assert(a@.skip(i as int).drop_first() =~= a@.skip(i + 1));
            assert(b@.skip(i as int).drop_first() =~= b@.skip(i + 1));
        }
        if a[i] < b[i] {
            return true;
        }
        if a[i] > b[i] {
            return false;
        }
        i += 1;
    }
    i < b.len()
}

/// Byte-wise `a < b` of two strings.
pub(crate) fn string_lt(a: &String, b: &String) -> (r: bool)
    ensures
        r == lex_lt(utf8(a@), utf8(b@)),
{
    bytes_lt(string_bytes(a), string_bytes(b))
}

pub(crate) fn string_eq(a: &String, b: &String) -> (r: bool)
    ensures
        r == (a@ == b@),
{
    a.eq(b)
}

pub(crate) fn optional_string_eq(a: &Option<String>, b: &Option<String>) -> (r: bool)
    ensures
        r == (opt_view(*a) == opt_view(*b)),
{
    match (a, b) {
        (Some(x), Some(y)) => x.eq(y),
        (None, None) => true,
        _ => false,
    }
}

/// Whether each string is below the next in byte order.
pub(crate) fn strings_strictly_sorted(values: &Vec<String>) -> (r: bool)
    ensures
        r == strictly_sorted_views(string_views(values@)),
{
    let n = values.len();
    if n == 0 {
        return true;
    }
    let mut i: usize = 0;
    while i + 1 < n
        invariant
            n == values@.len(),
            n > 0,
            0 <= i < n,
            forall|j: int|
                0 <= j < i ==> #[trigger] lex_lt(
                    utf8(string_views(values@)[j]),
                    utf8(string_views(values@)[j + 1]),
                ),
        decreases n - i,
    {
        if !string_lt(&values[i], &values[i + 1]) {
            assert(string_views(values@)[i as int] == values@[i as int]@);
            assert(string_views(values@)[i + 1] == values@[i + 1]@);
            assert(!lex_lt(
                utf8(string_views(values@)[i as int]),
                utf8(string_views(values@)[i as int + 1]),
            ));
            return false;
        }
        i += 1;
    }
    true
}

/// Whether no string occurs twice.
pub(crate) fn strings_unique(values: &Vec<String>) -> (r: bool)
    ensures
        r == string_views(values@).no_duplicates(),
{
    let n = values.len();
    let ghost v = string_views(values@);
    let mut i: usize = 0;
    while i < n
        invariant
            n == values@.len(),
            v == string_views(values@),
            0 <= i <= n,
            forall|a: int, b: int| 0 <= a < b < n && a < i ==> v[a] != v[b],
        decreases n - i,
    {
        let mut j: usize = i + 1;
        while j < n
            invariant
                n == values@.len(),
                v == string_views(values@),
                0 <= i < n,
                i + 1 <= j <= n,
                forall|a: int, b: int| 0 <= a < b < n && a < i ==> v[a] != v[b],
                forall|b: int| i < b < j ==> v[i as int] != v[b],
            decreases n - j,
        {
            if values[i].eq(&values[j]) {
                assert(v[i as int] == v[j as int]);
                return false;
            }
            j += 1;
        }
        i += 1;
    }
    true
}

/// Whether `value` occurs in `values`.
pub(crate) fn strings_contain(values: &Vec<String>, value: &String) -> (r: bool)
    ensures
        r == string_views(values@).contains(value@),
{
    let n = values.len();
    let mut i: usize = 0;
    while i < n
        invariant
            n == values@.len(),
            0 <= i <= n,
            forall|j: int| 0 <= j < i ==> string_views(values@)[j] != value@,
        decreases n - i,
    {
        if values[i].eq(value) {
            assert(string_views(values@)[i as int] == value@);
            return true;
        }
        i += 1;
    }
    proof {
        if string_views(values@).contains(value@) {
            let k = choose|k: int|
                0 <= k < string_views(values@).len() && string_views(values@)[k] == value@;
            assert(false);
        }
    }
    false
}

/// Every string is an identifier.
pub open spec fn all_identifiers(s: Seq<Seq<char>>) -> bool {
    forall|i: int| 0 <= i < s.len() ==> #[trigger] spec_valid_identifier(s[i])
}

/// Whether every string is an identifier.
pub(crate) fn all_valid_identifiers(values: &Vec<String>) -> (r: bool)
    ensures
        r == all_identifiers(string_views(values@)),
{
    let mut i: usize = 0;
    while i < values.len()
        invariant
            0 <= i <= values@.len(),
            forall|k: int|
                0 <= k < i ==> #[trigger] spec_valid_identifier(string_views(values@)[k]),
        decreases values@.len() - i,
    {
        if !valid_identifier(&values[i]) {
            assert(!spec_valid_identifier(string_views(values@)[i as int]));
            return false;
        }
        i += 1;
    }
    true
}

/// Whether the two lists hold the same strings, ignoring order and repetition.
pub(crate) fn same_strings(a: &Vec<String>, b: &Vec<String>) -> (r: bool)
    ensures
        r == (string_views(a@).to_set() == string_views(b@).to_set()),
{
    let mut i: usize = 0;
    while i < a.len()
        invariant
            0 <= i <= a@.len(),
            forall|k: int| 0 <= k < i ==> string_views(b@).contains(#[trigger] string_views(a@)[k]),
        decreases a@.len() - i,
    {
        if !strings_contain(b, &a[i]) {
            proof {
                assert(string_views(a@).to_set().contains(string_views(a@)[i as int]));
                assert(!string_views(b@).to_set().contains(string_views(a@)[i as int]));
            }
            return false;
        }
        i += 1;
    }
    let mut j: usize = 0;
    while j < b.len()
        invariant
            0 <= j <= b@.len(),
            forall|k: int| 0 <= k < a@.len() ==> string_views(b@).contains(#[trigger] string_views(a@)[k]),
            forall|k: int| 0 <= k < j ==> string_views(a@).contains(#[trigger] string_views(b@)[k]),
        decreases b@.len() - j,
    {
        if !strings_contain(a, &b[j]) {
            proof {
                assert(string_views(b@).to_set().contains(string_views(b@)[j as int]));
                assert(!string_views(a@).to_set().contains(string_views(b@)[j as int]));
            }
            return false;
        }
        j += 1;
    }
    proof {
        assert forall|x: Seq<char>| string_views(a@).to_set().contains(x) == string_views(b@).to_set().contains(x) by {
            if string_views(a@).contains(x) {
                let k = choose|k: int| 0 <= k < string_views(a@).len() && string_views(a@)[k] == x;
                assert(string_views(b@).contains(string_views(a@)[k]));
            }
            if string_views(b@).contains(x) {
                let k = choose|k: int| 0 <= k < string_views(b@).len() && string_views(b@)[k] == x;
                assert(string_views(a@).contains(string_views(b@)[k]));
            }
        }
        assert(string_views(a@).to_set() =~= string_views(b@).to_set());
    }
    true
}

/// Appends one character to a string.
#[verifier::external_body]
pub(crate) fn push_char(s: &mut String, c: char)
    ensures
        final(s)@ == old(s)@.push(c),
{
    s.push(c)
}

pub(crate) fn hex_digit(n: u8) -> (c: char)
    requires
        n < 16,
    ensures
        c == hex_char(n),
{
    if n < 10 {
        (48 + n) as char
    } else {
        (87 + n) as char
    }
}

/// Appends the lowercase hex digits of `bytes[..count]` to `out`.
pub(crate) fn push_hex(out: &mut String, bytes: &[u8], count: usize)
    requires
        count <= bytes@.len(),
    ensures
        final(out)@ == old(out)@ + spec_hex(bytes@.subrange(0, count as int)),
{
    let ghost start = out@;
    let mut i: usize = 0;
    while i < count
        invariant
            0 <= i <= count,
            count <= bytes@.len(),
            out@ == start + spec_hex(bytes@.subrange(0, i as int)),
        decreases count - i,
    {
        let b = bytes[i];
        push_char(out, hex_digit(b / 16));
        push_char(out, hex_digit(b % 16));
        proof {
            let prev = spec_hex(bytes@.subrange(0, i as int));
            let next = spec_hex(bytes@.subrange(0, i + 1));
            assert(next =~= prev.push(hex_char(b / 16)).push(hex_char(b % 16))) by {
                assert forall|k: int| 0 <= k < next.len() implies next[k] == prev.push(
                    hex_char(b / 16),
                ).push(hex_char(b % 16))[k] by {
                    if k < 2 * i {
                        assert(bytes@.subrange(0, i + 1)[k / 2] == bytes@.subrange(0, i as int)[k
                            / 2]);
                    }
                }
            }
        }
        i += 1;
    }
}

/// Lowercase hex of every byte.
pub fn hex_digest(bytes: &[u8]) -> (r: String)
    ensures
        r@ == spec_hex(bytes@),
{
    let mut out = String::new();
    push_hex(&mut out, bytes, bytes.len());
    assert(bytes@.subrange(0, bytes@.len() as int) =~= bytes@);
    out
}

pub(crate) fn hex_digit_value(c: u8) -> (r: Option<u8>)
    ensures
        r == (if is_lower_hex_byte(c) {
            Some(hex_value(c))
        } else {
            None::<u8>
        }),
{
    if 48 <= c && c <= 57 {
        Some(c - 48)
    } else if 97 <= c && c <= 102 {
        Some(c - 87)
    } else {
        None
    }
}

/// The 32 bytes a 64-digit lowercase hex string names.
pub fn parse_hex_digest(value: &str) -> (r: Option<[u8; 32]>)
    ensures
        match spec_parse_hex_digest(value@) {
            Some(b) => r is Some && r->0@ == b,
            None => r is None,
        },
{
    let bytes = string_bytes(value);
    if bytes.len() != 64 {
        return None;
    }
    let mut out = [0u8; 32];
    let mut i: usize = 0;
    while i < 32
        invariant
            bytes@.len() == 64,
            bytes@ == utf8(value@),
            0 <= i <= 32,
            out@.len() == 32,
            forall|j: int| 0 <= j < 2 * i ==> #[trigger] is_lower_hex_byte(bytes@[j]),
            forall|j: int|
                0 <= j < i ==> out@[j] == (hex_value(bytes@[2 * j]) * 16 + hex_value(
                    bytes@[2 * j + 1],
                )) as u8,
        decreases 32 - i,
    {
        let high = hex_digit_value(bytes[2 * i]);
        let low = hex_digit_value(bytes[2 * i + 1]);
        match (high, low) {
            (Some(h), Some(l)) => {
                assert(h < 16 && l < 16);
                out[i] = h * 16 + l;
            },
            _ => {
                proof {
                    assert(!(is_lower_hex_byte(bytes@[2 * i as int]) && is_lower_hex_byte(
                        bytes@[2 * i + 1],
                    )));
                }
                return None;
            },
        }
        i += 1;
    }
    proof {
        let expected = Seq::new(
            32,
            |k: int| (hex_value(bytes@[2 * k]) * 16 + hex_value(bytes@[2 * k + 1])) as u8,
        );
        assert(out@ =~= expected);
    }
    Some(out)
}

} // verus!
