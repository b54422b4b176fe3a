//! Byte- and character-level checks shared by every request validator:
//! identifiers, hashes, canonical decimal counters, and bounded sanitized text.
use vstd::prelude::*;
use vstd::utf8::encode_utf8;
use crate::error::{CoreError, ErrorCode};

verus! {

broadcast use vstd::string::group_string_axioms;

/// The UTF-8 length of a character sequence, as Rust's `str::len` reports it.
pub open spec fn byte_len(s: Seq<char>) -> nat {
    encode_utf8(s).len()
}

/// The UTF-8 length of `s` in bytes.
pub fn byte_length(s: &str) -> (r: usize)
    ensures
        r == byte_len(s@),
{
    s.as_bytes().len()
}

// ---------------------------------------------------------------- identifiers

pub open spec fn is_id_byte(b: u8) -> bool {
    (48 <= b <= 57) || (65 <= b <= 90) || (97 <= b <= 122) || b == 45 || b == 95
}

/// An identifier is 1..=64 ASCII letters, digits, `-` or `_`.
pub open spec fn spec_valid_id(bytes: Seq<u8>) -> bool {
    &&& 1 <= bytes.len() <= 64
    &&& forall|i: int| 0 <= i < bytes.len() ==> #[trigger] is_id_byte(bytes[i])
}

pub open spec fn valid_id(s: Seq<char>) -> bool {
    spec_valid_id(encode_utf8(s))
}

pub fn is_valid_id(value: &str) -> (r: bool)
    ensures
        r == valid_id(value@),
{
    let bytes = value.as_bytes();
    let n = bytes.len();
    if n == 0 || n > 64 {
        return false;
    }
    let mut i: usize = 0;
    while i < n
        invariant
            n == bytes@.len(),
            bytes@ == encode_utf8(value@),
            0 <= i <= n,
            forall|j: int| 0 <= j < i ==> #[trigger] is_id_byte(bytes@[j]),
        decreases n - i,
    {
        let b = bytes[i];
        if !((48 <= b && b <= 57) || (65 <= b && b <= 90) || (97 <= b && b <= 122) || b == 45
            || b == 95) {
            assert(!is_id_byte(bytes@[i as int]));
            return false;
        }
        i += 1;
    }
    true
}

/// What a malformed identifier is refused with.
pub open spec fn id_refusal() -> Seq<char> {
    "An identifier must be 1 to 64 ASCII letters, digits, '-' or '_'."@
}

/// Refuses a malformed identifier.
pub fn check_id(value: &str) -> (r: Result<(), CoreError>)
    ensures
        r is Ok <==> valid_id(value@),
        r matches Err(e) ==> e.code == ErrorCode::InvalidRequest && e.message@ == id_refusal(),
{
    if is_valid_id(value) {
        Ok(())
    } else {
        Err(CoreError::new(ErrorCode::InvalidRequest, "An identifier must be 1 to 64 ASCII letters, digits, '-' or '_'."))
    }
}

// --------------------------------------------------------------------- hashes

pub open spec fn is_hex_byte(b: u8) -> bool {
    (48 <= b <= 57) || (65 <= b <= 70) || (97 <= b <= 102)
}

pub open spec fn is_lower_hex_byte(b: u8) -> bool {
    (48 <= b <= 57) || (97 <= b <= 102)
}

/// Exactly 64 hexadecimal digits of either case.
pub open spec fn hex64(s: Seq<char>) -> bool {
    let bytes = encode_utf8(s);
    &&& bytes.len() == 64
    &&& forall|i: int| 0 <= i < bytes.len() ==> #[trigger] is_hex_byte(bytes[i])
}

/// Exactly 64 lowercase hexadecimal digits.
pub open spec fn lower_hex64(s: Seq<char>) -> bool {
    let bytes = encode_utf8(s);
    &&& bytes.len() == 64
    &&& forall|i: int| 0 <= i < bytes.len() ==> #[trigger] is_lower_hex_byte(bytes[i])
}

pub fn is_hex64(value: &str) -> (r: bool)
    ensures
        r == hex64(value@),
{
    let bytes = value.as_bytes();
    let n = bytes.len();
    if n != 64 {
        return false;
    }
    let mut i: usize = 0;
    while i < n
        invariant
            n == bytes@.len(),
            bytes@ == encode_utf8(value@),
            0 <= i <= n,
            forall|j: int| 0 <= j < i ==> #[trigger] is_hex_byte(bytes@[j]),
        decreases n - i,
    {
        let b = bytes[i];
        if !((48 <= b && b <= 57) || (65 <= b && b <= 70) || (97 <= b && b <= 102)) {
            assert(!is_hex_byte(bytes@[i as int]));
            return false;
        }
        i += 1;
    }
    true
}

pub fn is_lower_hex64(value: &str) -> (r: bool)
    ensures
        r == lower_hex64(value@),
{
    let bytes = value.as_bytes();
    let n = bytes.len();
    if n != 64 {
        return false;
    }
    let mut i: usize = 0;
    while i < n
        invariant
            n == bytes@.len(),
            bytes@ == encode_utf8(value@),
            0 <= i <= n,
            forall|j: int| 0 <= j < i ==> #[trigger] is_lower_hex_byte(bytes@[j]),
        decreases n - i,
    {
        let b = bytes[i];
        if !((48 <= b && b <= 57) || (97 <= b && b <= 102)) {
            assert(!is_lower_hex_byte(bytes@[i as int]));
            return false;
        }
        i += 1;
    }
    true
}

// ------------------------------------------------------------ character sets

/// Unicode general category Cc, as `char::is_control` reports it.
pub open spec fn is_control(c: char) -> bool {
    (c as u32) <= 0x1f || (0x7f <= (c as u32) && (c as u32) <= 0x9f)
}

/// A control character other than newline, carriage return or tab.
pub open spec fn is_unsafe_control(c: char) -> bool {
    is_control(c) && c != '\n' && c != '\r' && c != '\t'
}

/// The Unicode `White_Space` property, as `char::is_whitespace` reports it.
pub open spec fn is_whitespace(c: char) -> bool {
    let v = c as u32;
    (0x09 <= v && v <= 0x0d) || v == 0x20 || v == 0x85 || v == 0xa0 || v == 0x1680
        || (0x2000 <= v && v <= 0x200a) || v == 0x2028 || v == 0x2029 || v == 0x202f
        || v == 0x205f || v == 0x3000
}

pub open spec fn has_control(s: Seq<char>) -> bool {
    exists|i: int| 0 <= i < s.len() && #[trigger] is_control(s[i])
}

pub open spec fn has_unsafe_control(s: Seq<char>) -> bool {
    exists|i: int| 0 <= i < s.len() && #[trigger] is_unsafe_control(s[i])
}

/// Empty once surrounding whitespace is trimmed.
pub open spec fn is_blank(s: Seq<char>) -> bool {
    forall|i: int| 0 <= i < s.len() ==> #[trigger] is_whitespace(s[i])
}

pub fn char_is_control(c: char) -> (r: bool)
    ensures
        r == is_control(c),
{
    let v = c as u32;
    v <= 0x1f || (0x7f <= v && v <= 0x9f)
}

pub fn char_is_whitespace(c: char) -> (r: bool)
    ensures
        r == is_whitespace(c),
{
    let v = c as u32;
    (0x09 <= v && v <= 0x0d) || v == 0x20 || v == 0x85 || v == 0xa0 || v == 0x1680 || (0x2000
        <= v && v <= 0x200a) || v == 0x2028 || v == 0x2029 || v == 0x202f || v == 0x205f || v
        == 0x3000
}

pub fn text_has_control(value: &str) -> (r: bool)
    ensures
        r == has_control(value@),
{
    let mut found = false;
    let ghost s = value@;
    for c in it: value.chars()
        invariant
            it.seq() == s,
            found == (exists|j: int| 0 <= j < it.index() && #[trigger] is_control(s[j])),
    {
        if char_is_control(c) {
            found = true;
        }
    }
    found
}

pub fn text_has_unsafe_control(value: &str) -> (r: bool)
    ensures
        r == has_unsafe_control(value@),
{
    let mut found = false;
    let ghost s = value@;
    for c in it: value.chars()
        invariant
            it.seq() == s,
            found == (exists|j: int| 0 <= j < it.index() && #[trigger] is_unsafe_control(s[j])),
    {
        let unsafe_control = char_is_control(c) && c != '\n' && c != '\r' && c != '\t';
        assert(unsafe_control == is_unsafe_control(c));
        if unsafe_control {
            found = true;
        }
    }
    found
}

pub fn text_is_blank(value: &str) -> (r: bool)
    ensures
        r == is_blank(value@),
{
    let mut blank = true;
    let ghost s = value@;
    for c in it: value.chars()
        invariant
            it.seq() == s,
            blank == (forall|j: int| 0 <= j < it.index() ==> #[trigger] is_whitespace(s[j])),
    {
        if !char_is_whitespace(c) {
            blank = false;
        }
    }
    blank
}


// ------------------------------------------------------------------ decimals

pub open spec fn is_digit_byte(b: u8) -> bool {
    48 <= b <= 57
}

/// Nonempty ASCII digits without a redundant leading zero.
pub open spec fn canonical_decimal(bytes: Seq<u8>) -> bool {
    &&& bytes.len() >= 1
    &&& (bytes.len() == 1 || bytes[0] != 48)
    &&& forall|i: int| 0 <= i < bytes.len() ==> #[trigger] is_digit_byte(bytes[i])
}

/// The number that a sequence of ASCII digits spells.
pub open spec fn decimal_value(bytes: Seq<u8>) -> nat
    decreases bytes.len(),
{
    if bytes.len() == 0 {
        0
    } else {
        decimal_value(bytes.drop_last()) * 10 + ((bytes.last() - 48) as nat)
    }
}

// ------------------------------------------------------------------ trimming

/// The number of whitespace characters that open `s`.
pub open spec fn leading_ws(s: Seq<char>) -> nat
    decreases s.len(),
{
    if s.len() > 0 && is_whitespace(s[0]) {
        1 + leading_ws(s.drop_first())
    } else {
        0
    }
}

/// The number of whitespace characters that close `s`.
pub open spec fn trailing_ws(s: Seq<char>) -> nat
    decreases s.len(),
{
    if s.len() > 0 && is_whitespace(s.last()) {
        1 + trailing_ws(s.drop_last())
    } else {
        0
    }
}

/// `s` without its leading and trailing whitespace, as `str::trim` returns it.
pub open spec fn trim(s: Seq<char>) -> Seq<char> {
    if is_blank(s) {
        Seq::empty()
    } else {
        s.subrange(leading_ws(s) as int, s.len() - trailing_ws(s))
    }
}

proof fn lemma_leading_ws_push(p: Seq<char>, c: char)
    ensures
        leading_ws(p.push(c)) == if is_blank(p) && is_whitespace(c) {
            p.len() + 1
        } else if is_blank(p) {
            p.len()
        } else {
            leading_ws(p)
        },
        is_blank(p) ==> leading_ws(p) == p.len(),
    decreases p.len(),
{
    if p.len() == 0 {
        assert(p.push(c).drop_first() =~= Seq::<char>::empty());
        assert(leading_ws(Seq::<char>::empty()) == 0);
        assert(p.push(c)[0] == c);
    } else {
        assert(p.push(c).drop_first() =~= p.drop_first().push(c));
        assert(p.push(c)[0] == p[0]);
        if is_blank(p) {
            assert(is_blank(p.drop_first()));
        } else if is_whitespace(p[0]) {
            assert(!is_blank(p.drop_first())) by {
                let k = choose|k: int| 0 <= k < p.len() && !is_whitespace(p[k]);
                assert(k != 0);
                assert(p.drop_first()[k - 1] == p[k]);
            }
        }
        lemma_leading_ws_push(p.drop_first(), c);
        if is_blank(p) {
            assert(is_whitespace(p[0]));
        }
    }
}

proof fn lemma_trailing_ws_bound(s: Seq<char>)
    ensures
        trailing_ws(s) <= s.len(),
        forall|i: int| s.len() - trailing_ws(s) <= i < s.len() ==> #[trigger] is_whitespace(s[i]),
        trailing_ws(s) < s.len() ==> !is_whitespace(s[s.len() - trailing_ws(s) - 1]),
    decreases s.len(),
{
    if s.len() > 0 && is_whitespace(s.last()) {
        lemma_trailing_ws_bound(s.drop_last());
        assert forall|i: int| s.len() - trailing_ws(s) <= i < s.len() implies #[trigger] is_whitespace(s[i]) by {
            if i < s.len() - 1 {
                assert(s[i] == s.drop_last()[i]);
            }
        }
        if trailing_ws(s) < s.len() {
            assert(s[s.len() - trailing_ws(s) - 1] == s.drop_last()[s.drop_last().len() - trailing_ws(s.drop_last()) - 1]);
        }
    }
}

/// A character sequence never has more characters than its UTF-8 bytes.
pub proof fn lemma_chars_le_bytes(s: Seq<char>)
    ensures
        s.len() <= byte_len(s),
    decreases s.len(),
{
    if s.len() > 0 {
        lemma_chars_le_bytes(s.drop_first());
        assert(vstd::utf8::encode_scalar(s[0] as u32).len() >= 1);
    }
}

proof fn lemma_leading_ws_bound(s: Seq<char>)
    ensures
        leading_ws(s) <= s.len(),
        forall|i: int| 0 <= i < leading_ws(s) ==> #[trigger] is_whitespace(s[i]),
        leading_ws(s) < s.len() ==> !is_whitespace(s[leading_ws(s) as int]),
    decreases s.len(),
{
    if s.len() > 0 && is_whitespace(s[0]) {
        lemma_leading_ws_bound(s.drop_first());
        assert forall|i: int| 0 <= i < leading_ws(s) implies #[trigger] is_whitespace(s[i]) by {
            if i > 0 {
                assert(s[i] == s.drop_first()[i - 1]);
            }
        }
    }
}

/// `value` without surrounding whitespace.
pub fn trim_text(value: &str) -> (r: String)
    ensures
        r@ == trim(value@),
{
    let ghost s = value@;
    let bytes_len = byte_length(value);
    proof {
        lemma_chars_le_bytes(s);
    }
    let mut blank = true;
    let mut lead: usize = 0;
    let mut trail: usize = 0;
    let mut count: usize = 0;
    for c in it: value.chars()
        invariant
            it.seq() == s,
            count == it.index(),
            blank == is_blank(s.take(count as int)),
            lead == leading_ws(s.take(count as int)),
            trail == trailing_ws(s.take(count as int)),
            lead <= count,
            trail <= count,
            s.len() <= bytes_len,
    {
        let ghost k = count as int;
        assert(s.take(k + 1) =~= s.take(k).push(c));
        assert(s.take(k + 1).drop_last() =~= s.take(k));
        proof {
            lemma_leading_ws_push(s.take(k), c);
        }
        let ws = char_is_whitespace(c);
        if blank && ws {
            lead = lead + 1;
        }
        if ws {
            trail = trail + 1;
        } else {
            trail = 0;
            blank = false;
        }
        assert(blank == is_blank(s.take(k + 1))) by {
            let p = s.take(k + 1);
            assert(p[k] == c);
            if !is_blank(s.take(k)) {
                let j = choose|j: int| 0 <= j < k && !is_whitespace(s.take(k)[j]);
                assert(p[j] == s.take(k)[j]);
            } else if ws {
                assert forall|j: int| 0 <= j < p.len() implies #[trigger] is_whitespace(p[j]) by {
                    if j < k {
                        assert(p[j] == s.take(k)[j]);
                    }
                }
            }
        }
        count = count + 1;
    }
    assert(s.take(count as int) =~= s);
    if blank {
        return String::new();
    }
    proof {
        lemma_leading_ws_bound(s);
        lemma_trailing_ws_bound(s);
        if lead >= s.len() - trail {
            assert(is_blank(s)) by {
                assert forall|i: int| 0 <= i < s.len() implies #[trigger] is_whitespace(s[i]) by {
                    if i >= lead {
                        assert(s.len() - trail <= i);
                    }
                }
            }
        }
    }
    value.substring_char(lead, count - trail).to_owned()
}

/// The canonical decimal spelling of `n`.
pub open spec fn decimal_chars(n: nat) -> Seq<char>
    decreases n,
{
    if n < 10 {
        seq![digit_char(n)]
    } else {
        decimal_chars(n / 10).push(digit_char(n % 10))
    }
}

pub open spec fn digit_char(d: nat) -> char {
    if d == 0 { '0' } else if d == 1 { '1' } else if d == 2 { '2' } else if d == 3 { '3' }
    else if d == 4 { '4' } else if d == 5 { '5' } else if d == 6 { '6' } else if d == 7 { '7' }
    else if d == 8 { '8' } else { '9' }
}

proof fn lemma_decimal_value_monotone(bytes: Seq<u8>, i: int, j: int)
    requires
        0 <= i <= j <= bytes.len(),
        forall|k: int| 0 <= k < bytes.len() ==> #[trigger] is_digit_byte(bytes[k]),
    ensures
        decimal_value(bytes.take(i)) <= decimal_value(bytes.take(j)),
    decreases j - i,
{
    if i < j {
        lemma_decimal_value_monotone(bytes, i, j - 1);
        assert(bytes.take(j).drop_last() =~= bytes.take(j - 1));
    }
}

/// Parses a canonical nonnegative decimal counter that fits in `u64`.
pub fn parse_decimal_u64(value: &str) -> (r: Result<u64, CoreError>)
    ensures
        r is Ok <==> (canonical_decimal(encode_utf8(value@)) && decimal_value(encode_utf8(value@))
            <= u64::MAX),
        r matches Ok(v) ==> v == decimal_value(encode_utf8(value@)),
        r matches Err(e) ==> e.code == ErrorCode::InvalidRequest,
{
    let bytes = value.as_bytes();
    let ghost bs = bytes@;
    let n = bytes.len();
    if n == 0 || (n > 1 && bytes[0] == 48) {
        return Err(CoreError::new(ErrorCode::InvalidRequest, "Provider counters must be canonical nonnegative decimal strings."));
    }
    let mut i: usize = 0;
    while i < n
        invariant
            n == bs.len(),
            bs == bytes@,
            bs == encode_utf8(value@),
            0 <= i <= n,
            forall|j: int| 0 <= j < i ==> #[trigger] is_digit_byte(bs[j]),
        decreases n - i,
    {
        if !(48 <= bytes[i] && bytes[i] <= 57) {
            assert(!is_digit_byte(bs[i as int]));
            return Err(CoreError::new(ErrorCode::InvalidRequest, "Provider counters must be canonical nonnegative decimal strings."));
        }
        i += 1;
    }
    let mut acc: u64 = 0;
    let mut k: usize = 0;
    assert(bs.take(0) =~= Seq::<u8>::empty());
    while k < n
        invariant
            n == bs.len(),
            bs == bytes@,
            bs == encode_utf8(value@),
            0 <= k <= n,
            forall|j: int| 0 <= j < n ==> #[trigger] is_digit_byte(bs[j]),
            acc == decimal_value(bs.take(k as int)),
        decreases n - k,
    {
        assert(is_digit_byte(bs[k as int]));
        let d = (bytes[k] - 48) as u64;
        assert(bs.take(k + 1).drop_last() =~= bs.take(k as int));
        if acc > (u64::MAX - d) / 10 {
            proof {
                assert(acc * 10 + d > u64::MAX) by (nonlinear_arith)
                    requires
                        acc > (u64::MAX - d) / 10,
                        d <= 9;
                lemma_decimal_value_monotone(bs, k + 1, n as int);
                assert(bs.take(n as int) =~= bs);
            }
            return Err(CoreError::new(ErrorCode::InvalidRequest, "Provider counters exceed the supported range."));
        }
        assert(acc * 10 + d <= u64::MAX) by (nonlinear_arith)
            requires
                acc <= (u64::MAX - d) / 10,
                d <= 9;
        acc = acc * 10 + d;
        k += 1;
    }
    assert(bs.take(n as int) =~= bs);
    Ok(acc)
}

/// Every byte is an ASCII digit.
pub open spec fn all_digits(bytes: Seq<u8>) -> bool {
    forall|i: int| 0 <= i < bytes.len() ==> #[trigger] is_digit_byte(bytes[i])
}

/// The text opens with a minus sign.
pub open spec fn negative_text(bytes: Seq<u8>) -> bool {
    bytes.len() > 0 && bytes[0] == 45
}

/// The digits of a signed integer text, after an optional `+` or `-`.
pub open spec fn unsigned_part(bytes: Seq<u8>) -> Seq<u8> {
    if bytes.len() > 0 && (bytes[0] == 43 || bytes[0] == 45) {
        bytes.drop_first()
    } else {
        bytes
    }
}

/// A signed decimal integer (optional sign, at least one digit, leading
/// zeros allowed) within the range of a 64-bit signed integer.
pub open spec fn integer_text_ok(s: Seq<char>) -> bool {
    let b = encode_utf8(s);
    let d = unsigned_part(b);
    &&& d.len() >= 1
    &&& all_digits(d)
    &&& if negative_text(b) { decimal_value(d) <= 0x8000_0000_0000_0000 } else { decimal_value(d) <= i64::MAX }
}

pub open spec fn integer_text_value(s: Seq<char>) -> int {
    let b = encode_utf8(s);
    if negative_text(b) { -decimal_value(unsigned_part(b)) } else { decimal_value(unsigned_part(b)) as int }
}

/// Parses a stored lookup counter the way a SQLite integer is read back from
/// text: an optional sign and decimal digits within the signed 64-bit range.
pub fn parse_lookup_counter(value: &str) -> (r: Result<i64, CoreError>)
    ensures
        r is Ok <==> integer_text_ok(value@),
        r matches Ok(v) ==> v == integer_text_value(value@),
        r matches Err(e) ==> e.code == ErrorCode::InvalidLookupCounter,
{
    let bytes = value.as_bytes();
    let ghost bs = bytes@;
    proof {
        vstd::utf8::encode_utf8_decode_utf8(value@);
    }
    let n = bytes.len();
    let negative = n > 0 && bytes[0] == 45;
    let start: usize = if n > 0 && (bytes[0] == 43 || bytes[0] == 45) { 1 } else { 0 };
    let ghost d = bs.subrange(start as int, n as int);
    assert(d =~= unsigned_part(bs));
    if start >= n {
        return Err(CoreError::new(ErrorCode::InvalidLookupCounter, "A lookup counter is not a valid SQLite integer."));
    }
    let limit: u64 = if negative { 0x8000_0000_0000_0000 } else { 0x7fff_ffff_ffff_ffff };
    let mut acc: u64 = 0;
    let mut k: usize = start;
    assert(d.take(0) =~= Seq::<u8>::empty());
    while k < n
        invariant
            n == bs.len(),
            bs == bytes@,
            start <= k <= n,
            start <= 1,
            bs == encode_utf8(value@),
            d == bs.subrange(start as int, n as int),
            d == unsigned_part(bs),
            forall|j: int| 0 <= j < k - start ==> #[trigger] is_digit_byte(d[j]),
            acc == decimal_value(d.take(k - start)),
            acc <= limit,
            limit == (if negative { 0x8000_0000_0000_0000u64 } else { 0x7fff_ffff_ffff_ffffu64 }),
            negative == negative_text(bs),
        decreases n - k,
    {
        let b = bytes[k];
        assert(b == d[k - start]);
        if !(48 <= b && b <= 57) {
            assert(!is_digit_byte(d[k - start]));
            return Err(CoreError::new(ErrorCode::InvalidLookupCounter, "A lookup counter is not a valid SQLite integer."));
        }
        let digit = (b - 48) as u64;
        assert(d.take(k - start + 1).drop_last() =~= d.take(k - start));
        if acc > (limit - digit) / 10 {
            proof {
                assert(acc * 10 + digit > limit) by (nonlinear_arith)
                    requires
                        acc > (limit - digit) / 10,
                        digit <= 9,
                        limit >= digit;
                if all_digits(d) {
                    lemma_decimal_value_monotone(d, k - start + 1, d.len() as int);
                    assert(d.take(d.len() as int) =~= d);
                }
            }
            return Err(CoreError::new(ErrorCode::InvalidLookupCounter, "A lookup counter is not a valid SQLite integer."));
        }
        assert(acc * 10 + digit <= limit) by (nonlinear_arith)
            requires
                acc <= (limit - digit) / 10,
                digit <= 9,
                limit >= digit;
        acc = acc * 10 + digit;
        k += 1;
    }
    assert(d.take(n - start) =~= d);
    if negative {
        if acc == 0x8000_0000_0000_0000 {
            Ok(i64::MIN)
        } else {
            Ok(-(acc as i64))
        }
    } else {
        Ok(acc as i64)
    }
}

/// A canonical decimal counter within the nonnegative range of a SQLite integer.
pub open spec fn version_ok(s: Seq<char>) -> bool {
    canonical_decimal(encode_utf8(s)) && decimal_value(encode_utf8(s)) <= i64::MAX
}

pub open spec fn version_value(s: Seq<char>) -> nat {
    decimal_value(encode_utf8(s))
}

/// Parses a stored version or sequence counter: a canonical decimal in the
/// nonnegative range of a SQLite integer.
pub fn parse_version(value: &str) -> (r: Result<u64, CoreError>)
    ensures
        r is Ok <==> version_ok(value@),
        r matches Ok(v) ==> v == version_value(value@) && v <= i64::MAX,
        r matches Err(e) ==> e.code == ErrorCode::InvalidRequest,
{
    match parse_decimal_u64(value) {
        Ok(v) => {
            if v > i64::MAX as u64 {
                Err(CoreError::new(ErrorCode::InvalidRequest, "A version must be a canonical nonnegative decimal integer."))
            } else {
                Ok(v)
            }
        },
        Err(_) => Err(CoreError::new(ErrorCode::InvalidRequest, "A version must be a canonical nonnegative decimal integer.")),
    }
}

fn digit_text(d: u64) -> (r: &'static str)
    requires
        d < 10,
    ensures
        r@ == seq![digit_char(d as nat)],
{
    proof {
        reveal_strlit("0");
        reveal_strlit("1");
        reveal_strlit("2");
        reveal_strlit("3");
        reveal_strlit("4");
        reveal_strlit("5");
        reveal_strlit("6");
        reveal_strlit("7");
        reveal_strlit("8");
        reveal_strlit("9");
    }
    if d == 0 { "0" } else if d == 1 { "1" } else if d == 2 { "2" } else if d == 3 { "3" }
    else if d == 4 { "4" } else if d == 5 { "5" } else if d == 6 { "6" } else if d == 7 { "7" }
    else if d == 8 { "8" } else { "9" }
}

/// Appends the canonical decimal spelling of `n` to `out`.
pub fn push_decimal(out: &mut String, n: u64)
    ensures
        final(out)@ == old(out)@ + decimal_chars(n as nat),
    decreases n,
{
    if n < 10 {
        out.append(digit_text(n));
    } else {
        push_decimal(out, n / 10);
        out.append(digit_text(n % 10));
        assert(decimal_chars(n as nat) == decimal_chars((n / 10) as nat).push(digit_char((n % 10) as nat)));
    }
}

/// The canonical decimal spelling of `n`.
pub fn decimal_text(n: u64) -> (r: String)
    ensures
        r@ == decimal_chars(n as nat),
{
    let mut out = String::new();
    push_decimal(&mut out, n);
    assert(out@ =~= decimal_chars(n as nat));
    out
}

/// `a` followed by `b`.
pub fn concat(a: &str, b: &str) -> (r: String)
    ensures
        r@ == a@ + b@,
{
    let mut out = a.to_owned();
    out.append(b);
    out
}

} // verus!
