//! Random strings and request ids.

use rand::{rngs::OsRng, RngCore};
use vstd::prelude::*;
use vstd::string::*;

use crate::text::{all_lower_hex, chars_of, decimal_int, digit_char, has_prefix, i64_to_decimal, is_lower_hex_char, string_from_chars};

verus! {

/// The lower-case hexadecimal digit for `n` (`0 <= n < 16`).
pub open spec fn hex_digit(n: nat) -> char {
    if n < 10 {
        digit_char(n)
    } else if n == 10 {
        'a'
    } else if n == 11 {
        'b'
    } else if n == 12 {
        'c'
    } else if n == 13 {
        'd'
    } else if n == 14 {
        'e'
    } else {
        'f'
    }
}

/// Lower-case hexadecimal text of bytes, two digits per byte, high nibble
/// first.
pub open spec fn hex_lower(bytes: Seq<u8>) -> Seq<char>
    decreases bytes.len(),
{
    if bytes.len() == 0 {
        Seq::empty()
    } else {
        seq![hex_digit((bytes[0] / 16) as nat), hex_digit((bytes[0] % 16) as nat)] + hex_lower(bytes.drop_first())
    }
}

/// Hexadecimal text has two characters per byte.
pub proof fn lemma_hex_lower_len(bytes: Seq<u8>)
    ensures
        hex_lower(bytes).len() == 2 * bytes.len(),
    decreases bytes.len(),
{
    if bytes.len() > 0 {
        lemma_hex_lower_len(bytes.drop_first());
    }
}

/// Every character of hexadecimal text is a lower-case hexadecimal digit.
pub proof fn lemma_hex_lower_all_hex(bytes: Seq<u8>)
    ensures
        all_lower_hex(hex_lower(bytes)),
    decreases bytes.len(),
{
    if bytes.len() > 0 {
        lemma_hex_lower_all_hex(bytes.drop_first());
        let head = seq![hex_digit((bytes[0] / 16) as nat), hex_digit((bytes[0] % 16) as nat)];
        let rest = hex_lower(bytes.drop_first());
        assert(is_lower_hex_char(head[0]));
        assert(is_lower_hex_char(head[1]));
        assert forall|i: int| 0 <= i < hex_lower(bytes).len() implies #[trigger] is_lower_hex_char(hex_lower(bytes)[i]) by {
            if i >= 2 {
                assert(hex_lower(bytes)[i] == rest[i - 2]);
            }
        }
    }
}

/// A prefix of lower-case hexadecimal text is lower-case hexadecimal.
pub proof fn lemma_all_lower_hex_take(s: Seq<char>, n: int)
    requires
        all_lower_hex(s),
        0 <= n <= s.len(),
    ensures
        all_lower_hex(s.take(n)),
{
    assert forall|i: int| 0 <= i < s.take(n).len() implies #[trigger] is_lower_hex_char(s.take(n)[i]) by {
        assert(s.take(n)[i] == s[i]);
    }
}

/// Calls `hex::encode`, which, as the crate's source shows, writes each
/// byte as two digits from the table `0123456789abcdef`, high nibble first.
#[verifier::external_body]
pub(crate) fn hex_encode(data: &[u8]) -> (s: String)
    ensures
        s@ == hex_lower(data@),
{
    hex::encode(data)
}

/// Fills a buffer of `n` bytes from `rand::rngs::OsRng` (`fill_bytes`). The
/// contract claims only the length; the bytes are random. As rand_core's
/// source shows, `fill_bytes` panics when the operating system's generator
/// fails, which no argument can rule out.
#[verifier::external_body]
fn os_random_bytes(n: usize) -> (v: Vec<u8>)
    ensures
        v@.len() == n,
{
    let mut bytes = vec![0u8; n];
    OsRng.fill_bytes(&mut bytes);
    bytes
}

/// Milliseconds since the Unix epoch, from `chrono::Utc::now()` and
/// `timestamp_millis`. Nothing is claimed of the value.
#[verifier::external_body]
pub(crate) fn now_timestamp_millis() -> (t: i64) {
    chrono::Utc::now().timestamp_millis()
}

/// The number of random bytes needed for `length` hexadecimal characters.
pub open spec fn random_bytes_needed(length: nat) -> nat {
    length / 2 + length % 2
}

/// The first `length` hexadecimal characters of the bytes.
pub fn random_string_from_bytes(bytes: &[u8], length: usize) -> (s: String)
    requires
        2 * bytes@.len() >= length,
    ensures
        s@ == hex_lower(bytes@).take(length as int),
{
    let full = hex_encode(bytes);
    proof {
        lemma_hex_lower_len(bytes@);
    }
    let chars = chars_of(full.as_str());
    let mut kept: Vec<char> = Vec::new();
    let mut i: usize = 0;
    while i < length
        invariant
            chars@ == hex_lower(bytes@),
            chars@.len() >= length,
            i <= length,
            kept@ == chars@.take(i as int),
        decreases length - i,
    {
        kept.push(chars[i]);
        i = i + 1;
        assert(kept@ =~= chars@.take(i as int));
    }
    string_from_chars(kept.as_slice())
}

/// A random string of `length` lower-case hexadecimal characters.
pub fn generate_random_string(length: usize) -> (s: String)
    ensures
        s@.len() == length,
        all_lower_hex(s@),
        exists|bytes: Seq<u8>| bytes.len() == random_bytes_needed(length as nat)
            && s@ == #[trigger] hex_lower(bytes).take(length as int),
{
    let n = length / 2 + length % 2;
    let bytes = os_random_bytes(n);
    let s = random_string_from_bytes(bytes.as_slice(), length);
    proof {
        lemma_hex_lower_len(bytes@);
        lemma_hex_lower_all_hex(bytes@);
        lemma_all_lower_hex_take(hex_lower(bytes@), length as int);
    }
    s
}

/// The request id for a prefix, a timestamp and a random part:
/// `{prefix}_{timestamp}_{random}`.
pub open spec fn req_id_text(prefix: Seq<char>, timestamp: int, random: Seq<char>) -> Seq<char> {
    prefix + "_"@ + decimal_int(timestamp) + "_"@ + random
}

/// Builds the request id `{prefix}_{timestamp}_{random}`.
pub fn format_req_id(prefix: &str, timestamp: i64, random: &str) -> (s: String)
    ensures
        s@ == req_id_text(prefix@, timestamp as int, random@),
{
    let mut s = String::from_str(prefix);
    s.append("_");
    let t = i64_to_decimal(timestamp);
    s.append(t.as_str());
    s.append("_");
    s.append(random);
    s
}

/// A unique request id `{prefix}_{timestamp}_{random}`, with the current
/// time in milliseconds and 8 random hexadecimal characters.
pub fn generate_req_id(prefix: &str) -> (s: String)
    ensures
        exists|t: i64, r: Seq<char>| r.len() == 8 && all_lower_hex(r)
            && #[trigger] req_id_text(prefix@, t as int, r) == s@,
{
    let timestamp = now_timestamp_millis();
    let random = generate_random_string(8);
    format_req_id(prefix, timestamp, random.as_str())
}

/// A request id begins with its prefix.
pub proof fn lemma_req_id_has_prefix(prefix: Seq<char>, timestamp: int, random: Seq<char>)
    ensures
        has_prefix(req_id_text(prefix, timestamp, random), prefix),
{
    let s = req_id_text(prefix, timestamp, random);
    assert(s.subrange(0, prefix.len() as int) =~= prefix);
}

} // verus!
