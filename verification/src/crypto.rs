//! Decryption of downloaded files: AES-256-CBC with the key's first 16
//! bytes as IV, followed by PKCS#7 unpadding over 32-byte blocks.

use aes::Aes256;
use base64::engine::general_purpose::STANDARD as BASE64_STD;
use base64::Engine;
use cbc::Decryptor;
use cipher::{block_padding::NoPadding, BlockDecryptMut, KeyIvInit};
use vstd::prelude::*;
use vstd::string::*;

use crate::text::{chars_of, decimal_nat, is_unicode_whitespace, is_whitespace_char, u64_to_decimal, usize_to_decimal};

verus! {

// ---------------------------------------------------------------------
// Outside computations

/// What base64's STANDARD engine (padding required, canonical trailing
/// bits) gives back for the input bytes: the decoded bytes, or the text
/// of its `DecodeError`.
pub uninterp spec fn base64_standard_decoded(input: Seq<u8>) -> Result<Seq<u8>, Seq<char>>;

/// The plaintext that AES-256 in CBC mode, without any unpadding, gives
/// for `data` under `key` and `iv`.
pub uninterp spec fn aes256_cbc_decrypted(key: Seq<u8>, iv: Seq<u8>, data: Seq<u8>) -> Seq<u8>;

/// Calls `base64::Engine::decode` on the STANDARD engine. The contract
/// claims only that the outcome is the named result for the input bytes,
/// the error being the `Display` text of base64's `DecodeError`.
#[verifier::external_body]
fn base64_decode_standard(input: &[u8]) -> (res: Result<Vec<u8>, String>)
    ensures
        match res {
            Ok(v) => base64_standard_decoded(input@) == Ok::<Seq<u8>, Seq<char>>(v@),
            Err(e) => base64_standard_decoded(input@) == Err::<Seq<u8>, Seq<char>>(e@),
        },
{
    match BASE64_STD.decode(input) {
        Ok(v) => Ok(v),
        Err(e) => Err(e.to_string()),
    }
}

/// Calls `cbc::Decryptor::<Aes256>::new_from_slices` and then
/// `decrypt_padded_mut::<NoPadding>` on a copy of `data`. As the sources of
/// crypto-common and cipher show: initialisation fails with the text
/// "Invalid Length" unless the key has 32 bytes and the IV 16; decryption
/// fails with "Unpad Error" unless the length is a multiple of the 16-byte
/// block; otherwise the result has the input's length and is the named
/// plaintext. The plaintext itself is not described.
#[verifier::external_body]
fn aes256_cbc_decrypt_no_padding(key: &[u8], iv: &[u8], data: &[u8]) -> (res: Result<Vec<u8>, String>)
    ensures
        bytes_or_text(res) == if key@.len() != 32 || iv@.len() != 16 {
            Err::<Seq<u8>, Seq<char>>("Invalid Length"@)
        } else if data@.len() % 16 != 0 {
            Err::<Seq<u8>, Seq<char>>("Unpad Error"@)
        } else {
            Ok::<Seq<u8>, Seq<char>>(aes256_cbc_decrypted(key@, iv@, data@))
        },
        res matches Ok(v) ==> v@.len() == data@.len(),
{
    let mut buffer = data.to_vec();
    let decryptor = match Decryptor::<Aes256>::new_from_slices(key, iv) {
        Ok(d) => d,
        Err(e) => return Err(e.to_string()),
    };
    match decryptor.decrypt_padded_mut::<NoPadding>(&mut buffer) {
        Ok(out) => Ok(out.to_vec()),
        Err(e) => Err(e.to_string()),
    }
}

// ---------------------------------------------------------------------
// Model

/// A string that `trim` turns into the empty string.
pub open spec fn is_blank(s: Seq<char>) -> bool {
    forall|i: int| 0 <= i < s.len() ==> is_unicode_whitespace(#[trigger] s[i])
}

/// Why PKCS#7 unpadding refused a buffer.
#[derive(Debug, Clone, Copy, PartialEq, Eq)]
pub enum PaddingError {
    /// The decrypted buffer is empty.
    Empty,
    /// The last byte is 0, above 32, or above the buffer's length.
    InvalidValue(u8),
    /// Some of the last `n` bytes differ from `n`.
    Mismatch,
}

/// `n` copies of the byte `n`: the PKCS#7 padding of length `n`.
pub open spec fn pkcs7_padding(n: u8) -> Seq<u8> {
    Seq::new(n as nat, |i: int| n)
}

/// PKCS#7 unpadding with blocks of up to 32 bytes.
pub open spec fn pkcs7_unpad(data: Seq<u8>) -> Result<Seq<u8>, PaddingError> {
    if data.len() == 0 {
        Err(PaddingError::Empty)
    } else {
        let p = data.last();
        if p < 1 || p > 32 || p > data.len() {
            Err(PaddingError::InvalidValue(p))
        } else if exists|i: int| data.len() - p <= i < data.len() && data[i] != p {
            Err(PaddingError::Mismatch)
        } else {
            Ok(data.subrange(0, data.len() - p))
        }
    }
}

/// The message that `decrypt_file` gives for a padding error.
pub open spec fn padding_error_message(e: PaddingError) -> Seq<char> {
    match e {
        PaddingError::Empty => "decrypt_file: Decrypted data is empty"@,
        PaddingError::InvalidValue(p) => "decrypt_file: Invalid PKCS#7 padding value: "@
            + decimal_nat(p as nat),
        PaddingError::Mismatch => "decrypt_file: Invalid PKCS#7 padding: padding bytes mismatch"@,
    }
}

/// A `Result` of byte and character containers, taken by its views.
pub open spec fn bytes_or_text(r: Result<Vec<u8>, String>) -> Result<Seq<u8>, Seq<char>> {
    match r {
        Ok(v) => Ok(v@),
        Err(e) => Err(e@),
    }
}

/// What decryption gives for the encrypted bytes and the decoded key.
pub open spec fn decrypt_with_key_result(encrypted: Seq<u8>, key: Seq<u8>) -> Result<Seq<u8>, Seq<char>> {
    if key.len() < 32 {
        Err("decrypt_file: aesKey length invalid: "@ + decimal_nat(key.len()))
    } else if key.len() != 32 {
        Err("decrypt_file: cipher init failed: "@ + "Invalid Length"@)
    } else if encrypted.len() % 16 != 0 {
        Err("decrypt_file: Decryption failed - "@ + "Unpad Error"@)
    } else {
        match pkcs7_unpad(aes256_cbc_decrypted(key, key.subrange(0, 16), encrypted)) {
            Ok(plain) => Ok(plain),
            Err(e) => Err(padding_error_message(e)),
        }
    }
}

/// What `decrypt_file` returns for the encrypted bytes and the base64 text
/// of the key.
pub open spec fn decrypt_file_result(encrypted: Seq<u8>, key_text: Seq<char>) -> Result<Seq<u8>, Seq<char>> {
    if encrypted.len() == 0 {
        Err("decrypt_file: encryptedBuffer is empty or not provided"@)
    } else if is_blank(key_text) {
        Err("decrypt_file: aesKey must be a non-empty string"@)
    } else {
        match base64_standard_decoded(vstd::utf8::encode_utf8(key_text)) {
            Err(e) => Err("decrypt_file: invalid base64 aesKey: "@ + e),
            Ok(key) => decrypt_with_key_result(encrypted, key),
        }
    }
}

// ---------------------------------------------------------------------
// Code

/// Whether every character of `s` is white space, that is whether
/// `s.trim()` is empty.
pub fn is_blank_str(s: &str) -> (b: bool)
    ensures
        b == is_blank(s@),
{
    let chars = chars_of(s);
    let mut i: usize = 0;
    while i < chars.len()
        invariant
            chars@ == s@,
            i <= chars@.len(),
            forall|j: int| 0 <= j < i ==> is_unicode_whitespace(#[trigger] s@[j]),
        decreases chars.len() - i,
    {
        if !is_whitespace_char(chars[i]) {
            assert(!is_unicode_whitespace(s@[i as int]));
            return false;
        }
        i = i + 1;
    }
    true
}

/// Removes PKCS#7 padding (blocks of up to 32 bytes) from a decrypted
/// buffer.
pub fn pkcs7_strip(data: &[u8]) -> (res: Result<Vec<u8>, PaddingError>)
    ensures
        match res {
            Ok(v) => pkcs7_unpad(data@) == Ok::<Seq<u8>, PaddingError>(v@),
            Err(e) => pkcs7_unpad(data@) == Err::<Seq<u8>, PaddingError>(e),
        },
{
    let len = data.len();
    if len == 0 {
        return Err(PaddingError::Empty);
    }
    let p = data[len - 1];
    if p < 1 || p > 32 || (p as usize) > len {
        return Err(PaddingError::InvalidValue(p));
    }
    let start = len - p as usize;
    let mut i = start;
    while i < len
        invariant
            len == data@.len(),
            p == data@.last(),
            1 <= p <= 32,
            p <= len,
            start == len - p,
            start <= i <= len,
            forall|j: int| start <= j < i ==> data@[j] == p,
        decreases len - i,
    {
        if data[i] != p {
            assert(data@.len() - data@.last() <= i < data@.len() && data@[i as int] != data@.last());
            return Err(PaddingError::Mismatch);
        }
        i = i + 1;
    }
    let mut out: Vec<u8> = Vec::new();
    let mut k: usize = 0;
    while k < start
        invariant
            start <= data@.len(),
            k <= start,
            out@ == data@.subrange(0, k as int),
        decreases start - k,
    {
        out.push(data[k]);
        k = k + 1;
        assert(out@ =~= data@.subrange(0, k as int));
    }
    Ok(out)
}

/// The message for a padding error, as `decrypt_file` reports it.
pub fn padding_error_text(e: PaddingError) -> (s: String)
    ensures
        s@ == padding_error_message(e),
{
    match e {
        PaddingError::Empty => String::from_str("decrypt_file: Decrypted data is empty"),
        PaddingError::InvalidValue(p) => {
            let mut s = String::from_str("decrypt_file: Invalid PKCS#7 padding value: ");
            let d = u64_to_decimal(p as u64);
            s.append(d.as_str());
            s
        },
        PaddingError::Mismatch => String::from_str(
            "decrypt_file: Invalid PKCS#7 padding: padding bytes mismatch",
        ),
    }
}

/// Removes the PKCS#7 padding from the output of the AES step of
/// `decrypt_file`, with that function's error messages.
pub fn strip_pkcs7_padding(decrypted: &[u8]) -> (res: Result<Vec<u8>, String>)
    ensures
        bytes_or_text(res) == match pkcs7_unpad(decrypted@) {
            Ok(plain) => Ok::<Seq<u8>, Seq<char>>(plain),
            Err(e) => Err::<Seq<u8>, Seq<char>>(padding_error_message(e)),
        },
{
    match pkcs7_strip(decrypted) {
        Ok(v) => Ok(v),
        Err(e) => Err(padding_error_text(e)),
    }
}

/// Decrypts a file with AES-256-CBC: the key is the base64 text
/// `aes_key_base64`, the IV its first 16 bytes, and the PKCS#7 padding
/// (blocks of up to 32 bytes) is removed from the plaintext.
pub fn decrypt_file(encrypted: &[u8], aes_key_base64: &str) -> (res: Result<Vec<u8>, String>)
    ensures
        bytes_or_text(res) == decrypt_file_result(encrypted@, aes_key_base64@),
{
    if encrypted.len() == 0 {
        return Err(String::from_str("decrypt_file: encryptedBuffer is empty or not provided"));
    }
    if is_blank_str(aes_key_base64) {
        return Err(String::from_str("decrypt_file: aesKey must be a non-empty string"));
    }
    let key = match base64_decode_standard(aes_key_base64.as_bytes()) {
        Ok(k) => k,
        Err(e) => {
            let mut msg = String::from_str("decrypt_file: invalid base64 aesKey: ");
            msg.append(e.as_str());
            return Err(msg);
        },
    };
    decrypt_with_key(encrypted, key.as_slice())
}

/// Decrypts with an already decoded key: AES-256-CBC with the key's first
/// 16 bytes as IV, then PKCS#7 unpadding; with `decrypt_file`'s messages.
pub fn decrypt_with_key(encrypted: &[u8], key: &[u8]) -> (res: Result<Vec<u8>, String>)
    ensures
        bytes_or_text(res) == decrypt_with_key_result(encrypted@, key@),
{
    if key.len() < 32 {
        let mut msg = String::from_str("decrypt_file: aesKey length invalid: ");
        let d = usize_to_decimal(key.len());
        msg.append(d.as_str());
        return Err(msg);
    }
    let iv = &key[0..16];
    let decrypted = match aes256_cbc_decrypt_no_padding(key, iv, encrypted) {
        Ok(d) => d,
        Err(e) => {
            let mut msg = if key.len() != 32 {
                String::from_str("decrypt_file: cipher init failed: ")
            } else {
                String::from_str("decrypt_file: Decryption failed - ")
            };
            msg.append(e.as_str());
            return Err(msg);
        },
    };
    strip_pkcs7_padding(decrypted.as_slice())
}

// ---------------------------------------------------------------------
// Laws

/// Unpadding gives back the data that PKCS#7 padding of any length from 1
/// to 32 was appended to.
pub proof fn lemma_pkcs7_unpad_inverts_padding(data: Seq<u8>, n: u8)
    requires
        1 <= n <= 32,
    ensures
        pkcs7_unpad(data + pkcs7_padding(n)) == Ok::<Seq<u8>, PaddingError>(data),
{
    let padded = data + pkcs7_padding(n);
    assert(padded.last() == n);
    assert forall|i: int| padded.len() - n <= i < padded.len() implies padded[i] == n by {}
    assert(padded.subrange(0, padded.len() - n) =~= data);
}

/// A file whose ciphertext decrypts, under a 32-byte base64 key, to a
/// plaintext followed by valid PKCS#7 padding is decrypted by
/// `decrypt_file` to that plaintext.
pub proof fn lemma_decrypt_file_recovers_plaintext(
    encrypted: Seq<u8>,
    key_text: Seq<char>,
    key: Seq<u8>,
    plain: Seq<u8>,
    n: u8,
)
    requires
        encrypted.len() > 0,
        encrypted.len() % 16 == 0,
        !is_blank(key_text),
        base64_standard_decoded(vstd::utf8::encode_utf8(key_text)) == Ok::<Seq<u8>, Seq<char>>(key),
        key.len() == 32,
        1 <= n <= 32,
        aes256_cbc_decrypted(key, key.subrange(0, 16), encrypted) == plain + pkcs7_padding(n),
    ensures
        decrypt_file_result(encrypted, key_text) == Ok::<Seq<u8>, Seq<char>>(plain),
{
    lemma_pkcs7_unpad_inverts_padding(plain, n);
}

} // verus!
