//! Stored tokens of other services are kept sealed: the text form of a sealed
//! token is the base64 of a 12-byte nonce followed by what AES-256-GCM makes
//! of the token under that nonce.

use vstd::prelude::*;
use vstd::string::StringSliceAdditionalSpecFns;
use vstd::utf8::{decode_utf8, encode_utf8, valid_utf8};

verus! {

/// The length of a key, in bytes.
pub const KEY_BYTES: usize = 32;

/// The length of a nonce, in bytes.
pub const NONCE_BYTES: usize = 12;

/// The key that a secret gives: its first 32 bytes, filled up with zeros
/// where the secret is shorter.
pub open spec fn key_of(secret: Seq<u8>) -> Seq<u8> {
    Seq::new(
        KEY_BYTES as nat,
        |i: int|
            if i < secret.len() {
                secret[i]
            } else {
                0u8
            },
    )
}

/// Makes the key from a configured secret.
pub fn key_from_secret(secret: &str) -> (key: [u8; 32])
    ensures
        key@ == key_of(encode_utf8(secret@)),
{
    let bytes = secret.as_bytes();
    let mut key = [0u8; 32];
    let mut i: usize = 0;
    while i < 32 && i < bytes.len()
        invariant
            i <= 32,
            i <= bytes@.len(),
            bytes@ == encode_utf8(secret@),
            forall|j: int| 0 <= j < i ==> key@[j] == bytes@[j],
            forall|j: int| i <= j < 32 ==> key@[j] == 0u8,
        decreases 32 - i,
    {
        key[i] = bytes[i];
        i = i + 1;
    }
    proof {
        assert(key@ =~= key_of(encode_utf8(secret@)));
    }
    key
}

/// The bytes that a base64 text stands for, in the standard alphabet with
/// padding, as `base64` decodes it; none where it rejects the text.
pub uninterp spec fn base64_decoded(text: Seq<char>) -> Option<Seq<u8>>;

/// `STANDARD.decode` of `base64`: the bytes of the text, or nothing where
/// the crate reports an error.
#[verifier::external_body]
fn base64_decode(text: &str) -> (bytes: Option<Vec<u8>>)
    ensures
        match bytes {
            Some(data) => base64_decoded(text@) == Some(data@),
            None => base64_decoded(text@) is None,
        },
{
    base64::Engine::decode(&base64::engine::general_purpose::STANDARD, text).ok()
}

/// The base64 text of bytes, in the standard alphabet with padding, as
/// `base64` encodes them.
pub uninterp spec fn base64_encoded(bytes: Seq<u8>) -> Seq<char>;

/// The most bytes that are put into base64: with more, the length of the
/// text, four characters for every three bytes, may not fit a `usize`.
pub const MAX_ENCODED_BYTES: usize = 3221225469;

/// `STANDARD.encode` of `base64`: the text of the bytes. The crate panics
/// where it cannot size the text, so the bytes are held to `MAX_ENCODED_BYTES`.
#[verifier::external_body]
fn base64_encode(bytes: &Vec<u8>) -> (text: String)
    requires
        bytes@.len() <= MAX_ENCODED_BYTES,
    ensures
        text@ == base64_encoded(bytes@),
{
    base64::Engine::encode(&base64::engine::general_purpose::STANDARD, bytes)
}

/// What AES-256-GCM makes of `plain` under `key` and `nonce`, the tag at the
/// end, as `aes_gcm` computes it; none where it reports an error.
pub uninterp spec fn aes_gcm_sealed(key: Seq<u8>, nonce: Seq<u8>, plain: Seq<u8>) -> Option<Seq<u8>>;

/// `Aes256Gcm::encrypt` of `aes_gcm` without associated data. The crate
/// reports an error only for a plaintext of more than `cipher_max_plain()`
/// bytes, and what it makes is as long as the plaintext and a tag.
#[verifier::external_body]
fn seal(key: &[u8; 32], nonce: &[u8; 12], plain: &[u8]) -> (sealed: Option<Vec<u8>>)
    ensures
        match sealed {
            Some(data) => aes_gcm_sealed(key@, nonce@, plain@) == Some(data@),
            None => aes_gcm_sealed(key@, nonce@, plain@) is None,
        },
        plain@.len() <= cipher_max_plain() ==> sealed is Some,
        sealed matches Some(data) ==> data@.len() == plain@.len() + TAG_BYTES,
{
    let cipher = <aes_gcm::Aes256Gcm as aes_gcm::KeyInit>::new(key.into());
    aes_gcm::aead::Aead::encrypt(&cipher, nonce.into(), plain).ok()
}

/// What AES-256-GCM recovers from `sealed` under `key` and `nonce`, as
/// `aes_gcm` computes it; none where the tag does not fit.
pub uninterp spec fn aes_gcm_opened(key: Seq<u8>, nonce: Seq<u8>, sealed: Seq<u8>) -> Option<Seq<u8>>;

/// `Aes256Gcm::decrypt` of `aes_gcm` without associated data.
#[verifier::external_body]
fn open(key: &[u8; 32], nonce: &[u8; 12], sealed: &[u8]) -> (plain: Option<Vec<u8>>)
    ensures
        match plain {
            Some(data) => aes_gcm_opened(key@, nonce@, sealed@) == Some(data@),
            None => aes_gcm_opened(key@, nonce@, sealed@) is None,
        },
{
    let cipher = <aes_gcm::Aes256Gcm as aes_gcm::KeyInit>::new(key.into());
    aes_gcm::aead::Aead::decrypt(&cipher, nonce.into(), sealed).ok()
}

/// `String::from_utf8`: the text that the bytes encode, and nothing where
/// they are not UTF-8.
#[verifier::external_body]
fn text_of(bytes: Vec<u8>) -> (text: Option<String>)
    ensures
        match text {
            Some(decoded) => valid_utf8(bytes@) && decoded@ == decode_utf8(bytes@),
            None => !valid_utf8(bytes@),
        },
{
    String::from_utf8(bytes).ok()
}

/// The text form of a token sealed under `key` with `nonce`; none where the
/// cipher reports an error, or nonce and sealed token together are more than
/// `MAX_ENCODED_BYTES`.
pub open spec fn sealed_text(token: Seq<char>, key: Seq<u8>, nonce: Seq<u8>) -> Option<Seq<char>> {
    match aes_gcm_sealed(key, nonce, encode_utf8(token)) {
        Some(sealed) => if nonce.len() + sealed.len() <= MAX_ENCODED_BYTES {
            Some(base64_encoded(nonce + sealed))
        } else {
            None
        },
        None => None,
    }
}

/// The token that a sealed text holds: the text must be base64, hold at
/// least a nonce, open under the key, and give UTF-8.
pub open spec fn opened_text(text: Seq<char>, key: Seq<u8>) -> Option<Seq<char>> {
    match base64_decoded(text) {
        None => None,
        Some(data) => if data.len() < NONCE_BYTES {
            None
        } else {
            match aes_gcm_opened(
                key,
                data.subrange(0, NONCE_BYTES as int),
                data.subrange(NONCE_BYTES as int, data.len() as int),
            ) {
                None => None,
                Some(plain) => if valid_utf8(plain) {
                    Some(decode_utf8(plain))
                } else {
                    None
                },
            }
        },
    }
}

/// Seals a token under `key` with the nonce given. A token seals whenever
/// it, the nonce and the tag together are within `MAX_ENCODED_BYTES`.
pub fn seal_token(token: &str, key: &[u8; 32], nonce: &[u8; 12]) -> (text: Option<String>)
    ensures
        crate::text::opt_view(text) == sealed_text(token@, key@, nonce@),
        fits_sealed(token@) ==> text is Some,
{
    match seal(key, nonce, token.as_bytes()) {
        Some(sealed) => {
            if sealed.len() > MAX_ENCODED_BYTES - NONCE_BYTES {
                return None;
            }
            let mut combined: Vec<u8> = Vec::new();
            let mut i: usize = 0;
            while i < 12
                invariant
                    i <= 12,
                    combined@ == nonce@.subrange(0, i as int),
                decreases 12 - i,
            {
                combined.push(nonce[i]);
                proof {
                    assert(nonce@.subrange(0, i as int).push(nonce@[i as int]) =~= nonce@.subrange(
                        0,
                        i + 1,
                    ));
                }
                i = i + 1;
            }
            let mut j: usize = 0;
            while j < sealed.len()
                invariant
                    j <= sealed.len(),
                    combined@ == nonce@ + sealed@.subrange(0, j as int),
                decreases sealed.len() - j,
            {
                combined.push(sealed[j]);
                proof {
                    assert((nonce@ + sealed@.subrange(0, j as int)).push(sealed@[j as int]) =~= nonce@
                        + sealed@.subrange(0, j + 1));
                }
                j = j + 1;
            }
            proof {
                assert(sealed@.subrange(0, sealed@.len() as int) =~= sealed@);
            }
            Some(base64_encode(&combined))
        },
        None => None,
    }
}

/// Seals a token under `key` with a nonce made for this call. Whatever
/// nonce was made, the result is what sealing under it gives, and a token
/// seals whenever it, the nonce and the tag together are within
/// `MAX_ENCODED_BYTES`.
pub fn encrypt_token(token: &str, key: &[u8; 32]) -> (text: Option<String>)
    ensures
        exists|nonce: Seq<u8>|
            nonce.len() == NONCE_BYTES && crate::text::opt_view(text) == #[trigger] sealed_text(
                token@,
                key@,
                nonce,
            ),
        fits_sealed(token@) ==> text is Some,
{
    let nonce = random_nonce();
    let text = seal_token(token, key, &nonce);
    proof {
        assert(nonce@.len() == NONCE_BYTES && crate::text::opt_view(text) == sealed_text(
            token@,
            key@,
            nonce@,
        ));
    }
    text
}

/// `OsRng.fill_bytes` of `rand`: twelve random bytes.
#[verifier::external_body]
fn random_nonce() -> [u8; 12] {
    let mut nonce = [0u8; 12];
    rand::RngCore::fill_bytes(&mut rand::rngs::OsRng, &mut nonce);
    nonce
}

/// The length of the tag that the cipher puts at the end, in bytes.
pub const TAG_BYTES: usize = 16;

/// The longest plaintext that the cipher takes, in bytes.
pub open spec fn cipher_max_plain() -> int {
    0x10_0000_0000
}

/// Whether a token is short enough to be sealed: the token, a nonce and a
/// tag are together no more than `MAX_ENCODED_BYTES`.
pub open spec fn fits_sealed(token: Seq<char>) -> bool {
    encode_utf8(token).len() + NONCE_BYTES + TAG_BYTES <= MAX_ENCODED_BYTES
}

/// Opens a sealed token: nothing comes back for a text that is not base64,
/// is shorter than a nonce, does not open under `key`, or does not hold UTF-8.
pub fn decrypt_token(encrypted_data: &str, key: &[u8; 32]) -> (token: Option<String>)
    ensures
        crate::text::opt_view(token) == opened_text(encrypted_data@, key@),
{
    let data = match base64_decode(encrypted_data) {
        Some(data) => data,
        None => {
            return None;
        },
    };
    if data.len() < NONCE_BYTES {
        return None;
    }
    let mut nonce = [0u8; 12];
    let mut i: usize = 0;
    while i < 12
        invariant
            i <= 12,
            data@.len() >= 12,
            forall|j: int| 0 <= j < i ==> nonce@[j] == data@[j],
        decreases 12 - i,
    {
        nonce[i] = data[i];
        i = i + 1;
    }
    proof {
        assert(nonce@ =~= data@.subrange(0, NONCE_BYTES as int));
    }
    let sealed = vstd::slice::slice_subrange(data.as_slice(), NONCE_BYTES, data.len());
    match open(key, &nonce, sealed) {
        Some(plain) => text_of(plain),
        None => None,
    }
}

} // verus!
