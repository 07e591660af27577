//! Symmetric encryption of session tokens: AES-256-CBC with a random
//! leading IV and PKCS#7 padding.

use vstd::prelude::*;
use aes::cipher::BlockModeDecrypt;
use aes::cipher::BlockModeEncrypt;
use aes::cipher::KeyIvInit;
use cbc::cipher::block_padding::Pkcs7;
use rand::Rng;
use rand::rng;

verus! {

/// What AES-256-CBC decryption with PKCS#7 unpadding yields for a key, an
/// IV and a ciphertext: a function of those three alone, `None` when the
/// key or IV length is wrong or the padding is malformed.
pub uninterp spec fn aes_dec_of(key: Seq<u8>, iv: Seq<u8>, ct: Seq<u8>) -> Option<Seq<u8>>;

/// Relies on `rand::rng` filling 16 bytes: a random IV; nothing is
/// promised of its value.
#[verifier::external_body]
fn random_iv() -> (r: [u8; 16]) {
    let mut iv = [0u8; 16];
    rng().fill_bytes(&mut iv);
    iv
}

/// Relies on `cbc::Encryptor<aes::Aes256>` (via `new_from_slices` and
/// `encrypt_padded_vec`): succeeds exactly when the key is 32 bytes (the
/// IV is always 16 here), and PKCS#7 pads the data to the next full
/// 16-byte block.
#[verifier::external_body]
fn aes_encrypt(key: &[u8], iv: &[u8; 16], data: &[u8]) -> (r: Option<Vec<u8>>)
    ensures
        r is Some <==> key@.len() == 32,
        r matches Some(v) ==> v@.len() == 16 * (data@.len() / 16 + 1),
{
    let cipher = cbc::Encryptor::<aes::Aes256>::new_from_slices(key, iv).ok()?;
    Some(cipher.encrypt_padded_vec::<Pkcs7>(data))
}

/// Relies on `cbc::Decryptor<aes::Aes256>` (via `new_from_slices` and
/// `decrypt_padded_vec`): the result is a function of key, IV and
/// ciphertext alone.
#[verifier::external_body]
fn aes_decrypt(key: &[u8], iv: &[u8], ct: &[u8]) -> (r: Option<Vec<u8>>)
    ensures
        r matches Some(v) ==> aes_dec_of(key@, iv@, ct@) == Some(v@),
        r is None ==> aes_dec_of(key@, iv@, ct@) is None,
{
    let cipher = cbc::Decryptor::<aes::Aes256>::new_from_slices(key, iv).ok()?;
    cipher.decrypt_padded_vec::<Pkcs7>(ct).ok()
}

/// Encrypts `data` under a fresh random IV; the IV leads the result.
///
/// Succeeds exactly when the key is 32 bytes; the result is then the
/// 16-byte IV followed by the padded ciphertext. The IV is random, so no
/// more is promised of the bytes themselves.
pub fn encrypt(key: &[u8], data: &[u8]) -> (r: Option<Vec<u8>>)
    ensures
        r is Some <==> key@.len() == 32,
        r matches Some(v) ==> v@.len() == 16 + 16 * (data@.len() / 16 + 1),
{
    let iv = random_iv();
    let e_bytes = match aes_encrypt(key, &iv, data) {
        Some(v) => v,
        None => {
            return None;
        },
    };
    let mut result: Vec<u8> = Vec::new();
    let mut i: usize = 0;
    while i < 16
        invariant
            i <= 16,
            result@ == iv@.take(i as int),
        decreases 16 - i,
    {
        proof {
            assert(iv@.take(i + 1).drop_last() =~= iv@.take(i as int));
        }
        result.push(iv[i]);
        i += 1;
    }
    proof {
        assert(iv@.take(16) =~= iv@);
    }
    let mut k: usize = 0;
    let m = e_bytes.len();
    while k < m
        invariant
            k <= m,
            m == e_bytes@.len(),
            result@ == iv@ + e_bytes@.take(k as int),
        decreases m - k,
    {
        proof {
            assert((iv@ + e_bytes@.take(k + 1)).drop_last() =~= iv@ + e_bytes@.take(k as int));
        }
        result.push(e_bytes[k]);
        k += 1;
    }
    proof {
        assert(iv@ + e_bytes@.take(m as int) =~= iv@ + e_bytes@);
    }
    Some(result)
}

/// What [`decrypt`] yields: the first 16 bytes are taken as the IV, the
/// rest as ciphertext; fewer than 16 bytes cannot be decrypted.
pub open spec fn decrypt_of(key: Seq<u8>, data: Seq<u8>) -> Option<Seq<u8>> {
    if data.len() < 16 {
        None
    } else {
        aes_dec_of(key, data.take(16), data.skip(16))
    }
}

/// Decrypts AES-256-CBC data, extracting the IV from the first 16 bytes.
pub fn decrypt(key: &[u8], encrypted_data: &[u8]) -> (r: Option<Vec<u8>>)
    ensures
        r matches Some(v) ==> decrypt_of(key@, encrypted_data@) == Some(v@),
        r is None ==> decrypt_of(key@, encrypted_data@) is None,
{
    if encrypted_data.len() < 16 {
        return None;
    }
    let iv = vstd::slice::slice_subrange(encrypted_data, 0, 16);
    let ct = vstd::slice::slice_subrange(encrypted_data, 16, encrypted_data.len());
    proof {
        assert(iv@ == encrypted_data@.take(16));
        assert(ct@ =~= encrypted_data@.skip(16));
    }
    aes_decrypt(key, iv, ct)
}

} // verus!
