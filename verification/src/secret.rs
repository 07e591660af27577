//! Rolling secrets: a pair of time-based one-time code generators whose
//! current codes scramble a stored password into a fresh AES key.

use vstd::prelude::*;
use vstd::string::*;
use rand::Rng;
use rand::RngExt;
use rand::rng;
use sha2::Digest;
use totp_rs::TOTP;
use totp_rs::Algorithm::SHA512;
use crate::encoding::b64_decode;
use crate::hostinfo::all_digits;
use crate::hostinfo::dec_val;
use crate::strutil::find_char;
use crate::strutil::suffix_from;

verus! {

/// The fixed alphabet passwords and scrambling keys are drawn from.
pub fn characters() -> (r: &'static str)
    ensures
        r@ == "ABCDEFGHIJKLMNOPQRSTUVWXYZabcdefghijklmnopqrstuvwxyz0123456789!@#$%^&*()"@,
{
    "ABCDEFGHIJKLMNOPQRSTUVWXYZabcdefghijklmnopqrstuvwxyz0123456789!@#$%^&*()"
}

/// The alphabet as a sequence, with its length pinned down.
pub open spec fn characters_spec() -> Seq<char> {
    "ABCDEFGHIJKLMNOPQRSTUVWXYZabcdefghijklmnopqrstuvwxyz0123456789!@#$%^&*()"@
}

proof fn lemma_characters_len()
    ensures
        characters_spec().len() == 72,
{
    reveal_strlit("ABCDEFGHIJKLMNOPQRSTUVWXYZabcdefghijklmnopqrstuvwxyz0123456789!@#$%^&*()");
}

/// Relies on `rand::rng` filling 64 bytes: random material for a new
/// one-time-code secret; nothing is promised of the values.
#[verifier::external_body]
fn random_bytes64() -> (r: [u8; 64]) {
    let mut random_bytes = [0u8; 64];
    rng().fill_bytes(&mut random_bytes);
    random_bytes
}

/// Relies on `sha2::Sha512::digest`: a function of the input bytes alone,
/// 64 bytes long.
#[verifier::external_body]
fn sha512_digest(data: &[u8]) -> (r: Vec<u8>)
    ensures
        r@.len() == 64,
{
    sha2::Sha512::digest(data).to_vec()
}

/// Relies on `rand::Rng::random_range`: an index below `bound`.
#[verifier::external_body]
fn random_index(bound: usize) -> (r: usize)
    requires
        bound > 0,
    ensures
        r < bound,
{
    rng().random_range(0..bound)
}

/// Relies on `totp_rs::TOTP::{new, generate_current}` with SHA-512, eight
/// digits, no skew and a 60-second step: a secret shorter than 16 bytes
/// is refused outright, and a generated code is exactly eight decimal
/// digits. The code depends on the clock, so success is not promised.
#[verifier::external_body]
fn totp_code(secret: &Vec<u8>) -> (r: Option<String>)
    ensures
        secret@.len() < 16 ==> r is None,
        r matches Some(s) ==> s@.len() == 8 && all_digits(s@),
{
    let otp = TOTP::new(SHA512, 8, 0, 60, secret.clone()).ok()?;
    otp.generate_current().ok()
}

/// Ten to the `n`.
pub open spec fn ten_pow(n: nat) -> int
    decreases n,
{
    if n == 0 {
        1
    } else {
        10 * ten_pow((n - 1) as nat)
    }
}

proof fn lemma_dec_val_lt(s: Seq<char>)
    requires
        all_digits(s),
    ensures
        0 <= dec_val(s) < ten_pow(s.len()),
    decreases s.len(),
{
    if s.len() > 0 {
        assert(all_digits(s.drop_last()));
        lemma_dec_val_lt(s.drop_last());
    }
}

/// A pair of one-time-code secrets and the password they scramble.
pub struct RollingSecret {
    otp_a: Vec<u8>,
    otp_b: Vec<u8>,
    aes_password: String,
}

impl RollingSecret {
    /// Builds a secret from two key byte strings and a password; each key
    /// must reach the generator's documented 16-byte minimum.
    fn from_key(key_a: &[u8], key_b: &[u8], aes_password: &str) -> (r: Option<RollingSecret>)
        ensures
            r is Some <==> key_a@.len() >= 16 && key_b@.len() >= 16,
            r matches Some(s) ==> s.otp_a@ == key_a@ && s.otp_b@ == key_b@ && s.aes_password@
                == aes_password@,
    {
        if key_a.len() < 16 || key_b.len() < 16 {
            return None;
        }
        Some(
            RollingSecret {
                otp_a: vstd::slice::slice_to_vec(key_a),
                otp_b: vstd::slice::slice_to_vec(key_b),
                aes_password: String::from_str(aes_password),
            },
        )
    }

    /// Fresh random key material: the SHA-512 digest of 64 random bytes.
    fn generate_key() -> (r: Vec<u8>)
        ensures
            r@.len() == 64,
    {
        let random_bytes = random_bytes64();
        sha512_digest(random_bytes.as_slice())
    }

    /// A random password of `length` characters from the fixed alphabet.
    fn generate_password(length: usize) -> (r: String)
        ensures
            r@.len() == length,
            forall|k: int| 0 <= k < r@.len() ==> characters_spec().contains(#[trigger] r@[k]),
    {
        let chars = characters();
        proof {
            lemma_characters_len();
        }
        let n = chars.unicode_len();
        let mut output = String::new();
        let mut i: usize = 0;
        while i < length
            invariant
                i <= length,
                n == 72,
                characters_spec().len() == 72,
                chars@ == characters_spec(),
                output@.len() == i,
                forall|k: int|
                    0 <= k < output@.len() ==> characters_spec().contains(#[trigger] output@[k]),
            decreases length - i,
        {
            let j = random_index(n);
            let picked = chars.substring_char(j, j + 1);
            proof {
                assert(picked@[0] == characters_spec()[j as int]);
            }
            output.append(picked);
            i += 1;
        }
        output
    }

    /// A fresh rolling secret: two generated keys and a 16-character
    /// random password.
    pub fn generate() -> (r: Option<RollingSecret>)
        ensures
            r is Some,
    {
        let key_a = Self::generate_key();
        let key_b = Self::generate_key();
        let password = Self::generate_password(16);
        Self::from_key(key_a.as_slice(), key_b.as_slice(), password.as_str())
    }

    /// Reads a secret back from its three-part encoded form: two base64
    /// key parts and the password, separated by a fixed marker character.
    pub fn from_string(encoded: &str) -> (r: Option<RollingSecret>)
    {
        let n = encoded.unicode_len();
        let i = match find_char(encoded, '\u{a7}') {
            Some(i) => i,
            None => {
                return None;
            },
        };
        let part0 = encoded.substring_char(0, i);
        let rest = suffix_from(encoded, i + 1);
        let m = rest.unicode_len();
        let j = match find_char(rest, '\u{a7}') {
            Some(j) => j,
            None => {
                return None;
            },
        };
        let part1 = rest.substring_char(0, j);
        let part2 = suffix_from(rest, j + 1);
        if find_char(part2, '\u{a7}').is_some() {
            return None;
        }
        let key_a = match b64_decode(part0) {
            Some(v) => v,
            None => {
                return None;
            },
        };
        let key_b = match b64_decode(part1) {
            Some(v) => v,
            None => {
                return None;
            },
        };
        Self::from_key(key_a.as_slice(), key_b.as_slice(), part2)
    }

    /// The current AES key: both generators' codes, multiplied, scramble
    /// the password, whose SHA-256 digest (32 bytes) is the key. Fails
    /// when a code cannot be generated or the password leaves the fixed
    /// alphabet.
    pub fn rolling_key(&self) -> (r: Option<Vec<u8>>)
        ensures
            r matches Some(v) ==> v@.len() == 32,
    {
        let code_a = match totp_code(&self.otp_a) {
            Some(c) => c,
            None => {
                return None;
            },
        };
        let code_b = match totp_code(&self.otp_b) {
            Some(c) => c,
            None => {
                return None;
            },
        };
        let otp1 = match crate::hostinfo::parse_usize(code_a.as_str()) {
            Some(v) => v,
            None => {
                return None;
            },
        };
        let otp2 = match crate::hostinfo::parse_usize(code_b.as_str()) {
            Some(v) => v,
            None => {
                return None;
            },
        };
        proof {
            lemma_dec_val_lt(code_a@);
            lemma_dec_val_lt(code_b@);
            reveal_with_fuel(ten_pow, 9);
            assert(ten_pow(8) == 100000000);
            assert((otp1 as int) * (otp2 as int) < 0x2386f26fc10000) by (nonlinear_arith)
                requires
                    0 <= otp1 < 100000000,
                    0 <= otp2 < 100000000,
            ;
        }
        let otp: u64 = (otp1 as u64) * (otp2 as u64);
        let password = match self.scramble_password(self.aes_password.as_str(), otp) {
            Some(p) => p,
            None => {
                return None;
            },
        };
        Some(crate::hash::sha256_digest(password.as_str().as_bytes()))
    }

    /// Scrambles `password` by rotating each character through the fixed
    /// alphabet, keyed by the textual form of `secret_key`.
    ///
    /// Fails when the key text is empty (a zero key) or any password
    /// character leaves the alphabet.
    fn scramble_password(&self, password: &str, secret_key: u64) -> (r: Option<String>)
        ensures
            r matches Some(s) ==> s@.len() == password@.len() && forall|k: int|
                0 <= k < s@.len() ==> characters_spec().contains(#[trigger] s@[k]),
    {
        let shuffled_chars = characters();
        proof {
            lemma_characters_len();
        }
        let key = Self::number_to_string(secret_key);
        let key_length = key.as_str().unicode_len();
        if key_length == 0 {
            return None;
        }
        let n = password.unicode_len();
        let mut scrambled = String::new();
        let mut i: usize = 0;
        while i < n
            invariant
                i <= n,
                n == password@.len(),
                key_length == key@.len(),
                key_length > 0,
                characters_spec().len() == 72,
                shuffled_chars@ == characters_spec(),
                forall|k: int| 0 <= k < key@.len() ==> characters_spec().contains(#[trigger] key@[k]),
                scrambled@.len() == i,
                forall|k: int|
                    0 <= k < scrambled@.len() ==> characters_spec().contains(
                        #[trigger] scrambled@[k],
                    ),
            decreases n - i,
        {
            let key_char = key.as_str().get_char(i % key_length);
            let c = password.get_char(i);
            let password_index = match find_char(shuffled_chars, c) {
                Some(p) => p,
                None => {
                    return None;
                },
            };
            let key_index = match find_char(shuffled_chars, key_char) {
                Some(p) => p,
                None => {
                    return None;
                },
            };
            let scrambled_index = (password_index + key_index) % 72;
            let picked = shuffled_chars.substring_char(scrambled_index, scrambled_index + 1);
            proof {
                assert(picked@[0] == characters_spec()[scrambled_index as int]);
            }
            scrambled.append(picked);
            i += 1;
        }
        Some(scrambled)
    }

    /// The fixed alphabet, as the scrambler sees it.
    fn get_shuffled_characters() -> (r: String)
        ensures
            r@ == characters_spec(),
    {
        String::from_str(characters())
    }

    /// The textual form of a number in base 72 over the fixed alphabet;
    /// zero reads as the empty string.
    fn number_to_string(number: u64) -> (r: String)
        ensures
            forall|k: int| 0 <= k < r@.len() ==> characters_spec().contains(#[trigger] r@[k]),
            number == 0 <==> r@.len() == 0,
        decreases number,
    {
        proof {
            lemma_characters_len();
        }
        if number == 0 {
            return String::new();
        }
        let chars = characters();
        let head = Self::number_to_string(number / 72);
        let d = (number % 72) as usize;
        let picked = chars.substring_char(d, d + 1);
        proof {
            assert(picked@[0] == characters_spec()[d as int]);
        }
        head.concat(picked)
    }

    /// Encrypts `data` under the current rolling key.
    pub fn encrypt(&self, data: &[u8]) -> (r: Option<Vec<u8>>) {
        match self.rolling_key() {
            Some(key) => crate::crypto::encrypt(key.as_slice(), data),
            None => None,
        }
    }

    /// Decrypts `data` under the current rolling key.
    pub fn decrypt(&self, data: &[u8]) -> (r: Option<Vec<u8>>) {
        match self.rolling_key() {
            Some(key) => crate::crypto::decrypt(key.as_slice(), data),
            None => None,
        }
    }
}

} // verus!
