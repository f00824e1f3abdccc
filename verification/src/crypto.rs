//! Server-side password hashing: PBKDF2-HMAC-SHA256 over the client's password
//! hash, with a Base64 salt, stored as Base64; and constant-time comparison.
use vstd::prelude::*;
use vstd::utf8::*;
use crate::error::AppError;
use base64::Engine;

verus! {

/// Minimum PBKDF2 iterations for server-side password hashing.
pub const MIN_SERVER_PBKDF2_ITERATIONS: u32 = 600_000;

/// Salt length in bytes for server-side password hashing.
pub const PASSWORD_SALT_LENGTH: usize = 64;

/// Derived key length in bits.
pub const KEY_LENGTH_BITS: u32 = 256;

/// The key that `pbkdf2::pbkdf2_hmac::<sha2::Sha256>` derives into a buffer of `len` bytes.
pub uninterp spec fn spec_pbkdf2_hmac_sha256(
    password: Seq<u8>,
    salt: Seq<u8>,
    rounds: u32,
    len: nat,
) -> Seq<u8>;

/// The text that `base64::engine::general_purpose::STANDARD.encode` gives for some bytes.
pub uninterp spec fn spec_base64_encode(bytes: Seq<u8>) -> Seq<char>;

/// What `base64::engine::general_purpose::STANDARD.decode` gives for a text: the bytes,
/// or `None` where it answers with an error.
pub uninterp spec fn spec_base64_decode(text: Seq<char>) -> Option<Seq<u8>>;

/// Calls `pbkdf2::pbkdf2_hmac::<sha2::Sha256>` on a zeroed buffer of `len` bytes.
/// Claimed: the buffer that comes back has `len` bytes and is the named derived key of
/// the arguments. The function fills the buffer it is given and has no error path.
#[verifier::external_body]
fn pbkdf2_hmac_sha256(password: &[u8], salt: &[u8], rounds: u32, len: usize) -> (out: Vec<u8>)
    ensures
        out@ == spec_pbkdf2_hmac_sha256(password@, salt@, rounds, len as nat),
        out@.len() == len,
{
    let mut out = vec![0u8; len];
    pbkdf2::pbkdf2_hmac::<sha2::Sha256>(password, salt, rounds, &mut out);
    out
}

/// Calls `base64::engine::general_purpose::STANDARD.encode`.
/// Claimed: the text is the named encoding of the bytes.
#[verifier::external_body]
fn base64_encode(bytes: &[u8]) -> (text: String)
    ensures
        text@ == spec_base64_encode(bytes@),
{
    base64::engine::general_purpose::STANDARD.encode(bytes)
}

/// Calls `base64::engine::general_purpose::STANDARD.decode`, the error turned into its
/// debug text. Claimed: success exactly where the named decoding is `Some`, with those
/// bytes. Nothing is claimed of the error's text.
#[verifier::external_body]
fn base64_decode(text: &str) -> (r: Result<Vec<u8>, String>)
    ensures
        match r {
            Ok(bytes) => spec_base64_decode(text@) == Some(bytes@),
            Err(_) => spec_base64_decode(text@) is None,
        },
{
    base64::engine::general_purpose::STANDARD.decode(text).map_err(|e| format!("{:?}", e))
}

/// Calls `constant_time_eq::constant_time_eq`. Claimed: `true` exactly when the two byte
/// strings are equal (the source returns `false` on different lengths and otherwise folds
/// the XOR of all bytes).
#[verifier::external_body]
fn bytes_eq_constant_time(a: &[u8], b: &[u8]) -> (r: bool)
    ensures
        r == (a@ == b@),
{
    constant_time_eq::constant_time_eq(a, b)
}

proof fn lemma_encode_utf8_injective(a: Seq<char>, b: Seq<char>)
    ensures
        (encode_utf8(a) == encode_utf8(b)) == (a == b),
{
    encode_utf8_decode_utf8(a);
    encode_utf8_decode_utf8(b);
}

/// Derives a key of `key_length_bits / 8` bytes with PBKDF2-HMAC-SHA256.
pub fn pbkdf2_sha256(password: &[u8], salt: &[u8], iterations: u32, key_length_bits: u32) -> (r:
    Result<Vec<u8>, AppError>)
    ensures
        r matches Ok(key) && key@ == spec_pbkdf2_hmac_sha256(
            password@,
            salt@,
            iterations,
            (key_length_bits / 8) as nat,
        ) && key@.len() == key_length_bits / 8,
{
    let dk_len = (key_length_bits / 8) as usize;
    Ok(pbkdf2_hmac_sha256(password, salt, iterations, dk_len))
}

/// The stored form of a client password hash: the Base64 of PBKDF2-HMAC-SHA256 over the
/// hash's UTF-8 bytes, with the Base64-decoded salt, `iterations` rounds and a 256-bit key;
/// `None` where the salt is not valid Base64.
pub open spec fn spec_hash_password(client_hash: Seq<char>, salt: Seq<char>, iterations: u32) -> Option<
    Seq<char>,
> {
    match spec_base64_decode(salt) {
        Some(salt_bytes) => Some(
            spec_base64_encode(
                spec_pbkdf2_hmac_sha256(encode_utf8(client_hash), salt_bytes, iterations, 32),
            ),
        ),
        None => None,
    }
}

/// What verifying a client password hash against a stored hash answers: whether the stored
/// form of the client hash equals the stored hash; `None` where the salt is not valid Base64.
pub open spec fn spec_verify_password(
    client_hash: Seq<char>,
    stored_hash: Seq<char>,
    salt: Seq<char>,
    iterations: u32,
) -> Option<bool> {
    match spec_hash_password(client_hash, salt, iterations) {
        Some(h) => Some(h == stored_hash),
        None => None,
    }
}

/// Hashes the client-provided master password hash with server-side PBKDF2.
pub fn hash_password_for_storage(client_password_hash: &str, salt: &str, iterations: u32) -> (r:
    Result<String, AppError>)
    ensures
        match r {
            Ok(h) => spec_hash_password(client_password_hash@, salt@, iterations) == Some(h@),
            Err(e) => spec_hash_password(client_password_hash@, salt@, iterations) is None
                && (e matches AppError::Crypto(m) && "Failed to decode salt: "@.is_prefix_of(m@)),
        },
{
    let salt_bytes = match base64_decode(salt) {
        Ok(b) => b,
        Err(msg) => {
            let mut text = String::from_str("Failed to decode salt: ");
            text.append(msg.as_str());
            assert(text@.take("Failed to decode salt: "@.len() as int) =~= "Failed to decode salt: "@);
            return Err(AppError::Crypto(text));
        },
    };
    let derived = match pbkdf2_sha256(
        client_password_hash.as_bytes(),
        salt_bytes.as_slice(),
        iterations,
        KEY_LENGTH_BITS,
    ) {
        Ok(d) => d,
        Err(e) => return Err(e),
    };
    Ok(base64_encode(derived.as_slice()))
}

/// Verifies a client password hash against a stored hash.
pub fn verify_password(client_password_hash: &str, stored_hash: &str, salt: &str, iterations: u32) -> (r:
    Result<bool, AppError>)
    ensures
        match r {
            Ok(b) => spec_verify_password(client_password_hash@, stored_hash@, salt@, iterations)
                == Some(b),
            Err(e) => spec_verify_password(client_password_hash@, stored_hash@, salt@, iterations) is None
                && (e matches AppError::Crypto(m) && "Failed to decode salt: "@.is_prefix_of(m@)),
        },
{
    let computed = match hash_password_for_storage(client_password_hash, salt, iterations) {
        Ok(h) => h,
        Err(e) => return Err(e),
    };
    let same = bytes_eq_constant_time(computed.as_str().as_bytes(), stored_hash.as_bytes());
    proof {
        lemma_encode_utf8_injective(computed@, stored_hash@);
    }
    Ok(same)
}

/// Constant-time string comparison.
pub fn ct_eq(a: &str, b: &str) -> (r: bool)
    ensures
        r == (a@ == b@),
{
    proof {
        lemma_encode_utf8_injective(a@, b@);
    }
    bytes_eq_constant_time(a.as_bytes(), b.as_bytes())
}

/// Encodes freshly drawn random salt bytes as the Base64 text that is stored.
pub fn encode_salt(random_bytes: &[u8]) -> (salt: String)
    ensures
        salt@ == spec_base64_encode(random_bytes@),
{
    base64_encode(random_bytes)
}

/// A password that was hashed for storage is accepted by verification against that hash,
/// with the same salt and iteration count.
pub proof fn lemma_verify_accepts_own_hash(client_hash: Seq<char>, salt: Seq<char>, iterations: u32)
    requires
        spec_hash_password(client_hash, salt, iterations) is Some,
    ensures
        spec_verify_password(
            client_hash,
            spec_hash_password(client_hash, salt, iterations)->Some_0,
            salt,
            iterations,
        ) == Some(true),
{
}

/// Verification fails on exactly the inputs on which hashing fails: an invalid salt.
pub proof fn lemma_verify_fails_with_hashing(
    client_hash: Seq<char>,
    stored_hash: Seq<char>,
    salt: Seq<char>,
    iterations: u32,
)
    ensures
        (spec_verify_password(client_hash, stored_hash, salt, iterations) is None) == (
        spec_hash_password(client_hash, salt, iterations) is None),
{
}

} // verus!
