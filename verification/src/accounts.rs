//! Account requests: e-mail and KDF checks, registration, password checks,
//! and the revision date that tells a client whether to sync.
use vstd::prelude::*;
use vstd::utf8::encode_utf8;
use crate::crypto::{spec_verify_password, verify_password};
use crate::error::AppError;
use crate::text::{
    chars_eq, chars_have, chars_lt, chars_of, has_char, lex_lt, split_chars, split_on, string_from_chars,
    trim, trim_chars,
};

verus! {

/// Whether `char::is_alphanumeric` holds of a character (Unicode `Alphabetic` or `Numeric`).
pub uninterp spec fn spec_char_is_alphanumeric(c: char) -> bool;

/// What `str::to_lowercase` gives for a text (full Unicode lower-casing).
pub uninterp spec fn spec_to_lowercase(s: Seq<char>) -> Seq<char>;

/// ASCII letters and digits.
pub open spec fn is_ascii_alphanumeric(c: char) -> bool {
    ||| 'a' <= c <= 'z'
    ||| 'A' <= c <= 'Z'
    ||| '0' <= c <= '9'
}

/// Whether a character is a letter or a number: stated for ASCII, named beyond it.
pub open spec fn alphanumeric(c: char) -> bool {
    if (c as u32) < 128 {
        is_ascii_alphanumeric(c)
    } else {
        spec_char_is_alphanumeric(c)
    }
}

/// Calls `char::is_alphanumeric`. Claimed: its answer is the named property of the character;
/// among ASCII characters it holds exactly of the letters and digits (the `Alphabetic`
/// property and the number categories, which the documentation names, hold of no other
/// ASCII character).
#[verifier::external_body]
fn char_is_alphanumeric(c: char) -> (b: bool)
    ensures
        b == spec_char_is_alphanumeric(c),
        (c as u32) < 128 ==> b == is_ascii_alphanumeric(c),
{
    c.is_alphanumeric()
}

/// Calls `str::to_lowercase`. Claimed: the result is the named lower-casing of the text.
#[verifier::external_body]
pub(crate) fn to_lowercase(s: &str) -> (r: String)
    ensures
        r@ == spec_to_lowercase(s@),
{
    s.to_lowercase()
}

/// Characters allowed before the `@`.
pub open spec fn local_char_ok(c: char) -> bool {
    alphanumeric(c) || c == '.' || c == '-' || c == '_' || c == '+'
}

/// Characters allowed after the `@`.
pub open spec fn domain_char_ok(c: char) -> bool {
    alphanumeric(c) || c == '.' || c == '-'
}

/// The length of a text in UTF-8 bytes.
pub open spec fn byte_len(s: Seq<char>) -> usize {
    encode_utf8(s).len() as usize
}

/// An acceptable e-mail address: 3 to 254 bytes; exactly one `@`; a local part of 1 to 64
/// bytes of letters, digits and `.-_+`; a domain of at least 3 bytes of letters, digits,
/// `.` and `-`, holding a dot and neither starting nor ending with `.` or `-`.
pub open spec fn spec_is_valid_email(e: Seq<char>) -> bool {
    let parts = split_on(e, '@');
    &&& 3 <= byte_len(e) <= 254
    &&& parts.len() == 2
    &&& 0 < parts[0].len()
    &&& byte_len(parts[0]) <= 64
    &&& 0 < parts[1].len()
    &&& byte_len(parts[1]) >= 3
    &&& has_char(parts[1], '.')
    &&& forall|i: int| 0 <= i < parts[0].len() ==> local_char_ok(#[trigger] parts[0][i])
    &&& forall|i: int| 0 <= i < parts[1].len() ==> domain_char_ok(#[trigger] parts[1][i])
    &&& parts[1][0] != '.'
    &&& parts[1].last() != '.'
    &&& parts[1][0] != '-'
    &&& parts[1].last() != '-'
}

fn utf8_len_of_chars(v: &[char]) -> (n: usize)
    ensures
        n == byte_len(v@),
{
    let s = string_from_chars(v);
    s.as_str().len()
}

fn all_local_chars(v: &[char]) -> (r: bool)
    ensures
        r == forall|i: int| 0 <= i < v@.len() ==> local_char_ok(#[trigger] v@[i]),
{
    let mut i: usize = 0;
    while i < v.len()
        invariant
            i <= v.len(),
            forall|k: int| 0 <= k < i ==> local_char_ok(#[trigger] v@[k]),
        decreases v.len() - i,
    {
        let c = v[i];
        if !(char_is_alphanumeric(c) || c == '.' || c == '-' || c == '_' || c == '+') {
            return false;
        }
        i = i + 1;
    }
    true
}

fn all_domain_chars(v: &[char]) -> (r: bool)
    ensures
        r == forall|i: int| 0 <= i < v@.len() ==> domain_char_ok(#[trigger] v@[i]),
{
    let mut i: usize = 0;
    while i < v.len()
        invariant
            i <= v.len(),
            forall|k: int| 0 <= k < i ==> domain_char_ok(#[trigger] v@[k]),
        decreases v.len() - i,
    {
        let c = v[i];
        if !(char_is_alphanumeric(c) || c == '.' || c == '-') {
            return false;
        }
        i = i + 1;
    }
    true
}

/// Checks the format of an e-mail address.
pub fn is_valid_email(email: &str) -> (r: bool)
    ensures
        r == spec_is_valid_email(email@),
{
    let n = email.len();
    if n < 3 || n > 254 {
        return false;
    }
    let cs = chars_of(email);
    let parts = split_chars(&cs, '@');
    if parts.len() != 2 {
        return false;
    }
    let local = &parts[0];
    let domain = &parts[1];
    assert(local@ == split_on(email@, '@')[0]);
    assert(domain@ == split_on(email@, '@')[1]);
    if local.len() == 0 || utf8_len_of_chars(local) > 64 {
        return false;
    }
    if domain.len() == 0 || utf8_len_of_chars(domain) < 3 {
        return false;
    }
    if !chars_have(domain, '.') {
        return false;
    }
    if !all_local_chars(local) {
        return false;
    }
    if !all_domain_chars(domain) {
        return false;
    }
    let last = domain.len() - 1;
    assert(domain@.last() == domain@[last as int]);
    if domain[0] == '.' || domain[last] == '.' || domain[0] == '-' || domain[last] == '-' {
        return false;
    }
    true
}

/// Whether a client KDF iteration count is within the accepted bounds.
pub open spec fn spec_is_valid_kdf_iterations(iterations: i32) -> bool {
    100_000 <= iterations <= 2_000_000
}

/// Validates KDF iterations are within reasonable bounds.
pub fn is_valid_kdf_iterations(iterations: i32) -> (r: bool)
    ensures
        r == spec_is_valid_kdf_iterations(iterations),
{
    iterations >= 100_000 && iterations <= 2_000_000
}

/// The client's asymmetric key pair, as sent at registration.
pub struct UserAsymmetricKeys {
    pub encrypted_private_key: String,
    pub public_key: String,
}

/// A registration request.
pub struct RegisterRequest {
    pub name: Option<String>,
    pub email: String,
    pub master_password_hash: String,
    pub master_password_hint: Option<String>,
    pub user_symmetric_key: String,
    pub user_asymmetric_keys: UserAsymmetricKeys,
    pub kdf: i32,
    pub kdf_iterations: i32,
}

/// The first failed check of a registration request, or `None` when it passes them all.
pub open spec fn spec_registration_problem(r: RegisterRequest) -> Option<Seq<char>> {
    if !spec_is_valid_email(r.email@) {
        Some("Invalid email format"@)
    } else if !spec_is_valid_kdf_iterations(r.kdf_iterations) {
        Some("KDF iterations must be between 100,000 and 2,000,000"@)
    } else if r.kdf != 0 {
        Some("Only PBKDF2 (kdf=0) is supported"@)
    } else if r.master_password_hash@.len() == 0 {
        Some("Master password hash cannot be empty"@)
    } else if r.user_symmetric_key@.len() == 0 || r.user_asymmetric_keys.encrypted_private_key@.len()
        == 0 || r.user_asymmetric_keys.public_key@.len() == 0 {
        Some("Encryption keys cannot be empty"@)
    } else {
        None
    }
}

/// Checks a registration request, in the order the server reports problems.
pub fn validate_registration(req: &RegisterRequest) -> (r: Result<(), AppError>)
    ensures
        match spec_registration_problem(*req) {
            None => r is Ok,
            Some(msg) => r matches Err(AppError::BadRequest(m)) && m@ == msg,
        },
{
    if !is_valid_email(req.email.as_str()) {
        return Err(AppError::BadRequest(String::from_str("Invalid email format")));
    }
    if !is_valid_kdf_iterations(req.kdf_iterations) {
        return Err(
            AppError::BadRequest(
                String::from_str("KDF iterations must be between 100,000 and 2,000,000"),
            ),
        );
    }
    if req.kdf != 0 {
        return Err(AppError::BadRequest(String::from_str("Only PBKDF2 (kdf=0) is supported")));
    }
    if req.master_password_hash.as_str().is_empty() {
        return Err(AppError::BadRequest(String::from_str("Master password hash cannot be empty")));
    }
    if req.user_symmetric_key.as_str().is_empty()
        || req.user_asymmetric_keys.encrypted_private_key.as_str().is_empty()
        || req.user_asymmetric_keys.public_key.as_str().is_empty() {
        return Err(AppError::BadRequest(String::from_str("Encryption keys cannot be empty")));
    }
    Ok(())
}

/// Whether `email` is on the sign-up list: some comma-separated entry, trimmed, equals it.
pub open spec fn spec_signup_allowed(allowed_emails: Seq<char>, email: Seq<char>) -> bool {
    exists|i: int|
        0 <= i < split_on(allowed_emails, ',').len() && trim(
            #[trigger] split_on(allowed_emails, ',')[i],
        ) == email
}

/// Every entry of the sign-up list may sign up: each comma-separated entry, trimmed, is
/// accepted, wherever it stands in the list; an address equal to no trimmed entry is refused.
pub proof fn lemma_every_listed_address_may_sign_up(allowed_emails: Seq<char>, i: int, email: Seq<char>)
    requires
        0 <= i < split_on(allowed_emails, ',').len(),
    ensures
        spec_signup_allowed(allowed_emails, trim(split_on(allowed_emails, ',')[i])),
        (forall|k: int|
            0 <= k < split_on(allowed_emails, ',').len() ==> trim(split_on(allowed_emails, ',')[k])
                != email) ==> !spec_signup_allowed(allowed_emails, email),
{
    assert(trim(split_on(allowed_emails, ',')[i]) == trim(split_on(allowed_emails, ',')[i]));
}

/// Checks `email` against the comma-separated sign-up list (`ALLOWED_EMAILS`).
pub fn check_signup_allowed(allowed_emails: &str, email: &str) -> (r: Result<(), AppError>)
    ensures
        spec_signup_allowed(allowed_emails@, email@) ==> r is Ok,
        !spec_signup_allowed(allowed_emails@, email@) ==> (r matches Err(
            AppError::Unauthorized(m),
        ) && m@ == "Not allowed to signup"@),
{
    let list = chars_of(allowed_emails);
    let target = chars_of(email);
    let parts = split_chars(&list, ',');
    let mut i: usize = 0;
    while i < parts.len()
        invariant
            i <= parts@.len(),
            target@ == email@,
            parts@.len() == split_on(list@, ',').len(),
            list@ == allowed_emails@,
            forall|k: int| 0 <= k < parts@.len() ==> #[trigger] parts@[k]@ == split_on(list@, ',')[k],
            forall|k: int| 0 <= k < i ==> trim(#[trigger] split_on(list@, ',')[k]) != email@,
        decreases parts.len() - i,
    {
        let t = trim_chars(&parts[i]);
        assert(parts@[i as int]@ == split_on(list@, ',')[i as int]);
        if chars_eq(&t, &target) {
            return Ok(());
        }
        i = i + 1;
    }
    Err(AppError::Unauthorized(String::from_str("Not allowed to signup")))
}

/// A new user row, as registration stores it.
pub struct NewUser {
    pub id: String,
    pub name: Option<String>,
    pub email: String,
    pub email_verified: bool,
    pub master_password_hash: String,
    pub master_password_hint: Option<String>,
    pub key: String,
    pub private_key: String,
    pub public_key: String,
    pub kdf_type: i32,
    pub kdf_iterations: i32,
    pub security_stamp: String,
    pub created_at: String,
    pub updated_at: String,
}

/// Decides a registration: the request's checks, then the sign-up list; on success, the
/// row to insert, with the e-mail address lower-cased and the given id, security stamp and
/// creation time.
pub fn prepare_registration(
    req: RegisterRequest,
    allowed_emails: &str,
    id: String,
    security_stamp: String,
    now: String,
) -> (r: Result<NewUser, AppError>)
    ensures
        match spec_registration_problem(req) {
            Some(msg) => r matches Err(AppError::BadRequest(m)) && m@ == msg,
            None => if spec_signup_allowed(allowed_emails@, req.email@) {
                r matches Ok(u) && u.id == id && u.name == req.name && u.email@ == spec_to_lowercase(
                    req.email@,
                ) && !u.email_verified && u.master_password_hash == req.master_password_hash
                    && u.master_password_hint == req.master_password_hint && u.key
                    == req.user_symmetric_key && u.private_key
                    == req.user_asymmetric_keys.encrypted_private_key && u.public_key
                    == req.user_asymmetric_keys.public_key && u.kdf_type == req.kdf
                    && u.kdf_iterations == req.kdf_iterations && u.security_stamp == security_stamp
                    && u.created_at == now && u.updated_at == now
            } else {
                r matches Err(AppError::Unauthorized(m)) && m@ == "Not allowed to signup"@
            },
        },
{
    match validate_registration(&req) {
        Ok(()) => {},
        Err(e) => return Err(e),
    }
    match check_signup_allowed(allowed_emails, req.email.as_str()) {
        Ok(()) => {},
        Err(e) => return Err(e),
    }
    let email = to_lowercase(req.email.as_str());
    let created_at = now.clone();
    Ok(NewUser {
        id,
        name: req.name,
        email,
        email_verified: false,
        master_password_hash: req.master_password_hash,
        master_password_hint: req.master_password_hint,
        key: req.user_symmetric_key,
        private_key: req.user_asymmetric_keys.encrypted_private_key,
        public_key: req.user_asymmetric_keys.public_key,
        kdf_type: req.kdf,
        kdf_iterations: req.kdf_iterations,
        security_stamp,
        created_at,
        updated_at: now,
    })
}

/// The KDF settings a client is told before login.
pub struct PreloginResponse {
    pub kdf: i32,
    pub kdf_iterations: i32,
}

/// The prelogin answer: PBKDF2, with the stored iteration count or 600,000 for an unknown
/// address.
pub fn prelogin_response(kdf_iterations: Option<i32>) -> (r: PreloginResponse)
    ensures
        r.kdf == 0,
        r.kdf_iterations == match kdf_iterations {
            Some(v) => v,
            None => 600_000,
        },
{
    PreloginResponse {
        kdf: 0,
        kdf_iterations: match kdf_iterations {
            Some(v) => v,
            None => 600_000,
        },
    }
}

/// `b` if it is later than `a`, else `a`.
pub open spec fn later_of(a: Seq<char>, b: Option<Seq<char>>) -> Seq<char> {
    match b {
        Some(x) => if lex_lt(a, x) {
            x
        } else {
            a
        },
        None => a,
    }
}

/// The revision date: the latest of the user's, the newest cipher's and the newest folder's
/// update times, compared as strings.
pub open spec fn spec_latest_revision(
    user_updated: Seq<char>,
    cipher_updated: Option<Seq<char>>,
    folder_updated: Option<Seq<char>>,
) -> Seq<char> {
    later_of(later_of(user_updated, cipher_updated), folder_updated)
}

fn later_string(a: String, b: Option<String>) -> (r: String)
    ensures
        r@ == later_of(
            a@,
            match b {
                Some(x) => Some(x@),
                None => None,
            },
        ),
{
    match b {
        Some(x) => {
            let ca = chars_of(a.as_str());
            let cx = chars_of(x.as_str());
            if chars_lt(&ca, &cx) {
                x
            } else {
                a
            }
        },
        None => a,
    }
}

/// Computes the revision date from the user's and the newest cipher's and folder's
/// update times.
pub fn latest_revision_date(
    user_updated: String,
    cipher_updated: Option<String>,
    folder_updated: Option<String>,
) -> (r: String)
    ensures
        r@ == spec_latest_revision(
            user_updated@,
            match cipher_updated {
                Some(x) => Some(x@),
                None => None,
            },
            match folder_updated {
                Some(x) => Some(x@),
                None => None,
            },
        ),
{
    let first = later_string(user_updated, cipher_updated);
    later_string(first, folder_updated)
}

proof fn lemma_lex_lt_transitive(a: Seq<char>, b: Seq<char>, c: Seq<char>)
    requires
        lex_lt(a, b),
        lex_lt(b, c),
    ensures
        lex_lt(a, c),
    decreases a.len(),
{
    if a.len() > 0 && b.len() > 0 && c.len() > 0 && a[0] == b[0] && b[0] == c[0] {
        lemma_lex_lt_transitive(a.drop_first(), b.drop_first(), c.drop_first());
    }
}

proof fn lemma_lex_lt_total(a: Seq<char>, b: Seq<char>)
    ensures
        a == b || lex_lt(a, b) || lex_lt(b, a),
    decreases a.len(),
{
    if a.len() == 0 && b.len() == 0 {
        assert(a =~= b);
    }
    if a.len() > 0 && b.len() > 0 && a[0] != b[0] {
        vstd::utf8::char_u32_cast(a[0], a[0] as u32);
        vstd::utf8::char_u32_cast(b[0], b[0] as u32);
    }
    if a.len() > 0 && b.len() > 0 && a[0] == b[0] {
        lemma_lex_lt_total(a.drop_first(), b.drop_first());
        if a.drop_first() == b.drop_first() {
            assert(a.drop_first().len() == a.len() - 1);
            assert(b.drop_first().len() == b.len() - 1);
            assert(a.len() == b.len());
            assert forall|i: int| 0 <= i < a.len() implies a[i] == b[i] by {
                if i > 0 {
                    assert(a[i] == a.drop_first()[i - 1]);
                    assert(b[i] == b.drop_first()[i - 1]);
                }
            }
            assert(a =~= b);
        }
    }
}

proof fn lemma_lex_lt_irreflexive(a: Seq<char>)
    ensures
        !lex_lt(a, a),
    decreases a.len(),
{
    if a.len() > 0 {
        lemma_lex_lt_irreflexive(a.drop_first());
    }
}

proof fn lemma_later_of_not_earlier(a: Seq<char>, b: Option<Seq<char>>)
    ensures
        !lex_lt(later_of(a, b), a),
        b matches Some(x) ==> !lex_lt(later_of(a, b), x),
{
    lemma_lex_lt_irreflexive(a);
    if let Some(x) = b {
        lemma_lex_lt_irreflexive(x);
        lemma_lex_lt_total(a, x);
        if lex_lt(a, x) && lex_lt(x, a) {
            lemma_lex_lt_transitive(a, x, a);
        }
    }
}

/// The revision date is one of the three update times and none of them is later.
pub proof fn lemma_revision_date_is_latest(
    user_updated: Seq<char>,
    cipher_updated: Option<Seq<char>>,
    folder_updated: Option<Seq<char>>,
)
    ensures
        ({
            let r = spec_latest_revision(user_updated, cipher_updated, folder_updated);
            &&& r == user_updated || Some(r) == cipher_updated || Some(r) == folder_updated
            &&& !lex_lt(r, user_updated)
            &&& cipher_updated matches Some(c) ==> !lex_lt(r, c)
            &&& folder_updated matches Some(f) ==> !lex_lt(r, f)
        }),
{
    let m = later_of(user_updated, cipher_updated);
    let r = later_of(m, folder_updated);
    lemma_later_of_not_earlier(user_updated, cipher_updated);
    lemma_later_of_not_earlier(m, folder_updated);
    // r is not earlier than m, and m is not earlier than the first two.
    lemma_lex_lt_total(r, m);
    if lex_lt(r, user_updated) {
        if r != m {
            lemma_lex_lt_transitive(m, r, user_updated);
        }
    }
    if let Some(c) = cipher_updated {
        if lex_lt(r, c) {
            if r != m {
                lemma_lex_lt_transitive(m, r, c);
            }
        }
    }
}

/// A password change request.
pub struct ChangePasswordRequest {
    pub master_password_hash: String,
    pub new_master_password_hash: String,
    pub key: String,
}

/// Checks a password change request before the stored user is read.
pub fn validate_change_password(req: &ChangePasswordRequest) -> (r: Result<(), AppError>)
    ensures
        req.new_master_password_hash@.len() == 0 ==> (r matches Err(
            AppError::BadRequest(m),
        ) && m@ == "New password hash cannot be empty"@),
        req.new_master_password_hash@.len() != 0 && req.key@.len() == 0 ==> (r matches Err(
            AppError::BadRequest(m),
        ) && m@ == "Encryption key cannot be empty"@),
        req.new_master_password_hash@.len() != 0 && req.key@.len() != 0 ==> r is Ok,
{
    if req.new_master_password_hash.as_str().is_empty() {
        return Err(AppError::BadRequest(String::from_str("New password hash cannot be empty")));
    }
    if req.key.as_str().is_empty() {
        return Err(AppError::BadRequest(String::from_str("Encryption key cannot be empty")));
    }
    Ok(())
}

/// A request to delete the caller's account.
pub struct DeleteAccountRequest {
    pub master_password_hash: String,
}

/// Checks the master password hash the client sent against the stored one, in constant time.
pub fn check_master_password(stored_hash: &str, provided_hash: &str) -> (r: Result<(), AppError>)
    ensures
        stored_hash@ == provided_hash@ ==> r is Ok,
        stored_hash@ != provided_hash@ ==> (r matches Err(
            AppError::Unauthorized(m),
        ) && m@ == "Invalid password"@),
{
    if !crate::crypto::ct_eq(stored_hash, provided_hash) {
        return Err(AppError::Unauthorized(String::from_str("Invalid password")));
    }
    Ok(())
}

/// Whether a client master password hash matches an account: an account with a password
/// salt stores the server-side PBKDF2 form (compared after hashing with that salt and
/// iteration count); an account without one, as imported, stores the client hash itself
/// (compared in constant time). An error only where the stored salt is not valid Base64.
pub fn verify_master_password(
    stored_hash: &str,
    password_salt: Option<&str>,
    iterations: u32,
    provided_hash: &str,
) -> (r: Result<bool, AppError>)
    ensures
        match password_salt {
            Some(salt) if salt@.len() > 0 => match spec_verify_password(
                provided_hash@,
                stored_hash@,
                salt@,
                iterations,
            ) {
                Some(b) => r == Ok::<bool, AppError>(b),
                None => r matches Err(AppError::Crypto(m)) && "Failed to decode salt: "@.is_prefix_of(
                    m@,
                ),
            },
            _ => r == Ok::<bool, AppError>(provided_hash@ == stored_hash@),
        },
{
    match password_salt {
        Some(salt) => {
            if salt.unicode_len() > 0 {
                return verify_password(provided_hash, stored_hash, salt, iterations);
            }
        },
        None => {},
    }
    Ok(crate::crypto::ct_eq(provided_hash, stored_hash))
}

/// The token answered to a request for a verification e-mail; no e-mail is sent.
pub fn send_verification_email() -> (r: String)
    ensures
        r@ == "fixed-token-to-mock"@,
{
    String::from_str("fixed-token-to-mock")
}

/// Whether a user has a master password, and the account status the sync response reports
/// for it: 0 with a master password, 1 without.
pub fn master_password_status(master_password_hash: &str) -> (r: (bool, i32))
    ensures
        r.0 == (master_password_hash@.len() > 0),
        r.1 == (if master_password_hash@.len() > 0 {
            0i32
        } else {
            1i32
        }),
{
    let has = !master_password_hash.is_empty();
    (has, if has {
        0
    } else {
        1
    })
}

} // verus!
