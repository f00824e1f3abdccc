//! Administrator requests: user updates, deletion and password resets.
use vstd::prelude::*;
use crate::accounts::{spec_to_lowercase, to_lowercase};
use crate::crypto::{
    hash_password_for_storage, lemma_verify_accepts_own_hash, spec_hash_password,
    spec_verify_password,
};
use crate::error::AppError;
use crate::settings::{server_password_iterations, spec_server_password_iterations};
use crate::text::{chars_contain, chars_of, contains_seq};

verus! {

/// An administrator's update of a user; absent fields are left as they are.
pub struct UpdateUserRequest {
    pub name: Option<String>,
    pub email: Option<String>,
    pub email_verified: Option<bool>,
}

/// An administrator's password reset for a user.
pub struct AdminResetPasswordRequest {
    pub new_password_hash: String,
    pub new_key: String,
}

/// The stored form of a new address: lower-cased.
pub fn normalized_email(email: &str) -> (r: String)
    ensures
        r@ == spec_to_lowercase(email@),
{
    to_lowercase(email)
}

/// The stored form of the verified flag.
pub fn email_verified_flag(verified: bool) -> (r: i32)
    ensures
        r == (if verified {
            1i32
        } else {
            0i32
        }),
{
    if verified {
        1
    } else {
        0
    }
}

/// The error for a failed address update: a uniqueness violation means the address is taken.
pub fn map_email_update_error(message: &str) -> (r: AppError)
    ensures
        contains_seq(message@, "UNIQUE"@) ==> (r matches AppError::BadRequest(m) && m@
            == "邮箱已被使用"@),
        !contains_seq(message@, "UNIQUE"@) ==> r is Database,
{
    let m = chars_of(message);
    let p = chars_of("UNIQUE");
    if chars_contain(&m, &p) {
        AppError::BadRequest(String::from_str("邮箱已被使用"))
    } else {
        AppError::Database
    }
}

/// An administrator may not delete their own account.
pub fn check_not_self(caller_id: &str, target_id: &str) -> (r: Result<(), AppError>)
    ensures
        caller_id@ == target_id@ ==> (r matches Err(AppError::BadRequest(m)) && m@
            == "不能删除自己的账户"@),
        caller_id@ != target_id@ ==> r is Ok,
{
    if crate::text::str_eq(caller_id, target_id) {
        return Err(AppError::BadRequest(String::from_str("不能删除自己的账户")));
    }
    Ok(())
}

/// A looked-up user, or the error for a missing one.
pub fn require_user_exists(found: bool) -> (r: Result<(), AppError>)
    ensures
        found ==> r is Ok,
        !found ==> (r matches Err(AppError::NotFound(m)) && m@ == "用户不存在"@),
{
    if !found {
        return Err(AppError::NotFound(String::from_str("用户不存在")));
    }
    Ok(())
}

/// The new password fields of a reset user.
pub struct PasswordReset {
    pub master_password_hash: String,
    pub password_salt: String,
    pub password_iterations: i32,
    pub key: String,
}

/// The stored fields after a reset: the new password hash hashed for storage with the fresh
/// salt and the configured iteration count (`PASSWORD_ITERATIONS`, at least the minimum),
/// and the new key. The stored iteration count reads back as the one used, so the new
/// password hash verifies against the stored fields.
pub fn prepare_password_reset(
    req: AdminResetPasswordRequest,
    new_salt: String,
    iterations_raw: Option<&str>,
) -> (r: Result<PasswordReset, AppError>)
    ensures
        ({
            let iterations = spec_server_password_iterations(
                match iterations_raw {
                    Some(s) => Some(s@),
                    None => None,
                },
            );
            match spec_hash_password(req.new_password_hash@, new_salt@, iterations) {
                Some(h) => r matches Ok(p) && p.master_password_hash@ == h && p.password_salt
                    == new_salt && p.password_iterations == iterations as i32 && p.key
                    == req.new_key && p.password_iterations as u32 == iterations
                    && spec_verify_password(
                    req.new_password_hash@,
                    p.master_password_hash@,
                    p.password_salt@,
                    p.password_iterations as u32,
                ) == Some(true),
                None => r matches Err(AppError::Crypto(m)) && "Failed to decode salt: "@.is_prefix_of(
                    m@,
                ),
            }
        }),
{
    let iterations = server_password_iterations(iterations_raw);
    #[verifier::truncate]
    let stored_iterations = iterations as i32;
    let hashed = match hash_password_for_storage(
        req.new_password_hash.as_str(),
        new_salt.as_str(),
        iterations,
    ) {
        Ok(h) => h,
        Err(e) => return Err(e),
    };
    proof {
        let it = iterations;
        assert((it as i32) as u32 == it) by (bit_vector);
        lemma_verify_accepts_own_hash(req.new_password_hash@, new_salt@, iterations);
    }
    Ok(PasswordReset {
        master_password_hash: hashed,
        password_salt: new_salt,
        password_iterations: stored_iterations,
        key: req.new_key,
    })
}

} // verus!
