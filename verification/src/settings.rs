//! Settings read from the environment, and the administrator check.
//! The caller reads the variable; these functions decide on its text.
use vstd::prelude::*;
use crate::error::AppError;
use crate::number::{parse_u32, parse_usize, spec_parse_u32, spec_parse_usize};
use crate::text::{
    chars_eq_ignore_ascii_case, chars_of, eq_ignore_ascii_case, split_chars, split_on, trim,
    trim_chars,
};

verus! {

/// The number of ciphers written per database batch when nothing is configured.
pub const DEFAULT_BATCH_SIZE: usize = 30;

/// The value of a numeric variable, or `default` where it is unset or not a `usize`.
pub open spec fn spec_env_usize(raw: Option<Seq<char>>, default: usize) -> usize {
    match raw {
        Some(s) => match spec_parse_usize(s) {
            Some(v) => v,
            None => default,
        },
        None => default,
    }
}

/// Reads a numeric setting, falling back to `default`.
pub fn get_env_usize(raw: Option<&str>, default: usize) -> (r: usize)
    ensures
        r == spec_env_usize(
            match raw {
                Some(s) => Some(s@),
                None => None,
            },
            default,
        ),
{
    match raw {
        Some(s) => match parse_usize(s) {
            Some(v) => v,
            None => default,
        },
        None => default,
    }
}

/// The cipher batch size (`IMPORT_BATCH_SIZE`), 30 by default.
pub fn get_batch_size(raw: Option<&str>) -> (r: usize)
    ensures
        r == spec_env_usize(
            match raw {
                Some(s) => Some(s@),
                None => None,
            },
            DEFAULT_BATCH_SIZE,
        ),
{
    get_env_usize(raw, DEFAULT_BATCH_SIZE)
}

/// The server-side PBKDF2 iteration count (`PASSWORD_ITERATIONS`): the configured count
/// where it parses and reaches the minimum, the minimum otherwise.
pub open spec fn spec_server_password_iterations(raw: Option<Seq<char>>) -> u32 {
    match raw {
        Some(s) => match spec_parse_u32(s) {
            Some(v) => if v >= crate::crypto::MIN_SERVER_PBKDF2_ITERATIONS {
                v
            } else {
                crate::crypto::MIN_SERVER_PBKDF2_ITERATIONS
            },
            None => crate::crypto::MIN_SERVER_PBKDF2_ITERATIONS,
        },
        None => crate::crypto::MIN_SERVER_PBKDF2_ITERATIONS,
    }
}

/// Reads the server-side PBKDF2 iteration count.
pub fn server_password_iterations(raw: Option<&str>) -> (r: u32)
    ensures
        r == spec_server_password_iterations(
            match raw {
                Some(s) => Some(s@),
                None => None,
            },
        ),
        r >= crate::crypto::MIN_SERVER_PBKDF2_ITERATIONS,
{
    let min = crate::crypto::MIN_SERVER_PBKDF2_ITERATIONS;
    match raw {
        Some(s) => match parse_u32(s) {
            Some(v) => if v >= min {
                v
            } else {
                min
            },
            None => min,
        },
        None => min,
    }
}

/// Whether `s` equals one of `words` up to ASCII case. For these words this is the same
/// as comparing `s.to_lowercase()`: no character outside ASCII lower-cases to one of
/// their letters.
fn equals_any_word(s: &str, words: &[&str]) -> (r: bool)
    ensures
        r == exists|i: int| 0 <= i < words@.len() && eq_ignore_ascii_case(s@, (#[trigger] words@[i])@),
{
    let cs = chars_of(s);
    let mut i: usize = 0;
    while i < words.len()
        invariant
            i <= words@.len(),
            cs@ == s@,
            forall|k: int| 0 <= k < i ==> !eq_ignore_ascii_case(s@, (#[trigger] words@[k])@),
        decreases words.len() - i,
    {
        let w = chars_of(words[i]);
        if chars_eq_ignore_ascii_case(&cs, &w) {
            return true;
        }
        i = i + 1;
    }
    false
}

/// The words that switch off TOTP time drift.
pub open spec fn is_drift_off_word(s: Seq<char>) -> bool {
    ||| eq_ignore_ascii_case(s, "1"@)
    ||| eq_ignore_ascii_case(s, "true"@)
    ||| eq_ignore_ascii_case(s, "yes"@)
    ||| eq_ignore_ascii_case(s, "on"@)
}

/// Whether TOTP validation allows a drift of one time step
/// (`AUTHENTICATOR_DISABLE_TIME_DRIFT` unset or not one of the words that switch it off).
pub fn allow_totp_drift(raw: Option<&str>) -> (r: bool)
    ensures
        r == match raw {
            Some(s) => !is_drift_off_word(s@),
            None => true,
        },
{
    match raw {
        Some(s) => {
            let words = ["1", "true", "yes", "on"];
            let found = equals_any_word(s, &words);
            proof {
                if is_drift_off_word(s@) {
                    if eq_ignore_ascii_case(s@, "1"@) {
                        assert(eq_ignore_ascii_case(s@, words@[0]@));
                    } else if eq_ignore_ascii_case(s@, "true"@) {
                        assert(eq_ignore_ascii_case(s@, words@[1]@));
                    } else if eq_ignore_ascii_case(s@, "yes"@) {
                        assert(eq_ignore_ascii_case(s@, words@[2]@));
                    } else {
                        assert(eq_ignore_ascii_case(s@, words@[3]@));
                    }
                }
            }
            !found
        },
        None => true,
    }
}

/// The words that disable user registration.
pub open spec fn is_registration_off_word(s: Seq<char>) -> bool {
    ||| eq_ignore_ascii_case(s, "true"@)
    ||| eq_ignore_ascii_case(s, "1"@)
    ||| eq_ignore_ascii_case(s, "yes"@)
}

/// Whether user registration is disabled (`DISABLE_USER_REGISTRATION`).
pub fn get_disable_user_registration(raw: Option<&str>) -> (r: bool)
    ensures
        r == match raw {
            Some(s) => is_registration_off_word(s@),
            None => false,
        },
{
    match raw {
        Some(s) => {
            let words = ["true", "1", "yes"];
            let found = equals_any_word(s, &words);
            proof {
                if is_registration_off_word(s@) {
                    if eq_ignore_ascii_case(s@, "true"@) {
                        assert(eq_ignore_ascii_case(s@, words@[0]@));
                    } else if eq_ignore_ascii_case(s@, "1"@) {
                        assert(eq_ignore_ascii_case(s@, words@[1]@));
                    } else {
                        assert(eq_ignore_ascii_case(s@, words@[2]@));
                    }
                }
            }
            found
        },
        None => false,
    }
}

/// Whether `email` is on the administrator list: some comma-separated entry, trimmed,
/// equals it up to ASCII case.
pub open spec fn is_listed_admin(admin_emails: Seq<char>, email: Seq<char>) -> bool {
    exists|i: int|
        0 <= i < split_on(admin_emails, ',').len() && eq_ignore_ascii_case(
            trim(#[trigger] split_on(admin_emails, ',')[i]),
            email,
        )
}

/// The answer to an administrator check, given the configured administrator list
/// (`ADMIN_EMAILS`, comma-separated, empty when unset) and the address in the caller's token.
pub open spec fn spec_verify_admin(admin_emails: Seq<char>, claims_email: Seq<char>) -> Result<
    (),
    Seq<char>,
> {
    if admin_emails.len() == 0 {
        Err("管理员功能未启用：请在环境变量中设置 ADMIN_EMAILS"@)
    } else if !is_listed_admin(admin_emails, claims_email) {
        Err("需要管理员权限"@)
    } else {
        Ok(())
    }
}

/// Checks that the caller is an administrator: some entry of the configured comma-separated
/// list, trimmed, must equal the caller's address up to ASCII case.
pub fn verify_admin(admin_emails: Option<&str>, claims_email: &str) -> (r: Result<(), AppError>)
    ensures
        ({
            let admins = match admin_emails {
                Some(s) => s@,
                None => Seq::<char>::empty(),
            };
            match spec_verify_admin(admins, claims_email@) {
                Ok(()) => r is Ok,
                Err(msg) => r matches Err(AppError::Unauthorized(m)) && m@ == msg,
            }
        }),
{
    let list: Vec<char> = match admin_emails {
        Some(s) => chars_of(s),
        None => Vec::new(),
    };
    if list.len() == 0 {
        return Err(
            AppError::Unauthorized(String::from_str("管理员功能未启用：请在环境变量中设置 ADMIN_EMAILS")),
        );
    }
    let email = chars_of(claims_email);
    let parts = split_chars(&list, ',');
    let mut i: usize = 0;
    while i < parts.len()
        invariant
            i <= parts@.len(),
            email@ == claims_email@,
            list@ == (match admin_emails {
                Some(s) => s@,
                None => Seq::<char>::empty(),
            }),
            list@.len() > 0,
            parts@.len() == split_on(list@, ',').len(),
            forall|k: int| 0 <= k < parts@.len() ==> #[trigger] parts@[k]@ == split_on(list@, ',')[k],
            forall|k: int|
                0 <= k < i ==> !eq_ignore_ascii_case(
                    trim(#[trigger] split_on(list@, ',')[k]),
                    claims_email@,
                ),
        decreases parts.len() - i,
    {
        let t = trim_chars(&parts[i]);
        assert(parts@[i as int]@ == split_on(list@, ',')[i as int]);
        if chars_eq_ignore_ascii_case(&t, &email) {
            assert(eq_ignore_ascii_case(trim(split_on(list@, ',')[i as int]), claims_email@));
            assert(is_listed_admin(list@, claims_email@));
            return Ok(());
        }
        i = i + 1;
    }
    Err(AppError::Unauthorized(String::from_str("需要管理员权限")))
}

/// The registration switch is on for `true`, `1` and `yes` in any ASCII case, and for
/// nothing else.
pub proof fn lemma_registration_switch_words(s: Seq<char>)
    ensures
        eq_ignore_ascii_case(s, "true"@) ==> is_registration_off_word(s),
        eq_ignore_ascii_case(s, "1"@) ==> is_registration_off_word(s),
        eq_ignore_ascii_case(s, "yes"@) ==> is_registration_off_word(s),
        is_registration_off_word(s) ==> eq_ignore_ascii_case(s, "true"@) || eq_ignore_ascii_case(
            s,
            "1"@,
        ) || eq_ignore_ascii_case(s, "yes"@),
        s == "true"@ ==> is_registration_off_word(s),
        s == "TRUE"@ ==> is_registration_off_word(s),
        s == "Yes"@ ==> is_registration_off_word(s),
        s == "false"@ ==> !is_registration_off_word(s),
        s.len() == 0 ==> !is_registration_off_word(s),
{
    reveal_strlit("true");
    reveal_strlit("TRUE");
    reveal_strlit("1");
    reveal_strlit("yes");
    reveal_strlit("Yes");
    reveal_strlit("false");
    if s == "TRUE"@ {
        assert(eq_ignore_ascii_case(s, "true"@));
    }
    if s == "Yes"@ {
        assert(eq_ignore_ascii_case(s, "yes"@));
    }
    if s == "false"@ {
        assert(!eq_ignore_ascii_case(s, "true"@));
        assert(!eq_ignore_ascii_case(s, "yes"@));
    }
}

/// TOTP time drift is switched off for `1`, `true`, `yes` and `on` in any ASCII case, and for
/// nothing else; an unset variable leaves it on.
pub proof fn lemma_drift_switch_words(s: Seq<char>)
    ensures
        eq_ignore_ascii_case(s, "1"@) ==> is_drift_off_word(s),
        eq_ignore_ascii_case(s, "true"@) ==> is_drift_off_word(s),
        eq_ignore_ascii_case(s, "yes"@) ==> is_drift_off_word(s),
        eq_ignore_ascii_case(s, "on"@) ==> is_drift_off_word(s),
        is_drift_off_word(s) ==> eq_ignore_ascii_case(s, "1"@) || eq_ignore_ascii_case(s, "true"@)
            || eq_ignore_ascii_case(s, "yes"@) || eq_ignore_ascii_case(s, "on"@),
        s == "ON"@ ==> is_drift_off_word(s),
        s.len() == 0 ==> !is_drift_off_word(s),
{
    reveal_strlit("1");
    reveal_strlit("true");
    reveal_strlit("yes");
    reveal_strlit("on");
    reveal_strlit("ON");
    if s == "ON"@ {
        assert(eq_ignore_ascii_case(s, "on"@));
    }
}

/// Every address on a non-empty administrator list is an administrator: the check accepts
/// each entry, trimmed, as the caller's address.
pub proof fn lemma_every_listed_address_is_admin(admin_emails: Seq<char>, i: int)
    requires
        admin_emails.len() > 0,
        0 <= i < split_on(admin_emails, ',').len(),
    ensures
        spec_verify_admin(admin_emails, trim(split_on(admin_emails, ',')[i])) == Ok::<
            (),
            Seq<char>,
        >(()),
{
    let e = trim(split_on(admin_emails, ',')[i]);
    assert(eq_ignore_ascii_case(e, e));
    assert(is_listed_admin(admin_emails, e));
}

/// Base URL extracted from the incoming request, used for the config endpoint.
#[derive(Clone)]
pub struct BaseUrl(pub String);

/// The base URL of a request: its scheme (`https` when absent), `://`, and its authority
/// (`localhost` when absent).
pub fn base_url(scheme: Option<&str>, authority: Option<&str>) -> (r: BaseUrl)
    ensures
        r.0@ == (match scheme {
            Some(s) => s@,
            None => "https"@,
        }) + "://"@ + (match authority {
            Some(a) => a@,
            None => "localhost"@,
        }),
{
    let mut text = match scheme {
        Some(s) => String::from_str(s),
        None => String::from_str("https"),
    };
    text.append("://");
    match authority {
        Some(a) => text.append(a),
        None => text.append("localhost"),
    }
    BaseUrl(text)
}

/// The server version reported to clients (`GET /api/version`, and the config response).
pub fn version() -> (v: &'static str)
    ensures
        v@ == "2025.12.0"@,
{
    "2025.12.0"
}

/// The service endpoints announced in the config response.
pub struct ConfigEnvironment {
    pub vault: String,
    pub api: String,
    pub identity: String,
    pub notifications: String,
}

/// The service endpoints under a base URL.
pub fn config_environment(domain: &str) -> (r: ConfigEnvironment)
    ensures
        r.vault@ == domain@,
        r.api@ == domain@ + "/api"@,
        r.identity@ == domain@ + "/identity"@,
        r.notifications@ == domain@ + "/notifications"@,
{
    let vault = String::from_str(domain);
    let mut api = String::from_str(domain);
    api.append("/api");
    let mut identity = String::from_str(domain);
    identity.append("/identity");
    let mut notifications = String::from_str(domain);
    notifications.append("/notifications");
    ConfigEnvironment { vault, api, identity, notifications }
}

} // verus!
