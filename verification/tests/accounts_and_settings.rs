use warden_worker::accounts::{
    check_master_password, check_signup_allowed, is_valid_email, is_valid_kdf_iterations,
    latest_revision_date, prelogin_response, prepare_registration, validate_change_password,
    validate_registration, ChangePasswordRequest, RegisterRequest, UserAsymmetricKeys,
};
use warden_worker::error::AppError;
use warden_worker::settings::{
    allow_totp_drift, base_url, config_environment, get_batch_size, get_disable_user_registration,
    get_env_usize, server_password_iterations, verify_admin, version,
};

fn bad_request(r: Result<(), AppError>) -> String {
    match r {
        Err(AppError::BadRequest(m)) => m,
        other => panic!("expected a bad request, got {:?}", other),
    }
}

fn register_request(email: &str) -> RegisterRequest {
    RegisterRequest {
        name: Some("Alice".to_string()),
        email: email.to_string(),
        master_password_hash: "hash".to_string(),
        master_password_hint: None,
        user_symmetric_key: "sym".to_string(),
        user_asymmetric_keys: UserAsymmetricKeys {
            encrypted_private_key: "priv".to_string(),
            public_key: "pub".to_string(),
        },
        kdf: 0,
        kdf_iterations: 600_000,
    }
}

#[test]
fn email_accepts_ordinary_addresses() {
    assert!(is_valid_email("user@example.com"));
    assert!(is_valid_email("first.last+tag_1@sub-domain.example.org"));
    assert!(is_valid_email("a@b.c"));
    assert!(is_valid_email("用户@例子.中国"));
}

#[test]
fn email_rejects_malformed_addresses() {
    assert!(!is_valid_email("ab"));
    assert!(!is_valid_email("a@@b.com"));
    assert!(!is_valid_email("a@b@c.com"));
    assert!(!is_valid_email("@example.com"));
    assert!(!is_valid_email("user@examplecom"));
    assert!(!is_valid_email("user@.example.com"));
    assert!(!is_valid_email("user@example.com."));
    assert!(!is_valid_email("user@-example.com"));
    assert!(!is_valid_email("user@example.com-"));
    assert!(!is_valid_email("us er@example.com"));
    assert!(!is_valid_email("user@exa_mple.com"));
    assert!(!is_valid_email("user@a."));
}

#[test]
fn email_lengths_are_counted_in_bytes() {
    let local64 = "a".repeat(64);
    assert!(is_valid_email(&format!("{}@example.com", local64)));
    let local65 = "a".repeat(65);
    assert!(!is_valid_email(&format!("{}@example.com", local65)));
    // 22 characters of three bytes each: 66 bytes, over the 64-byte limit.
    let wide = "用".repeat(22);
    assert!(!is_valid_email(&format!("{}@example.com", wide)));
    let long = format!("a@{}.com", "b".repeat(250));
    assert!(!is_valid_email(&long));
}

#[test]
fn kdf_iteration_bounds() {
    assert!(!is_valid_kdf_iterations(99_999));
    assert!(is_valid_kdf_iterations(100_000));
    assert!(is_valid_kdf_iterations(2_000_000));
    assert!(!is_valid_kdf_iterations(2_000_001));
}

#[test]
fn registration_checks_in_order() {
    let mut r = register_request("not-an-email");
    r.kdf_iterations = 1;
    assert_eq!(bad_request(validate_registration(&r)), "Invalid email format");
    let mut r = register_request("a@example.com");
    r.kdf_iterations = 1;
    r.kdf = 1;
    assert_eq!(
        bad_request(validate_registration(&r)),
        "KDF iterations must be between 100,000 and 2,000,000"
    );
    let mut r = register_request("a@example.com");
    r.kdf = 1;
    r.master_password_hash = String::new();
    assert_eq!(bad_request(validate_registration(&r)), "Only PBKDF2 (kdf=0) is supported");
    let mut r = register_request("a@example.com");
    r.master_password_hash = String::new();
    r.user_symmetric_key = String::new();
    assert_eq!(bad_request(validate_registration(&r)), "Master password hash cannot be empty");
    let mut r = register_request("a@example.com");
    r.user_asymmetric_keys.public_key = String::new();
    assert_eq!(bad_request(validate_registration(&r)), "Encryption keys cannot be empty");
    assert!(validate_registration(&register_request("a@example.com")).is_ok());
}

#[test]
fn signup_list_entries_are_trimmed() {
    assert!(check_signup_allowed(" a@x.com , b@y.com", "b@y.com").is_ok());
    assert!(check_signup_allowed("a@x.com", "a@x.com").is_ok());
    match check_signup_allowed(" a@x.com , b@y.com", "B@y.com") {
        Err(AppError::Unauthorized(m)) => assert_eq!(m, "Not allowed to signup"),
        other => panic!("{:?}", other),
    }
    assert!(check_signup_allowed("", "a@x.com").is_err());
}

#[test]
fn registration_stores_lowercased_address() {
    let req = register_request("Alice@Example.com");
    let user = prepare_registration(
        req,
        "Alice@Example.com",
        "id-1".to_string(),
        "stamp".to_string(),
        "2024-01-01T00:00:00Z".to_string(),
    )
    .unwrap();
    assert_eq!(user.email, "alice@example.com");
    assert_eq!(user.id, "id-1");
    assert_eq!(user.security_stamp, "stamp");
    assert_eq!(user.key, "sym");
    assert_eq!(user.private_key, "priv");
    assert_eq!(user.public_key, "pub");
    assert!(!user.email_verified);
    assert_eq!(user.created_at, user.updated_at);
}

#[test]
fn registration_refuses_unlisted_address() {
    let req = register_request("alice@example.com");
    match prepare_registration(req, "bob@example.com", "i".into(), "s".into(), "n".into()) {
        Err(AppError::Unauthorized(m)) => assert_eq!(m, "Not allowed to signup"),
        Err(e) => panic!("{:?}", e),
        Ok(_) => panic!("accepted"),
    }
}

#[test]
fn prelogin_defaults() {
    let r = prelogin_response(None);
    assert_eq!(r.kdf, 0);
    assert_eq!(r.kdf_iterations, 600_000);
    let r = prelogin_response(Some(100_000));
    assert_eq!(r.kdf_iterations, 100_000);
}

#[test]
fn revision_date_is_the_latest() {
    let u = "2024-01-01T00:00:00.000Z".to_string();
    let c = "2024-03-01T00:00:00.000Z".to_string();
    let f = "2024-02-01T00:00:00.000Z".to_string();
    assert_eq!(latest_revision_date(u.clone(), Some(c.clone()), Some(f.clone())), c);
    assert_eq!(latest_revision_date(u.clone(), None, Some(f.clone())), f);
    assert_eq!(latest_revision_date(c.clone(), Some(u.clone()), None), c);
    assert_eq!(latest_revision_date(u.clone(), None, None), u);
}

#[test]
fn change_password_checks() {
    let mut req = ChangePasswordRequest {
        master_password_hash: "old".into(),
        new_master_password_hash: String::new(),
        key: String::new(),
    };
    assert_eq!(bad_request(validate_change_password(&req)), "New password hash cannot be empty");
    req.new_master_password_hash = "new".into();
    assert_eq!(bad_request(validate_change_password(&req)), "Encryption key cannot be empty");
    req.key = "k".into();
    assert!(validate_change_password(&req).is_ok());
    assert!(check_master_password("old", "old").is_ok());
    match check_master_password("old", "other") {
        Err(AppError::Unauthorized(m)) => assert_eq!(m, "Invalid password"),
        other => panic!("{:?}", other),
    }
}

#[test]
fn numeric_settings() {
    assert_eq!(get_env_usize(Some("42"), 30), 42);
    assert_eq!(get_env_usize(Some("abc"), 30), 30);
    assert_eq!(get_env_usize(Some("-1"), 30), 30);
    assert_eq!(get_env_usize(Some(""), 30), 30);
    assert_eq!(get_env_usize(None, 30), 30);
    assert_eq!(get_batch_size(Some("+7")), 7);
    assert_eq!(get_batch_size(None), 30);
}

#[test]
fn password_iterations_are_clamped() {
    assert_eq!(server_password_iterations(Some("700000")), 700_000);
    assert_eq!(server_password_iterations(Some("1000")), 600_000);
    assert_eq!(server_password_iterations(Some("x")), 600_000);
    assert_eq!(server_password_iterations(Some("4294967296")), 600_000);
    assert_eq!(server_password_iterations(None), 600_000);
}

#[test]
fn flags_from_environment() {
    assert!(!allow_totp_drift(Some("TRUE")));
    assert!(!allow_totp_drift(Some("On")));
    assert!(!allow_totp_drift(Some("1")));
    assert!(allow_totp_drift(Some("off")));
    assert!(allow_totp_drift(Some(" on ")));
    assert!(allow_totp_drift(None));
    assert!(get_disable_user_registration(Some("Yes")));
    assert!(get_disable_user_registration(Some("1")));
    assert!(!get_disable_user_registration(Some("on")));
    assert!(!get_disable_user_registration(None));
}

#[test]
fn admin_check() {
    assert!(verify_admin(Some(" Admin@Example.com "), "admin@example.com").is_ok());
    match verify_admin(None, "admin@example.com") {
        Err(AppError::Unauthorized(m)) => {
            assert_eq!(m, "管理员功能未启用：请在环境变量中设置 ADMIN_EMAILS")
        }
        other => panic!("{:?}", other),
    }
    match verify_admin(Some("admin@example.com"), "other@example.com") {
        Err(AppError::Unauthorized(m)) => assert_eq!(m, "需要管理员权限"),
        other => panic!("{:?}", other),
    }
    match verify_admin(Some("   "), "") {
        Ok(()) => {}
        other => panic!("{:?}", other),
    }
}

#[test]
fn several_admins() {
    assert!(verify_admin(Some("a@x.com,b@y.com"), "b@y.com").is_ok());
    assert!(verify_admin(Some("a@x.com, B@Y.com "), "b@y.com").is_ok());
    assert!(verify_admin(Some("a@x.com,b@y.com"), "a@x.com").is_ok());
    match verify_admin(Some("a@x.com,b@y.com"), "c@z.com") {
        Err(AppError::Unauthorized(m)) => assert_eq!(m, "需要管理员权限"),
        other => panic!("{:?}", other),
    }
    match verify_admin(Some(""), "a@x.com") {
        Err(AppError::Unauthorized(m)) => {
            assert_eq!(m, "管理员功能未启用：请在环境变量中设置 ADMIN_EMAILS")
        }
        other => panic!("{:?}", other),
    }
}

#[test]
fn base_url_defaults() {
    assert_eq!(base_url(None, None).0, "https://localhost");
    assert_eq!(base_url(Some("http"), Some("a.b:8787")).0, "http://a.b:8787");
}

#[test]
fn config_endpoints() {
    let env = config_environment("https://vault.example");
    assert_eq!(env.vault, "https://vault.example");
    assert_eq!(env.api, "https://vault.example/api");
    assert_eq!(env.identity, "https://vault.example/identity");
    assert_eq!(env.notifications, "https://vault.example/notifications");
    assert_eq!(version(), "2025.12.0");
}

#[test]
fn error_status_codes() {
    assert_eq!(AppError::BadRequest("x".into()).status_code(), 400);
    assert_eq!(AppError::Unauthorized("x".into()).status_code(), 401);
    assert_eq!(AppError::NotFound("x".into()).status_code(), 404);
    assert_eq!(AppError::Database.status_code(), 500);
    assert_eq!(AppError::Internal.status_code(), 500);
    assert_eq!(AppError::Crypto("x".into()).status_code(), 500);
}
