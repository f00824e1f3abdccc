use warden_worker::migrate::{
    default_kdf_iterations, migrated_email, migrated_user_row, Migration, UserPlan,
    VaultwardenCipher, VaultwardenFolder, VaultwardenUser,
};

fn user(uuid: &str, email: &str) -> VaultwardenUser {
    VaultwardenUser {
        uuid: uuid.into(),
        email: email.into(),
        name: format!("name-{}", uuid),
        password_hash: "ph".into(),
        salt: "s".into(),
        password_iterations: 100_000,
        password_hint: None,
        key: "k".into(),
        private_key: None,
        public_key: Some("pub".into()),
        totp_secret: None,
        totp_recover: None,
        security_stamp: "st".into(),
        equivalent_domains: "[]".into(),
        excluded_globals: "[]".into(),
        created_at: "c".into(),
        updated_at: "u".into(),
        akey: None,
        avatar_color: None,
        client_kdf_type: 0,
        client_kdf_iter: default_kdf_iterations(),
        client_kdf_memory: None,
        client_kdf_parallelism: None,
    }
}

fn folder(uuid: &str, owner: &str) -> VaultwardenFolder {
    VaultwardenFolder {
        uuid: uuid.into(),
        user_uuid: owner.into(),
        name: format!("folder-{}", uuid),
        created_at: "c".into(),
        updated_at: "u".into(),
    }
}

fn cipher(uuid: &str, owner: Option<&str>, folder: Option<&str>) -> VaultwardenCipher {
    VaultwardenCipher {
        uuid: uuid.into(),
        user_uuid: owner.map(|s| s.to_string()),
        organization_uuid: None,
        folder_uuid: folder.map(|s| s.to_string()),
        cipher_type: 1,
        name: "n".into(),
        notes: None,
        fields: None,
        data: "{}".into(),
        favorite: false,
        password_history: None,
        reprompt: None,
        created_at: "c".into(),
        updated_at: "u".into(),
        deleted_at: None,
    }
}

#[test]
fn user_rows_are_normalised() {
    let u = user("vw1", "Bob@Example.COM");
    assert_eq!(migrated_email(&u), "bob@example.com");
    let r = migrated_user_row(&u, "new".into(), "now".into());
    assert_eq!(r.email, "bob@example.com");
    assert_eq!(r.email_verified, 1);
    assert_eq!(r.private_key, "");
    assert_eq!(r.public_key, "pub");
    assert_eq!(r.kdf_iterations, 600_000);
    assert_eq!(r.updated_at, "now");
    assert_eq!(r.created_at, "c");
}

#[test]
fn import_maps_owners_and_counts() {
    let mut m = Migration::new();
    // A new user.
    let u1 = user("vw1", "a@x.com");
    match m.plan_user("vw1", None, false, "n1".into()) {
        UserPlan::Insert { replace, new_id } => {
            assert!(replace.is_none());
            assert_eq!(new_id, "n1");
        }
        UserPlan::Skip => panic!("skipped"),
    }
    m.record_user_insert(&u1, Ok(()));
    // A user whose address is taken: kept as the existing account.
    match m.plan_user("vw2", Some("existing".into()), false, "n2".into()) {
        UserPlan::Skip => {}
        UserPlan::Insert { .. } => panic!("inserted"),
    }
    // A user that replaces an existing account but fails to insert.
    let u3 = user("vw3", "c@x.com");
    match m.plan_user("vw3", Some("old3".into()), true, "n3".into()) {
        UserPlan::Insert { replace, new_id } => {
            assert_eq!(replace.as_deref(), Some("old3"));
            assert_eq!(new_id, "n3");
        }
        UserPlan::Skip => panic!("skipped"),
    }
    m.record_user_insert(&u3, Err("boom".into()));

    assert_eq!(m.plan_folder(&folder("f1", "vw2"), "nf1".into()).as_deref(), Some("existing"));
    m.record_folder_insert(&folder("f1", "vw2"), Ok(()));
    assert_eq!(m.plan_folder(&folder("f2", "ghost"), "nf2".into()), None);

    let p = m.plan_cipher(&cipher("c1", Some("vw1"), Some("f1"))).unwrap();
    assert_eq!(p.user_id.as_deref(), Some("n1"));
    assert_eq!(p.folder_id.as_deref(), Some("nf1"));
    m.record_cipher_insert(&cipher("c1", Some("vw1"), Some("f1")), Ok(()));
    let p = m.plan_cipher(&cipher("c2", None, Some("f2"))).unwrap();
    assert!(p.user_id.is_none());
    assert!(p.folder_id.is_none());
    m.record_cipher_insert(&cipher("c2", None, None), Err("x".into()));
    assert!(m.plan_cipher(&cipher("c3", Some("ghost"), None)).is_none());

    let r = m.finish();
    assert_eq!(r.users_imported, 1);
    assert_eq!(r.users_skipped, 1);
    assert_eq!(r.folders_imported, 1);
    assert_eq!(r.ciphers_imported, 1);
    assert_eq!(
        r.errors,
        vec![
            "用户 name-vw3 (c@x.com) 导入失败: boom".to_string(),
            "文件夹 f2 的所属用户 ghost 未找到，跳过".to_string(),
            "密码项 c2 导入失败: x".to_string(),
            "密码项 c3 的所属用户未找到，跳过".to_string(),
        ]
    );
}

#[test]
fn later_mapping_wins() {
    let mut m = Migration::new();
    m.plan_user("vw1", None, false, "first".into());
    m.plan_user("vw1", None, false, "second".into());
    assert_eq!(m.plan_folder(&folder("f", "vw1"), "nf".into()).as_deref(), Some("second"));
}
