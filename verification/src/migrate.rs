//! Import of a Vaultwarden database: users first, then folders, then ciphers.
//!
//! The caller reads and writes the database; a [`Migration`] decides, item by item,
//! what to write and keeps the id mappings and the tally. For each user the caller asks
//! [`Migration::plan_user`], performs the plan, and reports the insert with
//! [`Migration::record_user_insert`]; folders and ciphers go the same way.
use vstd::prelude::*;
use crate::accounts::{spec_to_lowercase, to_lowercase};

verus! {

/// A Vaultwarden user row.
pub struct VaultwardenUser {
    pub uuid: String,
    pub email: String,
    pub name: String,
    pub password_hash: String,
    pub salt: String,
    pub password_iterations: i64,
    pub password_hint: Option<String>,
    pub key: String,
    pub private_key: Option<String>,
    pub public_key: Option<String>,
    pub totp_secret: Option<String>,
    pub totp_recover: Option<String>,
    pub security_stamp: String,
    pub equivalent_domains: String,
    pub excluded_globals: String,
    pub created_at: String,
    pub updated_at: String,
    pub akey: Option<String>,
    pub avatar_color: Option<String>,
    pub client_kdf_type: i32,
    pub client_kdf_iter: i32,
    pub client_kdf_memory: Option<i32>,
    pub client_kdf_parallelism: Option<i32>,
}

/// The client KDF iteration count assumed when a user row has none.
pub fn default_kdf_iterations() -> (r: i32)
    ensures
        r == 600_000,
{
    600_000
}

/// A Vaultwarden cipher row.
pub struct VaultwardenCipher {
    pub uuid: String,
    pub user_uuid: Option<String>,
    pub organization_uuid: Option<String>,
    pub folder_uuid: Option<String>,
    pub cipher_type: i32,
    pub name: String,
    pub notes: Option<String>,
    pub fields: Option<String>,
    pub data: String,
    pub favorite: bool,
    pub password_history: Option<String>,
    pub reprompt: Option<i32>,
    pub created_at: String,
    pub updated_at: String,
    pub deleted_at: Option<String>,
}

/// A Vaultwarden folder row.
pub struct VaultwardenFolder {
    pub uuid: String,
    pub user_uuid: String,
    pub name: String,
    pub created_at: String,
    pub updated_at: String,
}

/// A full import request.
pub struct MigrateRequest {
    pub users: Vec<VaultwardenUser>,
    pub folders: Vec<VaultwardenFolder>,
    pub ciphers: Vec<VaultwardenCipher>,
    /// Whether to replace users that already exist (matched by e-mail address).
    pub overwrite_existing: bool,
}

/// The tally of an import.
pub struct MigrateResult {
    pub users_imported: usize,
    pub users_skipped: usize,
    pub folders_imported: usize,
    pub ciphers_imported: usize,
    pub errors: Vec<String>,
}

/// Looks a key up in a list of pairs, the latest pair for the key winning.
pub open spec fn lookup(pairs: Seq<(String, String)>, key: Seq<char>) -> Option<Seq<char>>
    decreases pairs.len(),
{
    if pairs.len() == 0 {
        None
    } else if pairs.last().0@ == key {
        Some(pairs.last().1@)
    } else {
        lookup(pairs.drop_last(), key)
    }
}

fn find(pairs: &Vec<(String, String)>, key: &str) -> (r: Option<String>)
    ensures
        match r {
            Some(v) => lookup(pairs@, key@) == Some(v@),
            None => lookup(pairs@, key@) is None,
        },
{
    let mut i: usize = pairs.len();
    assert(pairs@.take(pairs@.len() as int) =~= pairs@);
    while i > 0
        invariant
            i <= pairs@.len(),
            lookup(pairs@, key@) == lookup(pairs@.take(i as int), key@),
        decreases i,
    {
        let ghost pre = pairs@.take(i as int);
        assert(pre.drop_last() =~= pairs@.take(i - 1));
        assert(pre.last() == pairs@[i - 1]);
        if crate::text::str_eq(pairs[i - 1].0.as_str(), key) {
            return Some(pairs[i - 1].1.clone());
        }
        i = i - 1;
    }
    None
}

/// What to do with one Vaultwarden user.
pub enum UserPlan {
    /// The address is taken and nothing is replaced: keep the existing account.
    Skip,
    /// Insert the user under `new_id`, after deleting the account `replace` and its data
    /// where there is one.
    Insert { replace: Option<String>, new_id: String },
}

/// Where an imported cipher goes.
pub struct CipherPlacement {
    pub user_id: Option<String>,
    pub folder_id: Option<String>,
}

/// The row an imported user is inserted as.
pub struct MigratedUserRow {
    pub id: String,
    pub name: String,
    pub email: String,
    pub email_verified: i32,
    pub master_password_hash: String,
    pub master_password_hint: Option<String>,
    pub key: String,
    pub private_key: String,
    pub public_key: String,
    pub kdf_type: i32,
    pub kdf_iterations: i32,
    pub kdf_memory: Option<i32>,
    pub kdf_parallelism: Option<i32>,
    pub security_stamp: String,
    pub equivalent_domains: String,
    pub excluded_globals: String,
    pub totp_recover: Option<String>,
    pub avatar_color: Option<String>,
    pub created_at: String,
    pub updated_at: String,
}

/// An optional string, or the empty string.
pub open spec fn or_empty(s: Option<String>) -> Seq<char> {
    match s {
        Some(x) => x@,
        None => Seq::empty(),
    }
}

fn string_or_empty(s: &Option<String>) -> (r: String)
    ensures
        r@ == or_empty(*s),
{
    match s {
        Some(x) => x.clone(),
        None => String::new(),
    }
}

/// The address under which a Vaultwarden user is looked up and stored: lower-cased.
pub fn migrated_email(user: &VaultwardenUser) -> (r: String)
    ensures
        r@ == spec_to_lowercase(user.email@),
{
    to_lowercase(user.email.as_str())
}

/// The row an imported user is stored as: the address lower-cased, marked verified, the
/// password hash and keys carried over as they are (a missing key pair as empty strings),
/// the client KDF settings, and `now` as the update time.
pub fn migrated_user_row(user: &VaultwardenUser, id: String, now: String) -> (row: MigratedUserRow)
    ensures
        row.id == id,
        row.name == user.name,
        row.email@ == spec_to_lowercase(user.email@),
        row.email_verified == 1,
        row.master_password_hash == user.password_hash,
        row.master_password_hint == user.password_hint,
        row.key == user.key,
        row.private_key@ == or_empty(user.private_key),
        row.public_key@ == or_empty(user.public_key),
        row.kdf_type == user.client_kdf_type,
        row.kdf_iterations == user.client_kdf_iter,
        row.kdf_memory == user.client_kdf_memory,
        row.kdf_parallelism == user.client_kdf_parallelism,
        row.security_stamp == user.security_stamp,
        row.equivalent_domains == user.equivalent_domains,
        row.excluded_globals == user.excluded_globals,
        row.totp_recover == user.totp_recover,
        row.avatar_color == user.avatar_color,
        row.created_at == user.created_at,
        row.updated_at == now,
{
    MigratedUserRow {
        id,
        name: user.name.clone(),
        email: migrated_email(user),
        email_verified: 1,
        master_password_hash: user.password_hash.clone(),
        master_password_hint: user.password_hint.clone(),
        key: user.key.clone(),
        private_key: string_or_empty(&user.private_key),
        public_key: string_or_empty(&user.public_key),
        kdf_type: user.client_kdf_type,
        kdf_iterations: user.client_kdf_iter,
        kdf_memory: user.client_kdf_memory,
        kdf_parallelism: user.client_kdf_parallelism,
        security_stamp: user.security_stamp.clone(),
        equivalent_domains: user.equivalent_domains.clone(),
        excluded_globals: user.excluded_globals.clone(),
        totp_recover: user.totp_recover.clone(),
        avatar_color: user.avatar_color.clone(),
        created_at: user.created_at.clone(),
        updated_at: now,
    }
}

/// The message for a user whose insert failed.
pub open spec fn user_error(name: Seq<char>, email: Seq<char>, cause: Seq<char>) -> Seq<char> {
    "用户 "@ + name + " ("@ + email + ") 导入失败: "@ + cause
}

/// The message for a folder whose owner was not imported.
pub open spec fn folder_owner_error(uuid: Seq<char>, user_uuid: Seq<char>) -> Seq<char> {
    "文件夹 "@ + uuid + " 的所属用户 "@ + user_uuid + " 未找到，跳过"@
}

/// The message for a folder whose insert failed.
pub open spec fn folder_error(name: Seq<char>, cause: Seq<char>) -> Seq<char> {
    "文件夹 "@ + name + " 导入失败: "@ + cause
}

/// The message for a cipher whose owner was not imported.
pub open spec fn cipher_owner_error(uuid: Seq<char>) -> Seq<char> {
    "密码项 "@ + uuid + " 的所属用户未找到，跳过"@
}

/// The message for a cipher whose insert failed.
pub open spec fn cipher_error(uuid: Seq<char>, cause: Seq<char>) -> Seq<char> {
    "密码项 "@ + uuid + " 导入失败: "@ + cause
}

/// `after` is `before` with one more message, `msg`.
pub open spec fn one_more_error(before: Seq<String>, after: Seq<String>, msg: Seq<char>) -> bool {
    &&& after.len() == before.len() + 1
    &&& after.drop_last() == before
    &&& after.last()@ == msg
}

/// `id` is the new id of the owner `user_uuid`, and absent for a cipher without owner.
pub open spec fn owner_placed(
    pairs: Seq<(String, String)>,
    user_uuid: Option<String>,
    id: Option<String>,
) -> bool {
    match user_uuid {
        Some(u) => id matches Some(i) && lookup(pairs, u@) == Some(i@),
        None => id is None,
    }
}

/// `id` is the new id of the folder `folder_uuid`, and absent where it has none.
pub open spec fn folder_placed(
    pairs: Seq<(String, String)>,
    folder_uuid: Option<String>,
    id: Option<String>,
) -> bool {
    match folder_uuid {
        Some(f) => match lookup(pairs, f@) {
            Some(fid) => id matches Some(i) && i@ == fid,
            None => id is None,
        },
        None => id is None,
    }
}

/// The decisions of an import in progress.
pub struct Migration {
    pub user_ids: Vec<(String, String)>,
    pub folder_ids: Vec<(String, String)>,
    pub result: MigrateResult,
}

impl Migration {
    /// The new id of each Vaultwarden user seen so far.
    pub open spec fn user_ids(&self) -> Seq<(String, String)> {
        self.user_ids@
    }

    /// The new id of each Vaultwarden folder seen so far.
    pub open spec fn folder_ids(&self) -> Seq<(String, String)> {
        self.folder_ids@
    }

    /// An import that has done nothing yet.
    pub fn new() -> (m: Migration)
        ensures
            m.user_ids().len() == 0,
            m.folder_ids().len() == 0,
            m.result.users_imported == 0,
            m.result.users_skipped == 0,
            m.result.folders_imported == 0,
            m.result.ciphers_imported == 0,
            m.result.errors@.len() == 0,
    {
        Migration {
            user_ids: Vec::new(),
            folder_ids: Vec::new(),
            result: MigrateResult {
                users_imported: 0,
                users_skipped: 0,
                folders_imported: 0,
                ciphers_imported: 0,
                errors: Vec::new(),
            },
        }
    }

    /// Decides what to do with a user, given the id of the account that already has its
    /// address, if any. A taken address is skipped unless `overwrite` is set, and the user's
    /// folders and ciphers then go to the existing account; otherwise the user is inserted
    /// as `new_id`, replacing the existing account where there is one.
    pub fn plan_user(
        &mut self,
        user_uuid: &str,
        existing_id: Option<String>,
        overwrite: bool,
        new_id: String,
    ) -> (plan: UserPlan)
        requires
            existing_id is Some && !overwrite ==> old(self).result.users_skipped < usize::MAX,
        ensures
            final(self).folder_ids() == old(self).folder_ids(),
            final(self).result.users_imported == old(self).result.users_imported,
            final(self).result.folders_imported == old(self).result.folders_imported,
            final(self).result.ciphers_imported == old(self).result.ciphers_imported,
            final(self).result.errors@ == old(self).result.errors@,
            match existing_id {
                Some(x) if !overwrite => {
                    &&& plan is Skip
                    &&& final(self).result.users_skipped == old(self).result.users_skipped + 1
                    &&& final(self).user_ids().len() == old(self).user_ids().len() + 1
                    &&& final(self).user_ids().drop_last() == old(self).user_ids()
                    &&& final(self).user_ids().last().0@ == user_uuid@
                    &&& final(self).user_ids().last().1 == x
                    &&& lookup(final(self).user_ids(), user_uuid@) == Some(x@)
                },
                _ => {
                    &&& plan matches UserPlan::Insert { replace, new_id: id } && replace
                        == existing_id && id == new_id
                    &&& final(self).result.users_skipped == old(self).result.users_skipped
                    &&& final(self).user_ids().len() == old(self).user_ids().len() + 1
                    &&& final(self).user_ids().drop_last() == old(self).user_ids()
                    &&& final(self).user_ids().last().0@ == user_uuid@
                    &&& final(self).user_ids().last().1 == new_id
                    &&& lookup(final(self).user_ids(), user_uuid@) == Some(new_id@)
                },
            },
            forall|k: Seq<char>|
                k != user_uuid@ ==> #[trigger] lookup(final(self).user_ids(), k) == lookup(
                    old(self).user_ids(),
                    k,
                ),
    {
        match existing_id {
            Some(x) => {
                if !overwrite {
                    self.user_ids.push((String::from_str(user_uuid), x));
                    self.result.users_skipped = self.result.users_skipped + 1;
                    proof {
                        assert(self.user_ids@.drop_last() =~= old(self).user_ids@);
                    }
                    return UserPlan::Skip;
                }
                self.user_ids.push((String::from_str(user_uuid), new_id.clone()));
                proof {
                    assert(self.user_ids@.drop_last() =~= old(self).user_ids@);
                }
                UserPlan::Insert { replace: Some(x), new_id }
            },
            None => {
                self.user_ids.push((String::from_str(user_uuid), new_id.clone()));
                proof {
                    assert(self.user_ids@.drop_last() =~= old(self).user_ids@);
                }
                UserPlan::Insert { replace: None, new_id }
            },
        }
    }

    /// Records how the insert of a user went: counted when it succeeded, reported with its
    /// cause when it failed.
    pub fn record_user_insert(&mut self, user: &VaultwardenUser, outcome: Result<(), String>)
        requires
            outcome is Ok ==> old(self).result.users_imported < usize::MAX,
        ensures
            final(self).user_ids() == old(self).user_ids(),
            final(self).folder_ids() == old(self).folder_ids(),
            final(self).result.users_skipped == old(self).result.users_skipped,
            final(self).result.folders_imported == old(self).result.folders_imported,
            final(self).result.ciphers_imported == old(self).result.ciphers_imported,
            match outcome {
                Ok(()) => final(self).result.users_imported == old(self).result.users_imported + 1
                    && final(self).result.errors@ == old(self).result.errors@,
                Err(cause) => final(self).result.users_imported == old(self).result.users_imported
                    && one_more_error(
                    old(self).result.errors@,
                    final(self).result.errors@,
                    user_error(user.name@, user.email@, cause@),
                ),
            },
    {
        match outcome {
            Ok(()) => {
                self.result.users_imported = self.result.users_imported + 1;
            },
            Err(cause) => {
                let mut msg = String::from_str("用户 ");
                msg.append(user.name.as_str());
                msg.append(" (");
                msg.append(user.email.as_str());
                msg.append(") 导入失败: ");
                msg.append(cause.as_str());
                self.result.errors.push(msg);
                proof {
                    assert(self.result.errors@.drop_last() =~= old(self).result.errors@);
                }
            },
        }
    }

    /// Decides the owner of a folder: the new id of its Vaultwarden user. A folder whose
    /// user was not seen is skipped and reported; otherwise the folder is mapped to
    /// `new_folder_id`.
    pub fn plan_folder(&mut self, folder: &VaultwardenFolder, new_folder_id: String) -> (owner:
        Option<String>)
        ensures
            final(self).user_ids() == old(self).user_ids(),
            final(self).result.users_imported == old(self).result.users_imported,
            final(self).result.users_skipped == old(self).result.users_skipped,
            final(self).result.folders_imported == old(self).result.folders_imported,
            final(self).result.ciphers_imported == old(self).result.ciphers_imported,
            match lookup(old(self).user_ids(), folder.user_uuid@) {
                Some(uid) => {
                    &&& owner matches Some(o) && o@ == uid
                    &&& final(self).result.errors@ == old(self).result.errors@
                    &&& final(self).folder_ids() == old(self).folder_ids().push(
                        (folder.uuid, new_folder_id),
                    )
                },
                None => {
                    &&& owner is None
                    &&& final(self).folder_ids() == old(self).folder_ids()
                    &&& one_more_error(
                        old(self).result.errors@,
                        final(self).result.errors@,
                        folder_owner_error(folder.uuid@, folder.user_uuid@),
                    )
                },
            },
    {
        match find(&self.user_ids, folder.user_uuid.as_str()) {
            Some(uid) => {
                self.folder_ids.push((folder.uuid.clone(), new_folder_id));
                proof {
                    assert(self.folder_ids@.drop_last() =~= old(self).folder_ids@);
                }
                Some(uid)
            },
            None => {
                let mut msg = String::from_str("文件夹 ");
                msg.append(folder.uuid.as_str());
                msg.append(" 的所属用户 ");
                msg.append(folder.user_uuid.as_str());
                msg.append(" 未找到，跳过");
                self.result.errors.push(msg);
                proof {
                    assert(self.result.errors@.drop_last() =~= old(self).result.errors@);
                }
                None
            },
        }
    }

    /// Records how the insert of a folder went.
    pub fn record_folder_insert(&mut self, folder: &VaultwardenFolder, outcome: Result<(), String>)
        requires
            outcome is Ok ==> old(self).result.folders_imported < usize::MAX,
        ensures
            final(self).user_ids() == old(self).user_ids(),
            final(self).folder_ids() == old(self).folder_ids(),
            final(self).result.users_imported == old(self).result.users_imported,
            final(self).result.users_skipped == old(self).result.users_skipped,
            final(self).result.ciphers_imported == old(self).result.ciphers_imported,
            match outcome {
                Ok(()) => final(self).result.folders_imported == old(self).result.folders_imported
                    + 1 && final(self).result.errors@ == old(self).result.errors@,
                Err(cause) => final(self).result.folders_imported
                    == old(self).result.folders_imported && one_more_error(
                    old(self).result.errors@,
                    final(self).result.errors@,
                    folder_error(folder.name@, cause@),
                ),
            },
    {
        match outcome {
            Ok(()) => {
                self.result.folders_imported = self.result.folders_imported + 1;
            },
            Err(cause) => {
                let mut msg = String::from_str("文件夹 ");
                msg.append(folder.name.as_str());
                msg.append(" 导入失败: ");
                msg.append(cause.as_str());
                self.result.errors.push(msg);
                proof {
                    assert(self.result.errors@.drop_last() =~= old(self).result.errors@);
                }
            },
        }
    }

    /// Decides where a cipher goes: its owner's new id (none for a cipher without owner)
    /// and its folder's new id (none where the folder was not imported). A cipher whose
    /// owner was not seen is skipped and reported.
    pub fn plan_cipher(&mut self, cipher: &VaultwardenCipher) -> (placement: Option<
        CipherPlacement,
    >)
        ensures
            final(self).user_ids() == old(self).user_ids(),
            final(self).folder_ids() == old(self).folder_ids(),
            final(self).result.users_imported == old(self).result.users_imported,
            final(self).result.users_skipped == old(self).result.users_skipped,
            final(self).result.folders_imported == old(self).result.folders_imported,
            final(self).result.ciphers_imported == old(self).result.ciphers_imported,
            match cipher.user_uuid {
                Some(u) if lookup(old(self).user_ids(), u@) is None => {
                    &&& placement is None
                    &&& one_more_error(
                        old(self).result.errors@,
                        final(self).result.errors@,
                        cipher_owner_error(cipher.uuid@),
                    )
                },
                _ => {
                    &&& final(self).result.errors@ == old(self).result.errors@
                    &&& placement matches Some(p) && owner_placed(
                        old(self).user_ids(),
                        cipher.user_uuid,
                        p.user_id,
                    ) && folder_placed(old(self).folder_ids(), cipher.folder_uuid, p.folder_id)
                },
            },
    {
        let user_id = match &cipher.user_uuid {
            Some(u) => match find(&self.user_ids, u.as_str()) {
                Some(id) => Some(id),
                None => {
                    let mut msg = String::from_str("密码项 ");
                    msg.append(cipher.uuid.as_str());
                    msg.append(" 的所属用户未找到，跳过");
                    self.result.errors.push(msg);
                    proof {
                        assert(self.result.errors@.drop_last() =~= old(self).result.errors@);
                    }
                    return None;
                },
            },
            None => None,
        };
        let folder_id = match &cipher.folder_uuid {
            Some(f) => find(&self.folder_ids, f.as_str()),
            None => None,
        };
        Some(CipherPlacement { user_id, folder_id })
    }

    /// Records how the insert of a cipher went.
    pub fn record_cipher_insert(&mut self, cipher: &VaultwardenCipher, outcome: Result<(), String>)
        requires
            outcome is Ok ==> old(self).result.ciphers_imported < usize::MAX,
        ensures
            final(self).user_ids() == old(self).user_ids(),
            final(self).folder_ids() == old(self).folder_ids(),
            final(self).result.users_imported == old(self).result.users_imported,
            final(self).result.users_skipped == old(self).result.users_skipped,
            final(self).result.folders_imported == old(self).result.folders_imported,
            match outcome {
                Ok(()) => final(self).result.ciphers_imported == old(self).result.ciphers_imported
                    + 1 && final(self).result.errors@ == old(self).result.errors@,
                Err(cause) => final(self).result.ciphers_imported
                    == old(self).result.ciphers_imported && one_more_error(
                    old(self).result.errors@,
                    final(self).result.errors@,
                    cipher_error(cipher.uuid@, cause@),
                ),
            },
    {
        match outcome {
            Ok(()) => {
                self.result.ciphers_imported = self.result.ciphers_imported + 1;
            },
            Err(cause) => {
                let mut msg = String::from_str("密码项 ");
                msg.append(cipher.uuid.as_str());
                msg.append(" 导入失败: ");
                msg.append(cause.as_str());
                self.result.errors.push(msg);
                proof {
                    assert(self.result.errors@.drop_last() =~= old(self).result.errors@);
                }
            },
        }
    }

    /// The tally of the import.
    pub fn finish(self) -> (r: MigrateResult)
        ensures
            r == self.result,
    {
        self.result
    }
}

/// The latest mapping of a key is the one found: after mapping `key` to `value`, looking
/// `key` up gives `value`, and every other key keeps its mapping.
pub proof fn lemma_lookup_after_push(pairs: Seq<(String, String)>, entry: (String, String), other: Seq<char>)
    ensures
        lookup(pairs.push(entry), entry.0@) == Some(entry.1@),
        other != entry.0@ ==> lookup(pairs.push(entry), other) == lookup(pairs, other),
{
    assert(pairs.push(entry).drop_last() =~= pairs);
}

} // verus!
