//! Cipher rows and the cipher objects returned to clients; soft deletion and restoring.
use vstd::prelude::*;
use crate::attachments::{AttachmentResponse, CipherDBModel};
use crate::error::AppError;

verus! {

/// The ids of the ciphers a bulk request acts on.
pub struct CipherIdsRequest {
    pub ids: Vec<String>,
}

/// A cipher as returned to clients. `data` is the stored JSON text of the encrypted
/// fields; the fixed fields of the wire format (`object`, `edit`, ...) are added when it
/// is serialised.
pub struct Cipher {
    pub id: String,
    pub user_id: Option<String>,
    pub organization_id: Option<String>,
    pub cipher_type: i32,
    pub data: String,
    pub favorite: bool,
    pub folder_id: Option<String>,
    pub deleted_at: Option<String>,
    pub created_at: String,
    pub updated_at: String,
    pub collection_ids: Option<Vec<String>>,
    pub attachments: Option<Vec<AttachmentResponse>>,
}

/// The cipher object of a stored row: the row's fields, `favorite` set where the stored
/// flag is non-zero, without collections or attachments.
pub open spec fn spec_cipher_of_row(row: CipherDBModel) -> Cipher {
    Cipher {
        id: row.id,
        user_id: row.user_id,
        organization_id: row.organization_id,
        cipher_type: row.cipher_type,
        data: row.data,
        favorite: row.favorite != 0,
        folder_id: row.folder_id,
        deleted_at: row.deleted_at,
        created_at: row.created_at,
        updated_at: row.updated_at,
        collection_ids: None,
        attachments: None,
    }
}

impl From<CipherDBModel> for Cipher {
    fn from(row: CipherDBModel) -> (c: Cipher) {
        Cipher {
            id: row.id,
            user_id: row.user_id,
            organization_id: row.organization_id,
            cipher_type: row.cipher_type,
            data: row.data,
            favorite: row.favorite != 0,
            folder_id: row.folder_id,
            deleted_at: row.deleted_at,
            created_at: row.created_at,
            updated_at: row.updated_at,
            collection_ids: None,
            attachments: None,
        }
    }
}

impl vstd::std_specs::convert::FromSpecImpl<CipherDBModel> for Cipher {
    open spec fn obeys_from_spec() -> bool {
        true
    }

    open spec fn from_spec(row: CipherDBModel) -> Cipher {
        spec_cipher_of_row(row)
    }
}

/// A row after soft deletion at time `now`: deleted and updated at `now`.
pub open spec fn spec_soft_deleted(row: CipherDBModel, now: String) -> CipherDBModel {
    CipherDBModel { deleted_at: Some(now), updated_at: now, ..row }
}

/// A row after restoring at time `now`: not deleted, updated at `now`.
pub open spec fn spec_restored(row: CipherDBModel, now: String) -> CipherDBModel {
    CipherDBModel { deleted_at: None, updated_at: now, ..row }
}

/// The cipher returned after soft-deleting the row `existing` at time `now`.
pub fn soft_delete_response(existing: CipherDBModel, now: String) -> (c: Cipher)
    ensures
        c == spec_cipher_of_row(spec_soft_deleted(existing, now)),
{
    let mut c: Cipher = Cipher::from(existing);
    c.deleted_at = Some(now.clone());
    c.updated_at = now;
    c
}

/// The cipher returned after restoring the row `existing` at time `now`.
pub fn restore_response(existing: CipherDBModel, now: String) -> (c: Cipher)
    ensures
        c == spec_cipher_of_row(spec_restored(existing, now)),
{
    let mut c: Cipher = Cipher::from(existing);
    c.deleted_at = None;
    c.updated_at = now;
    c
}

/// The cipher made from a stored row keeps the row's fields: its id, owner, organisation,
/// type, data, folder and times are the row's, it is a favourite exactly when the stored flag
/// is non-zero, and it carries no collections or attachments. A soft deletion or a restore
/// changes only the deletion and update times of what is returned.
pub proof fn lemma_cipher_keeps_row_fields(row: CipherDBModel, now: String)
    ensures
        spec_cipher_of_row(row).id == row.id,
        spec_cipher_of_row(row).user_id == row.user_id,
        spec_cipher_of_row(row).organization_id == row.organization_id,
        spec_cipher_of_row(row).cipher_type == row.cipher_type,
        spec_cipher_of_row(row).data == row.data,
        spec_cipher_of_row(row).favorite == (row.favorite != 0),
        spec_cipher_of_row(row).folder_id == row.folder_id,
        spec_cipher_of_row(row).deleted_at == row.deleted_at,
        spec_cipher_of_row(row).created_at == row.created_at,
        spec_cipher_of_row(row).updated_at == row.updated_at,
        spec_cipher_of_row(row).collection_ids is None,
        spec_cipher_of_row(row).attachments is None,
        spec_soft_deleted(row, now).id == row.id,
        spec_soft_deleted(row, now).user_id == row.user_id,
        spec_soft_deleted(row, now).organization_id == row.organization_id,
        spec_soft_deleted(row, now).cipher_type == row.cipher_type,
        spec_soft_deleted(row, now).data == row.data,
        spec_soft_deleted(row, now).favorite == row.favorite,
        spec_soft_deleted(row, now).folder_id == row.folder_id,
        spec_soft_deleted(row, now).created_at == row.created_at,
        spec_soft_deleted(row, now).deleted_at == Some(now),
        spec_soft_deleted(row, now).updated_at == now,
        spec_restored(row, now).id == row.id,
        spec_restored(row, now).user_id == row.user_id,
        spec_restored(row, now).organization_id == row.organization_id,
        spec_restored(row, now).cipher_type == row.cipher_type,
        spec_restored(row, now).data == row.data,
        spec_restored(row, now).favorite == row.favorite,
        spec_restored(row, now).folder_id == row.folder_id,
        spec_restored(row, now).created_at == row.created_at,
        spec_restored(row, now).deleted_at is None,
        spec_restored(row, now).updated_at == now,
{
}

/// Restoring undoes a soft deletion: restoring a soft-deleted row gives the same row as
/// restoring the row itself at that time.
pub proof fn lemma_restore_undoes_soft_delete(row: CipherDBModel, deleted_at: String, restored_at: String)
    ensures
        spec_restored(spec_soft_deleted(row, deleted_at), restored_at) == spec_restored(
            row,
            restored_at,
        ),
        spec_soft_deleted(row, deleted_at).deleted_at is Some,
        spec_restored(row, restored_at).deleted_at is None,
{
}

/// The collections of a new cipher: none when the request names none.
pub fn collection_ids_of(ids: Vec<String>) -> (r: Option<Vec<String>>)
    ensures
        ids@.len() == 0 ==> r is None,
        ids@.len() != 0 ==> r == Some(ids),
{
    if ids.len() == 0 {
        None
    } else {
        Some(ids)
    }
}

/// The fields of a cipher that a create or update request sets; `data` is the JSON text of
/// the encrypted fields.
pub struct CipherFields {
    pub organization_id: Option<String>,
    pub cipher_type: i32,
    pub data: String,
    pub favorite: bool,
    pub folder_id: Option<String>,
}

/// A new cipher of `user_id` with the request's fields, created and updated at `now`, not
/// deleted, without attachments, and in the named collections (none when the request names
/// none).
pub fn new_cipher(
    id: String,
    user_id: String,
    fields: CipherFields,
    collection_ids: Vec<String>,
    now: String,
) -> (c: Cipher)
    ensures
        c.id == id,
        c.user_id == Some(user_id),
        c.organization_id == fields.organization_id,
        c.cipher_type == fields.cipher_type,
        c.data == fields.data,
        c.favorite == fields.favorite,
        c.folder_id == fields.folder_id,
        c.deleted_at is None,
        c.created_at == now,
        c.updated_at == now,
        collection_ids@.len() == 0 ==> c.collection_ids is None,
        collection_ids@.len() != 0 ==> c.collection_ids == Some(collection_ids),
        c.attachments is None,
{
    let created_at = now.clone();
    Cipher {
        id,
        user_id: Some(user_id),
        organization_id: fields.organization_id,
        cipher_type: fields.cipher_type,
        data: fields.data,
        favorite: fields.favorite,
        folder_id: fields.folder_id,
        deleted_at: None,
        created_at,
        updated_at: now,
        collection_ids: collection_ids_of(collection_ids),
        attachments: None,
    }
}

/// The cipher `existing` after an update by `user_id` at `now`: the request's fields, the
/// stored creation and deletion times kept, updated at `now`, without collections or
/// attachments.
pub fn updated_cipher(existing: CipherDBModel, user_id: String, fields: CipherFields, now: String) -> (c: Cipher)
    ensures
        c.id == existing.id,
        c.user_id == Some(user_id),
        c.organization_id == fields.organization_id,
        c.cipher_type == fields.cipher_type,
        c.data == fields.data,
        c.favorite == fields.favorite,
        c.folder_id == fields.folder_id,
        c.deleted_at == existing.deleted_at,
        c.created_at == existing.created_at,
        c.updated_at == now,
        c.collection_ids is None,
        c.attachments is None,
{
    Cipher {
        id: existing.id,
        user_id: Some(user_id),
        organization_id: fields.organization_id,
        cipher_type: fields.cipher_type,
        data: fields.data,
        favorite: fields.favorite,
        folder_id: fields.folder_id,
        deleted_at: existing.deleted_at,
        created_at: existing.created_at,
        updated_at: now,
        collection_ids: None,
        attachments: None,
    }
}

/// The master password hash that a vault purge must carry.
pub fn require_master_password_hash(hash: Option<String>) -> (r: Result<String, AppError>)
    ensures
        hash matches Some(h) ==> r == Ok::<String, AppError>(h),
        hash is None ==> (r matches Err(AppError::BadRequest(m)) && m@
            == "Missing master password hash"@),
{
    match hash {
        Some(h) => Ok(h),
        None => Err(AppError::BadRequest(String::from_str("Missing master password hash"))),
    }
}

} // verus!
