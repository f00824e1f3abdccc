//! Attachment decisions: which storage backend is in use, the size limits, the checks on
//! ciphers and attachments, the signed download and upload links, and storage keys.
use vstd::prelude::*;
use crate::ciphers::Cipher;
use crate::error::AppError;
use crate::number::{
    i64_to_decimal, lemma_parse_i64_of_decimal, parse_i64, parse_u64, spec_decimal, spec_parse_i64,
    spec_parse_u64,
};
use crate::text::{chars_contain, chars_of, contains_seq};

verus! {

/// Slack allowed between the declared and the uploaded size of an attachment (1 MiB).
pub const SIZE_LEEWAY_BYTES: i64 = 1_048_576;

/// Lifetime of attachment links when nothing is configured (5 minutes).
pub const DEFAULT_ATTACHMENT_TTL_SECS: i64 = 300;

/// The largest value the KV backend stores (25 MiB).
pub const KV_MAX_VALUE_BYTES: i64 = 26_214_400;

/// Storage backend for attachments.
#[derive(Debug, Clone, Copy, PartialEq, Eq, Structural)]
pub enum StorageBackend {
    /// Cloudflare KV: 25 MB per value.
    KV,
    /// Cloudflare R2: no practical size limit.
    R2,
}

/// The backend in use: R2 when its bucket is bound, else KV when its namespace is bound.
pub fn get_storage_backend(r2_bound: bool, kv_bound: bool) -> (r: Option<StorageBackend>)
    ensures
        r == (if r2_bound {
            Some(StorageBackend::R2)
        } else if kv_bound {
            Some(StorageBackend::KV)
        } else {
            None
        }),
{
    if r2_bound {
        Some(StorageBackend::R2)
    } else if kv_bound {
        Some(StorageBackend::KV)
    } else {
        None
    }
}

/// Whether attachments are available at all.
pub fn attachments_enabled(r2_bound: bool, kv_bound: bool) -> (r: bool)
    ensures
        r == (r2_bound || kv_bound),
{
    get_storage_backend(r2_bound, kv_bound).is_some()
}

/// Whether the KV backend is the one in use.
pub fn is_kv_backend(r2_bound: bool, kv_bound: bool) -> (r: bool)
    ensures
        r == (!r2_bound && kv_bound),
{
    match get_storage_backend(r2_bound, kv_bound) {
        Some(StorageBackend::KV) => true,
        _ => false,
    }
}

/// The backend's name as the storage overview shows it.
pub fn storage_backend_name(backend: Option<StorageBackend>) -> (r: &'static str)
    ensures
        r@ == match backend {
            Some(StorageBackend::R2) => "R2"@,
            Some(StorageBackend::KV) => "KV"@,
            None => "未配置"@,
        },
{
    match backend {
        Some(StorageBackend::R2) => "R2",
        Some(StorageBackend::KV) => "KV",
        None => "未配置",
    }
}

/// A stored cipher row.
pub struct CipherDBModel {
    pub id: String,
    pub user_id: Option<String>,
    pub organization_id: Option<String>,
    pub cipher_type: i32,
    pub data: String,
    pub favorite: i32,
    pub folder_id: Option<String>,
    pub deleted_at: Option<String>,
    pub created_at: String,
    pub updated_at: String,
}

/// An attachment as returned to clients.
pub struct AttachmentResponse {
    pub id: String,
    pub url: Option<String>,
    pub file_name: String,
    pub size: i64,
    pub key: Option<String>,
}

/// A stored attachment row (finished or pending).
pub struct AttachmentDB {
    pub id: String,
    pub cipher_id: String,
    pub file_name: String,
    pub file_size: i64,
    pub akey: Option<String>,
    pub created_at: String,
    pub updated_at: String,
    pub organization_id: Option<String>,
}

/// The key of an attachment's object in storage: `<cipher id>/<attachment id>`.
pub open spec fn storage_key(cipher_id: Seq<char>, attachment_id: Seq<char>) -> Seq<char> {
    cipher_id + "/"@ + attachment_id
}

fn storage_key_of(cipher_id: &str, attachment_id: &str) -> (r: String)
    ensures
        r@ == storage_key(cipher_id@, attachment_id@),
{
    let mut k = String::from_str(cipher_id);
    k.append("/");
    k.append(attachment_id);
    k
}

impl AttachmentDB {
    /// The key of this attachment's object in storage.
    pub fn r2_key(&self) -> (r: String)
        ensures
            r@ == storage_key(self.cipher_id@, self.id@),
    {
        storage_key_of(self.cipher_id.as_str(), self.id.as_str())
    }

    /// This attachment as returned to clients, with an optional download link.
    pub fn to_response(&self, url: Option<String>) -> (r: AttachmentResponse)
        ensures
            r.id == self.id,
            r.url == url,
            r.file_name == self.file_name,
            r.size == self.file_size,
            r.key == self.akey,
    {
        AttachmentResponse {
            id: self.id.clone(),
            url,
            file_name: self.file_name.clone(),
            size: self.file_size,
            key: self.akey.clone(),
        }
    }
}

/// The id pair of an attachment row, as listed for deleting stored objects.
pub struct AttachmentKeyRow {
    pub cipher_id: String,
    pub id: String,
}

/// The storage keys of attachment rows, in order.
pub fn map_rows_to_keys(rows: Vec<AttachmentKeyRow>) -> (keys: Vec<String>)
    ensures
        keys@.len() == rows@.len(),
        forall|i: int| 0 <= i < rows@.len() ==> #[trigger] keys@[i]@ == storage_key(
            rows@[i].cipher_id@,
            rows@[i].id@,
        ),
{
    let mut keys: Vec<String> = Vec::new();
    let mut i: usize = 0;
    while i < rows.len()
        invariant
            i <= rows@.len(),
            keys@.len() == i,
            forall|k: int| 0 <= k < i ==> #[trigger] keys@[k]@ == storage_key(
                rows@[k].cipher_id@,
                rows@[k].id@,
            ),
        decreases rows.len() - i,
    {
        keys.push(storage_key_of(rows[i].cipher_id.as_str(), rows[i].id.as_str()));
        i = i + 1;
    }
    keys
}

/// A declared attachment size, as a number or as decimal text.
pub enum NumberOrString {
    Number(i64),
    String(String),
}

impl NumberOrString {
    /// The declared size; text that is not a decimal `i64` is rejected.
    pub fn into_i64(self) -> (r: Result<i64, AppError>)
        ensures
            match self {
                NumberOrString::Number(v) => r == Ok::<i64, AppError>(v),
                NumberOrString::String(s) => match spec_parse_i64(s@) {
                    Some(v) => r == Ok::<i64, AppError>(v),
                    None => r matches Err(AppError::BadRequest(m)) && m@
                        == "Invalid attachment size"@,
                },
            },
    {
        match self {
            NumberOrString::Number(v) => Ok(v),
            NumberOrString::String(s) => match parse_i64(s.as_str()) {
                Some(v) => Ok(v),
                None => Err(AppError::BadRequest(String::from_str("Invalid attachment size"))),
            },
        }
    }
}

/// A request to create an attachment (upload protocol v2).
pub struct AttachmentCreateRequest {
    pub key: String,
    pub file_name: String,
    pub file_size: NumberOrString,
    pub admin_request: Option<bool>,
}

/// The answer to an attachment creation: where to upload, and the cipher with the
/// pending attachment.
pub struct AttachmentUploadResponse {
    pub object: String,
    pub attachment_id: String,
    pub url: String,
    pub file_upload_type: i32,
    pub cipher_response: Cipher,
}

/// The answer to an attachment deletion: the cipher as it is now.
pub struct AttachmentDeleteResponse {
    pub cipher: Cipher,
}

/// The message for an uploaded size outside the window around the declared size.
pub open spec fn size_mismatch_message(min: i64, max: i64, actual: i64) -> Seq<char> {
    "Attachment size mismatch (expected within ["@ + spec_decimal(min as int) + ", "@
        + spec_decimal(max as int) + "], got "@ + spec_decimal(actual as int) + ")"@
}

/// The problem with an uploaded size against a declared one, if any: the window is the
/// declared size ± 1 MiB (its lower end 0 where the subtraction would leave `i64`), and a
/// declared size whose upper end leaves `i64` is an overflow.
pub open spec fn spec_size_window_problem(declared: i64, actual_size: i64) -> Option<Seq<char>> {
    let min = if declared - SIZE_LEEWAY_BYTES >= i64::MIN {
        declared - SIZE_LEEWAY_BYTES
    } else {
        0
    };
    if declared + SIZE_LEEWAY_BYTES > i64::MAX {
        Some("Attachment size overflow"@)
    } else if actual_size < min || actual_size > declared + SIZE_LEEWAY_BYTES {
        Some(size_mismatch_message(min as i64, (declared + SIZE_LEEWAY_BYTES) as i64, actual_size))
    } else {
        None
    }
}

/// Checks that an uploaded size is within 1 MiB of the size declared for a pending
/// attachment (and not below zero).
pub fn validate_size_within_declared(attachment: &AttachmentDB, actual_size: i64) -> (r: Result<
    (),
    AppError,
>)
    ensures
        match spec_size_window_problem(attachment.file_size, actual_size) {
            Some(msg) => r matches Err(AppError::BadRequest(m)) && m@ == msg,
            None => r is Ok,
        },
{
    let max_size = match attachment.file_size.checked_add(SIZE_LEEWAY_BYTES) {
        Some(v) => v,
        None => return Err(AppError::BadRequest(String::from_str("Attachment size overflow"))),
    };
    let min_size = match attachment.file_size.checked_sub(SIZE_LEEWAY_BYTES) {
        Some(v) => v,
        None => 0,
    };
    if actual_size < min_size || actual_size > max_size {
        let mut m = String::from_str("Attachment size mismatch (expected within [");
        m.append(i64_to_decimal(min_size).as_str());
        m.append(", ");
        m.append(i64_to_decimal(max_size).as_str());
        m.append("], got ");
        m.append(i64_to_decimal(actual_size).as_str());
        m.append(")");
        return Err(AppError::BadRequest(m));
    }
    Ok(())
}

/// The per-file size limit (`ATTACHMENT_MAX_BYTES`): none when unset; a value that is not a
/// `u64` is a configuration error.
pub fn attachment_max_bytes(raw: Option<&str>) -> (r: Result<Option<u64>, AppError>)
    ensures
        match raw {
            None => r == Ok::<Option<u64>, AppError>(None),
            Some(s) => match spec_parse_u64(s@) {
                Some(v) => r == Ok::<Option<u64>, AppError>(Some(v)),
                None => r matches Err(AppError::Internal),
            },
        },
{
    match raw {
        None => Ok(None),
        Some(s) => match parse_u64(s) {
            Some(v) => Ok(Some(v)),
            None => Err(AppError::Internal),
        },
    }
}

/// The per-user total limit in bytes (`ATTACHMENT_TOTAL_LIMIT_KB` times 1024): none when
/// unset; a value that is not a `u64`, or overflows in bytes, is a configuration error.
pub fn total_limit_bytes(raw: Option<&str>) -> (r: Result<Option<u64>, AppError>)
    ensures
        match raw {
            None => r == Ok::<Option<u64>, AppError>(None),
            Some(s) => match spec_parse_u64(s@) {
                Some(kb) => if kb * 1024 <= u64::MAX {
                    r == Ok::<Option<u64>, AppError>(Some((kb * 1024) as u64))
                } else {
                    r matches Err(AppError::Internal)
                },
                None => r matches Err(AppError::Internal),
            },
        },
{
    match raw {
        None => Ok(None),
        Some(s) => match parse_u64(s) {
            Some(kb) => match kb.checked_mul(1024) {
                Some(b) => Ok(Some(b)),
                None => Err(AppError::Internal),
            },
            None => Err(AppError::Internal),
        },
    }
}

/// The lifetime of attachment links in seconds (`ATTACHMENT_TTL_SECS`): 300 when unset;
/// a value that is not a positive `i64` is a configuration error.
pub fn download_ttl_secs(raw: Option<&str>) -> (r: Result<i64, AppError>)
    ensures
        match raw {
            None => r == Ok::<i64, AppError>(DEFAULT_ATTACHMENT_TTL_SECS),
            Some(s) => match spec_parse_i64(s@) {
                Some(v) => if v > 0 {
                    r == Ok::<i64, AppError>(v)
                } else {
                    r matches Err(AppError::Internal)
                },
                None => r matches Err(AppError::Internal),
            },
        },
{
    match raw {
        None => Ok(DEFAULT_ATTACHMENT_TTL_SECS),
        Some(s) => match parse_i64(s) {
            Some(v) => if v > 0 {
                Ok(v)
            } else {
                Err(AppError::Internal)
            },
            None => Err(AppError::Internal),
        },
    }
}

/// Checks the size of a file uploaded for a pending attachment. With KV storage the upload
/// is not held to the declared size (the KV value limit applies instead); otherwise it must
/// lie in the window around the declared size. An error here means the upload is refused
/// and its pending record is discarded.
pub fn check_uploaded_size(kv_backend: bool, pending: &AttachmentDB, actual_size: i64) -> (r: Result<
    (),
    AppError,
>)
    ensures
        kv_backend ==> r is Ok,
        !kv_backend ==> match spec_size_window_problem(pending.file_size, actual_size) {
            Some(msg) => r matches Err(AppError::BadRequest(m)) && m@ == msg,
            None => r is Ok,
        },
{
    if kv_backend {
        return Ok(());
    }
    validate_size_within_declared(pending, actual_size)
}

/// The outcome of the per-file checks of a new attachment size: the message of the first
/// failed check, or the total limit to check next (none when unset).
pub open spec fn spec_size_limits(
    new_size: i64,
    kv_backend: bool,
    max_bytes: Option<u64>,
) -> Option<Seq<char>> {
    if new_size < 0 {
        Some("Attachment size cannot be negative"@)
    } else if kv_backend && new_size > KV_MAX_VALUE_BYTES {
        Some("Attachment size exceeds KV limit (max 25MB)"@)
    } else if max_bytes matches Some(m) && new_size > m {
        Some("Attachment size exceeds limit"@)
    } else {
        None
    }
}

/// Checks a new attachment size against the per-file limits, in the server's order: not
/// negative, within the KV limit on the KV backend, within `ATTACHMENT_MAX_BYTES`. On
/// success gives the configured per-user total limit, which the caller checks with
/// [`check_total_usage`] against the user's current usage.
pub fn check_size_limits(
    new_size: i64,
    kv_backend: bool,
    max_bytes_raw: Option<&str>,
    total_limit_raw: Option<&str>,
) -> (r: Result<Option<u64>, AppError>)
    ensures
        new_size < 0 ==> (r matches Err(AppError::BadRequest(m)) && m@
            == "Attachment size cannot be negative"@),
        new_size >= 0 && kv_backend && new_size > KV_MAX_VALUE_BYTES ==> (r matches Err(
            AppError::BadRequest(m),
        ) && m@ == "Attachment size exceeds KV limit (max 25MB)"@),
        new_size >= 0 && !(kv_backend && new_size > KV_MAX_VALUE_BYTES) ==> match max_bytes_raw {
            Some(s) if spec_parse_u64(s@) is None => r matches Err(AppError::Internal),
            _ => {
                let max = match max_bytes_raw {
                    Some(s) => spec_parse_u64(s@),
                    None => None,
                };
                match spec_size_limits(new_size, kv_backend, max) {
                    Some(msg) => r matches Err(AppError::BadRequest(m)) && m@ == msg,
                    None => match total_limit_raw {
                        None => r == Ok::<Option<u64>, AppError>(None),
                        Some(t) => match spec_parse_u64(t@) {
                            Some(kb) => if kb * 1024 <= u64::MAX {
                                r == Ok::<Option<u64>, AppError>(Some((kb * 1024) as u64))
                            } else {
                                r matches Err(AppError::Internal)
                            },
                            None => r matches Err(AppError::Internal),
                        },
                    },
                }
            },
        },
{
    if new_size < 0 {
        return Err(AppError::BadRequest(String::from_str("Attachment size cannot be negative")));
    }
    if kv_backend && new_size > KV_MAX_VALUE_BYTES {
        return Err(
            AppError::BadRequest(String::from_str("Attachment size exceeds KV limit (max 25MB)")),
        );
    }
    let max_bytes = match attachment_max_bytes(max_bytes_raw) {
        Ok(m) => m,
        Err(e) => return Err(e),
    };
    match max_bytes {
        Some(m) => {
            if new_size as u64 > m {
                return Err(AppError::BadRequest(String::from_str("Attachment size exceeds limit")));
            }
        },
        None => {},
    }
    total_limit_bytes(total_limit_raw)
}

/// The outcome of the per-user total check: the message when the new size does not fit.
pub open spec fn spec_total_usage(used: i64, new_size: i64, limit_bytes: u64) -> Option<Seq<char>> {
    if used + new_size > i64::MAX || used + new_size < i64::MIN {
        Some("Attachment size overflow"@)
    } else if used + new_size > (limit_bytes as i64) {
        Some("Attachment storage limit reached"@)
    } else {
        None
    }
}

/// Checks that the user's stored attachments plus the new one stay within the total limit.
pub fn check_total_usage(used: i64, new_size: i64, limit_bytes: u64) -> (r: Result<(), AppError>)
    ensures
        match spec_total_usage(used, new_size, limit_bytes) {
            Some(msg) => r matches Err(AppError::BadRequest(m)) && m@ == msg,
            None => r is Ok,
        },
{
    #[verifier::truncate]
    let limit = limit_bytes as i64;
    let new_total = match used.checked_add(new_size) {
        Some(t) => t,
        None => return Err(AppError::BadRequest(String::from_str("Attachment size overflow"))),
    };
    if new_total > limit {
        return Err(AppError::BadRequest(String::from_str("Attachment storage limit reached")));
    }
    Ok(())
}

/// The configured per-file maximum holds on every backend: a non-negative size above it is
/// refused whether or not KV storage is in use (with the KV message where the KV limit is
/// also exceeded), and a size within it and within the KV limit passes. KV storage is never
/// more permissive than R2.
pub proof fn lemma_max_bytes_on_every_backend(new_size: i64, kv_backend: bool, m: u64)
    ensures
        new_size >= 0 && new_size > m ==> spec_size_limits(new_size, kv_backend, Some(m)) is Some,
        new_size >= 0 && new_size > m && new_size <= KV_MAX_VALUE_BYTES ==> spec_size_limits(
            new_size,
            kv_backend,
            Some(m),
        ) == Some("Attachment size exceeds limit"@),
        new_size >= 0 && new_size > m && !kv_backend ==> spec_size_limits(
            new_size,
            kv_backend,
            Some(m),
        ) == Some("Attachment size exceeds limit"@),
        0 <= new_size <= m && new_size <= KV_MAX_VALUE_BYTES ==> spec_size_limits(
            new_size,
            kv_backend,
            Some(m),
        ) is None,
        new_size >= 0 && new_size > KV_MAX_VALUE_BYTES ==> spec_size_limits(new_size, true, None)
            == Some("Attachment size exceeds KV limit (max 25MB)"@),
        spec_size_limits(new_size, false, Some(m)) is Some ==> spec_size_limits(
            new_size,
            true,
            Some(m),
        ) is Some,
        new_size < 0 ==> spec_size_limits(new_size, kv_backend, Some(m)) == Some(
            "Attachment size cannot be negative"@,
        ),
{
}

/// A smaller attachment passes whatever limits a larger one passes: the per-file checks
/// and, with the same usage and limit, the per-user total check.
pub proof fn lemma_limits_monotone(
    smaller: i64,
    larger: i64,
    kv_backend: bool,
    max_bytes: Option<u64>,
    used: i64,
    limit_bytes: u64,
)
    requires
        0 <= smaller <= larger,
        0 <= used,
        spec_size_limits(larger, kv_backend, max_bytes) is None,
        spec_total_usage(used, larger, limit_bytes) is None,
    ensures
        spec_size_limits(smaller, kv_backend, max_bytes) is None,
        spec_total_usage(used, smaller, limit_bytes) is None,
{
}

/// The checks on the cipher an attachment is added to or read from: it must exist for the
/// user, belong to no organisation, and not be deleted.
pub fn check_cipher_for_attachments(cipher: Option<CipherDBModel>) -> (r: Result<
    CipherDBModel,
    AppError,
>)
    ensures
        match cipher {
            None => r matches Err(AppError::NotFound(m)) && m@ == "Cipher not found"@,
            Some(c) => if c.organization_id is Some {
                r matches Err(AppError::BadRequest(m)) && m@
                    == "Organization attachments are not supported"@
            } else if c.deleted_at is Some {
                r matches Err(AppError::BadRequest(m)) && m@ == "Cipher is deleted"@
            } else {
                r == Ok::<CipherDBModel, AppError>(c)
            },
        },
{
    let c = match cipher {
        Some(c) => c,
        None => return Err(AppError::NotFound(String::from_str("Cipher not found"))),
    };
    if c.organization_id.is_some() {
        return Err(
            AppError::BadRequest(String::from_str("Organization attachments are not supported")),
        );
    }
    if c.deleted_at.is_some() {
        return Err(AppError::BadRequest(String::from_str("Cipher is deleted")));
    }
    Ok(c)
}

/// A looked-up attachment, or the error for a missing one.
pub fn found_attachment(attachment: Option<AttachmentDB>) -> (r: Result<AttachmentDB, AppError>)
    ensures
        match attachment {
            Some(a) => r == Ok::<AttachmentDB, AppError>(a),
            None => r matches Err(AppError::NotFound(m)) && m@ == "Attachment not found"@,
        },
{
    match attachment {
        Some(a) => Ok(a),
        None => Err(AppError::NotFound(String::from_str("Attachment not found"))),
    }
}

/// Checks that an attachment belongs to the cipher it is addressed under.
pub fn check_attachment_belongs(attachment_cipher_id: &str, cipher_id: &str) -> (r: Result<
    (),
    AppError,
>)
    ensures
        attachment_cipher_id@ == cipher_id@ ==> r is Ok,
        attachment_cipher_id@ != cipher_id@ ==> (r matches Err(AppError::BadRequest(m)) && m@
            == "Attachment does not belong to cipher"@),
{
    if !crate::text::str_eq(attachment_cipher_id, cipher_id) {
        return Err(AppError::BadRequest(String::from_str("Attachment does not belong to cipher")));
    }
    Ok(())
}

/// Checks that a size is positive.
pub fn check_positive_size(size: i64) -> (r: Result<(), AppError>)
    ensures
        size > 0 ==> r is Ok,
        size <= 0 ==> (r matches Err(AppError::BadRequest(m)) && m@
            == "Attachment size must be positive"@),
{
    if size <= 0 {
        return Err(AppError::BadRequest(String::from_str("Attachment size must be positive")));
    }
    Ok(())
}

/// The key of an uploaded attachment: the one sent with the data, else the one given at
/// creation; an error when there is neither.
pub fn resolve_upload_key(pending_key: Option<String>, sent_key: Option<String>) -> (r: Result<
    String,
    AppError,
>)
    ensures
        match (sent_key, pending_key) {
            (Some(k), _) => r == Ok::<String, AppError>(k),
            (None, Some(k)) => r == Ok::<String, AppError>(k),
            (None, None) => r matches Err(AppError::BadRequest(m)) && m@
                == "No attachment key provided"@,
        },
{
    match sent_key {
        Some(k) => Ok(k),
        None => match pending_key {
            Some(k) => Ok(k),
            None => Err(AppError::BadRequest(String::from_str("No attachment key provided"))),
        },
    }
}

/// The fields a legacy upload must carry: the attachment key and the file name.
pub fn legacy_upload_fields(key: Option<String>, file_name: Option<String>) -> (r: Result<
    (String, String),
    AppError,
>)
    ensures
        match (key, file_name) {
            (Some(k), Some(f)) => r == Ok::<(String, String), AppError>((k, f)),
            (None, _) => r matches Err(AppError::BadRequest(m)) && m@
                == "No attachment key provided"@,
            (Some(_), None) => r matches Err(AppError::BadRequest(m)) && m@
                == "No filename provided"@,
        },
{
    let k = match key {
        Some(k) => k,
        None => return Err(AppError::BadRequest(String::from_str("No attachment key provided"))),
    };
    let f = match file_name {
        Some(f) => f,
        None => return Err(AppError::BadRequest(String::from_str("No filename provided"))),
    };
    Ok((k, f))
}

/// Adds a pending attachment to the end of a cipher's attachment list; the cipher is
/// otherwise unchanged.
pub fn with_pending_attachment(cipher: Cipher, pending: AttachmentResponse) -> (c: Cipher)
    ensures
        c == (Cipher { attachments: c.attachments, ..cipher }),
        match cipher.attachments {
            Some(list) => c.attachments matches Some(l) && l@ == list@.push(pending),
            None => c.attachments matches Some(l) && l@ == seq![pending],
        },
{
    let mut c = cipher;
    match c.attachments {
        Some(mut list) => {
            list.push(pending);
            c.attachments = Some(list);
        },
        None => {
            let mut list: Vec<AttachmentResponse> = Vec::new();
            list.push(pending);
            c.attachments = Some(list);
        },
    }
    c
}

/// Sets a cipher's attachments from the stored list: none when attachments are disabled;
/// the stored list when there is a non-empty one; otherwise unchanged. The other fields
/// are kept.
pub fn hydrate_cipher_attachments(
    cipher: &mut Cipher,
    enabled: bool,
    stored: Option<Vec<AttachmentResponse>>,
)
    ensures
        *final(cipher) == (Cipher { attachments: final(cipher).attachments, ..*old(cipher) }),
        !enabled ==> final(cipher).attachments is None,
        enabled ==> match stored {
            Some(list) if list@.len() > 0 => final(cipher).attachments == Some(list),
            _ => final(cipher).attachments == old(cipher).attachments,
        },
{
    if !enabled {
        cipher.attachments = None;
        return;
    }
    match stored {
        Some(list) => {
            if list.len() > 0 {
                cipher.attachments = Some(list);
            }
        },
        None => {},
    }
}

/// Whether a storage error on deletion only says that the object is already gone.
pub fn is_missing_object_error(message: &str) -> (r: bool)
    ensures
        r == (contains_seq(message@, "NoSuchKey"@) || contains_seq(message@, "404"@)
            || contains_seq(message@, "NotFound"@)),
{
    let m = chars_of(message);
    let a = chars_of("NoSuchKey");
    let b = chars_of("404");
    let c = chars_of("NotFound");
    chars_contain(&m, &a) || chars_contain(&m, &b) || chars_contain(&m, &c)
}

/// The token that `jsonwebtoken::encode` gives for the attachment claims `sub`, `cipher_id`,
/// `attachment_id`, `exp` (as a JSON object in that order) with the default HS256 header and
/// an HMAC secret; `None` where it answers with an error.
pub uninterp spec fn spec_attachment_jwt(
    sub: Seq<char>,
    cipher_id: Seq<char>,
    attachment_id: Seq<char>,
    exp: usize,
    secret: Seq<char>,
) -> Option<Seq<char>>;

/// Calls `jsonwebtoken::encode` with `Header::default()` (HS256), the claims as a JSON object
/// (`sub`, `cipher_id`, `attachment_id`, `exp`, in that order) and `EncodingKey::from_secret`
/// over the secret's bytes. Claimed: the result is the named token of these arguments.
#[verifier::external_body]
fn encode_attachment_jwt(
    sub: &str,
    cipher_id: &str,
    attachment_id: &str,
    exp: usize,
    secret: &str,
) -> (r: Result<String, ()>)
    ensures
        match r {
            Ok(t) => spec_attachment_jwt(sub@, cipher_id@, attachment_id@, exp, secret@) == Some(t@),
            Err(()) => spec_attachment_jwt(sub@, cipher_id@, attachment_id@, exp, secret@) is None,
        },
{
    let claims: serde_json::Map<String, serde_json::Value> = [
        ("sub".to_string(), serde_json::Value::from(sub)),
        ("cipher_id".to_string(), serde_json::Value::from(cipher_id)),
        ("attachment_id".to_string(), serde_json::Value::from(attachment_id)),
        ("exp".to_string(), serde_json::Value::from(exp)),
    ].into_iter().collect();
    let key = jsonwebtoken::EncodingKey::from_secret(secret.as_bytes());
    jsonwebtoken::encode(&jsonwebtoken::Header::default(), &claims, &key).map_err(|_| ())
}

/// The latest time, in seconds since the epoch, that a timestamp can denote.
pub const MAX_TIMESTAMP_SECS: i64 = 8_210_266_876_799;

/// The earliest time, in seconds since the epoch, that a timestamp can denote.
pub const MIN_TIMESTAMP_SECS: i64 = -8_334_601_315_200;

/// A link made at `now_secs` with the configured lifetime expires at a time that can be
/// denoted (the server cannot compute the expiry otherwise).
pub open spec fn link_expiry_in_range(now_secs: i64, ttl_raw: Option<Seq<char>>) -> bool {
    &&& MIN_TIMESTAMP_SECS <= now_secs <= MAX_TIMESTAMP_SECS
    &&& match ttl_raw {
        Some(s) => match spec_parse_i64(s) {
            Some(v) => v > 0 ==> now_secs + v <= MAX_TIMESTAMP_SECS,
            None => true,
        },
        None => now_secs + DEFAULT_ATTACHMENT_TTL_SECS <= MAX_TIMESTAMP_SECS,
    }
}

/// The lifetime of a signed link in seconds (`ATTACHMENT_TTL_SECS`): 300 when unset, the
/// configured value when it is a positive decimal `i64`, none (a server error) otherwise.
pub open spec fn spec_link_ttl(ttl_raw: Option<Seq<char>>) -> Option<i64> {
    match ttl_raw {
        None => Some(DEFAULT_ATTACHMENT_TTL_SECS),
        Some(s) => match spec_parse_i64(s) {
            Some(v) => if v > 0 {
                Some(v)
            } else {
                None
            },
            None => None,
        },
    }
}

/// The expiry of a link made at `now_secs` (seconds since the epoch) that lives `ttl_secs`.
pub open spec fn spec_token_exp(now_secs: i64, ttl_secs: i64) -> usize {
    (now_secs + ttl_secs) as usize
}

/// Signs a link token for an attachment that expires `ttl_secs` after `now_secs`.
pub fn build_attachment_token(
    jwt_secret: &str,
    user_id: &str,
    cipher_id: &str,
    attachment_id: &str,
    now_secs: i64,
    ttl_secs: i64,
) -> (r: Result<String, AppError>)
    requires
        i64::MIN <= now_secs + ttl_secs <= i64::MAX,
    ensures
        match spec_attachment_jwt(
            user_id@,
            cipher_id@,
            attachment_id@,
            spec_token_exp(now_secs, ttl_secs),
            jwt_secret@,
        ) {
            Some(t) => r matches Ok(s) && s@ == t,
            None => r matches Err(AppError::Crypto(m)) && m@ == "Failed to create attachment token"@,
        },
{
    let sum = now_secs + ttl_secs;
    #[verifier::truncate]
    let exp = sum as usize;
    match encode_attachment_jwt(user_id, cipher_id, attachment_id, exp, jwt_secret) {
        Ok(t) => Ok(t),
        Err(()) => Err(AppError::Crypto(String::from_str("Failed to create attachment token"))),
    }
}

/// `/api/ciphers/<cipher>/attachment/<attachment>/<action>?token=<token>`.
pub open spec fn attachment_link(
    cipher_id: Seq<char>,
    attachment_id: Seq<char>,
    action: Seq<char>,
    token: Seq<char>,
) -> Seq<char> {
    "/api/ciphers/"@ + cipher_id + "/attachment/"@ + attachment_id + "/"@ + action + "?token="@
        + token
}

fn link_of(cipher_id: &str, attachment_id: &str, action: &str, token: &str) -> (r: String)
    ensures
        r@ == attachment_link(cipher_id@, attachment_id@, action@, token@),
{
    let mut s = String::from_str("/api/ciphers/");
    s.append(cipher_id);
    s.append("/attachment/");
    s.append(attachment_id);
    s.append("/");
    s.append(action);
    s.append("?token=");
    s.append(token);
    s
}

/// What a signed attachment link is: the TTL setting is checked first, then the secret must be
/// at hand, then the token is signed and put into the link for `action`.
pub open spec fn spec_signed_link(
    cipher_id: Seq<char>,
    attachment_id: Seq<char>,
    user_id: Seq<char>,
    action: Seq<char>,
    secret: Seq<char>,
    now_secs: i64,
    ttl_secs: i64,
) -> Option<Seq<char>> {
    match spec_attachment_jwt(
        user_id,
        cipher_id,
        attachment_id,
        spec_token_exp(now_secs, ttl_secs),
        secret,
    ) {
        Some(t) => Some(attachment_link(cipher_id, attachment_id, action, t)),
        None => None,
    }
}

fn signed_link(
    cipher_id: &str,
    attachment_id: &str,
    user_id: &str,
    action: &str,
    jwt_secret: Result<String, AppError>,
    now_secs: i64,
    ttl_raw: Option<&str>,
) -> (r: Result<String, AppError>)
    requires
        link_expiry_in_range(
            now_secs,
            match ttl_raw {
                Some(s) => Some(s@),
                None => None,
            },
        ),
    ensures
        match spec_link_ttl(
            match ttl_raw {
                Some(s) => Some(s@),
                None => None,
            },
        ) {
            None => r matches Err(AppError::Internal),
            Some(ttl) => {
                match jwt_secret {
                    Err(e) => r == Err::<String, AppError>(e),
                    Ok(secret) => match spec_signed_link(
                        cipher_id@,
                        attachment_id@,
                        user_id@,
                        action@,
                        secret@,
                        now_secs,
                        ttl,
                    ) {
                        Some(link) => r matches Ok(l) && l@ == link,
                        None => r matches Err(AppError::Crypto(m)) && m@
                            == "Failed to create attachment token"@,
                    },
                }
            },
        },
{
    let ttl = match download_ttl_secs(ttl_raw) {
        Ok(t) => t,
        Err(e) => return Err(e),
    };
    let secret = match jwt_secret {
        Ok(s) => s,
        Err(e) => return Err(e),
    };
    let token = match build_attachment_token(
        secret.as_str(),
        user_id,
        cipher_id,
        attachment_id,
        now_secs,
        ttl,
    ) {
        Ok(t) => t,
        Err(e) => return Err(e),
    };
    Ok(link_of(cipher_id, attachment_id, action, token.as_str()))
}

/// A signed link lives as long as configured: with `ATTACHMENT_TTL_SECS` unset it lives 300
/// seconds; set to the decimal text of a positive `v` it lives `v` seconds; set to anything
/// else the link is refused. The token of a link made at `now` with lifetime `ttl` is the one
/// signed for the user, cipher and attachment with expiry `now + ttl`, and the link is
/// `/api/ciphers/<cipher>/attachment/<attachment>/<action>?token=<token>`.
pub proof fn lemma_link_lifetime(
    cipher_id: Seq<char>,
    attachment_id: Seq<char>,
    user_id: Seq<char>,
    action: Seq<char>,
    secret: Seq<char>,
    now_secs: i64,
    v: i64,
)
    ensures
        spec_link_ttl(None) == Some(300i64),
        v > 0 ==> spec_link_ttl(Some(spec_decimal(v as int))) == Some(v),
        v <= 0 ==> spec_link_ttl(Some(spec_decimal(v as int))) is None,
        spec_signed_link(cipher_id, attachment_id, user_id, action, secret, now_secs, v) == match spec_attachment_jwt(
            user_id,
            cipher_id,
            attachment_id,
            (now_secs + v) as usize,
            secret,
        ) {
            Some(t) => Some(
                "/api/ciphers/"@ + cipher_id + "/attachment/"@ + attachment_id + "/"@ + action
                    + "?token="@ + t,
            ),
            None => None,
        },
{
    lemma_parse_i64_of_decimal(v);
}

/// The signed download link of an attachment.
pub fn download_url(
    cipher_id: &str,
    attachment_id: &str,
    user_id: &str,
    jwt_secret: Result<String, AppError>,
    now_secs: i64,
    ttl_raw: Option<&str>,
) -> (r: Result<String, AppError>)
    requires
        link_expiry_in_range(
            now_secs,
            match ttl_raw {
                Some(s) => Some(s@),
                None => None,
            },
        ),
    ensures
        match spec_link_ttl(
            match ttl_raw {
                Some(s) => Some(s@),
                None => None,
            },
        ) {
            None => r matches Err(AppError::Internal),
            Some(ttl) => {
                match jwt_secret {
                    Err(e) => r == Err::<String, AppError>(e),
                    Ok(secret) => match spec_signed_link(
                        cipher_id@,
                        attachment_id@,
                        user_id@,
                        "download"@,
                        secret@,
                        now_secs,
                        ttl,
                    ) {
                        Some(link) => r matches Ok(l) && l@ == link,
                        None => r matches Err(AppError::Crypto(m)) && m@
                            == "Failed to create attachment token"@,
                    },
                }
            },
        },
{
    signed_link(cipher_id, attachment_id, user_id, "download", jwt_secret, now_secs, ttl_raw)
}

/// The signed upload link of a pending attachment.
pub fn upload_url(
    cipher_id: &str,
    attachment_id: &str,
    user_id: &str,
    jwt_secret: Result<String, AppError>,
    now_secs: i64,
    ttl_raw: Option<&str>,
) -> (r: Result<String, AppError>)
    requires
        link_expiry_in_range(
            now_secs,
            match ttl_raw {
                Some(s) => Some(s@),
                None => None,
            },
        ),
    ensures
        match spec_link_ttl(
            match ttl_raw {
                Some(s) => Some(s@),
                None => None,
            },
        ) {
            None => r matches Err(AppError::Internal),
            Some(ttl) => {
                match jwt_secret {
                    Err(e) => r == Err::<String, AppError>(e),
                    Ok(secret) => match spec_signed_link(
                        cipher_id@,
                        attachment_id@,
                        user_id@,
                        "azure-upload"@,
                        secret@,
                        now_secs,
                        ttl,
                    ) {
                        Some(link) => r matches Ok(l) && l@ == link,
                        None => r matches Err(AppError::Crypto(m)) && m@
                            == "Failed to create attachment token"@,
                    },
                }
            },
        },
{
    signed_link(cipher_id, attachment_id, user_id, "azure-upload", jwt_secret, now_secs, ttl_raw)
}

} // verus!
