//! The approval outcome handler's rules: which downloaded images may be
//! stored, where they are stored, and what address they are served from.
use vstd::prelude::*;
use crate::config::{allowed_types, type_allowed, Settings, Storage};

verus! {

/// Why finalizing an approval failed.
#[derive(Clone, Copy, Debug, PartialEq, Eq, Structural)]
pub enum ApprovalError {
    /// The image's content type is missing, unreadable or not allowed.
    UploadRejected,
    /// Fetching the image or storing it failed.
    UploadFailed,
    /// Recording the approved image in the database failed.
    PersistenceFailed,
}

/// The subtype of the media type written in `s` (`png` for
/// `image/png; q=1`), without a `+suffix`; `None` where `s` is not a media
/// type.
pub uninterp spec fn mime_subtype(s: Seq<char>) -> Option<Seq<char>>;

/// Relies on mime's `Mime::from_str` and `Mime::subtype`: the subtype of
/// the parsed media type, as text.
#[verifier::external_body]
pub(crate) fn media_subtype(s: &str) -> (r: Option<String>)
    ensures
        match r {
            Some(t) => mime_subtype(s@) == Some(t@),
            None => mime_subtype(s@) is None,
        },
{
    match s.parse::<mime::Mime>() {
        Ok(m) => Some(m.subtype().as_str().to_string()),
        Err(_) => None,
    }
}

/// `subtype` is present and one of the allowed media subtypes.
pub open spec fn subtype_allowed(settings: Settings, subtype: Option<Seq<char>>) -> bool {
    subtype is Some && allowed_types(settings).contains(subtype->0)
}

/// The text held, if any.
pub open spec fn view_text(t: Option<String>) -> Option<Seq<char>> {
    match t {
        Some(s) => Some(s@),
        None => None,
    }
}

/// Accepts a downloaded image whose media subtype is allowed.
pub fn check_subtype(settings: &Settings, subtype: &Option<String>) -> (r: Result<
    (),
    ApprovalError,
>)
    ensures
        r is Ok <==> subtype_allowed(*settings, view_text(*subtype)),
        r is Err ==> r == Err::<(), ApprovalError>(ApprovalError::UploadRejected),
{
    match subtype {
        Some(t) => if type_allowed(settings, t) {
            Ok(())
        } else {
            Err(ApprovalError::UploadRejected)
        },
        None => Err(ApprovalError::UploadRejected),
    }
}

/// What the content type a download was served with reveals of its subtype.
pub open spec fn served_subtype(content_type: Option<String>) -> Option<Seq<char>> {
    match content_type {
        Some(ct) => mime_subtype(ct@),
        None => None,
    }
}

/// Accepts a downloaded image by the content type it was served with: it
/// must be present, be a media type, and have an allowed subtype. This holds
/// an image to the same list as its submission, whatever its address claims.
pub fn check_download_type(settings: &Settings, content_type: &Option<String>) -> (r: Result<
    (),
    ApprovalError,
>)
    ensures
        r is Ok <==> subtype_allowed(*settings, served_subtype(*content_type)),
        r is Err ==> r == Err::<(), ApprovalError>(ApprovalError::UploadRejected),
{
    match content_type {
        Some(ct) => {
            let subtype = media_subtype(ct.as_str());
            check_subtype(settings, &subtype)
        },
        None => Err(ApprovalError::UploadRejected),
    }
}

/// The object path a user's image is stored under: the storage prefix
/// followed by the user identity.
pub fn storage_object_path(storage: &Storage, uid: &str) -> (r: String)
    ensures
        r@ == storage.storage_path@ + uid@,
{
    let path = storage.storage_path.clone();
    path.concat(uid)
}

/// The public address of a user's stored image: the storage address, the
/// bucket, then the object path.
pub fn hosted_image_ref(storage: &Storage, uid: &str) -> (r: String)
    ensures
        r@ == storage.url@ + "/"@ + storage.bucket_name@ + storage.storage_path@ + uid@,
{
    let base = storage.url.clone();
    let with_slash = base.concat("/");
    let with_bucket = with_slash.concat(storage.bucket_name.as_str());
    let with_path = with_bucket.concat(storage.storage_path.as_str());
    with_path.concat(uid)
}

/// The storage answered a put: only status 200 means the image was stored.
pub fn check_put_status(status: u16) -> (r: Result<(), ApprovalError>)
    ensures
        r is Ok <==> status == 200,
        r is Err ==> r == Err::<(), ApprovalError>(ApprovalError::UploadFailed),
{
    if status == 200 {
        Ok(())
    } else {
        Err(ApprovalError::UploadFailed)
    }
}

/// The storage answered a delete: only status 204 means the image is gone.
pub fn delete_succeeded(status: u16) -> (r: bool)
    ensures
        r == (status == 204),
{
    status == 204
}

} // verus!
