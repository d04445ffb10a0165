//! Screening of a new submission before any request is created: the denylist,
//! the attachment, its size and its media type.
use vstd::prelude::*;
use crate::approval::{media_subtype, mime_subtype, subtype_allowed, view_text};
use crate::config::{type_allowed, Settings};

verus! {

/// The largest attachment accepted, in bytes.
pub const MAX_ATTACHMENT_BYTES: u64 = 10000000;

/// The image attached to a submission.
#[derive(Debug)]
pub struct Attachment {
    /// Size in bytes.
    pub size: u64,
    /// The content type the platform reports, if any.
    pub content_type: Option<String>,
    /// Where the image can be fetched.
    pub url: String,
}

/// What screening needs to know of a new message in the request channel.
#[derive(Debug)]
pub struct Submission {
    /// The author is on the denylist.
    pub blacklisted: bool,
    /// The author holds the moderator role.
    pub authorized: bool,
    /// The message's first attachment.
    pub attachment: Option<Attachment>,
}

/// Why a submission was turned away.
#[derive(Clone, Copy, Debug, PartialEq, Eq, Structural)]
pub enum SubmitRejection {
    Blacklisted,
    MissingAttachment,
    TooLarge,
    DisallowedType,
}

/// The verdict on a submission.
#[derive(Clone, Copy, Debug, PartialEq, Eq, Structural)]
pub enum SubmitDecision {
    /// Post a log message and submit the request.
    Accept,
    /// A moderator's message without an image: leave it alone.
    Ignore,
    /// Delete the source message; no request is created.
    Reject(SubmitRejection),
}

impl SubmitDecision {
    /// Whether the source message must be deleted.
    pub fn deletes_source(&self) -> (r: bool)
        ensures
            r == (*self is Reject),
    {
        match self {
            SubmitDecision::Reject(_) => true,
            _ => false,
        }
    }
}

/// The verdict, given the subtype of the attachment's content type.
/// Moderators pass the type check; nobody passes the denylist or the size
/// limit.
pub open spec fn screening_outcome(
    settings: Settings,
    sub: Submission,
    subtype: Option<Seq<char>>,
) -> SubmitDecision {
    if sub.blacklisted {
        SubmitDecision::Reject(SubmitRejection::Blacklisted)
    } else {
        match sub.attachment {
            None => if sub.authorized {
                SubmitDecision::Ignore
            } else {
                SubmitDecision::Reject(SubmitRejection::MissingAttachment)
            },
            Some(a) => if a.size > MAX_ATTACHMENT_BYTES {
                SubmitDecision::Reject(SubmitRejection::TooLarge)
            } else if !sub.authorized && !subtype_allowed(settings, subtype) {
                SubmitDecision::Reject(SubmitRejection::DisallowedType)
            } else {
                SubmitDecision::Accept
            },
        }
    }
}

/// Screens a submission whose attachment's content type has the given
/// subtype (`None`: no content type, or none that reads as a media type).
pub fn screen_with_subtype(settings: &Settings, sub: &Submission, subtype: &Option<String>) -> (r:
    SubmitDecision)
    ensures
        r == screening_outcome(*settings, *sub, view_text(*subtype)),
{
    if sub.blacklisted {
        return SubmitDecision::Reject(SubmitRejection::Blacklisted);
    }
    match &sub.attachment {
        None => if sub.authorized {
            SubmitDecision::Ignore
        } else {
            SubmitDecision::Reject(SubmitRejection::MissingAttachment)
        },
        Some(a) => {
            if a.size > MAX_ATTACHMENT_BYTES {
                return SubmitDecision::Reject(SubmitRejection::TooLarge);
            }
            let allowed = match subtype {
                Some(t) => type_allowed(settings, t),
                None => false,
            };
            if !sub.authorized && !allowed {
                SubmitDecision::Reject(SubmitRejection::DisallowedType)
            } else {
                SubmitDecision::Accept
            }
        },
    }
}

/// The subtype of the content type the submission's attachment reports.
pub open spec fn attachment_subtype(sub: Submission) -> Option<Seq<char>> {
    match sub.attachment {
        Some(a) => match a.content_type {
            Some(ct) => mime_subtype(ct@),
            None => None,
        },
        None => None,
    }
}

/// Screens a new submission. A denylisted author is always turned away and
/// their message deleted; so is anyone else's image of a type not allowed,
/// unless they are a moderator.
pub fn screen_submission(settings: &Settings, sub: &Submission) -> (r: SubmitDecision)
    ensures
        r == screening_outcome(*settings, *sub, attachment_subtype(*sub)),
        sub.blacklisted ==> r == SubmitDecision::Reject(SubmitRejection::Blacklisted),
        !sub.blacklisted && !sub.authorized && sub.attachment is Some
            && sub.attachment->0.size <= MAX_ATTACHMENT_BYTES && !subtype_allowed(
            *settings,
            attachment_subtype(*sub),
        ) ==> r == SubmitDecision::Reject(SubmitRejection::DisallowedType),
        sub.authorized ==> r != SubmitDecision::Reject(SubmitRejection::DisallowedType),
{
    let subtype = match &sub.attachment {
        Some(a) => match &a.content_type {
            Some(ct) => media_subtype(ct.as_str()),
            None => None,
        },
        None => None,
    };
    assert(view_text(subtype) == attachment_subtype(*sub));
    screen_with_subtype(settings, sub, &subtype)
}

} // verus!
