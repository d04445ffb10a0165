//! What a log message records of its request, read back from it: the
//! submitter's identity in the "UID" field and a link to the source message,
//! whose last path segment is the source message's identity. These anchors
//! outlive the process; the index does not.
use vstd::prelude::*;
use crate::decimal::{parse_u64, parsed_u64};
use crate::index::PendingRequest;

verus! {

/// A field of the log message's embed.
#[derive(Debug)]
pub struct EmbedField {
    pub name: String,
    pub value: String,
}

/// The value of the first field named "UID".
pub open spec fn uid_field(fields: Seq<EmbedField>) -> Option<Seq<char>>
    decreases fields.len(),
{
    if fields.len() == 0 {
        None
    } else if fields[0].name@ == "UID"@ {
        Some(fields[0].value@)
    } else {
        uid_field(fields.skip(1))
    }
}

/// The submitter a log message names.
pub open spec fn submitter_of(fields: Seq<EmbedField>) -> Option<u64> {
    match uid_field(fields) {
        Some(v) => parsed_u64(v),
        None => None,
    }
}

/// Reads the submitter's identity from the first "UID" field.
pub fn submitter_from_fields(fields: &Vec<EmbedField>) -> (r: Option<u64>)
    ensures
        r == submitter_of(fields@),
{
    let uid = String::from_str("UID");
    let mut i: usize = 0;
    assert(fields@.skip(0) =~= fields@);
    while i < fields.len()
        invariant
            i <= fields.len(),
            uid@ == "UID"@,
            uid_field(fields@) == uid_field(fields@.skip(i as int)),
        decreases fields.len() - i,
    {
        let ghost rest = fields@.skip(i as int);
        assert(rest[0] == fields@[i as int]);
        assert(rest.skip(1) =~= fields@.skip(i + 1));
        if fields[i].name == uid {
            return parse_u64(fields[i].value.as_str());
        }
        i = i + 1;
    }
    assert(fields@.skip(i as int).len() == 0);
    None
}

/// The serialized path of the URL written in `s`; `None` where `s` is not
/// a URL.
pub uninterp spec fn url_path(s: Seq<char>) -> Option<Seq<char>>;

/// Relies on url's `Url::parse` and `Url::path`: the path of the parsed URL.
#[verifier::external_body]
fn parse_url_path(s: &str) -> (r: Option<String>)
    ensures
        match r {
            Some(p) => url_path(s@) == Some(p@),
            None => url_path(s@) is None,
        },
{
    match url::Url::parse(s) {
        Ok(u) => Some(u.path().to_string()),
        Err(_) => None,
    }
}

/// The position of the last `/` in `p`, or -1.
pub open spec fn last_slash(p: Seq<char>) -> int
    decreases p.len(),
{
    if p.len() == 0 {
        -1
    } else if p.last() == '/' {
        p.len() - 1
    } else {
        last_slash(p.drop_last())
    }
}

/// The last segment of a path that starts with `/`: what follows its last
/// `/`. A path without the leading `/` has no segments.
pub open spec fn last_segment(p: Seq<char>) -> Option<Seq<char>> {
    if p.len() > 0 && p[0] == '/' {
        Some(p.subrange(last_slash(p) + 1, p.len() as int))
    } else {
        None
    }
}

/// The message identity a link's path ends in.
pub open spec fn path_message_id(p: Seq<char>) -> Option<u64> {
    match last_segment(p) {
        Some(seg) => parsed_u64(seg),
        None => None,
    }
}

/// Reads the message identity that a link's path ends in.
pub fn message_id_from_path(path: &str) -> (r: Option<u64>)
    ensures
        r == path_message_id(path@),
{
    let len = path.unicode_len();
    if len == 0 || path.get_char(0) != '/' {
        return None;
    }
    let mut i: usize = len;
    assert(path@.subrange(0, len as int) =~= path@);
    while i > 0 && path.get_char(i - 1) != '/'
        invariant
            i <= len,
            len == path@.len(),
            last_slash(path@) == last_slash(path@.subrange(0, i as int)),
        decreases i,
    {
        assert(path@.subrange(0, i as int).drop_last() =~= path@.subrange(0, i - 1));
        i = i - 1;
    }
    assert(path@.subrange(0, len as int) =~= path@);
    if i == 0 {
        assert(path@.subrange(0, 0) =~= Seq::<char>::empty());
    } else {
        assert(path@.subrange(0, i as int).last() == path@[i - 1]);
    }
    // the leading `/` stops the scan before it passes the start
    let segment = path.substring_char(i, len);
    parse_u64(segment)
}

/// The message identity a link ends in.
pub open spec fn link_message_id(link: Seq<char>) -> Option<u64> {
    match url_path(link) {
        Some(p) => path_message_id(p),
        None => None,
    }
}

/// Reads the identity of the message a link points to.
pub fn message_id_from_link(link: &str) -> (r: Option<u64>)
    ensures
        r == link_message_id(link@),
{
    match parse_url_path(link) {
        Some(p) => message_id_from_path(p.as_str()),
        None => None,
    }
}

/// The request that log message `log` records, read back from its fields,
/// its link to the source message and the image it shows; `None` where a
/// part is missing or unreadable.
pub open spec fn recorded_request(
    log: u64,
    fields: Seq<EmbedField>,
    link: Seq<char>,
    thumbnail: String,
) -> Option<PendingRequest> {
    match (submitter_of(fields), link_message_id(link)) {
        (Some(s), Some(m)) => Some(
            PendingRequest {
                submitter_id: s,
                log_message_id: log,
                source_message_id: m,
                image_ref: thumbnail,
            },
        ),
        _ => None,
    }
}

/// Recovers the request a log message records, for a log message posted
/// before the process started.
pub fn recover_request(
    log: u64,
    fields: &Vec<EmbedField>,
    link: &str,
    thumbnail: String,
) -> (r: Option<PendingRequest>)
    ensures
        r == recorded_request(log, fields@, link@, thumbnail),
{
    let submitter = submitter_from_fields(fields);
    let source = message_id_from_link(link);
    match (submitter, source) {
        (Some(s), Some(m)) => Some(
            PendingRequest {
                submitter_id: s,
                log_message_id: log,
                source_message_id: m,
                image_ref: thumbnail,
            },
        ),
        _ => None,
    }
}

} // verus!
