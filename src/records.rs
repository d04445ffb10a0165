//! The records the workflow keeps in the database, each keyed by a user
//! identity in decimal, and the changes it makes to them.
use vstd::prelude::*;
use crate::decimal::{decimal, u64_decimal};
use crate::index::PendingRequest;

verus! {

/// An approved background image of a user.
#[derive(Debug, PartialEq, Eq)]
pub struct Usrbg {
    pub uid: String,
    pub img: String,
}

/// A user barred from submitting.
#[derive(Debug, PartialEq, Eq)]
pub struct Blacklist {
    pub uid: String,
}

/// The two kinds of record.
#[derive(Clone, Copy, Debug, PartialEq, Eq, Structural)]
pub enum RecordKind {
    ApprovedBanner,
    BanEntry,
}

/// A record of either kind.
#[derive(Debug, PartialEq, Eq)]
pub enum Record {
    ApprovedBanner(Usrbg),
    BanEntry(Blacklist),
}

pub open spec fn record_uid(r: Record) -> String {
    match r {
        Record::ApprovedBanner(u) => u.uid,
        Record::BanEntry(b) => b.uid,
    }
}

impl Record {
    /// Which kind of record this is.
    pub fn kind(&self) -> (k: RecordKind)
        ensures
            k == (match *self {
                Record::ApprovedBanner(_) => RecordKind::ApprovedBanner,
                Record::BanEntry(_) => RecordKind::BanEntry,
            }),
    {
        match self {
            Record::ApprovedBanner(_) => RecordKind::ApprovedBanner,
            Record::BanEntry(_) => RecordKind::BanEntry,
        }
    }

    /// The user identity the record is kept under.
    pub fn uid(&self) -> (u: &String)
        ensures
            *u == record_uid(*self),
    {
        match self {
            Record::ApprovedBanner(u) => &u.uid,
            Record::BanEntry(b) => &b.uid,
        }
    }
}

/// A change to the database: write a record under its user identity,
/// replacing any of the same kind, or delete the record of a kind kept
/// under `uid`.
#[derive(Debug, PartialEq, Eq)]
pub enum StoreOp {
    Upsert(Record),
    Delete { kind: RecordKind, uid: String },
}

/// The record an approval writes: the submitter's identity in decimal and
/// the address of the stored image.
pub fn approval_record(request: &PendingRequest, hosted: String) -> (rec: Record)
    ensures
        rec matches Record::ApprovedBanner(u) && u.uid@ == decimal(request.submitter_id as nat)
            && u.img == hosted,
{
    Record::ApprovedBanner(Usrbg { uid: u64_decimal(request.submitter_id), img: hosted })
}

} // verus!
