//! Decisions of the client for backup servers.

use vstd::prelude::*;
use vstd::string::*;
use crate::dashboard::RemoteType;
use crate::text::{chars_of, has_at, starts_with_at};

verus! {

/// Whether a remote of this type is a backup server.
pub fn is_pbs(ty: RemoteType) -> (r: bool)
    ensures
        r == (ty == RemoteType::Pbs),
{
    match ty {
        RemoteType::Pbs => true,
        RemoteType::Pve => false,
    }
}

/// How the body of an answer to a listing is to be read.
#[derive(Clone, Copy, Debug, PartialEq, Eq, Structural)]
pub enum BodyKind {
    /// A sequence of JSON records, to be read one by one.
    Records,
    /// One JSON document with all records.
    Document,
    /// The text of an error.
    Error,
}

/// An answer with status 200 holds the listing, as a sequence of records where
/// its content type starts with `application/json-seq`, and as one document
/// otherwise. Any other answer holds an error.
pub open spec fn body_kind_of(status: u16, content_type: Option<Seq<char>>) -> BodyKind {
    if status != 200 {
        BodyKind::Error
    } else if content_type matches Some(c) && has_at(c, "application/json-seq"@, 0) {
        BodyKind::Records
    } else {
        BodyKind::Document
    }
}

/// How the body of an answer with this status and content type is to be read.
pub fn body_kind(status: u16, content_type: Option<&str>) -> (r: BodyKind)
    ensures
        r == body_kind_of(
            status,
            match content_type {
                Some(c) => Some(c@),
                None => None,
            },
        ),
{
    if status != 200 {
        return BodyKind::Error;
    }
    match content_type {
        Some(c) => {
            if starts_with_at(&chars_of(c), &chars_of("application/json-seq"), 0) {
                BodyKind::Records
            } else {
                BodyKind::Document
            }
        },
        None => BodyKind::Document,
    }
}

} // verus!
