//! The filesystem collaborator: reading a path's modification timestamp.
//!
//! The engine only ever compares timestamps for equality, so the raw reading
//! is kept behind one trusted wrapper returning plain nanoseconds, and the
//! error policy (any failure is fatal and carries the path) is verified code.

use vstd::prelude::*;

use crate::errors::{ErrorKind, WatchError};

verus! {

/// Relies on `Path::metadata`, `Metadata::modified` and
/// `SystemTime::duration_since`: the path's modification time as nanoseconds
/// since the Unix epoch, or `None` when the filesystem cannot supply it
/// (no such file, no metadata, or a time before the epoch).
#[verifier::external_body]
fn read_modified_nanos(path: &str) -> (r: Option<u128>) {
    let meta = match std::path::Path::new(path).metadata() {
        Ok(m) => m,
        Err(_) => return None,
    };
    let time = match meta.modified() {
        Ok(t) => t,
        Err(_) => return None,
    };
    match time.duration_since(std::time::UNIX_EPOCH) {
        Ok(d) => Some(d.as_nanos()),
        Err(_) => None,
    }
}

/// Reads a path's current modification timestamp.  Whatever the filesystem
/// answers, a failure comes back as `MetadataUnavailable` carrying the path,
/// the one piece of context a diagnostic needs.
pub fn date_modified(path: &str) -> (r: Result<u128, WatchError>)
    ensures
        r matches Err(e) ==> e.kind == ErrorKind::MetadataUnavailable && e.detail@ == path@,
{
    match read_modified_nanos(path) {
        Some(t) => Ok(t),
        None => Err(WatchError::new(ErrorKind::MetadataUnavailable, path.to_owned())),
    }
}

} // verus!
