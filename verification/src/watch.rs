//! The watch set data model: watched files and the builder that assembles
//! them.
//!
//! The engine never calls a user function itself, so the open, stage and
//! terminal functions are held as opaque handles of caller-chosen types
//! (`O`, `S`, `E`).  A driver that owns real closures instantiates them with
//! its closure handles and performs the calls the engine asks for; tests
//! instantiate them with plain markers.

use vstd::prelude::*;

use crate::errors::WatchError;
use crate::fsmeta::date_modified;

verus! {

/// One file under watch: its path, the modification timestamp it was last
/// known with (nanoseconds since the Unix epoch), the ordered chain of stage
/// handles, and the terminal handle run after all stages succeed.
///
/// The stored timestamp is brought up to date when a pass reruns the file's
/// pipeline to completion, so the next pass compares against the timestamp
/// that triggered the rerun rather than rerunning forever.
pub struct WatchedFile<S, E> {
    pub path: String,
    pub date_modified: u128,
    pub functions_on_run: Vec<S>,
    pub function_on_end: E,
}

impl<S, E> WatchedFile<S, E> {
    /// A watched file whose stored timestamp is read from the filesystem now;
    /// the whole construction fails when the metadata is unavailable.
    pub fn new(path: String, end_func: E) -> (r: Result<Self, WatchError>)
        ensures
            r matches Ok(f) ==> f.path == path && f.functions_on_run@.len() == 0
                && f.function_on_end == end_func,
            r matches Err(e) ==> e.kind == crate::errors::ErrorKind::MetadataUnavailable
                && e.detail@ == path@,
    {
        match date_modified(path.as_str()) {
            Ok(stamp) => Ok(Self::with_modified(path, stamp, end_func)),
            Err(e) => Err(e),
        }
    }

    /// A watched file whose stored timestamp is supplied by the caller, for
    /// drivers that read the filesystem themselves and for tests.
    pub fn with_modified(path: String, stamp: u128, end_func: E) -> (r: Self)
        ensures
            r.path == path,
            r.date_modified == stamp,
            r.functions_on_run@.len() == 0,
            r.function_on_end == end_func,
    {
        WatchedFile { path, date_modified: stamp, functions_on_run: Vec::new(), function_on_end: end_func }
    }

    /// Appends one stage to the chain; insertion order is the order the
    /// stages will run in, and is never changed afterwards.
    pub fn add_func(self, func: S) -> (r: Self)
        ensures
            r.path == self.path,
            r.date_modified == self.date_modified,
            r.functions_on_run@ == self.functions_on_run@.push(func),
            r.function_on_end == self.function_on_end,
    {
        let mut file = self;
        file.functions_on_run.push(func);
        file
    }
}

/// The assembled watch set: the files in processing order, the interval used
/// both as poll cadence and retry backoff (milliseconds), the optional retry
/// budget shared as a fresh copy by every step, the open handle, and whether
/// the very first pass is still ahead.
pub struct FileListBuilder<O, S, E> {
    pub files: Vec<WatchedFile<S, E>>,
    pub interval_millis: u64,
    pub max_retries: Option<u32>,
    pub open_file_func: O,
    pub first_pass: bool,
}

impl<O, S, E> FileListBuilder<O, S, E> {
    /// An empty watch set around an open handle: no files yet, a one-second
    /// interval, an unbounded retry budget, and the first pass ahead.
    pub fn new(open_func: O) -> (r: Self)
        ensures
            r.files@.len() == 0,
            r.interval_millis == 1000,
            r.max_retries is None,
            r.open_file_func == open_func,
            r.first_pass,
    {
        FileListBuilder {
            files: Vec::new(),
            interval_millis: 1000,
            max_retries: None,
            open_file_func: open_func,
            first_pass: true,
        }
    }

    /// Appends one file; files are processed in insertion order.
    pub fn add_file(self, file: WatchedFile<S, E>) -> (r: Self)
        ensures
            r.files@ == self.files@.push(file),
            r.interval_millis == self.interval_millis,
            r.max_retries == self.max_retries,
            r.open_file_func == self.open_file_func,
            r.first_pass == self.first_pass,
    {
        let mut set = self;
        set.files.push(file);
        set
    }

    /// Replaces the poll-and-backoff interval, in milliseconds.
    pub fn with_interval(self, inter_millis: u64) -> (r: Self)
        ensures
            r.files@ == self.files@,
            r.interval_millis == inter_millis,
            r.max_retries == self.max_retries,
            r.open_file_func == self.open_file_func,
            r.first_pass == self.first_pass,
    {
        let mut set = self;
        set.interval_millis = inter_millis;
        set
    }

    /// Bounds the retry budget: each step may absorb at most `re` `Retry`
    /// outcomes before the pass aborts with `RetriesExhausted`.
    pub fn with_max_retries(self, re: u32) -> (r: Self)
        ensures
            r.files@ == self.files@,
            r.interval_millis == self.interval_millis,
            r.max_retries == Some(re),
            r.open_file_func == self.open_file_func,
            r.first_pass == self.first_pass,
    {
        let mut set = self;
        set.max_retries = Some(re);
        set
    }
}

} // verus!
