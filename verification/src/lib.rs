//! A polling file watcher: a set of watched files, each carrying an ordered
//! chain of transformation stages and a terminal consumer, is swept one file
//! at a time.  A file whose modification timestamp has changed (or that is
//! seen on the very first pass) has its pipeline run: an open step produces a
//! value, each stage maps it in order, and the terminal step consumes it.
//! Every step may ask to be retried (bounded by an optional budget, with a
//! sleep between attempts) or may fail fatally, aborting the whole pass.
//!
//! The engine itself never sleeps, touches the filesystem, or calls a user
//! function: one pass is an explicit state machine ([`PassRun`]) that hands
//! out [`Action`]s and absorbs [`Event`]s, so that every decision the watcher
//! makes is verified.  A small unverified driver performs the actions.
//!
//! A pass is one sweep over all watched files; a watcher that polls forever
//! is an outer loop around passes, kept by the caller.  A file's stored
//! timestamp is updated once its pipeline reruns to completion.

pub mod engine;
pub mod errors;
pub mod fsmeta;
pub mod result;
pub mod retry;
pub mod watch;

pub use engine::{Action, Event, Op, PassRun, Phase};
pub use errors::{ErrorKind, WatchError};
pub use fsmeta::date_modified;
pub use result::WatchingFuncResult;
pub use retry::RetryState;
pub use watch::{FileListBuilder, WatchedFile};
