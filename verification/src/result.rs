//! The three-way outcome produced by every user-supplied step.

use vstd::prelude::*;

verus! {

/// What an open or stage function reports back to the engine.
///
/// `Success` advances the pipeline with a new threaded value; `Retry` asks
/// for another attempt (after a sleep, and only while the retry budget
/// lasts), carrying a human-readable reason; `Fail` aborts the whole pass
/// with its reason surfaced verbatim.
pub enum WatchingFuncResult<T> {
    Success(T),
    Retry(String),
    Fail(String),
}

} // verus!
