//! The execution engine: one pass over a watch set as an explicit state
//! machine.
//!
//! A pass never sleeps, reads the filesystem, or calls a user function by
//! itself.  Instead [`PassRun::step`] absorbs one [`Event`] (what the outside
//! world just did) and answers with the one [`Action`] the driver must
//! perform next.  The transition relation [`PassRun::step_spec`] is the whole
//! behaviour of the watcher: change detection, retry accounting, stage
//! ordering, and the abort semantics are all stated there and proved of the
//! implementation.
//!
//! The driving protocol: [`FileListBuilder::start`] yields the run and the
//! first action; the driver performs each action, feeds the matching event to
//! `step`, and on [`Action::Done`] calls [`PassRun::finish`], which hands the
//! (timestamp-updated) watch set back for the next pass together with the
//! pass's single `Result`.

use vstd::pervasive::unreached;
use vstd::prelude::*;
use vstd::seq_lib::lemma_update_is_remove_insert;

use crate::errors::{ErrorKind, WatchError};
use crate::result::WatchingFuncResult;
use crate::retry::RetryState;
use crate::watch::FileListBuilder;

verus! {

/// The producing step a run is engaged in: the open function, or the stage
/// with the given position in the chain.
#[derive(Clone, Copy, Debug, PartialEq, Eq, Structural)]
pub enum Op {
    Open,
    Stage(usize),
}

/// Where a run stands between two events.
#[derive(Clone, Copy, Debug, PartialEq, Eq, Structural)]
pub enum Phase {
    /// Waiting out the interval before the current file is looked at.
    Sleeping,
    /// Waiting for the current file's modification timestamp.
    Checking,
    /// Waiting for the outcome of the open or stage function named by `Op`.
    Working(Op),
    /// Waiting out the backoff interval before the same step is retried.
    Backoff(Op),
    /// Waiting for the terminal function's verdict.
    Ending,
    /// The pass is over; `finish` collects the result.
    Finished,
}

/// What the driver must do next.  Every action concerns the file at the
/// run's current index.
#[derive(Clone, Copy, Debug, PartialEq, Eq, Structural)]
pub enum Action {
    /// Sleep for the set's interval, then feed `Event::Slept`.
    Sleep,
    /// Read the current file's modification timestamp, then feed
    /// `Event::Stamp` with the result.
    ReadStamp,
    /// Call the open function on the current file's path, then feed
    /// `Event::Produced` with its outcome.
    CallOpen,
    /// Call the given stage with the run's current value, then feed
    /// `Event::Produced` with its outcome.
    CallStage(usize),
    /// Call the terminal function with the run's current value, then feed
    /// `Event::Ended` with its verdict.
    CallEnd,
    /// Nothing is left to do: call `finish`.
    Done,
}

/// What the outside world answered to the last action.
pub enum Event<T> {
    /// The interval (poll cadence or retry backoff) was waited out.
    Slept,
    /// The current file's modification timestamp, as `date_modified` reports
    /// it.
    Stamp(Result<u128, WatchError>),
    /// What the open or stage function produced.
    Produced(WatchingFuncResult<T>),
    /// The terminal function's verdict.
    Ended(Result<(), String>),
}

/// One pass over a watch set: the set itself, the file under scrutiny, the
/// phase, the retry counter of the step in progress, the threaded value, and
/// the freshly read timestamp to be stored once the file's pipeline ends
/// well.
pub struct PassRun<T, O, S, E> {
    pub set: FileListBuilder<O, S, E>,
    pub idx: usize,
    pub phase: Phase,
    pub retry: RetryState,
    pub current: Option<T>,
    pub fresh: Option<u128>,
    pub first_pass: bool,
    pub outcome: Option<Result<(), WatchError>>,
}

impl<T, O, S, E> PassRun<T, O, S, E> {
    pub open spec fn n_files(self) -> nat {
        self.set.files@.len()
    }

    /// The file the run currently stands at.
    pub open spec fn cur(self) -> crate::watch::WatchedFile<S, E>
        recommends
            self.idx < self.n_files(),
    {
        self.set.files@[self.idx as int]
    }

    /// How many stages the current file's chain holds.
    pub open spec fn n_stages(self) -> nat {
        self.cur().functions_on_run@.len()
    }

    pub open spec fn finished(self) -> bool {
        self.phase is Finished
    }

    /// Well-formedness, established by `start` and kept by every `step`.
    pub open spec fn inv(self) -> bool {
        &&& (self.outcome is Some <==> self.phase is Finished)
        &&& (!(self.phase is Finished) ==> self.idx < self.n_files())
        &&& (match self.phase {
            Phase::Working(Op::Stage(j)) => j < self.n_stages() && self.current is Some,
            Phase::Backoff(Op::Stage(j)) => j < self.n_stages() && self.current is Some,
            Phase::Ending => self.current is Some,
            _ => true,
        })
    }

    /// Which event each phase is waiting for.  A finished run accepts none.
    pub open spec fn expects(self, e: Event<T>) -> bool {
        match self.phase {
            Phase::Sleeping => e is Slept,
            Phase::Checking => e is Stamp,
            Phase::Working(_) => e is Produced,
            Phase::Backoff(_) => e is Slept,
            Phase::Ending => e is Ended,
            Phase::Finished => false,
        }
    }

    /// The action that hands a step to the driver again after a backoff.
    pub open spec fn reissue(op: Op) -> Action {
        match op {
            Op::Open => Action::CallOpen,
            Op::Stage(j) => Action::CallStage(j),
        }
    }

    /// The position in the chain that follows a successful step.
    pub open spec fn next_stage_idx(op: Op) -> int {
        match op {
            Op::Open => 0,
            Op::Stage(j) => j + 1,
        }
    }

    /// The configuration a step never touches.
    pub open spec fn config_kept(pre: Self, post: Self) -> bool {
        &&& post.set.interval_millis == pre.set.interval_millis
        &&& post.set.max_retries == pre.set.max_retries
        &&& post.set.open_file_func == pre.set.open_file_func
        &&& post.set.first_pass == pre.set.first_pass
        &&& post.first_pass == pre.first_pass
    }

    /// The run has aborted: the pass is finished with the one fatal error of
    /// the given kind and detail, and nothing else moved.
    pub open spec fn halted_spec(
        pre: Self,
        post: Self,
        a: Action,
        kind: ErrorKind,
        detail: Seq<char>,
    ) -> bool {
        &&& post.set.files@ == pre.set.files@
        &&& post.idx == pre.idx
        &&& post.current == pre.current
        &&& post.fresh == pre.fresh
        &&& post.phase == Phase::Finished
        &&& post.outcome matches Some(r) && r matches Err(e) && e.kind == kind
            && e.detail@ == detail
        &&& a == Action::Done
    }

    /// The run moved past the current file: on to the next one (sleeping
    /// first), or, when none is left, finished with `Ok`.
    pub open spec fn advanced_spec(pre: Self, post: Self, a: Action) -> bool {
        &&& post.current is None
        &&& post.fresh is None
        &&& if pre.idx + 1 < pre.n_files() {
            &&& post.idx == pre.idx + 1
            &&& post.phase == Phase::Sleeping
            &&& post.outcome is None
            &&& a == Action::Sleep
        } else {
            &&& post.phase == Phase::Finished
            &&& post.outcome matches Some(r) && r is Ok
            &&& a == Action::Done
        }
    }

    /// The transition relation of one pass.  This is the watcher's whole
    /// behaviour; `step` is proved to follow it exactly.
    pub open spec fn step_spec(pre: Self, e: Event<T>, post: Self, a: Action) -> bool {
        &&& Self::config_kept(pre, post)
        &&& match (pre.phase, e) {
            // The interval before a file was waited out.  On the very first
            // pass the pipeline starts unconditionally, whatever timestamps
            // are stored; on later passes the stored timestamp is checked
            // first.
            (Phase::Sleeping, Event::Slept) => {
                &&& post.set.files@ == pre.set.files@
                &&& post.idx == pre.idx
                &&& post.current == pre.current
                &&& post.outcome is None
                &&& if pre.first_pass {
                    &&& post.phase == Phase::Working(Op::Open)
                    &&& post.retry.remaining == pre.set.max_retries
                    &&& post.fresh is None
                    &&& a == Action::CallOpen
                } else {
                    &&& post.phase == Phase::Checking
                    &&& post.retry == pre.retry
                    &&& post.fresh == pre.fresh
                    &&& a == Action::ReadStamp
                }
            },
            // The timestamp arrived.  A read failure is immediately fatal; an
            // unchanged timestamp skips the file without invoking anything;
            // a changed one starts the pipeline and remembers the new
            // timestamp for storing when the file ends well.
            (Phase::Checking, Event::Stamp(res)) => match res {
                Result::Err(err) => Self::halted_spec(pre, post, a, err.kind, err.detail@),
                Result::Ok(t) => if t == pre.cur().date_modified {
                    &&& post.set.files@ == pre.set.files@
                    &&& Self::advanced_spec(pre, post, a)
                } else {
                    &&& post.set.files@ == pre.set.files@
                    &&& post.idx == pre.idx
                    &&& post.phase == Phase::Working(Op::Open)
                    &&& post.retry.remaining == pre.set.max_retries
                    &&& post.current == pre.current
                    &&& post.fresh == Some(t)
                    &&& post.outcome is None
                    &&& a == Action::CallOpen
                },
            },
            // The open or stage function reported back.  Success threads its
            // payload to the next step in declared order (the terminal after
            // the last stage) with a fresh retry counter; Fail aborts with
            // the reason verbatim; Retry spends the budget and backs off, or
            // aborts once the budget is out.
            (Phase::Working(op), Event::Produced(res)) => match res {
                WatchingFuncResult::Success(v) => {
                    &&& post.set.files@ == pre.set.files@
                    &&& post.idx == pre.idx
                    &&& post.current == Some(v)
                    &&& post.retry.remaining == pre.set.max_retries
                    &&& post.fresh == pre.fresh
                    &&& post.outcome is None
                    &&& ({
                        let next = Self::next_stage_idx(op);
                        if next < pre.n_stages() {
                            &&& post.phase == Phase::Working(Op::Stage(next as usize))
                            &&& a == Action::CallStage(next as usize)
                        } else {
                            &&& post.phase == Phase::Ending
                            &&& a == Action::CallEnd
                        }
                    })
                },
                WatchingFuncResult::Fail(s) => Self::halted_spec(
                    pre,
                    post,
                    a,
                    ErrorKind::StageFailed,
                    s@,
                ),
                WatchingFuncResult::Retry(_) => if pre.retry.allowed() {
                    &&& post.set.files@ == pre.set.files@
                    &&& post.idx == pre.idx
                    &&& post.phase == Phase::Backoff(op)
                    &&& post.retry == pre.retry.spent()
                    &&& post.current == pre.current
                    &&& post.fresh == pre.fresh
                    &&& post.outcome is None
                    &&& a == Action::Sleep
                } else {
                    Self::halted_spec(pre, post, a, ErrorKind::RetriesExhausted, "no more retries"@)
                },
            },
            // The backoff was waited out: the same step is handed out again,
            // unchanged.
            (Phase::Backoff(op), Event::Slept) => {
                &&& post.set.files@ == pre.set.files@
                &&& post.idx == pre.idx
                &&& post.phase == Phase::Working(op)
                &&& post.retry == pre.retry
                &&& post.current == pre.current
                &&& post.fresh == pre.fresh
                &&& post.outcome is None
                &&& a == Self::reissue(op)
            },
            // The terminal function spoke.  On success the freshly read
            // timestamp (if this pass read one) is stored on the file, and
            // the run moves on; an error of its own is fatal like any stage
            // failure.
            (Phase::Ending, Event::Ended(res)) => match res {
                Result::Ok(_) => {
                    &&& (match pre.fresh {
                        Option::Some(t) => {
                            &&& post.set.files@.len() == pre.set.files@.len()
                            &&& post.set.files@[pre.idx as int].path == pre.cur().path
                            &&& post.set.files@[pre.idx as int].date_modified == t
                            &&& post.set.files@[pre.idx as int].functions_on_run
                                == pre.cur().functions_on_run
                            &&& post.set.files@[pre.idx as int].function_on_end
                                == pre.cur().function_on_end
                            &&& forall|i: int|
                                0 <= i < pre.set.files@.len() && i != pre.idx
                                    ==> post.set.files@[i] == pre.set.files@[i]
                        },
                        Option::None => post.set.files@ == pre.set.files@,
                    })
                    &&& Self::advanced_spec(pre, post, a)
                },
                Result::Err(s) => Self::halted_spec(pre, post, a, ErrorKind::TerminalError, s@),
            },
            _ => false,
        }
    }

    /// Absorbs what the outside world answered to the last action and hands
    /// out the next action, exactly as `step_spec` says.
    pub fn step(&mut self, e: Event<T>) -> (a: Action)
        requires
            old(self).inv(),
            old(self).expects(e),
        ensures
            final(self).inv(),
            Self::step_spec(*old(self), e, *final(self), a),
    {
        match (self.phase, e) {
            (Phase::Sleeping, Event::Slept) => {
                if self.first_pass {
                    self.retry = RetryState::new(self.set.max_retries);
                    self.fresh = None;
                    self.phase = Phase::Working(Op::Open);
                    Action::CallOpen
                } else {
                    self.phase = Phase::Checking;
                    Action::ReadStamp
                }
            },
            (Phase::Checking, Event::Stamp(res)) => match res {
                Err(err) => self.halt(err),
                Ok(t) => {
                    if t == self.set.files[self.idx].date_modified {
                        self.advance()
                    } else {
                        self.fresh = Some(t);
                        self.retry = RetryState::new(self.set.max_retries);
                        self.phase = Phase::Working(Op::Open);
                        Action::CallOpen
                    }
                },
            },
            (Phase::Working(op), Event::Produced(res)) => match res {
                WatchingFuncResult::Success(v) => {
                    self.current = Some(v);
                    self.retry = RetryState::new(self.set.max_retries);
                    let n_stages = self.set.files[self.idx].functions_on_run.len();
                    let next: usize = match op {
                        Op::Open => 0,
                        Op::Stage(j) => j + 1,
                    };
                    if next < n_stages {
                        self.phase = Phase::Working(Op::Stage(next));
                        Action::CallStage(next)
                    } else {
                        self.phase = Phase::Ending;
                        Action::CallEnd
                    }
                },
                WatchingFuncResult::Fail(s) => self.halt(
                    WatchError::new(ErrorKind::StageFailed, s),
                ),
                WatchingFuncResult::Retry(_) => {
                    if self.retry.note_retry() {
                        self.phase = Phase::Backoff(op);
                        Action::Sleep
                    } else {
                        self.halt(WatchError::new(
                            ErrorKind::RetriesExhausted,
                            "no more retries".to_owned(),
                        ))
                    }
                },
            },
            (Phase::Backoff(op), Event::Slept) => {
                self.phase = Phase::Working(op);
                match op {
                    Op::Open => Action::CallOpen,
                    Op::Stage(j) => Action::CallStage(j),
                }
            },
            (Phase::Ending, Event::Ended(res)) => match res {
                Ok(_) => {
                    let ghost pre_files = self.set.files@;
                    match self.fresh {
                        Some(t) => {
                            let mut file = self.set.files.remove(self.idx);
                            file.date_modified = t;
                            self.set.files.insert(self.idx, file);
                            proof {
                                lemma_update_is_remove_insert(pre_files, self.idx as int, file);
                                assert(self.set.files@ =~= pre_files.update(self.idx as int, file));
                            }
                        },
                        None => {},
                    }
                    self.advance()
                },
                Err(s) => self.halt(WatchError::new(ErrorKind::TerminalError, s)),
            },
            _ => unreached(),
        }
    }

    /// Law: on a watch set's very first pass, waking up at a file starts its
    /// pipeline unconditionally — the open function is called whatever
    /// timestamp is stored for it, and the stored timestamp is not even read.
    pub proof fn lemma_first_pass_always_runs(pre: Self, post: Self, a: Action)
        requires
            pre.phase is Sleeping,
            pre.first_pass,
            Self::step_spec(pre, Event::Slept, post, a),
        ensures
            a == Action::CallOpen,
            post.phase == Phase::Working(Op::Open),
    {
    }

    /// Law: on a later pass, a file whose current modification timestamp
    /// equals the stored one is skipped outright — the run moves past it
    /// (sleeping before the next file, or finishing the pass with `Ok`)
    /// without calling its open, stage or terminal function, and the watch
    /// set is left untouched.
    pub proof fn lemma_unchanged_file_skipped(pre: Self, post: Self, a: Action, t: u128)
        requires
            pre.phase is Checking,
            t == pre.cur().date_modified,
            Self::step_spec(pre, Event::Stamp(Ok(t)), post, a),
        ensures
            a == Action::Sleep || a == Action::Done,
            post.set.files@ == pre.set.files@,
            a == Action::Sleep ==> post.phase is Sleeping && post.idx == pre.idx + 1,
            a == Action::Done ==> post.phase is Finished
                && (post.outcome matches Some(r) && r is Ok),
    {
    }

    /// Law: a file whose current modification timestamp differs from the
    /// stored one has its pipeline started: the open function is called, and
    /// the new timestamp is remembered for storing once the file ends well.
    pub proof fn lemma_changed_file_reruns(pre: Self, post: Self, a: Action, t: u128)
        requires
            pre.phase is Checking,
            t != pre.cur().date_modified,
            Self::step_spec(pre, Event::Stamp(Ok(t)), post, a),
        ensures
            a == Action::CallOpen,
            post.phase == Phase::Working(Op::Open),
            post.fresh == Some(t),
    {
    }

    /// Law: stages run in declared order on the threaded value.  A step's
    /// `Success` payload becomes the run's current value — the exact value
    /// handed to the next stage in the chain, or to the terminal function
    /// after the last stage; no stage is skipped or reordered.
    pub proof fn lemma_stage_order(pre: Self, post: Self, a: Action, op: Op, v: T)
        requires
            pre.phase == Phase::Working(op),
            Self::step_spec(pre, Event::Produced(WatchingFuncResult::Success(v)), post, a),
        ensures
            post.current == Some(v),
            match op {
                Op::Open => if pre.n_stages() > 0 {
                    a == Action::CallStage(0) && post.phase == Phase::Working(Op::Stage(0))
                } else {
                    a == Action::CallEnd && post.phase == Phase::Ending
                },
                Op::Stage(j) => if j + 1 < pre.n_stages() {
                    a == Action::CallStage((j + 1) as usize)
                        && post.phase == Phase::Working(Op::Stage((j + 1) as usize))
                } else {
                    a == Action::CallEnd && post.phase == Phase::Ending
                },
            },
    {
    }

    /// Law: a `Fail` outcome short-circuits the whole pass.  The run is
    /// finished at once with `StageFailed` carrying the reason verbatim, so
    /// the remaining stages, the terminal function, and every later file's
    /// pipeline are never reached (a finished run accepts no further event).
    pub proof fn lemma_fail_short_circuits(pre: Self, post: Self, a: Action, op: Op, s: String)
        requires
            pre.phase == Phase::Working(op),
            Self::step_spec(pre, Event::Produced(WatchingFuncResult::Fail(s)), post, a),
        ensures
            a == Action::Done,
            post.phase is Finished,
            post.outcome matches Some(r) && r matches Err(e)
                && e.kind == ErrorKind::StageFailed && e.detail@ == s@,
    {
    }

    /// Law: a finished run is inert — no event fits it, so nothing further
    /// is ever invoked once a pass has ended, well or badly.
    pub proof fn lemma_finished_accepts_nothing(pre: Self, e: Event<T>)
        requires
            pre.phase is Finished,
        ensures
            !pre.expects(e),
    {
    }

    /// Law: while the budget lasts, one `Retry` outcome costs exactly one
    /// sleep and one renewed attempt of the same step: the backoff is slept
    /// out, the very same operation is handed out again with the threaded
    /// value untouched, and one unit of the budget is spent.
    pub proof fn lemma_retry_round(
        pre: Self,
        mid: Self,
        post: Self,
        a1: Action,
        a2: Action,
        op: Op,
        s: String,
    )
        requires
            pre.phase == Phase::Working(op),
            pre.retry.allowed(),
            Self::step_spec(pre, Event::Produced(WatchingFuncResult::Retry(s)), mid, a1),
            Self::step_spec(mid, Event::Slept, post, a2),
        ensures
            a1 == Action::Sleep,
            a2 == Self::reissue(op),
            post.phase == Phase::Working(op),
            post.retry == pre.retry.spent(),
            post.current == pre.current,
            post.idx == pre.idx,
            post.set.files@ == pre.set.files@,
    {
    }

    /// Law: once a bounded budget is spent, the next `Retry` outcome is
    /// fatal: the pass aborts with `RetriesExhausted` and its fixed message,
    /// with no further sleep or attempt.
    pub proof fn lemma_retry_exhausted(pre: Self, post: Self, a: Action, op: Op, s: String)
        requires
            pre.phase == Phase::Working(op),
            !pre.retry.allowed(),
            Self::step_spec(pre, Event::Produced(WatchingFuncResult::Retry(s)), post, a),
        ensures
            a == Action::Done,
            post.phase is Finished,
            post.outcome matches Some(r) && r matches Err(e)
                && e.kind == ErrorKind::RetriesExhausted && e.detail@ == "no more retries"@,
    {
    }

    /// Aborts the pass with the given fatal error.
    fn halt(&mut self, err: WatchError) -> (a: Action)
        ensures
            final(self).set == old(self).set,
            final(self).idx == old(self).idx,
            final(self).retry == old(self).retry,
            final(self).current == old(self).current,
            final(self).fresh == old(self).fresh,
            final(self).first_pass == old(self).first_pass,
            final(self).phase == Phase::Finished,
            final(self).outcome matches Some(r) && r matches Err(e) && e == err,
            a == Action::Done,
    {
        self.phase = Phase::Finished;
        self.outcome = Some(Err(err));
        Action::Done
    }

    /// Moves past the current file: to the next one, or to the finished
    /// state when none is left.
    fn advance(&mut self) -> (a: Action)
        requires
            old(self).idx < old(self).set.files@.len(),
        ensures
            final(self).set == old(self).set,
            final(self).retry == old(self).retry,
            final(self).first_pass == old(self).first_pass,
            final(self).current is None,
            final(self).fresh is None,
            old(self).idx + 1 < old(self).set.files@.len() ==> {
                &&& final(self).idx == old(self).idx + 1
                &&& final(self).phase == Phase::Sleeping
                &&& final(self).outcome == old(self).outcome
                &&& a == Action::Sleep
            },
            !(old(self).idx + 1 < old(self).set.files@.len()) ==> {
                &&& final(self).idx == old(self).idx
                &&& final(self).phase == Phase::Finished
                &&& (final(self).outcome matches Some(r) && r is Ok)
                &&& a == Action::Done
            },
    {
        self.current = None;
        self.fresh = None;
        let n = self.set.files.len();
        if self.idx + 1 < n {
            self.idx = self.idx + 1;
            self.phase = Phase::Sleeping;
            Action::Sleep
        } else {
            self.phase = Phase::Finished;
            self.outcome = Some(Ok(()));
            Action::Done
        }
    }

    /// Whether the pass is over and `finish` may be called.
    pub fn is_finished(&self) -> (r: bool)
        ensures
            r == self.finished(),
    {
        self.phase == Phase::Finished
    }

    /// Collects the pass's single result and hands the watch set back for
    /// the next pass, its first-pass flag now spent.
    pub fn finish(self) -> (r: (FileListBuilder<O, S, E>, Result<(), WatchError>))
        requires
            self.inv(),
            self.finished(),
        ensures
            r.0.files@ == self.set.files@,
            r.0.interval_millis == self.set.interval_millis,
            r.0.max_retries == self.set.max_retries,
            r.0.open_file_func == self.set.open_file_func,
            !r.0.first_pass,
            self.outcome matches Some(o) && r.1 == o,
    {
        let PassRun { set, outcome, .. } = self;
        let mut set = set;
        set.first_pass = false;
        (set, outcome.unwrap())
    }
}

impl<O, S, E> FileListBuilder<O, S, E> {
    /// Begins one pass over the set, handing out the run and its first
    /// action.  An empty set finishes at once with `Ok`.
    pub fn start<T>(self) -> (r: (PassRun<T, O, S, E>, Action))
        ensures
            r.0.inv(),
            r.0.set.files@ == self.files@,
            r.0.set.interval_millis == self.interval_millis,
            r.0.set.max_retries == self.max_retries,
            r.0.set.open_file_func == self.open_file_func,
            r.0.set.first_pass == self.first_pass,
            r.0.first_pass == self.first_pass,
            r.0.current is None,
            r.0.fresh is None,
            self.files@.len() == 0 ==> {
                &&& r.0.phase is Finished
                &&& (r.0.outcome matches Some(o) && o is Ok)
                &&& r.1 == Action::Done
            },
            self.files@.len() > 0 ==> {
                &&& r.0.idx == 0
                &&& r.0.phase is Sleeping
                &&& r.0.outcome is None
                &&& r.1 == Action::Sleep
            },
    {
        let empty = self.files.len() == 0;
        let retry = RetryState::new(self.max_retries);
        let first = self.first_pass;
        let run = PassRun {
            set: self,
            idx: 0,
            phase: if empty { Phase::Finished } else { Phase::Sleeping },
            retry,
            current: None,
            fresh: None,
            first_pass: first,
            outcome: if empty { Some(Ok(())) } else { None },
        };
        let act = if empty { Action::Done } else { Action::Sleep };
        (run, act)
    }
}

} // verus!
