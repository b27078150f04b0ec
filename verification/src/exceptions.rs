//! The exception bridge.
//!
//! The native library reports invalid input by invoking a designated global
//! callback with an error message and the name of the offending native
//! function; by the native convention the triggered call must not continue
//! normally afterwards.  The bridge turns that non-local convention into a
//! per-call result: the callback deposits its two strings into the single
//! process-wide [`ErrorCaptureSlot`], control is redirected back to the call
//! site, and immediately after the call the slot is read, cleared, and
//! translated into a [`QuestError`].  The slot is never allowed to persist
//! across two separate calls.
//!
//! The callback fires before any internal state change on the native side,
//! so a handle whose call was rejected is deliberately treated as still
//! usable: the failed call left the register as it was.

use vstd::prelude::*;

use crate::QuestError;

verus! {

/// One error record deposited by the native error callback: the message and
/// the name of the native function that raised it.
#[derive(Debug)]
pub struct QuestException {
    pub err_msg: String,
    pub err_func: String,
}

/// The process-wide capture location for the native error callback.
///
/// It holds at most one pending record.  The runtime that drives the native
/// calls owns a single instance and must serialize all calls into the
/// binding layer; the native callback convention is inherently global, so
/// concurrent unserialized calls are unsound.
#[derive(Debug)]
pub struct ErrorCaptureSlot {
    record: Option<QuestException>,
}

impl View for ErrorCaptureSlot {
    type V = Option<QuestException>;

    closed spec fn view(&self) -> Option<QuestException> {
        self.record
    }
}

impl ErrorCaptureSlot {
    /// An empty slot: no error is pending.
    pub fn new() -> (slot: Self)
        ensures
            slot@ is None,
    {
        ErrorCaptureSlot { record: None }
    }

    /// The action of the native error callback: deposit the message and the
    /// offending function's name.
    ///
    /// A record already pending is kept: when bridged calls nest, the
    /// innermost capture wins and must not be overwritten before the bridge
    /// has read it, so the first deposit is never lost to a later one.
    pub fn report_invalid_input(&mut self, err_msg: String, err_func: String)
        ensures
            final(self)@ == (if old(self)@ is Some {
                old(self)@
            } else {
                Some(QuestException { err_msg, err_func })
            }),
    {
        if self.record.is_none() {
            self.record = Some(QuestException { err_msg, err_func });
        }
    }

    /// Whether an error record is pending.
    pub fn is_armed(&self) -> (armed: bool)
        ensures
            armed == (self@ is Some),
    {
        self.record.is_some()
    }

    /// Remove and return the pending record, leaving the slot empty.
    pub fn take(&mut self) -> (record: Option<QuestException>)
        ensures
            final(self)@ is None,
            record == old(self)@,
    {
        self.record.take()
    }
}

impl Default for ErrorCaptureSlot {
    fn default() -> (slot: Self)
        ensures
            slot@ is None,
    {
        ErrorCaptureSlot::new()
    }
}

/// What one pass through the bridge does: `pre` is the slot content right
/// after the unit of work, `outcome` is the work's own result (`None` when
/// the callback redirected control before a result existed), `post` is the
/// slot content handed to the next call, and `r` is what the caller sees.
pub open spec fn bridge_transition<T>(
    pre: Option<QuestException>,
    outcome: Option<T>,
    post: Option<QuestException>,
    r: Result<T, QuestError>,
) -> bool {
    &&& post is None
    &&& match pre {
        Some(exc) => r matches Err(QuestError::InvalidQuESTInputError { err_msg, err_func })
            && err_msg@ == exc.err_msg@ && err_func@ == exc.err_func@,
        None => outcome matches Some(v) && r == Ok::<T, QuestError>(v),
    }
}

/// Resolve one bridged native call.
///
/// `outcome` is `Some` value when the unit of work ran to completion and
/// `None` when control was redirected out of it; the native convention
/// redirects control only through the error callback, which deposits a
/// record first, so a missing outcome implies an armed slot.  The slot is
/// read and cleared here, never left pending for the next call.
pub fn catch_quest_exception<T>(slot: &mut ErrorCaptureSlot, outcome: Option<T>) -> (r: Result<
    T,
    QuestError,
>)
    requires
        outcome is None ==> old(slot)@ is Some,
    ensures
        bridge_transition(old(slot)@, outcome, final(slot)@, r),
{
    match slot.take() {
        Some(exc) => Err(
            QuestError::InvalidQuESTInputError { err_msg: exc.err_msg, err_func: exc.err_func },
        ),
        None => match outcome {
            Some(value) => Ok(value),
            None => vstd::pervasive::unreached(),
        },
    }
}

/// Law: a captured native error is reported to the caller verbatim — the
/// message and function name surface unchanged, so they are non-empty
/// whenever the callback supplied non-empty strings — and the capture slot
/// is empty immediately afterwards.
pub proof fn lemma_capture_reported_verbatim<T>(
    exc: QuestException,
    outcome: Option<T>,
    post: Option<QuestException>,
    r: Result<T, QuestError>,
)
    requires
        bridge_transition(Some(exc), outcome, post, r),
    ensures
        r matches Err(QuestError::InvalidQuESTInputError { err_msg, err_func }) && err_msg@
            == exc.err_msg@ && err_func@ == exc.err_func@,
        exc.err_msg@.len() > 0 ==> (r matches Err(QuestError::InvalidQuESTInputError {
            err_msg,
            ..
        }) && err_msg@.len() > 0),
        exc.err_func@.len() > 0 ==> (r matches Err(QuestError::InvalidQuESTInputError {
            err_func,
            ..
        }) && err_func@.len() > 0),
        post is None,
{
}

/// Law: a call that captured an error leaves the slot cleared, not merely
/// overwritten, so a following call whose unit of work completes returns its
/// own value untouched by the earlier failure.
pub proof fn lemma_error_does_not_leak<T>(
    pre: Option<QuestException>,
    outcome1: Option<T>,
    post1: Option<QuestException>,
    r1: Result<T, QuestError>,
    value2: T,
    post2: Option<QuestException>,
    r2: Result<T, QuestError>,
)
    requires
        pre is Some,
        bridge_transition(pre, outcome1, post1, r1),
        bridge_transition(post1, Some(value2), post2, r2),
    ensures
        r1 is Err,
        r2 == Ok::<T, QuestError>(value2),
        post2 is None,
{
}

} // verus!
