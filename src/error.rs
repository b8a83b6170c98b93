//! Failures reported to callers, and the translation of engine status codes.

use vstd::prelude::*;

verus! {

/// A failure of an engine request.
///
/// The taxonomy is deliberately coarse: every engine status other than
/// success, every engine enumerant without a public counterpart and every
/// name that is not valid UTF-8 text is reported as `Unhandled`.
#[derive(Clone, Copy, Debug, PartialEq, Eq, Hash, Structural)]
pub enum ErrorCode {
    Unhandled,
}

/// The status code with which the engine reports success.
pub const STATUS_SUCCESS: u32 = 0;

/// What the library makes of an engine status code.
pub open spec fn status_outcome(status: u32) -> Result<(), ErrorCode> {
    if status == STATUS_SUCCESS {
        Ok(())
    } else {
        Err(ErrorCode::Unhandled)
    }
}

/// Translates an engine status code: success is `Ok`, every other code,
/// known or not, is `Unhandled`.
pub fn check(status: u32) -> (r: Result<(), ErrorCode>)
    ensures
        r == status_outcome(status),
        r is Ok <==> status == STATUS_SUCCESS,
{
    if status == STATUS_SUCCESS {
        Ok(())
    } else {
        Err(ErrorCode::Unhandled)
    }
}

/// Every status in `statuses` is success.
pub open spec fn all_succeeded(statuses: Seq<u32>) -> bool {
    forall|i: int| 0 <= i < statuses.len() ==> statuses[i] == STATUS_SUCCESS
}

/// The statuses of the buffer releases made for one request. Every buffer
/// is released even after a release has failed; the request then fails as a
/// whole once all of them are done.
pub struct ReleaseLog {
    failed: bool,
    statuses: Ghost<Seq<u32>>,
}

impl View for ReleaseLog {
    type V = Seq<u32>;

    /// The statuses recorded so far, in order.
    closed spec fn view(&self) -> Seq<u32> {
        self.statuses@
    }
}

impl ReleaseLog {
    /// The log's summary agrees with the statuses it has recorded.
    pub closed spec fn wf(&self) -> bool {
        self.failed <==> !all_succeeded(self.statuses@)
    }

    /// A log with nothing recorded.
    pub fn new() -> (r: ReleaseLog)
        ensures
            r.wf(),
            r@ == Seq::<u32>::empty(),
    {
        ReleaseLog { failed: false, statuses: Ghost(Seq::empty()) }
    }

    /// Records the status of one release.
    pub fn record(&mut self, status: u32)
        requires
            old(self).wf(),
        ensures
            final(self).wf(),
            final(self)@ == old(self)@.push(status),
    {
        let ghost before = self.statuses@;
        if status != STATUS_SUCCESS {
            self.failed = true;
        }
        self.statuses = Ghost(self.statuses@.push(status));
        proof {
            let after = self.statuses@;
            if !all_succeeded(before) {
                let i = choose|i: int| 0 <= i < before.len() && before[i] != STATUS_SUCCESS;
                assert(after[i] == before[i]);
            }
            if status != STATUS_SUCCESS {
                assert(after[before.len() as int] == status);
            }
            if all_succeeded(before) && status == STATUS_SUCCESS {
                assert forall|i: int| 0 <= i < after.len() implies after[i] == STATUS_SUCCESS by {
                    if i < before.len() {
                        assert(after[i] == before[i]);
                    }
                }
            }
        }
    }

    /// The outcome of the releases: `Ok` exactly when every one succeeded.
    pub fn finish(&self) -> (r: Result<(), ErrorCode>)
        requires
            self.wf(),
        ensures
            r is Ok <==> all_succeeded(self@),
            r is Err ==> r == Err::<(), ErrorCode>(ErrorCode::Unhandled),
    {
        if self.failed {
            Err(ErrorCode::Unhandled)
        } else {
            Ok(())
        }
    }
}

} // verus!
