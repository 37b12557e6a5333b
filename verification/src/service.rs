//! The ritual service: request and response shapes, the shared counter, and
//! the two operations `perform_ritual` and `sync_traits`.

use crate::counting;
use vstd::prelude::*;
use vstd::string::StringExecFns;

verus! {

/// Input to `perform_ritual`: the caller-supplied ritual name, any string.
pub struct RitualRequest {
    pub name: String,
}

/// Output of both operations: whether the call succeeded and a
/// human-readable outcome description.
pub struct RitualResponse {
    pub success: bool,
    pub message: String,
}

/// Input to `sync_traits`; it carries no fields the current logic reads.
pub struct SyncTraitsRequest {}

/// What one `perform_ritual` call produces: the response for the caller,
/// and the milestone notification to emit, if this call reached one.
pub struct RitualOutcome {
    pub response: RitualResponse,
    pub milestone: Option<usize>,
}

/// The message a successful ritual named `name` answers with.
pub open spec fn perform_ritual_message(name: Seq<char>) -> Seq<char> {
    "Successfully performed ritual: "@ + name + "."@
}

/// The message trait synchronization answers with.
pub open spec fn sync_traits_message() -> Seq<char> {
    "Successfully synchronized traits."@
}

/// The ritual service. It owns the process-wide ritual counter:
/// zero at construction, one more after each successful ritual.
pub struct MyRitualService {
    ritual_count: usize,
}

impl MyRitualService {
    /// The number of rituals performed so far.
    pub closed spec fn count(&self) -> nat {
        self.ritual_count as nat
    }

    /// A fresh service has performed no rituals.
    pub fn new() -> (s: Self)
        ensures
            s.count() == 0,
    {
        MyRitualService { ritual_count: 0 }
    }

    /// The current counter value.
    pub fn ritual_count(&self) -> (c: usize)
        ensures
            c as nat == self.count(),
    {
        self.ritual_count
    }

    /// Perform the named ritual: count it, note a milestone on every fifth
    /// count, and answer with the ritual's name echoed in the message.
    /// The counter wraps around only at the machine limit.
    pub fn perform_ritual(&mut self, request: &RitualRequest) -> (out: RitualOutcome)
        ensures
            old(self).count() < usize::MAX ==> final(self).count() == counting::next_count(
                old(self).count(),
            ),
            old(self).count() == usize::MAX ==> final(self).count() == 0,
            out.response.success,
            out.response.message@ == perform_ritual_message(request.name@),
            counting::is_milestone(final(self).count()) ==> out.milestone == Some(
                (final(self).count() as usize),
            ),
            !counting::is_milestone(final(self).count()) ==> out.milestone == None::<usize>,
    {
        let new_count: usize = if self.ritual_count == usize::MAX {
            0
        } else {
            self.ritual_count + 1
        };
        self.ritual_count = new_count;
        let milestone: Option<usize> = if new_count % 5 == 0 {
            Some(new_count)
        } else {
            None
        };
        let mut message = String::from_str("Successfully performed ritual: ");
        message.append(request.name.as_str());
        message.append(".");
        RitualOutcome { response: RitualResponse { success: true, message }, milestone }
    }

    /// Acknowledge a trait synchronization. No state is read or changed:
    /// the counter is untouched, as the shared borrow already guarantees.
    pub fn sync_traits(&self, _request: &SyncTraitsRequest) -> (resp: RitualResponse)
        ensures
            resp.success,
            resp.message@ == sync_traits_message(),
    {
        RitualResponse { success: true, message: String::from_str("Successfully synchronized traits.") }
    }
}

impl Default for MyRitualService {
    /// The default service is a fresh one: no rituals performed yet.
    fn default() -> (s: Self)
        ensures
            s.count() == 0,
    {
        MyRitualService { ritual_count: 0 }
    }
}

} // verus!
