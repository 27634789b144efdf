use vstd::prelude::*;

use crate::identity::Address;
use crate::policy::{decide_reschedule, is_released, reschedule_verdict, AccessError, Policy};

verus! {

/// What a record holds: its author, its message and its release time.
pub struct RecordView {
    pub author: Seq<u8>,
    pub message: Seq<char>,
    pub release_time: u64,
}

/// The answer to a read of the message at clock reading `now`: the message
/// once it is public, `NotYetReleased` before. Who asks plays no part.
pub open spec fn read_verdict(rec: RecordView, now: u64) -> Result<Seq<char>, AccessError> {
    if is_released(rec.release_time, now) {
        Ok(rec.message)
    } else {
        Err(AccessError::NotYetReleased)
    }
}

/// The answer to a reschedule request and the record it leaves: on success
/// only the release time changes, on failure nothing does.
pub open spec fn reschedule_step(
    policy: Policy,
    rec: RecordView,
    caller: Seq<u8>,
    now: u64,
    new_time: u64,
) -> (Result<(), AccessError>, RecordView) {
    let verdict = reschedule_verdict(policy, rec.author, rec.release_time, caller, now);
    if verdict is Ok {
        (verdict, RecordView { release_time: new_time, ..rec })
    } else {
        (verdict, rec)
    }
}

/// The text of a string result, with the error kept.
pub open spec fn text_of(r: Result<String, AccessError>) -> Result<Seq<char>, AccessError> {
    match r {
        Ok(s) => Ok(s@),
        Err(e) => Err(e),
    }
}

/// A message, its author and the time from which anybody may read it.
pub struct TimedRelease {
    author: Address,
    message: String,
    release_time: u64,
}

impl View for TimedRelease {
    type V = RecordView;

    closed spec fn view(&self) -> RecordView {
        RecordView { author: self.author@, message: self.message@, release_time: self.release_time }
    }
}

impl TimedRelease {
    /// A record of `author` whose `message` becomes public after `release_time`.
    pub fn new(author: Address, message: String, release_time: u64) -> (r: TimedRelease)
        ensures
            r@ == (RecordView { author: author@, message: message@, release_time }),
    {
        TimedRelease { author, message, release_time }
    }

    /// Reads the message at clock reading `now`.
    pub fn read_at(&self, now: u64) -> (r: Result<String, AccessError>)
        ensures
            text_of(r) == read_verdict(self@, now),
    {
        if now > self.release_time {
            Ok(self.message.clone())
        } else {
            Err(AccessError::NotYetReleased)
        }
    }

    /// Moves the release time to `new_time` on behalf of `caller` at clock
    /// reading `now`, if `policy` allows it.
    pub fn reschedule_at(&mut self, policy: Policy, caller: &Address, now: u64, new_time: u64) -> (r:
        Result<(), AccessError>)
        ensures
            (r, final(self)@) == reschedule_step(policy, old(self)@, caller@, now, new_time),
    {
        let verdict = decide_reschedule(policy, &self.author, self.release_time, caller, now);
        if verdict.is_ok() {
            self.release_time = new_time;
        }
        verdict
    }
}

} // verus!
