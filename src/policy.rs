use vstd::prelude::*;

use crate::identity::Address;

verus! {

/// Why an operation on a record was refused.
#[derive(Clone, Copy, Debug, PartialEq, Eq, Structural)]
pub enum AccessError {
    /// The caller is not the record's author.
    Unauthorized,
    /// The message is already public, so its release time is frozen.
    AlreadyReleased,
    /// The release time has not passed yet.
    NotYetReleased,
}

/// Whether the author may still move the release time of a public message.
#[derive(Clone, Copy, Debug, PartialEq, Eq, Structural)]
pub enum Policy {
    /// The author may reschedule at any time, even re-hiding a public message.
    Permissive,
    /// Once the message is public its release time can no longer change.
    Strict,
}

/// A message with release time `release_time` is public at clock reading
/// `now` exactly when `now` is strictly later.
pub open spec fn is_released(release_time: u64, now: u64) -> bool {
    now > release_time
}

/// The verdict on a request by `caller` to reschedule a record of `author`
/// whose current release time is `release_time`, at clock reading `now`.
/// The author check comes first; the policy check second.
pub open spec fn reschedule_verdict(
    policy: Policy,
    author: Seq<u8>,
    release_time: u64,
    caller: Seq<u8>,
    now: u64,
) -> Result<(), AccessError> {
    if caller != author {
        Err(AccessError::Unauthorized)
    } else if policy == Policy::Strict && is_released(release_time, now) {
        Err(AccessError::AlreadyReleased)
    } else {
        Ok(())
    }
}

/// Decides a request by `caller` to reschedule a record of `author` whose
/// current release time is `release_time`, at clock reading `now`.
pub fn decide_reschedule(
    policy: Policy,
    author: &Address,
    release_time: u64,
    caller: &Address,
    now: u64,
) -> (r: Result<(), AccessError>)
    ensures
        r == reschedule_verdict(policy, author@, release_time, caller@, now),
{
    if !caller.same_as(author) {
        Err(AccessError::Unauthorized)
    } else if policy == Policy::Strict && now > release_time {
        Err(AccessError::AlreadyReleased)
    } else {
        Ok(())
    }
}

impl AccessError {
    /// A sentence that explains the refusal to the caller.
    pub fn reason(&self) -> (r: &'static str)
        ensures
            *self == AccessError::Unauthorized ==> r@
                == "Sender does not have permission to make message public."@,
            *self == AccessError::AlreadyReleased ==> r@
                == "Cannot update release time of already-released message."@,
            *self == AccessError::NotYetReleased ==> r@ == "Message is not yet released."@,
    {
        match self {
            AccessError::Unauthorized => "Sender does not have permission to make message public.",
            AccessError::AlreadyReleased => "Cannot update release time of already-released message.",
            AccessError::NotYetReleased => "Message is not yet released.",
        }
    }
}

} // verus!
