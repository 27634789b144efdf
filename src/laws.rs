use vstd::prelude::*;

use crate::policy::{is_released, AccessError, Policy};
use crate::record::{read_verdict, reschedule_step, RecordView};

verus! {

/// One reschedule request: who asks, at which clock reading, for which new
/// release time.
pub struct Attempt {
    pub caller: Seq<u8>,
    pub now: u64,
    pub new_time: u64,
}

/// The record left after the requests of `attempts`, made one after another.
pub open spec fn replay(policy: Policy, rec: RecordView, attempts: Seq<Attempt>) -> RecordView
    decreases attempts.len(),
{
    if attempts.len() == 0 {
        rec
    } else {
        let a = attempts[0];
        replay(
            policy,
            reschedule_step(policy, rec, a.caller, a.now, a.new_time).1,
            attempts.drop_first(),
        )
    }
}

/// A read succeeds exactly when the clock reading is strictly later than
/// the release time, and then yields the message; the caller plays no part.
pub proof fn lemma_read_open_iff_released(rec: RecordView, now: u64)
    ensures
        read_verdict(rec, now) is Ok <==> now > rec.release_time,
        now > rec.release_time ==> read_verdict(rec, now) == Ok::<Seq<char>, AccessError>(
            rec.message,
        ),
        now <= rec.release_time ==> read_verdict(rec, now) == Err::<Seq<char>, AccessError>(
            AccessError::NotYetReleased,
        ),
{
}

/// Reads leave the record as it is, so with no reschedule between them two
/// reads at clock readings `first <= second` agree, by whomever they are made,
/// except for the single switch from hidden to public: once the message is
/// readable it stays readable and the same, and while it is still hidden at
/// the later reading it was hidden at the earlier one too.
pub proof fn lemma_reads_repeat(rec: RecordView, first: u64, second: u64)
    requires
        first <= second,
    ensures
        is_released(rec.release_time, first) ==> read_verdict(rec, second) == read_verdict(
            rec,
            first,
        ),
        !is_released(rec.release_time, second) ==> read_verdict(rec, first) == read_verdict(
            rec,
            second,
        ),
{
}

/// Under either policy and at any time, a reschedule request by anybody but
/// the author is refused as unauthorized and leaves the record as it was.
pub proof fn lemma_stranger_cannot_reschedule(
    policy: Policy,
    rec: RecordView,
    caller: Seq<u8>,
    now: u64,
    new_time: u64,
)
    requires
        caller != rec.author,
    ensures
        reschedule_step(policy, rec, caller, now, new_time) == (
        Err::<(), AccessError>(AccessError::Unauthorized),
        rec,
        ),
{
}

proof fn lemma_strict_released_stays(rec: RecordView, released_at: u64, attempts: Seq<Attempt>)
    requires
        is_released(rec.release_time, released_at),
        forall|i: int| 0 <= i < attempts.len() ==> attempts[i].now >= released_at,
    ensures
        replay(Policy::Strict, rec, attempts) == rec,
    decreases attempts.len(),
{
    if attempts.len() > 0 {
        let rest = attempts.drop_first();
        assert forall|i: int| 0 <= i < rest.len() implies rest[i].now >= released_at by {
            assert(rest[i] == attempts[i + 1]);
        }
        lemma_strict_released_stays(rec, released_at, rest);
    }
}

/// Under the strict policy, once the message is public at clock reading
/// `released_at`, requests made at that reading or later never change the
/// record, and each one by the author is refused as already released, whatever
/// new time it asks for.
pub proof fn lemma_strict_latch(rec: RecordView, released_at: u64, attempts: Seq<Attempt>)
    requires
        is_released(rec.release_time, released_at),
        forall|i: int| 0 <= i < attempts.len() ==> attempts[i].now >= released_at,
    ensures
        replay(Policy::Strict, rec, attempts) == rec,
        forall|i: int|
            0 <= i < attempts.len() && attempts[i].caller == rec.author ==> #[trigger] reschedule_step(
                Policy::Strict,
                replay(Policy::Strict, rec, attempts.take(i)),
                attempts[i].caller,
                attempts[i].now,
                attempts[i].new_time,
            ).0 == Err::<(), AccessError>(AccessError::AlreadyReleased),
{
    lemma_strict_released_stays(rec, released_at, attempts);
    assert forall|i: int|
        0 <= i < attempts.len() && attempts[i].caller == rec.author implies #[trigger] reschedule_step(
            Policy::Strict,
            replay(Policy::Strict, rec, attempts.take(i)),
            attempts[i].caller,
            attempts[i].now,
            attempts[i].new_time,
        ).0 == Err::<(), AccessError>(AccessError::AlreadyReleased) by {
        let prefix = attempts.take(i);
        assert forall|j: int| 0 <= j < prefix.len() implies prefix[j].now >= released_at by {
            assert(prefix[j] == attempts[j]);
        }
        lemma_strict_released_stays(rec, released_at, prefix);
    }
}

/// Under the permissive policy the author's request always succeeds, at any
/// time, and the new release time alone decides every later read: the
/// message is readable at `later` exactly when `later` is past `new_time`.
pub proof fn lemma_permissive_author_reschedules(
    rec: RecordView,
    now: u64,
    new_time: u64,
    later: u64,
)
    ensures
        reschedule_step(Policy::Permissive, rec, rec.author, now, new_time) == (
        Ok::<(), AccessError>(()),
        RecordView { release_time: new_time, ..rec },
        ),
        read_verdict(reschedule_step(Policy::Permissive, rec, rec.author, now, new_time).1, later)
            == if later > new_time {
            Ok::<Seq<char>, AccessError>(rec.message)
        } else {
            Err(AccessError::NotYetReleased)
        },
{
}

} // verus!
