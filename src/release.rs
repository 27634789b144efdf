use vstd::prelude::*;

use crate::clock::now;
use crate::identity::Context;
use crate::policy::{AccessError, Policy};
use crate::record::{read_verdict, reschedule_step, text_of, RecordView, TimedRelease};

verus! {

/// What a `Release` holds: its description and its record.
pub struct ReleaseView {
    pub description: Seq<char>,
    pub record: RecordView,
}

/// A timed message whose author may reschedule it at any time, even after it
/// has become public.
pub struct Release {
    description: String,
    record: TimedRelease,
}

impl View for Release {
    type V = ReleaseView;

    closed spec fn view(&self) -> ReleaseView {
        ReleaseView { description: self.description@, record: self.record@ }
    }
}

impl Release {
    /// A record authored by the caller of `ctx`, whose `message` becomes
    /// public after `message_release_time`.
    pub fn new(
        ctx: &Context,
        description: String,
        message: String,
        message_release_time: u64,
    ) -> (r: Release)
        ensures
            r@ == (ReleaseView {
                description: description@,
                record: RecordView {
                    author: ctx.sender@,
                    message: message@,
                    release_time: message_release_time,
                },
            }),
    {
        Release { description, record: TimedRelease::new(ctx.sender, message, message_release_time) }
    }

    /// Moves the release time to `new_time` at clock reading `now`. Only the
    /// author may do this, and at any time.
    pub fn change_release_time_at(&mut self, ctx: &Context, now: u64, new_time: u64) -> (r: Result<
        (),
        AccessError,
    >)
        ensures
            (r, final(self)@.record) == reschedule_step(
                Policy::Permissive,
                old(self)@.record,
                ctx.sender@,
                now,
                new_time,
            ),
            final(self)@.description == old(self)@.description,
    {
        self.record.reschedule_at(Policy::Permissive, &ctx.sender, now, new_time)
    }

    /// Moves the release time to `new_time`. Only the author may do this,
    /// and at any time.
    pub fn change_release_time(&mut self, ctx: &Context, new_time: u64) -> (r: Result<
        (),
        AccessError,
    >)
        ensures
            ctx.sender@ == old(self)@.record.author ==> r == Ok::<(), AccessError>(())
                && final(self)@ == (ReleaseView {
                record: RecordView { release_time: new_time, ..old(self)@.record },
                ..old(self)@
            }),
            ctx.sender@ != old(self)@.record.author ==> r == Err::<(), AccessError>(
                AccessError::Unauthorized,
            ) && final(self)@ == old(self)@,
    {
        let t = now();
        self.change_release_time_at(ctx, t, new_time)
    }

    /// Reads the message at clock reading `now`: anybody may, once the
    /// release time has passed.
    pub fn message_at(&self, ctx: &Context, now: u64) -> (r: Result<String, AccessError>)
        ensures
            text_of(r) == read_verdict(self@.record, now),
    {
        self.record.read_at(now)
    }

    /// Reads the message at the current time: anybody may, once the release
    /// time has passed. The result is the one for some clock reading.
    pub fn message(&self, ctx: &Context) -> (r: Result<String, AccessError>)
        ensures
            exists|t: u64| text_of(r) == #[trigger] read_verdict(self@.record, t),
    {
        let t = now();
        self.message_at(ctx, t)
    }
}

} // verus!
