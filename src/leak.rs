use vstd::prelude::*;

use crate::clock::now;
use crate::identity::Context;
use crate::policy::{AccessError, Policy};
use crate::record::{read_verdict, reschedule_step, text_of, RecordView, TimedRelease};

verus! {

/// What a `Leak` holds: its public description and its record.
pub struct LeakView {
    pub public_description: Seq<char>,
    pub record: RecordView,
}

/// A timed message with a description that is always public. Its author may
/// reschedule it only while it is still hidden: once public, its release time
/// is frozen, so that nobody can seem to take back what was already seen.
pub struct Leak {
    public_description: String,
    record: TimedRelease,
}

impl View for Leak {
    type V = LeakView;

    closed spec fn view(&self) -> LeakView {
        LeakView { public_description: self.public_description@, record: self.record@ }
    }
}

impl Leak {
    /// A record authored by the caller of `ctx`, whose `message` becomes
    /// public after `message_release_time`.
    pub fn new(
        ctx: &Context,
        public_description: String,
        message: String,
        message_release_time: u64,
    ) -> (r: Leak)
        ensures
            r@ == (LeakView {
                public_description: public_description@,
                record: RecordView {
                    author: ctx.sender@,
                    message: message@,
                    release_time: message_release_time,
                },
            }),
    {
        Leak { public_description, record: TimedRelease::new(ctx.sender, message, message_release_time) }
    }

    /// Moves the release time to `new_time` at clock reading `now`. Only the
    /// author may do this, and only while the message is hidden.
    pub fn change_release_time_at(&mut self, ctx: &Context, now: u64, new_time: u64) -> (r: Result<
        (),
        AccessError,
    >)
        ensures
            (r, final(self)@.record) == reschedule_step(
                Policy::Strict,
                old(self)@.record,
                ctx.sender@,
                now,
                new_time,
            ),
            final(self)@.public_description == old(self)@.public_description,
    {
        self.record.reschedule_at(Policy::Strict, &ctx.sender, now, new_time)
    }

    /// Moves the release time to `new_time`. Only the author may do this,
    /// and only while the message is hidden. The outcome is the one for some
    /// clock reading.
    pub fn change_release_time(&mut self, ctx: &Context, new_time: u64) -> (r: Result<
        (),
        AccessError,
    >)
        ensures
            exists|t: u64|
                (r, final(self)@.record) == #[trigger] reschedule_step(
                    Policy::Strict,
                    old(self)@.record,
                    ctx.sender@,
                    t,
                    new_time,
                ),
            final(self)@.public_description == old(self)@.public_description,
    {
        let t = now();
        self.change_release_time_at(ctx, t, new_time)
    }

    /// The public description: anybody may read it, at any time.
    pub fn get_public_description(&self, ctx: &Context) -> (r: Result<String, AccessError>)
        ensures
            text_of(r) == Ok::<Seq<char>, AccessError>(self@.public_description),
    {
        Ok(self.public_description.clone())
    }

    /// Reads the message at clock reading `now`: anybody may, once the
    /// release time has passed.
    pub fn message_at(&self, ctx: &Context, now: u64) -> (r: Result<String, AccessError>)
        ensures
            text_of(r) == read_verdict(self@.record, now),
    {
        self.record.read_at(now)
    }

    /// Reads the message at the current time: anybody may, once the release
    /// time has passed. The result is the one for some clock reading.
    pub fn message(&self, ctx: &Context) -> (r: Result<String, AccessError>)
        ensures
            exists|t: u64| text_of(r) == #[trigger] read_verdict(self@.record, t),
    {
        let t = now();
        self.message_at(ctx, t)
    }
}

} // verus!
