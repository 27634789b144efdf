//! A time-gated record: a message bound to an author and a release
//! timestamp. Before the release time nobody can read the message; after it
//! everybody can. Two record kinds differ only in whether the author may still
//! move the release time once the message is public.

pub mod clock;
pub mod identity;
pub mod laws;
pub mod leak;
pub mod policy;
pub mod record;
pub mod release;

pub use clock::now;
pub use identity::{Address, Context};
pub use leak::Leak;
pub use policy::{AccessError, Policy};
pub use record::TimedRelease;
pub use release::Release;
