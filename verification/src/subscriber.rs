//! The subscriber record, and the two values the world supplies for it: a fresh
//! identifier and the time of day.

use vstd::prelude::*;

verus! {

/// A point in time: whole seconds since the Unix epoch in UTC, and the
/// nanoseconds past that second.
#[derive(Debug, Clone, Copy, PartialEq, Eq, Structural)]
pub struct Timestamp {
    pub seconds: i64,
    pub nanoseconds: u32,
}

impl Timestamp {
    /// The nanoseconds stay below one second.
    pub open spec fn wf(self) -> bool {
        self.nanoseconds < 1_000_000_000
    }
}

/// A subscriber as it is written to the store.
#[derive(Debug, PartialEq, Eq)]
pub struct Subscriber {
    /// Identifier of the row. It also tags every log event of the request that
    /// created the row.
    pub id: u128,
    pub email: String,
    pub name: String,
    pub subscribed_at: Timestamp,
}

/// What a `Subscriber` stands for, with its texts as sequences of characters.
pub struct SubscriberView {
    pub id: u128,
    pub email: Seq<char>,
    pub name: Seq<char>,
    pub subscribed_at: Timestamp,
}

impl View for Subscriber {
    type V = SubscriberView;

    open spec fn view(&self) -> SubscriberView {
        SubscriberView {
            id: self.id,
            email: self.email@,
            name: self.name@,
            subscribed_at: self.subscribed_at,
        }
    }
}

impl SubscriberView {
    /// Neither text is empty, and the time is well formed.
    pub open spec fn wf(self) -> bool {
        &&& self.email.len() > 0
        &&& self.name.len() > 0
        &&& self.subscribed_at.wf()
    }
}

/// The 128 bits are laid out as a version 4 identifier of RFC 4122: the version
/// field holds 4 and the variant field holds binary 10.
pub open spec fn is_random_id(id: u128) -> bool {
    &&& (id >> 76) & 0xf == 4
    &&& (id >> 62) & 0x3 == 2
}

/// Draws an identifier with `uuid::Uuid::new_v4` and hands it out as the 128-bit
/// number of `Uuid::as_u128`. `new_v4` takes 128 bits from the operating system's
/// random source and overwrites the version and variant fields. Only those two
/// fields are claimed here: nothing is said of the other bits, nor that two
/// draws differ. `new_v4` panics where the operating system gives no random
/// bytes.
#[verifier::external_body]
pub(crate) fn fresh_id() -> (id: u128)
    ensures
        is_random_id(id),
{
    uuid::Uuid::new_v4().as_u128()
}

/// Reads the clock with `chrono::Utc::now` and hands out the result's
/// `timestamp` and `timestamp_subsec_nanos`. `now` builds its value from the
/// system time's distance to the Unix epoch, so the nanoseconds are below one
/// second. Which instant comes back is not claimed. `now` panics where the
/// system clock stands before the epoch.
#[verifier::external_body]
pub(crate) fn utc_now() -> (now: Timestamp)
    ensures
        now.wf(),
{
    let now = chrono::Utc::now();
    Timestamp { seconds: now.timestamp(), nanoseconds: now.timestamp_subsec_nanos() }
}

} // verus!
