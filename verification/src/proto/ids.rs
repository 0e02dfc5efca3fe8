//! Identifiers of the Spaze wire protocol.
//!
//! Each identifier wraps a UUID, held here as its 128-bit value (the big-endian
//! reading of its 16 bytes). Fresh identifiers are version-7 UUIDs, which are
//! time-ordered, so values sort by creation time. That property matters for
//! chat (message ordering) and for primary-key locality in storage.

use vstd::prelude::*;

use crate::clock::read_clock;

verus! {

/// The version field of a UUID held as its 128-bit value.
pub open spec fn uuid_version(v: u128) -> u128 {
    (v >> 76u128) & 0xfu128
}

/// The 48-bit timestamp field of a version-7 UUID made at `secs`/`nanos`
/// after the Unix epoch: the milliseconds (saturating at `u64::MAX`), cut to
/// their low 48 bits.
pub open spec fn v7_millis_field(secs: u64, nanos: u32) -> nat {
    let m: int = secs * 1000 + nanos / 1_000_000;
    let sat: int = if m > u64::MAX { u64::MAX as int } else { m };
    (sat % 0x1_0000_0000_0000) as nat
}

/// `uuid::Uuid::new_v7` on the Unix timestamp `secs`/`nanos` (built with
/// `uuid::Timestamp::from_unix` and no counter context): a UUID whose top 48
/// bits hold the timestamp's milliseconds, whose version is 7 and variant is
/// RFC 4122, and whose other bits are random. The random bits are not stated.
#[verifier::external_body]
fn uuid_v7_at(secs: u64, nanos: u32) -> (r: u128)
    ensures
        (r >> 80u128) as nat == v7_millis_field(secs, nanos),
        uuid_version(r) == 7,
        (r >> 62u128) & 3u128 == 2,
{
    uuid::Uuid::new_v7(uuid::Timestamp::from_unix(uuid::NoContext, secs, nanos)).as_u128()
}

/// Identifies a Spaze user (one human, possibly many devices).
#[derive(Debug, Clone, Copy, PartialEq, Eq, Hash, PartialOrd, Ord)]
pub struct UserId(pub u128);

impl UserId {
    /// Generate a fresh identifier backed by a version-7 UUID stamped with the
    /// current time; `None` when the system clock reads before the Unix epoch.
    pub fn new() -> (r: Option<Self>)
        ensures
            r matches Some(id) ==> uuid_version(id.0) == 7,
    {
        let (after_epoch, secs, nanos) = read_clock();
        if after_epoch {
            Some(UserId(uuid_v7_at(secs, nanos)))
        } else {
            None
        }
    }

    /// Wrap an existing UUID (given as its 128-bit value).
    pub fn from_uuid(uuid: u128) -> (r: Self)
        ensures
            r.0 == uuid,
    {
        UserId(uuid)
    }

    /// Unwrap to the underlying UUID (as its 128-bit value).
    pub fn as_uuid(&self) -> (r: u128)
        ensures
            r == self.0,
    {
        self.0
    }
}

/// Identifies a single registered client device for a user.
#[derive(Debug, Clone, Copy, PartialEq, Eq, Hash, PartialOrd, Ord)]
pub struct DeviceId(pub u128);

impl DeviceId {
    /// Generate a fresh identifier backed by a version-7 UUID stamped with the
    /// current time; `None` when the system clock reads before the Unix epoch.
    pub fn new() -> (r: Option<Self>)
        ensures
            r matches Some(id) ==> uuid_version(id.0) == 7,
    {
        let (after_epoch, secs, nanos) = read_clock();
        if after_epoch {
            Some(DeviceId(uuid_v7_at(secs, nanos)))
        } else {
            None
        }
    }

    /// Wrap an existing UUID (given as its 128-bit value).
    pub fn from_uuid(uuid: u128) -> (r: Self)
        ensures
            r.0 == uuid,
    {
        DeviceId(uuid)
    }

    /// Unwrap to the underlying UUID (as its 128-bit value).
    pub fn as_uuid(&self) -> (r: u128)
        ensures
            r == self.0,
    {
        self.0
    }
}

/// Identifies a Space — a project workspace inside a server.
/// One server daemon may host multiple Spaces.
#[derive(Debug, Clone, Copy, PartialEq, Eq, Hash, PartialOrd, Ord)]
pub struct SpaceId(pub u128);

impl SpaceId {
    /// Generate a fresh identifier backed by a version-7 UUID stamped with the
    /// current time; `None` when the system clock reads before the Unix epoch.
    pub fn new() -> (r: Option<Self>)
        ensures
            r matches Some(id) ==> uuid_version(id.0) == 7,
    {
        let (after_epoch, secs, nanos) = read_clock();
        if after_epoch {
            Some(SpaceId(uuid_v7_at(secs, nanos)))
        } else {
            None
        }
    }

    /// Wrap an existing UUID (given as its 128-bit value).
    pub fn from_uuid(uuid: u128) -> (r: Self)
        ensures
            r.0 == uuid,
    {
        SpaceId(uuid)
    }

    /// Unwrap to the underlying UUID (as its 128-bit value).
    pub fn as_uuid(&self) -> (r: u128)
        ensures
            r == self.0,
    {
        self.0
    }
}

/// Identifies a Room — a conversation channel inside a Space.
/// DMs are Rooms with `kind = direct` and exactly two members.
#[derive(Debug, Clone, Copy, PartialEq, Eq, Hash, PartialOrd, Ord)]
pub struct RoomId(pub u128);

impl RoomId {
    /// Generate a fresh identifier backed by a version-7 UUID stamped with the
    /// current time; `None` when the system clock reads before the Unix epoch.
    pub fn new() -> (r: Option<Self>)
        ensures
            r matches Some(id) ==> uuid_version(id.0) == 7,
    {
        let (after_epoch, secs, nanos) = read_clock();
        if after_epoch {
            Some(RoomId(uuid_v7_at(secs, nanos)))
        } else {
            None
        }
    }

    /// Wrap an existing UUID (given as its 128-bit value).
    pub fn from_uuid(uuid: u128) -> (r: Self)
        ensures
            r.0 == uuid,
    {
        RoomId(uuid)
    }

    /// Unwrap to the underlying UUID (as its 128-bit value).
    pub fn as_uuid(&self) -> (r: u128)
        ensures
            r == self.0,
    {
        self.0
    }
}

/// Identifies a single message.
#[derive(Debug, Clone, Copy, PartialEq, Eq, Hash, PartialOrd, Ord)]
pub struct MessageId(pub u128);

impl MessageId {
    /// A fresh version-7 identifier stamped with a clock reading: the
    /// reading's milliseconds when it lies at or after the Unix epoch, the
    /// epoch itself when it lies before. The other bits are random.
    pub fn new_at(after_epoch: bool, secs: u64, nanos: u32) -> (r: Self)
        ensures
            uuid_version(r.0) == 7,
            (r.0 >> 80u128) as nat == if after_epoch {
                v7_millis_field(secs, nanos)
            } else {
                0
            },
    {
        if after_epoch {
            MessageId(uuid_v7_at(secs, nanos))
        } else {
            MessageId(uuid_v7_at(0, 0))
        }
    }

    /// Generate a fresh identifier backed by a version-7 UUID stamped with the
    /// current time; `None` when the system clock reads before the Unix epoch.
    pub fn new() -> (r: Option<Self>)
        ensures
            r matches Some(id) ==> uuid_version(id.0) == 7,
    {
        let (after_epoch, secs, nanos) = read_clock();
        if after_epoch {
            Some(MessageId(uuid_v7_at(secs, nanos)))
        } else {
            None
        }
    }

    /// Wrap an existing UUID (given as its 128-bit value).
    pub fn from_uuid(uuid: u128) -> (r: Self)
        ensures
            r.0 == uuid,
    {
        MessageId(uuid)
    }

    /// Unwrap to the underlying UUID (as its 128-bit value).
    pub fn as_uuid(&self) -> (r: u128)
        ensures
            r == self.0,
    {
        self.0
    }
}

} // verus!
