//! Identifiers: object ids and document ids.

use vstd::prelude::*;

use crate::bytes_le::be32_at;

verus! {

/// Relies on `chrono::Utc::now` and `DateTime::timestamp`: the current time
/// as whole seconds since the Unix epoch. Nothing is promised of its value.
#[verifier::external_body]
fn now_unix_seconds() -> i64 {
    chrono::Utc::now().timestamp()
}

/// Relies on `uuid::Uuid::new_v4` and `Uuid::into_bytes`: sixteen random bytes
/// with the version nibble (high half of byte 6) set to 4 and the variant bits
/// (top two of byte 8) set to `10`.
#[verifier::external_body]
fn random_uuid_bytes() -> (r: [u8; 16])
    ensures
        r@[6] >> 4u8 == 4,
        r@[8] >> 6u8 == 2,
{
    uuid::Uuid::new_v4().into_bytes()
}

/// Relies on `rand::random::<u32>`: a random 32-bit integer. Nothing is
/// promised of its value.
#[verifier::external_body]
fn random_u32() -> u32 {
    rand::random::<u32>()
}

/// The twelve bytes of an object id made of a timestamp (big-endian), five
/// random bytes and a 24-bit counter (big-endian).
pub open spec fn object_id_bytes(timestamp: u32, random: Seq<u8>, counter: u32) -> Seq<u8> {
    seq![
        (timestamp >> 24) as u8,
        (timestamp >> 16) as u8,
        (timestamp >> 8) as u8,
        timestamp as u8,
        random[0],
        random[1],
        random[2],
        random[3],
        random[4],
        (counter >> 16) as u8,
        (counter >> 8) as u8,
        counter as u8,
    ]
}

/// A 12-byte object id: creation time in seconds, five random bytes and a
/// counter.
#[derive(Debug, Clone, Copy, PartialEq, Eq, PartialOrd, Ord, Hash)]
pub struct ObjectId(pub [u8; 12]);

impl ObjectId {
    /// A fresh object id stamped with the current time.
    pub fn new() -> (r: Self)
        ensures
            exists|t: u32, random: Seq<u8>, c: u32|
                random.len() == 5 && r.0@ == object_id_bytes(t, random, c),
    {
        let timestamp = now_unix_seconds() as u32;
        let random = random_uuid_bytes();
        let counter = random_u32();
        Self::from_parts(timestamp, &random, counter)
    }

    /// The object id made of `timestamp`, the first five bytes of `random`
    /// and the low 24 bits of `counter`.
    pub fn from_parts(timestamp: u32, random: &[u8; 16], counter: u32) -> (r: Self)
        ensures
            r.0@ == object_id_bytes(timestamp, random@.subrange(0, 5), counter),
            r.timestamp_spec() == timestamp,
    {
        let r = ObjectId(
            [
                (timestamp >> 24) as u8,
                (timestamp >> 16) as u8,
                (timestamp >> 8) as u8,
                timestamp as u8,
                random[0],
                random[1],
                random[2],
                random[3],
                random[4],
                (counter >> 16) as u8,
                (counter >> 8) as u8,
                counter as u8,
            ],
        );
        assert(r.0@ =~= object_id_bytes(timestamp, random@.subrange(0, 5), counter));
        assert((((timestamp as u8) as u32) | ((((timestamp >> 8) as u8) as u32) << 8) | ((((
        timestamp >> 16) as u8) as u32) << 16) | ((((timestamp >> 24) as u8) as u32) << 24))
            == timestamp) by (bit_vector);
        r
    }

    /// The object id with the given bytes.
    pub fn from_bytes(bytes: [u8; 12]) -> (r: Self)
        ensures
            r.0@ == bytes@,
    {
        ObjectId(bytes)
    }

    /// The id's bytes.
    pub fn as_bytes(&self) -> (r: &[u8; 12])
        ensures
            r@ == self.0@,
    {
        &self.0
    }

    /// The creation time stored in the first four bytes (big-endian).
    pub open spec fn timestamp_spec(&self) -> u32 {
        be32_at(self.0@, 0)
    }

    /// The creation time, in seconds since the Unix epoch.
    pub fn timestamp(&self) -> (r: i64)
        ensures
            r == self.timestamp_spec(),
    {
        let b = &self.0;
        ((b[3] as u32) | ((b[2] as u32) << 8) | ((b[1] as u32) << 16) | ((b[0] as u32) << 24))
            as i64
    }
}

impl Default for ObjectId {
    fn default() -> (r: Self)
        ensures
            exists|t: u32, random: Seq<u8>, c: u32|
                random.len() == 5 && r.0@ == object_id_bytes(t, random, c),
    {
        Self::new()
    }
}

/// A 16-byte document id (a random, version-4 UUID when generated here).
#[derive(Debug, Clone, Copy, PartialEq, Eq, PartialOrd, Ord, Hash)]
pub struct DocumentId(pub [u8; 16]);

impl DocumentId {
    /// A fresh random document id.
    pub fn new() -> (r: Self)
        ensures
            r.0@[6] >> 4u8 == 4,
            r.0@[8] >> 6u8 == 2,
    {
        DocumentId(random_uuid_bytes())
    }

    /// The id's sixteen bytes.
    pub fn to_bytes(&self) -> (r: [u8; 16])
        ensures
            r@ == self.0@,
    {
        self.0
    }

    /// The document id with the given bytes.
    pub fn from_bytes(bytes: [u8; 16]) -> (r: Self)
        ensures
            r.0@ == bytes@,
    {
        DocumentId(bytes)
    }
}

impl Default for DocumentId {
    fn default() -> (r: Self)
        ensures
            r.0@[6] >> 4u8 == 4,
            r.0@[8] >> 6u8 == 2,
    {
        Self::new()
    }
}

} // verus!
