//! Protocol constants, opcodes and status codes.

use vstd::prelude::*;

verus! {

/// Legacy protocol version: responses carry a 20-byte header.
pub const PROTOCOL_V1: u8 = 0x01;

/// Current protocol version: responses carry a 16-byte header.
pub const PROTOCOL_V2: u8 = 0x02;

/// Error raised while framing or parsing protocol messages.
#[derive(Debug, Clone, PartialEq, Eq)]
pub enum ProtocolError {
    /// Invalid message format
    InvalidFormat(String),
    /// Invalid opcode byte
    InvalidOpCode(u8),
    /// Invalid status code byte
    InvalidStatusCode(u8),
    /// A declared payload length above the maximum frame size
    MessageTooLarge(usize),
    /// Fewer bytes than a header needs (the number of bytes given)
    TooShort(usize),
    /// Fewer payload bytes than the header declares (the number of bytes present)
    Truncated(usize),
    /// Serialization error
    Serialization(String),
}

/// Command opcodes of the legacy and current protocols.
#[derive(Debug, Clone, Copy, PartialEq, Eq, Structural)]
pub enum OpCode {
    /// Opcode 0x01
    Ping,
    /// Opcode 0x02
    SetKey,
    /// Opcode 0x03
    Get,
    /// Opcode 0x04
    Delete,
    /// Opcode 0x05
    Cas,
    /// Opcode 0x06
    Subscribe,
    /// Opcode 0x07
    Unsubscribe,
    /// Opcode 0x08
    Publish,
    /// Opcode 0x09
    Fetch,
    /// Opcode 0x0A
    Info,
    /// Opcode 0x10
    Auth,
    /// Opcode 0x11
    AuthResponse,
    /// Opcode 0x12
    Query,
    /// Opcode 0x13
    InsertDoc,
    /// Opcode 0x14
    UpdateDoc,
    /// Opcode 0x15
    DeleteDoc,
    /// Opcode 0x16
    CreateCollection,
    /// Opcode 0x17
    DropCollection,
    /// Opcode 0x18
    ListCollections,
    /// Opcode 0x19
    CreateIndex,
    /// Opcode 0x1A
    DropIndex,
    /// Opcode 0x1B
    ListIndexes,
    /// Opcode 0x20
    LPush,
    /// Opcode 0x21
    RPush,
    /// Opcode 0x22
    LPop,
    /// Opcode 0x23
    RPop,
    /// Opcode 0x24
    LRange,
    /// Opcode 0x25
    LLen,
    /// Opcode 0x26
    SAdd,
    /// Opcode 0x27
    SRem,
    /// Opcode 0x28
    SMembers,
    /// Opcode 0x29
    SIsMember,
    /// Opcode 0x2A
    SCard,
    /// Opcode 0x2B
    SUnion,
    /// Opcode 0x2C
    SInter,
    /// Opcode 0x2D
    SDiff,
    /// Opcode 0x2E
    ZAdd,
    /// Opcode 0x2F
    ZRem,
    /// Opcode 0x30
    ZRange,
    /// Opcode 0x31
    ZRangeByScore,
    /// Opcode 0x32
    ZCard,
    /// Opcode 0x33
    ZScore,
    /// Opcode 0x34
    HSet,
    /// Opcode 0x35
    HGet,
    /// Opcode 0x36
    HDel,
    /// Opcode 0x37
    HGetAll,
    /// Opcode 0x38
    HKeys,
    /// Opcode 0x39
    HVals,
    /// Opcode 0x3A
    HLen,
    /// Opcode 0x3B
    ListUsers,
    /// Opcode 0x3C
    CreateUser,
    /// Opcode 0x3D
    DeleteUser,
    /// Opcode 0x3E
    UpdateUserRole,
}

/// The wire byte of an opcode.
pub open spec fn opcode_byte(op: OpCode) -> u8 {
    match op {
        OpCode::Ping => 0x01,
        OpCode::SetKey => 0x02,
        OpCode::Get => 0x03,
        OpCode::Delete => 0x04,
        OpCode::Cas => 0x05,
        OpCode::Subscribe => 0x06,
        OpCode::Unsubscribe => 0x07,
        OpCode::Publish => 0x08,
        OpCode::Fetch => 0x09,
        OpCode::Info => 0x0A,
        OpCode::Auth => 0x10,
        OpCode::AuthResponse => 0x11,
        OpCode::Query => 0x12,
        OpCode::InsertDoc => 0x13,
        OpCode::UpdateDoc => 0x14,
        OpCode::DeleteDoc => 0x15,
        OpCode::CreateCollection => 0x16,
        OpCode::DropCollection => 0x17,
        OpCode::ListCollections => 0x18,
        OpCode::CreateIndex => 0x19,
        OpCode::DropIndex => 0x1A,
        OpCode::ListIndexes => 0x1B,
        OpCode::LPush => 0x20,
        OpCode::RPush => 0x21,
        OpCode::LPop => 0x22,
        OpCode::RPop => 0x23,
        OpCode::LRange => 0x24,
        OpCode::LLen => 0x25,
        OpCode::SAdd => 0x26,
        OpCode::SRem => 0x27,
        OpCode::SMembers => 0x28,
        OpCode::SIsMember => 0x29,
        OpCode::SCard => 0x2A,
        OpCode::SUnion => 0x2B,
        OpCode::SInter => 0x2C,
        OpCode::SDiff => 0x2D,
        OpCode::ZAdd => 0x2E,
        OpCode::ZRem => 0x2F,
        OpCode::ZRange => 0x30,
        OpCode::ZRangeByScore => 0x31,
        OpCode::ZCard => 0x32,
        OpCode::ZScore => 0x33,
        OpCode::HSet => 0x34,
        OpCode::HGet => 0x35,
        OpCode::HDel => 0x36,
        OpCode::HGetAll => 0x37,
        OpCode::HKeys => 0x38,
        OpCode::HVals => 0x39,
        OpCode::HLen => 0x3A,
        OpCode::ListUsers => 0x3B,
        OpCode::CreateUser => 0x3C,
        OpCode::DeleteUser => 0x3D,
        OpCode::UpdateUserRole => 0x3E,
    }
}

/// The opcode a wire byte stands for, if any.
pub open spec fn opcode_from_byte(b: u8) -> Option<OpCode> {
    match b {
        0x01 => Some(OpCode::Ping),
        0x02 => Some(OpCode::SetKey),
        0x03 => Some(OpCode::Get),
        0x04 => Some(OpCode::Delete),
        0x05 => Some(OpCode::Cas),
        0x06 => Some(OpCode::Subscribe),
        0x07 => Some(OpCode::Unsubscribe),
        0x08 => Some(OpCode::Publish),
        0x09 => Some(OpCode::Fetch),
        0x0A => Some(OpCode::Info),
        0x10 => Some(OpCode::Auth),
        0x11 => Some(OpCode::AuthResponse),
        0x12 => Some(OpCode::Query),
        0x13 => Some(OpCode::InsertDoc),
        0x14 => Some(OpCode::UpdateDoc),
        0x15 => Some(OpCode::DeleteDoc),
        0x16 => Some(OpCode::CreateCollection),
        0x17 => Some(OpCode::DropCollection),
        0x18 => Some(OpCode::ListCollections),
        0x19 => Some(OpCode::CreateIndex),
        0x1A => Some(OpCode::DropIndex),
        0x1B => Some(OpCode::ListIndexes),
        0x20 => Some(OpCode::LPush),
        0x21 => Some(OpCode::RPush),
        0x22 => Some(OpCode::LPop),
        0x23 => Some(OpCode::RPop),
        0x24 => Some(OpCode::LRange),
        0x25 => Some(OpCode::LLen),
        0x26 => Some(OpCode::SAdd),
        0x27 => Some(OpCode::SRem),
        0x28 => Some(OpCode::SMembers),
        0x29 => Some(OpCode::SIsMember),
        0x2A => Some(OpCode::SCard),
        0x2B => Some(OpCode::SUnion),
        0x2C => Some(OpCode::SInter),
        0x2D => Some(OpCode::SDiff),
        0x2E => Some(OpCode::ZAdd),
        0x2F => Some(OpCode::ZRem),
        0x30 => Some(OpCode::ZRange),
        0x31 => Some(OpCode::ZRangeByScore),
        0x32 => Some(OpCode::ZCard),
        0x33 => Some(OpCode::ZScore),
        0x34 => Some(OpCode::HSet),
        0x35 => Some(OpCode::HGet),
        0x36 => Some(OpCode::HDel),
        0x37 => Some(OpCode::HGetAll),
        0x38 => Some(OpCode::HKeys),
        0x39 => Some(OpCode::HVals),
        0x3A => Some(OpCode::HLen),
        0x3B => Some(OpCode::ListUsers),
        0x3C => Some(OpCode::CreateUser),
        0x3D => Some(OpCode::DeleteUser),
        0x3E => Some(OpCode::UpdateUserRole),
        _ => None,
    }
}

/// Opcodes and their wire bytes correspond one to one: reading an opcode's
/// byte gives the opcode back, and a byte that reads as an opcode is that
/// opcode's byte.
pub proof fn lemma_opcode_bytes(op: OpCode, b: u8)
    ensures
        opcode_from_byte(opcode_byte(op)) == Some(op),
        opcode_from_byte(b) matches Some(o) ==> opcode_byte(o) == b,
{
}

impl OpCode {
    /// The byte that stands for this opcode on the wire.
    pub fn as_byte(&self) -> (r: u8)
        ensures
            r == opcode_byte(*self),
    {
        match self {
            OpCode::Ping => 0x01,
            OpCode::SetKey => 0x02,
            OpCode::Get => 0x03,
            OpCode::Delete => 0x04,
            OpCode::Cas => 0x05,
            OpCode::Subscribe => 0x06,
            OpCode::Unsubscribe => 0x07,
            OpCode::Publish => 0x08,
            OpCode::Fetch => 0x09,
            OpCode::Info => 0x0A,
            OpCode::Auth => 0x10,
            OpCode::AuthResponse => 0x11,
            OpCode::Query => 0x12,
            OpCode::InsertDoc => 0x13,
            OpCode::UpdateDoc => 0x14,
            OpCode::DeleteDoc => 0x15,
            OpCode::CreateCollection => 0x16,
            OpCode::DropCollection => 0x17,
            OpCode::ListCollections => 0x18,
            OpCode::CreateIndex => 0x19,
            OpCode::DropIndex => 0x1A,
            OpCode::ListIndexes => 0x1B,
            OpCode::LPush => 0x20,
            OpCode::RPush => 0x21,
            OpCode::LPop => 0x22,
            OpCode::RPop => 0x23,
            OpCode::LRange => 0x24,
            OpCode::LLen => 0x25,
            OpCode::SAdd => 0x26,
            OpCode::SRem => 0x27,
            OpCode::SMembers => 0x28,
            OpCode::SIsMember => 0x29,
            OpCode::SCard => 0x2A,
            OpCode::SUnion => 0x2B,
            OpCode::SInter => 0x2C,
            OpCode::SDiff => 0x2D,
            OpCode::ZAdd => 0x2E,
            OpCode::ZRem => 0x2F,
            OpCode::ZRange => 0x30,
            OpCode::ZRangeByScore => 0x31,
            OpCode::ZCard => 0x32,
            OpCode::ZScore => 0x33,
            OpCode::HSet => 0x34,
            OpCode::HGet => 0x35,
            OpCode::HDel => 0x36,
            OpCode::HGetAll => 0x37,
            OpCode::HKeys => 0x38,
            OpCode::HVals => 0x39,
            OpCode::HLen => 0x3A,
            OpCode::ListUsers => 0x3B,
            OpCode::CreateUser => 0x3C,
            OpCode::DeleteUser => 0x3D,
            OpCode::UpdateUserRole => 0x3E,
        }
    }

    /// Reads an opcode from its wire byte.
    pub fn from_byte(value: u8) -> (r: Result<OpCode, ProtocolError>)
        ensures
            r == (match opcode_from_byte(value) {
                Some(op) => Ok(op),
                None => Err(ProtocolError::InvalidOpCode(value)),
            }),
    {
        match value {
            0x01 => Ok(OpCode::Ping),
            0x02 => Ok(OpCode::SetKey),
            0x03 => Ok(OpCode::Get),
            0x04 => Ok(OpCode::Delete),
            0x05 => Ok(OpCode::Cas),
            0x06 => Ok(OpCode::Subscribe),
            0x07 => Ok(OpCode::Unsubscribe),
            0x08 => Ok(OpCode::Publish),
            0x09 => Ok(OpCode::Fetch),
            0x0A => Ok(OpCode::Info),
            0x10 => Ok(OpCode::Auth),
            0x11 => Ok(OpCode::AuthResponse),
            0x12 => Ok(OpCode::Query),
            0x13 => Ok(OpCode::InsertDoc),
            0x14 => Ok(OpCode::UpdateDoc),
            0x15 => Ok(OpCode::DeleteDoc),
            0x16 => Ok(OpCode::CreateCollection),
            0x17 => Ok(OpCode::DropCollection),
            0x18 => Ok(OpCode::ListCollections),
            0x19 => Ok(OpCode::CreateIndex),
            0x1A => Ok(OpCode::DropIndex),
            0x1B => Ok(OpCode::ListIndexes),
            0x20 => Ok(OpCode::LPush),
            0x21 => Ok(OpCode::RPush),
            0x22 => Ok(OpCode::LPop),
            0x23 => Ok(OpCode::RPop),
            0x24 => Ok(OpCode::LRange),
            0x25 => Ok(OpCode::LLen),
            0x26 => Ok(OpCode::SAdd),
            0x27 => Ok(OpCode::SRem),
            0x28 => Ok(OpCode::SMembers),
            0x29 => Ok(OpCode::SIsMember),
            0x2A => Ok(OpCode::SCard),
            0x2B => Ok(OpCode::SUnion),
            0x2C => Ok(OpCode::SInter),
            0x2D => Ok(OpCode::SDiff),
            0x2E => Ok(OpCode::ZAdd),
            0x2F => Ok(OpCode::ZRem),
            0x30 => Ok(OpCode::ZRange),
            0x31 => Ok(OpCode::ZRangeByScore),
            0x32 => Ok(OpCode::ZCard),
            0x33 => Ok(OpCode::ZScore),
            0x34 => Ok(OpCode::HSet),
            0x35 => Ok(OpCode::HGet),
            0x36 => Ok(OpCode::HDel),
            0x37 => Ok(OpCode::HGetAll),
            0x38 => Ok(OpCode::HKeys),
            0x39 => Ok(OpCode::HVals),
            0x3A => Ok(OpCode::HLen),
            0x3B => Ok(OpCode::ListUsers),
            0x3C => Ok(OpCode::CreateUser),
            0x3D => Ok(OpCode::DeleteUser),
            0x3E => Ok(OpCode::UpdateUserRole),
            _ => Err(ProtocolError::InvalidOpCode(value)),
        }
    }
}

/// Response status codes.
#[derive(Debug, Clone, Copy, PartialEq, Eq, Structural)]
pub enum StatusCode {
    /// Operation succeeded
    Success,
    /// General error
    Error,
    /// Key not found
    NotFound,
    /// Buffer full
    Full,
    /// Operation timed out
    Timeout,
    /// Version mismatch (for compare-and-swap)
    VersionMismatch,
    /// Authentication required
    AuthRequired,
    /// Authentication failed
    AuthFailed,
    /// Permission denied
    PermissionDenied,
    /// Invalid query
    InvalidQuery,
    /// Collection already exists
    CollectionExists,
    /// Collection not found
    CollectionNotFound,
    /// Index already exists
    IndexExists,
    /// Index not found
    IndexNotFound,
}

/// The wire byte of a status code.
pub open spec fn status_byte(s: StatusCode) -> u8 {
    match s {
        StatusCode::Success => 0x00,
        StatusCode::Error => 0x01,
        StatusCode::NotFound => 0x02,
        StatusCode::Full => 0x03,
        StatusCode::Timeout => 0x04,
        StatusCode::VersionMismatch => 0x05,
        StatusCode::AuthRequired => 0x06,
        StatusCode::AuthFailed => 0x07,
        StatusCode::PermissionDenied => 0x08,
        StatusCode::InvalidQuery => 0x09,
        StatusCode::CollectionExists => 0x0A,
        StatusCode::CollectionNotFound => 0x0B,
        StatusCode::IndexExists => 0x0C,
        StatusCode::IndexNotFound => 0x0D,
    }
}

impl StatusCode {
    /// The byte that stands for this status on the wire.
    pub fn as_byte(&self) -> (r: u8)
        ensures
            r == status_byte(*self),
    {
        match self {
            StatusCode::Success => 0x00,
            StatusCode::Error => 0x01,
            StatusCode::NotFound => 0x02,
            StatusCode::Full => 0x03,
            StatusCode::Timeout => 0x04,
            StatusCode::VersionMismatch => 0x05,
            StatusCode::AuthRequired => 0x06,
            StatusCode::AuthFailed => 0x07,
            StatusCode::PermissionDenied => 0x08,
            StatusCode::InvalidQuery => 0x09,
            StatusCode::CollectionExists => 0x0A,
            StatusCode::CollectionNotFound => 0x0B,
            StatusCode::IndexExists => 0x0C,
            StatusCode::IndexNotFound => 0x0D,
        }
    }

    /// Reads a status code from its wire byte.
    pub fn from_byte(value: u8) -> (r: Result<StatusCode, ProtocolError>)
        ensures
            r matches Ok(s) ==> status_byte(s) == value,
            r is Err <==> value > 0x0D,
            r is Err ==> r == Err::<StatusCode, ProtocolError>(ProtocolError::InvalidStatusCode(value)),
    {
        match value {
            0x00 => Ok(StatusCode::Success),
            0x01 => Ok(StatusCode::Error),
            0x02 => Ok(StatusCode::NotFound),
            0x03 => Ok(StatusCode::Full),
            0x04 => Ok(StatusCode::Timeout),
            0x05 => Ok(StatusCode::VersionMismatch),
            0x06 => Ok(StatusCode::AuthRequired),
            0x07 => Ok(StatusCode::AuthFailed),
            0x08 => Ok(StatusCode::PermissionDenied),
            0x09 => Ok(StatusCode::InvalidQuery),
            0x0A => Ok(StatusCode::CollectionExists),
            0x0B => Ok(StatusCode::CollectionNotFound),
            0x0C => Ok(StatusCode::IndexExists),
            0x0D => Ok(StatusCode::IndexNotFound),
            _ => Err(ProtocolError::InvalidStatusCode(value)),
        }
    }
}

/// Reading a byte back gives the status that wrote it.
pub proof fn lemma_status_byte_injective(a: StatusCode, b: StatusCode)
    ensures
        status_byte(a) == status_byte(b) ==> a == b,
        status_byte(a) <= 0x0D,
{
}

} // verus!
