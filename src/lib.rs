//! Client-side transport and protocol layer for a remote key/value and
//! document store: binary framing, request/response correlation, a pooled
//! connection ledger, and the mapping of logical operations onto commands.

pub mod bytes_le;
pub mod config;
pub mod error;
pub mod exchange;
pub mod facade;
pub mod flags;
pub mod frame;
pub mod ids;
pub mod pool;
pub mod protocol;
pub mod requests;
pub mod text;
pub mod value;

pub use config::{AuthConfig, AuthCredentials, AuthMethod, AuthRequest, AuthResponse, TlsConfig, TlsMode};
pub use error::Error;
pub use exchange::{Exchange, SequenceCounter};
pub use ids::{DocumentId, ObjectId};
pub use facade::OperationResponse;
pub use frame::{Command, CommandHeader, Response, ResponseHeader, MAX_FRAME_SIZE};
pub use pool::PoolLedger;
pub use value::{Document, Field, Value};
pub use protocol::{OpCode, ProtocolError, StatusCode, PROTOCOL_V1, PROTOCOL_V2};
pub use requests::{
    CreateCollectionRequest, CreateIndexRequest, CreateUserRequest, DeleteDocRequest,
    DeleteUserRequest, DropCollectionRequest, DropIndexRequest, HashOpRequest, HashOperation,
    IndexField, InsertDocRequest, ListCollectionsRequest, ListIndexesRequest, ListOpRequest,
    ListOperation, QueryRequest, ScoredMember, SetOpRequest, SetOperation, SortedSetOpRequest,
    SortedSetOperation, UpdateDocRequest, UpdateUserRoleRequest, UserInfo,
};
