//! Request and response payloads of the structured operations.

use vstd::prelude::*;

use crate::value::{Document, Value};

verus! {

/// Query request payload for document operations.
#[derive(Debug)]
pub struct QueryRequest {
    /// Collection to query
    pub collection: String,
    /// Filter document
    pub filter: Option<Value>,
    /// Projection document
    pub projection: Option<Value>,
    /// Sort document
    pub sort: Option<Value>,
    /// Documents to skip
    pub skip: Option<u64>,
    /// Most documents to return
    pub limit: Option<u64>,
}

/// List collections request.
#[derive(Debug)]
pub struct ListCollectionsRequest {
    /// Filter document
    pub filter: Option<Value>,
}

/// Drop collection request.
#[derive(Debug, Clone)]
pub struct DropCollectionRequest {
    /// Collection name
    pub name: String,
}

/// List indexes request.
#[derive(Debug, Clone)]
pub struct ListIndexesRequest {
    /// Collection name
    pub collection: String,
}

/// Drop index request.
#[derive(Debug, Clone)]
pub struct DropIndexRequest {
    /// Collection name
    pub collection: String,
    /// Index name
    pub name: String,
}

/// Document insertion request.
#[derive(Debug)]
pub struct InsertDocRequest {
    /// Collection name
    pub collection: String,
    /// The document
    pub document: Document,
}

/// Document update request.
#[derive(Debug)]
pub struct UpdateDocRequest {
    /// Collection name
    pub collection: String,
    /// Which documents
    pub filter: Value,
    /// The update
    pub update: Value,
    /// Insert where nothing matches
    pub upsert: bool,
}

/// Document deletion request.
#[derive(Debug)]
pub struct DeleteDocRequest {
    /// Collection name
    pub collection: String,
    /// Which documents
    pub filter: Value,
}

/// Collection creation request.
#[derive(Debug)]
pub struct CreateCollectionRequest {
    /// Collection name
    pub name: String,
    /// JSON schema
    pub schema: Option<Value>,
}

/// Index creation request.
#[derive(Debug, Clone)]
pub struct CreateIndexRequest {
    /// Collection name
    pub collection: String,
    /// Index name
    pub name: String,
    /// Indexed fields
    pub fields: Vec<IndexField>,
    /// Whether the index is unique
    pub unique: bool,
}

/// One field of an index.
#[derive(Debug, Clone)]
pub struct IndexField {
    /// Field name
    pub field: String,
    /// 1 for ascending, -1 for descending
    pub direction: i32,
}

/// List operation request.
#[derive(Debug)]
pub struct ListOpRequest {
    /// Key of the list
    pub key: String,
    /// The operation
    pub operation: ListOperation,
}

/// List operations.
#[derive(Debug)]
pub enum ListOperation {
    /// Push values at the left or right end
    Push { values: Vec<Value>, left: bool },
    /// Pop from the left or right end
    Pop { left: bool },
    /// Elements from `start` to `stop`
    Range { start: i64, stop: i64 },
    /// Length
    Len,
}

/// Set operation request.
#[derive(Debug)]
pub struct SetOpRequest {
    /// Key of the set
    pub key: String,
    /// The operation
    pub operation: SetOperation,
}

/// Set operations.
#[derive(Debug)]
pub enum SetOperation {
    /// Add values
    Add { values: Vec<Value> },
    /// Remove values
    Remove { values: Vec<Value> },
    /// All members
    Members,
    /// Membership test
    IsMember { value: Value },
    /// Cardinality
    Card,
    /// Union with other sets
    Union { other_keys: Vec<String> },
    /// Intersection with other sets
    Inter { other_keys: Vec<String> },
    /// Difference with other sets
    Diff { other_keys: Vec<String> },
}

/// Sorted set operation request.
#[derive(Debug)]
pub struct SortedSetOpRequest {
    /// Key of the sorted set
    pub key: String,
    /// The operation
    pub operation: SortedSetOperation,
}

/// Sorted set operations. Scores are IEEE-754 bit patterns of 64-bit floats.
#[derive(Debug)]
pub enum SortedSetOperation {
    /// Add scored members
    Add { members: Vec<ScoredMember> },
    /// Remove members
    Remove { members: Vec<Value> },
    /// Members by rank from `start` to `stop`
    Range { start: i64, stop: i64 },
    /// Members with scores between `min` and `max` (float bits)
    RangeByScore { min: u64, max: u64 },
    /// Cardinality
    Card,
    /// Score of a member
    Score { member: Value },
}

/// A member with its score (IEEE-754 bits of a 64-bit float).
#[derive(Debug)]
pub struct ScoredMember {
    /// Score, as float bits
    pub score: u64,
    /// The member
    pub member: Value,
}

/// Hash operation request.
#[derive(Debug)]
pub struct HashOpRequest {
    /// Key of the hash
    pub key: String,
    /// The operation
    pub operation: HashOperation,
}

/// Hash operations.
#[derive(Debug)]
pub enum HashOperation {
    /// Set a field
    SetField { field: String, value: Value },
    /// Get a field
    Get { field: String },
    /// Delete fields
    Del { fields: Vec<String> },
    /// All fields and values
    GetAll,
    /// All field names
    Keys,
    /// All values
    Vals,
    /// Number of fields
    Len,
}

/// Request to create a user.
#[derive(Debug, Clone)]
pub struct CreateUserRequest {
    /// User name
    pub username: String,
    /// Password
    pub password: String,
    /// Role
    pub role: String,
}

/// Request to delete a user.
#[derive(Debug, Clone)]
pub struct DeleteUserRequest {
    /// User name
    pub username: String,
}

/// Request to change a user's role.
#[derive(Debug, Clone)]
pub struct UpdateUserRoleRequest {
    /// User name
    pub username: String,
    /// New role
    pub role: String,
}

/// A user as the server lists it.
#[derive(Debug, Clone)]
pub struct UserInfo {
    /// User name
    pub username: String,
    /// Role
    pub role: String,
    /// Creation time, as text
    pub created_at: String,
    /// Last login time, as text
    pub last_login: Option<String>,
    /// Whether the account is enabled
    pub enabled: bool,
}

} // verus!
