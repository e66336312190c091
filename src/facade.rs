//! The client facade's logic: which command carries each logical operation,
//! and what each response means.

use vstd::prelude::*;

use crate::error::Error;
use crate::frame::{plain_header, Command, CommandHeader};
use crate::protocol::OpCode;
use crate::requests::{
    HashOpRequest, HashOperation, ListOpRequest, ListOperation, SetOpRequest, SetOperation,
    SortedSetOpRequest, SortedSetOperation, UserInfo,
};
use crate::text::{lossy_string, utf8_lossy};
use crate::value::{get_field, lookup, Field, Value};

verus! {

/// The opcode of a list operation.
pub open spec fn list_opcode(op: ListOperation) -> OpCode {
    match op {
        ListOperation::Push { left, .. } => if left {
            OpCode::LPush
        } else {
            OpCode::RPush
        },
        ListOperation::Pop { left } => if left {
            OpCode::LPop
        } else {
            OpCode::RPop
        },
        ListOperation::Range { .. } => OpCode::LRange,
        ListOperation::Len => OpCode::LLen,
    }
}

/// The opcode of a set operation.
pub open spec fn set_opcode(op: SetOperation) -> OpCode {
    match op {
        SetOperation::Add { .. } => OpCode::SAdd,
        SetOperation::Remove { .. } => OpCode::SRem,
        SetOperation::Members => OpCode::SMembers,
        SetOperation::IsMember { .. } => OpCode::SIsMember,
        SetOperation::Card => OpCode::SCard,
        SetOperation::Union { .. } => OpCode::SUnion,
        SetOperation::Inter { .. } => OpCode::SInter,
        SetOperation::Diff { .. } => OpCode::SDiff,
    }
}

/// The opcode of a sorted set operation.
pub open spec fn sorted_set_opcode(op: SortedSetOperation) -> OpCode {
    match op {
        SortedSetOperation::Add { .. } => OpCode::ZAdd,
        SortedSetOperation::Remove { .. } => OpCode::ZRem,
        SortedSetOperation::Range { .. } => OpCode::ZRange,
        SortedSetOperation::RangeByScore { .. } => OpCode::ZRangeByScore,
        SortedSetOperation::Card => OpCode::ZCard,
        SortedSetOperation::Score { .. } => OpCode::ZScore,
    }
}

/// The opcode of a hash operation.
pub open spec fn hash_opcode(op: HashOperation) -> OpCode {
    match op {
        HashOperation::SetField { .. } => OpCode::HSet,
        HashOperation::Get { .. } => OpCode::HGet,
        HashOperation::Del { .. } => OpCode::HDel,
        HashOperation::GetAll => OpCode::HGetAll,
        HashOperation::Keys => OpCode::HKeys,
        HashOperation::Vals => OpCode::HVals,
        HashOperation::Len => OpCode::HLen,
    }
}

impl ListOpRequest {
    /// The opcode that carries this request.
    pub fn opcode(&self) -> (r: OpCode)
        ensures
            r == list_opcode(self.operation),
    {
        match &self.operation {
            ListOperation::Push { left, .. } => if *left {
                OpCode::LPush
            } else {
                OpCode::RPush
            },
            ListOperation::Pop { left } => if *left {
                OpCode::LPop
            } else {
                OpCode::RPop
            },
            ListOperation::Range { .. } => OpCode::LRange,
            ListOperation::Len => OpCode::LLen,
        }
    }
}

impl SetOpRequest {
    /// The opcode that carries this request.
    pub fn opcode(&self) -> (r: OpCode)
        ensures
            r == set_opcode(self.operation),
    {
        match &self.operation {
            SetOperation::Add { .. } => OpCode::SAdd,
            SetOperation::Remove { .. } => OpCode::SRem,
            SetOperation::Members => OpCode::SMembers,
            SetOperation::IsMember { .. } => OpCode::SIsMember,
            SetOperation::Card => OpCode::SCard,
            SetOperation::Union { .. } => OpCode::SUnion,
            SetOperation::Inter { .. } => OpCode::SInter,
            SetOperation::Diff { .. } => OpCode::SDiff,
        }
    }
}

impl SortedSetOpRequest {
    /// The opcode that carries this request.
    pub fn opcode(&self) -> (r: OpCode)
        ensures
            r == sorted_set_opcode(self.operation),
    {
        match &self.operation {
            SortedSetOperation::Add { .. } => OpCode::ZAdd,
            SortedSetOperation::Remove { .. } => OpCode::ZRem,
            SortedSetOperation::Range { .. } => OpCode::ZRange,
            SortedSetOperation::RangeByScore { .. } => OpCode::ZRangeByScore,
            SortedSetOperation::Card => OpCode::ZCard,
            SortedSetOperation::Score { .. } => OpCode::ZScore,
        }
    }
}

impl HashOpRequest {
    /// The opcode that carries this request.
    pub fn opcode(&self) -> (r: OpCode)
        ensures
            r == hash_opcode(self.operation),
    {
        match &self.operation {
            HashOperation::SetField { .. } => OpCode::HSet,
            HashOperation::Get { .. } => OpCode::HGet,
            HashOperation::Del { .. } => OpCode::HDel,
            HashOperation::GetAll => OpCode::HGetAll,
            HashOperation::Keys => OpCode::HKeys,
            HashOperation::Vals => OpCode::HVals,
            HashOperation::Len => OpCode::HLen,
        }
    }
}

impl Command {
    /// A command of the structured operations: no key, the serialized request
    /// as the value.
    pub fn with_payload(opcode: OpCode, seq: u32, payload: &[u8]) -> (r: Command)
        requires
            payload@.len() <= u32::MAX,
        ensures
            r.header == plain_header(opcode, seq, 0, payload@.len() as u32, 0),
            r.key@.len() == 0,
            r.value@ == payload@,
            r.wf(),
    {
        Command::new(CommandHeader::new(opcode, seq), &[], payload)
    }

    /// A publish, subscribe or unsubscribe command: the channel's name as the
    /// key and the message, if any, as the value.
    pub fn channel(opcode: OpCode, seq: u32, channel: &[u8], message: &[u8]) -> (r: Command)
        requires
            channel@.len() <= u32::MAX,
            message@.len() <= u32::MAX,
        ensures
            r.header == plain_header(opcode, seq, channel@.len() as u32, message@.len() as u32, 0),
            r.key@ == channel@,
            r.value@ == message@,
            r.wf(),
    {
        Command::new(CommandHeader::new(opcode, seq), channel, message)
    }
}

/// Generic envelope of structured responses.
#[derive(Debug)]
pub struct OperationResponse {
    /// Whether the operation succeeded
    pub success: bool,
    /// The result
    pub data: Option<Value>,
    /// Why it failed
    pub error: Option<String>,
    /// How many items it touched
    pub affected_count: Option<u64>,
}

/// The error a failed envelope stands for: a server error with the
/// envelope's message, or `fallback` where it carries none.
pub open spec fn envelope_error(error: Option<String>, fallback: Seq<char>, e: Error) -> bool {
    match error {
        Some(m) => e == Error::Server(m),
        None => e matches Error::Server(m) && m@ == fallback,
    }
}

impl OperationResponse {
    /// A successful envelope with `data`.
    pub fn success(data: Option<Value>) -> (r: Self)
        ensures
            r.success,
            r.data == data,
            r.error is None,
            r.affected_count is None,
    {
        OperationResponse { success: true, data, error: None, affected_count: None }
    }

    /// A failed envelope with `message`.
    pub fn error(message: String) -> (r: Self)
        ensures
            !r.success,
            r.data is None,
            r.error == Some(message),
            r.affected_count is None,
    {
        OperationResponse { success: false, data: None, error: Some(message), affected_count: None }
    }

    /// The envelope's data, or the server error it reports (with `fallback`
    /// as the message where it gives none).
    pub fn into_data(self, fallback: &str) -> (r: Result<Option<Value>, Error>)
        ensures
            self.success ==> r == Ok::<Option<Value>, Error>(self.data),
            !self.success ==> (r matches Err(e) && envelope_error(self.error, fallback@, e)),
    {
        if self.success {
            Ok(self.data)
        } else {
            match self.error {
                Some(m) => Err(Error::Server(m)),
                None => Err(Error::Server(fallback.to_owned())),
            }
        }
    }

    /// The envelope's data, `Null` where it has none; or its server error.
    pub fn into_value(self, fallback: &str) -> (r: Result<Value, Error>)
        ensures
            self.success && self.data is Some ==> r == Ok::<Value, Error>(self.data->Some_0),
            self.success && self.data is None ==> r == Ok::<Value, Error>(Value::Null),
            !self.success ==> (r matches Err(e) && envelope_error(self.error, fallback@, e)),
    {
        match self.into_data(fallback) {
            Ok(Some(v)) => Ok(v),
            Ok(None) => Ok(Value::Null),
            Err(e) => Err(e),
        }
    }

    /// The number of items the operation touched, 0 where the envelope does
    /// not say; or its server error.
    pub fn into_affected(self, fallback: &str) -> (r: Result<u64, Error>)
        ensures
            self.success && self.affected_count is Some ==> r == Ok::<u64, Error>(
                self.affected_count->Some_0,
            ),
            self.success && self.affected_count is None ==> r == Ok::<u64, Error>(0),
            !self.success ==> (r matches Err(e) && envelope_error(self.error, fallback@, e)),
    {
        if self.success {
            match self.affected_count {
                Some(n) => Ok(n),
                None => Ok(0),
            }
        } else {
            match self.error {
                Some(m) => Err(Error::Server(m)),
                None => Err(Error::Server(fallback.to_owned())),
            }
        }
    }

    /// The envelope's outcome where only success matters.
    pub fn into_unit(self, fallback: &str) -> (r: Result<(), Error>)
        ensures
            self.success ==> r is Ok,
            !self.success ==> (r matches Err(e) && envelope_error(self.error, fallback@, e)),
    {
        match self.into_data(fallback) {
            Ok(_) => Ok(()),
            Err(e) => Err(e),
        }
    }
}

/// The text of a string value.
pub open spec fn string_text(v: Value) -> Option<Seq<char>> {
    match v {
        Value::String(s) => Some(s@),
        _ => None,
    }
}

/// The names a list-collections result holds: the strings of its array, in
/// order; nothing where the data is not an array.
pub open spec fn collection_names_of(data: Option<Value>) -> Seq<Seq<char>> {
    match data {
        Some(Value::Array(items)) => items@.filter_map(|v: Value| string_text(v)),
        _ => Seq::empty(),
    }
}

/// The names of the collections in a list-collections result.
pub fn collection_names(data: &Option<Value>) -> (r: Vec<String>)
    ensures
        r@.map_values(|s: String| s@) == collection_names_of(*data),
{
    let mut out: Vec<String> = Vec::new();
    match data {
        Some(Value::Array(items)) => {
            let mut i: usize = 0;
            while i < items.len()
                invariant
                    i <= items@.len(),
                    out@.map_values(|s: String| s@) == items@.subrange(0, i as int).filter_map(
                        |v: Value| string_text(v),
                    ),
                decreases items@.len() - i,
            {
                let ghost prev = items@.subrange(0, i as int);
                let ghost next = items@.subrange(0, i + 1);
                assert(next.drop_last() =~= prev);
                match &items[i] {
                    Value::String(s) => {
                        out.push(s.clone());
                    },
                    _ => {},
                }
                i = i + 1;
                assert(out@.map_values(|s: String| s@) =~= next.filter_map(
                    |v: Value| string_text(v),
                ));
            }
            assert(items@.subrange(0, items@.len() as int) =~= items@);
            out
        },
        _ => {
            assert(out@.map_values(|s: String| s@) =~= Seq::<Seq<char>>::empty());
            out
        },
    }
}

/// The values of a list-indexes result: its array; nothing where the data is
/// not an array.
pub fn index_values(data: Option<Value>) -> (r: Vec<Value>)
    ensures
        data matches Some(Value::Array(items)) ==> r@ == items@,
        !(data matches Some(Value::Array(_))) ==> r@.len() == 0,
{
    match data {
        Some(Value::Array(items)) => items,
        _ => Vec::new(),
    }
}

/// Whether a value is an object.
pub open spec fn is_object(v: Value) -> bool {
    v is Object
}

/// The objects of a query result, in order: the documents' field lists.
/// Array elements that are not objects are skipped; data that is not an
/// array gives none.
pub fn document_objects(data: Option<Value>) -> (r: Vec<Value>)
    ensures
        data matches Some(Value::Array(items)) ==> r@ == items@.filter(|v: Value| is_object(v)),
        !(data matches Some(Value::Array(_))) ==> r@.len() == 0,
{
    match data {
        Some(Value::Array(items)) => {
            let ghost all = items@;
            let mut rest = items;
            let mut out: Vec<Value> = Vec::new();
            while rest.len() > 0
                invariant
                    all.filter(|v: Value| is_object(v)) == rest@.filter(|v: Value| is_object(v))
                        + out@,
                decreases rest@.len(),
            {
                let ghost before = rest@;
                let v = rest.pop().unwrap();
                proof {
                    reveal(Seq::filter);
                    assert(before.drop_last() =~= rest@);
                }
                if v.is_object() {
                    let ghost o = out@;
                    out.insert(0, v);
                    assert(out@ =~= seq![before.last()] + o);
                    assert(rest@.filter(|v: Value| is_object(v)).push(before.last()) + o
                        =~= rest@.filter(|v: Value| is_object(v)) + out@);
                }
            }
            proof {
                reveal(Seq::filter);
                assert(rest@.filter(|v: Value| is_object(v)) =~= Seq::<Value>::empty());
                assert(all.filter(|v: Value| is_object(v)) =~= out@);
            }
            out
        },
        _ => Vec::new(),
    }
}

impl Value {
    /// Whether the value is an object.
    pub fn is_object(&self) -> (r: bool)
        ensures
            r == is_object(*self),
    {
        match self {
            Value::Object(_) => true,
            _ => false,
        }
    }
}

/// The text of the string field `key`, if the fields have one.
pub open spec fn text_field(fields: Seq<Field>, key: Seq<char>) -> Option<Seq<char>> {
    match lookup(fields, key) {
        Some(Value::String(s)) => Some(s@),
        _ => None,
    }
}

/// `u` is the user that value `v` describes: an object with a string
/// `username`; `role` defaults to `unknown`, `created_at` to the empty
/// text, `last_login` to none and `enabled` to false.
pub open spec fn user_of(v: Value, u: UserInfo) -> bool {
    match v {
        Value::Object(fields) => {
            &&& text_field(fields@, "username"@) == Some(u.username@)
            &&& u.role@ == (match text_field(fields@, "role"@) {
                Some(t) => t,
                None => "unknown"@,
            })
            &&& u.created_at@ == (match text_field(fields@, "created_at"@) {
                Some(t) => t,
                None => ""@,
            })
            &&& match u.last_login {
                Some(l) => text_field(fields@, "last_login"@) == Some(l@),
                None => text_field(fields@, "last_login"@) is None,
            }
            &&& u.enabled == (match lookup(fields@, "enabled"@) {
                Some(Value::Bool(b)) => b,
                _ => false,
            })
        },
        _ => false,
    }
}

/// Whether a value describes a user: an object with a string `username`.
pub open spec fn describes_user(v: Value) -> bool {
    v matches Value::Object(fields) && text_field(fields@, "username"@) is Some
}

/// The text of a field, or `fallback`.
fn text_or(fields: &Vec<Field>, key: &str, fallback: &str) -> (r: String)
    ensures
        r@ == (match text_field(fields@, key@) {
            Some(t) => t,
            None => fallback@,
        }),
{
    match get_field(fields, key) {
        Some(Value::String(s)) => s.clone(),
        _ => fallback.to_owned(),
    }
}

/// The user a listed value describes, if it describes one.
pub fn user_from_value(v: &Value) -> (r: Option<UserInfo>)
    ensures
        r is Some <==> describes_user(*v),
        r matches Some(u) ==> user_of(*v, u),
{
    let fields = match v {
        Value::Object(f) => f,
        _ => {
            return None;
        },
    };
    let username = match get_field(fields, "username") {
        Some(Value::String(s)) => s.clone(),
        _ => {
            return None;
        },
    };
    let role = text_or(fields, "role", "unknown");
    let created_at = text_or(fields, "created_at", "");
    let last_login = match get_field(fields, "last_login") {
        Some(Value::String(s)) => Some(s.clone()),
        _ => None,
    };
    let enabled = match get_field(fields, "enabled") {
        Some(Value::Bool(b)) => *b,
        _ => false,
    };
    Some(UserInfo { username, role, created_at, last_login, enabled })
}

/// The users of a list-users result, in order, skipping entries that do not
/// describe one. Fails with a server error where there is no data or the
/// data is not an array.
pub fn users_from_data(data: &Option<Value>) -> (r: Result<Vec<UserInfo>, Error>)
    ensures
        data is None ==> (r matches Err(Error::Server(m)) && m@ == "No data in response"@),
        data matches Some(v) && !(v is Array) ==> (r matches Err(Error::Server(m)) && m@
            == "Expected array data"@),
        data matches Some(Value::Array(items)) ==> (r matches Ok(users) && users@.len()
            == items@.filter(|v: Value| describes_user(v)).len() && forall|i: int|
            0 <= i < users@.len() ==> user_of(
                items@.filter(|v: Value| describes_user(v))[i],
                #[trigger] users@[i],
            )),
{
    let items = match data {
        None => {
            return Err(Error::Server("No data in response".to_owned()));
        },
        Some(Value::Array(items)) => items,
        Some(_) => {
            return Err(Error::Server("Expected array data".to_owned()));
        },
    };
    let mut out: Vec<UserInfo> = Vec::new();
    let mut i: usize = 0;
    while i < items.len()
        invariant
            i <= items@.len(),
            out@.len() == items@.subrange(0, i as int).filter(|v: Value| describes_user(v)).len(),
            forall|j: int|
                0 <= j < out@.len() ==> user_of(
                    items@.subrange(0, i as int).filter(|v: Value| describes_user(v))[j],
                    #[trigger] out@[j],
                ),
        decreases items@.len() - i,
    {
        let ghost prev = items@.subrange(0, i as int);
        let ghost next = items@.subrange(0, i + 1);
        proof {
            reveal(Seq::filter);
            assert(next.drop_last() =~= prev);
        }
        match user_from_value(&items[i]) {
            Some(u) => {
                out.push(u);
            },
            None => {},
        }
        i = i + 1;
    }
    assert(items@.subrange(0, items@.len() as int) =~= items@);
    Ok(out)
}

/// The integer fields and the version of a server-information result.
/// (Its floating-point metrics are not held here.)
#[derive(Debug, Clone)]
pub struct ServerInfoFields {
    /// Seconds since the server started
    pub uptime_seconds: u64,
    /// Open connections
    pub connection_count: u32,
    /// Number of collections
    pub total_collections: u64,
    /// Memory in use, in bytes
    pub memory_usage_bytes: u64,
    /// Server version
    pub version: String,
}

/// The integer field `key` widened to 64 bits, 0 where there is none.
pub open spec fn int_field(fields: Seq<Field>, key: Seq<char>) -> i64 {
    match lookup(fields, key) {
        Some(Value::Int32(i)) => i as i64,
        Some(Value::Int64(i)) => i,
        _ => 0,
    }
}

/// `info` is what the fields of a server-information object say: each
/// integer field converted from its 64-bit value (0 where missing), the
/// version's text (`unknown` where missing).
pub open spec fn server_info_of(fields: Seq<Field>, info: ServerInfoFields) -> bool {
    &&& info.uptime_seconds == int_field(fields, "uptime_seconds"@) as u64
    &&& info.connection_count == int_field(fields, "connection_count"@) as u32
    &&& info.total_collections == int_field(fields, "total_collections"@) as u64
    &&& info.memory_usage_bytes == int_field(fields, "memory_usage_bytes"@) as u64
    &&& info.version@ == (match text_field(fields, "version"@) {
        Some(t) => t,
        None => "unknown"@,
    })
}

/// The integer field `key`, 0 where there is none.
fn int_or_zero(fields: &Vec<Field>, key: &str) -> (r: i64)
    ensures
        r == int_field(fields@, key@),
{
    match get_field(fields, key) {
        Some(v) => match v.as_i64() {
            Some(i) => i,
            None => 0,
        },
        None => 0,
    }
}

/// The integer fields and version of a server-information result. Fails
/// with a server error where there is no data or the data is not an object.
pub fn server_info_fields(data: &Option<Value>) -> (r: Result<ServerInfoFields, Error>)
    ensures
        data is None ==> (r matches Err(Error::Server(m)) && m@ == "No data in response"@),
        data matches Some(v) && !(v is Object) ==> (r matches Err(Error::Server(m)) && m@
            == "Expected object data"@),
        data matches Some(Value::Object(fields)) ==> (r matches Ok(info) && server_info_of(
            fields@,
            info,
        )),
{
    let fields = match data {
        None => {
            return Err(Error::Server("No data in response".to_owned()));
        },
        Some(Value::Object(fields)) => fields,
        Some(_) => {
            return Err(Error::Server("Expected object data".to_owned()));
        },
    };
    Ok(
        ServerInfoFields {
            uptime_seconds: int_or_zero(fields, "uptime_seconds") as u64,
            connection_count: int_or_zero(fields, "connection_count") as u32,
            total_collections: int_or_zero(fields, "total_collections") as u64,
            memory_usage_bytes: int_or_zero(fields, "memory_usage_bytes") as u64,
            version: text_or(fields, "version", "unknown"),
        },
    )
}

/// The pieces of `b` between newline bytes (`\n`): one more piece than
/// there are newlines.
pub open spec fn split_newlines(b: Seq<u8>) -> Seq<Seq<u8>>
    decreases b.len(),
{
    if b.len() == 0 {
        seq![Seq::empty()]
    } else {
        let s = split_newlines(b.drop_last());
        if b.last() == 10u8 {
            s.push(Seq::empty())
        } else {
            s.update(s.len() - 1, s.last().push(b.last()))
        }
    }
}

/// A line without the `\r` that ends it, if one does.
pub open spec fn strip_cr(line: Seq<u8>) -> Seq<u8> {
    if line.len() > 0 && line.last() == 13u8 {
        line.drop_last()
    } else {
        line
    }
}

/// The pieces that a newline ends, each without a `\r` before that newline.
pub open spec fn ended_lines(pieces: Seq<Seq<u8>>) -> Seq<Seq<u8>> {
    Seq::new((pieces.len() - 1) as nat, |i: int| strip_cr(pieces[i]))
}

/// Whether a line holds anything.
pub open spec fn non_empty(line: Seq<u8>) -> bool {
    line.len() > 0
}

/// The lines of a key listing: the pieces of the bytes between newlines, a
/// `\r` before a newline dropped, the last piece (which no newline ends)
/// kept as it is.
pub open spec fn lines_of(b: Seq<u8>) -> Seq<Seq<u8>> {
    ended_lines(split_newlines(b)).push(split_newlines(b).last())
}

/// The non-empty lines among `lines`, in order.
pub open spec fn non_empty_lines(lines: Seq<Seq<u8>>) -> Seq<Seq<u8>> {
    lines.filter(|l: Seq<u8>| non_empty(l))
}

/// The key names a key listing holds: its non-empty lines.
pub open spec fn key_lines(b: Seq<u8>) -> Seq<Seq<u8>> {
    non_empty_lines(lines_of(b))
}

proof fn lemma_non_empty_lines_push(lines: Seq<Seq<u8>>, l: Seq<u8>)
    ensures
        non_empty_lines(lines.push(l)) == if l.len() > 0 {
            non_empty_lines(lines).push(l)
        } else {
            non_empty_lines(lines)
        },
{
    reveal(Seq::filter);
    assert(lines.push(l).drop_last() =~= lines);
}

proof fn lemma_split_non_empty(b: Seq<u8>)
    ensures
        split_newlines(b).len() >= 1,
    decreases b.len(),
{
    if b.len() > 0 {
        lemma_split_non_empty(b.drop_last());
    }
}

/// The keys of a key listing: one per non-empty line, decoded as lossy UTF-8.
pub fn parse_key_list(payload: &[u8]) -> (r: Vec<String>)
    ensures
        r@.len() == key_lines(payload@).len(),
        forall|i: int|
            0 <= i < r@.len() ==> (#[trigger] r@[i])@ == utf8_lossy(key_lines(payload@)[i]),
{
    let mut out: Vec<String> = Vec::new();
    let mut current: Vec<u8> = Vec::new();
    let mut i: usize = 0;
    proof {
        assert(payload@.subrange(0, 0) =~= Seq::<u8>::empty());
        assert(ended_lines(split_newlines(Seq::<u8>::empty())) =~= Seq::<Seq<u8>>::empty());
        reveal(Seq::filter);
        assert(non_empty_lines(Seq::<Seq<u8>>::empty()) =~= Seq::<Seq<u8>>::empty());
    }
    while i < payload.len()
        invariant
            i <= payload@.len(),
            split_newlines(payload@.subrange(0, i as int)).len() >= 1,
            split_newlines(payload@.subrange(0, i as int)).last() == current@,
            out@.len() == non_empty_lines(ended_lines(split_newlines(payload@.subrange(0, i as int)))).len(),
            forall|j: int|
                0 <= j < out@.len() ==> (#[trigger] out@[j])@ == utf8_lossy(
                    non_empty_lines(ended_lines(split_newlines(payload@.subrange(0, i as int))))[j],
                ),
        decreases payload@.len() - i,
    {
        let ghost prev = payload@.subrange(0, i as int);
        let ghost next = payload@.subrange(0, i + 1);
        let ghost s = split_newlines(prev);
        assert(next.drop_last() =~= prev);
        assert(next.last() == payload@[i as int]);
        let c = payload[i];
        if c == 10u8 {
            if current.len() > 0 && current[current.len() - 1] == 13u8 {
                current.pop();
            }
            proof {
                assert(current@ == strip_cr(s.last()));
                assert(ended_lines(split_newlines(next)) =~= ended_lines(s).push(strip_cr(s.last())));
                lemma_non_empty_lines_push(ended_lines(s), strip_cr(s.last()));
            }
            if current.len() > 0 {
                out.push(lossy_string(current.as_slice()));
            }
            current = Vec::new();
        } else {
            current.push(c);
            proof {
                assert(ended_lines(split_newlines(next)) =~= ended_lines(s));
            }
        }
        i = i + 1;
    }
    assert(payload@.subrange(0, payload@.len() as int) =~= payload@);
    proof {
        lemma_non_empty_lines_push(ended_lines(split_newlines(payload@)), current@);
    }
    if current.len() > 0 {
        out.push(lossy_string(current.as_slice()));
    }
    out
}

} // verus!
