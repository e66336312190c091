//! Self-describing values carried as text inside payloads, and documents.

use vstd::prelude::*;

use crate::ids::{DocumentId, ObjectId};

verus! {

/// A tagged value: the JSON types plus object ids, date-times and binary
/// data. Floating-point numbers travel as their IEEE-754 bit pattern and
/// date-times as seconds and nanoseconds since the Unix epoch (UTC).
/// An object is a list of named fields; the first field of a name is the one
/// that counts.
#[derive(Debug)]
pub enum Value {
    /// Null value
    Null,
    /// Boolean value
    Bool(bool),
    /// 32-bit integer
    Int32(i32),
    /// 64-bit integer
    Int64(i64),
    /// 64-bit floating point, as its IEEE-754 bits
    Float64(u64),
    /// String value
    String(String),
    /// Binary data
    Binary(Vec<u8>),
    /// Array of values
    Array(Vec<Value>),
    /// Object with named fields
    Object(Vec<Field>),
    /// Object id
    ObjectId(ObjectId),
    /// UTC date-time: seconds and nanoseconds since the Unix epoch
    DateTime(i64, u32),
}

/// A named field of an object or document.
#[derive(Debug)]
pub struct Field {
    /// The field's name
    pub name: String,
    /// The field's value
    pub value: Value,
}

/// The value of the first field named `key`, if any.
pub open spec fn lookup(fields: Seq<Field>, key: Seq<char>) -> Option<Value>
    decreases fields.len(),
{
    if fields.len() == 0 {
        None
    } else if fields[0].name@ == key {
        Some(fields[0].value)
    } else {
        lookup(fields.drop_first(), key)
    }
}

/// Replacing the field at `i`, whose name is `key`, changes what `key` looks
/// up to and nothing else, provided no earlier field is named `key`.
proof fn lemma_lookup_update(
    fields: Seq<Field>,
    i: int,
    key: Seq<char>,
    e: Field,
    other: Seq<char>,
)
    requires
        0 <= i < fields.len(),
        fields[i].name@ == key,
        e.name@ == key,
        forall|j: int| 0 <= j < i ==> fields[j].name@ != key,
    ensures
        lookup(fields.update(i, e), key) == Some(e.value),
        other != key ==> lookup(fields.update(i, e), other) == lookup(fields, other),
    decreases fields.len(),
{
    let u = fields.update(i, e);
    if i > 0 {
        assert(u.drop_first() =~= fields.drop_first().update(i - 1, e));
        lemma_lookup_update(fields.drop_first(), i - 1, key, e, other);
    } else {
        assert(u.drop_first() =~= fields.drop_first());
    }
}

/// Appending a field named `key` where none is makes `key` look up to it and
/// changes nothing else.
proof fn lemma_lookup_push(fields: Seq<Field>, e: Field, other: Seq<char>)
    requires
        forall|j: int| 0 <= j < fields.len() ==> fields[j].name@ != e.name@,
    ensures
        lookup(fields.push(e), e.name@) == Some(e.value),
        other != e.name@ ==> lookup(fields.push(e), other) == lookup(fields, other),
    decreases fields.len(),
{
    let u = fields.push(e);
    if fields.len() > 0 {
        assert(u.drop_first() =~= fields.drop_first().push(e));
        assert(u[0] == fields[0]);
        assert forall|j: int| 0 <= j < fields.len() - 1 implies fields.drop_first()[j].name@
            != e.name@ by {
            assert(fields.drop_first()[j] == fields[j + 1]);
        }
        lemma_lookup_push(fields.drop_first(), e, other);
        lemma_lookup_push(fields.drop_first(), e, e.name@);
    } else {
        assert(u.drop_first() =~= Seq::<Field>::empty());
        assert(lookup(u.drop_first(), other) is None);
        assert(lookup(fields, other) is None);
    }
}

/// No two fields share a name.
pub open spec fn unique_names(fields: Seq<Field>) -> bool {
    forall|i: int, j: int| 0 <= i < j < fields.len() ==> fields[i].name@ != fields[j].name@
}

/// The value of the first field named `key`.
pub fn get_field<'a>(fields: &'a Vec<Field>, key: &str) -> (r: Option<&'a Value>)
    ensures
        r matches Some(v) ==> lookup(fields@, key@) == Some(*v),
        r is None ==> lookup(fields@, key@) is None,
{
    let k = key.to_owned();
    let mut i: usize = 0;
    assert(fields@.subrange(0, fields@.len() as int) =~= fields@);
    while i < fields.len()
        invariant
            i <= fields@.len(),
            k@ == key@,
            lookup(fields@, key@) == lookup(fields@.subrange(i as int, fields@.len() as int), key@),
        decreases fields@.len() - i,
    {
        let ghost rest = fields@.subrange(i as int, fields@.len() as int);
        if fields[i].name == k {
            assert(rest[0] == fields@[i as int]);
            return Some(&fields[i].value);
        }
        assert(rest.drop_first() =~= fields@.subrange(i + 1, fields@.len() as int));
        i = i + 1;
    }
    None
}

/// Sets the field named `key` to `value`: the first field of that name is
/// replaced, or a field is appended where there is none.
pub fn set_field(fields: &mut Vec<Field>, key: &str, value: Value)
    ensures
        unique_names(old(fields)@) ==> unique_names(final(fields)@),
        lookup(final(fields)@, key@) == Some(value),
        forall|other: Seq<char>|
            other != key@ ==> lookup(final(fields)@, other) == #[trigger] lookup(
                old(fields)@,
                other,
            ),
{
    let k = key.to_owned();
    let mut i: usize = 0;
    while i < fields.len()
        invariant
            i <= fields@.len(),
            k@ == key@,
            fields@ == old(fields)@,
            forall|j: int| 0 <= j < i ==> fields@[j].name@ != key@,
        decreases fields@.len() - i,
    {
        if fields[i].name == k {
            let ghost before = fields@;
            let e = Field { name: k, value };
            proof {
                if unique_names(before) {
                    assert forall|a: int, b: int|
                        0 <= a < b < before.len() implies before.update(i as int, e)[a].name@
                        != before.update(i as int, e)[b].name@ by {
                        assert(before[a].name@ != before[b].name@);
                    }
                }
                assert forall|other: Seq<char>| other != key@ implies lookup(
                    before.update(i as int, e),
                    other,
                ) == lookup(before, other) by {
                    lemma_lookup_update(before, i as int, key@, e, other);
                }
                lemma_lookup_update(before, i as int, key@, e, key@);
            }
            fields.set(i, e);
            return ;
        }
        i = i + 1;
    }
    let ghost before = fields@;
    let e = Field { name: k, value };
    proof {
        assert forall|other: Seq<char>| other != key@ implies lookup(before.push(e), other)
            == lookup(before, other) by {
            lemma_lookup_push(before, e, other);
        }
        lemma_lookup_push(before, e, key@);
    }
    fields.push(e);
}

impl Value {
    /// Whether the value is null.
    pub fn is_null(&self) -> (r: bool)
        ensures
            r == (*self is Null),
    {
        match self {
            Value::Null => true,
            _ => false,
        }
    }

    /// The boolean, if the value is one.
    pub fn as_bool(&self) -> (r: Option<bool>)
        ensures
            r == (match *self {
                Value::Bool(b) => Some(b),
                _ => None,
            }),
    {
        match self {
            Value::Bool(b) => Some(*b),
            _ => None,
        }
    }

    /// The integer, widened to 64 bits, if the value is one.
    pub fn as_i64(&self) -> (r: Option<i64>)
        ensures
            r == (match *self {
                Value::Int32(i) => Some(i as i64),
                Value::Int64(i) => Some(i),
                _ => None,
            }),
    {
        match self {
            Value::Int32(i) => Some(*i as i64),
            Value::Int64(i) => Some(*i),
            _ => None,
        }
    }

    /// The string, if the value is one.
    pub fn as_str(&self) -> (r: Option<&str>)
        ensures
            r matches Some(s) ==> (*self matches Value::String(t) && s@ == t@),
            r is None <==> !(*self is String),
    {
        match self {
            Value::String(s) => Some(s.as_str()),
            _ => None,
        }
    }

    /// The elements, if the value is an array.
    pub fn as_array(&self) -> (r: Option<&Vec<Value>>)
        ensures
            r matches Some(a) ==> (*self matches Value::Array(b) && a@ == b@),
            r is None <==> !(*self is Array),
    {
        match self {
            Value::Array(a) => Some(a),
            _ => None,
        }
    }

    /// The fields, if the value is an object.
    pub fn as_object(&self) -> (r: Option<&Vec<Field>>)
        ensures
            r matches Some(a) ==> (*self matches Value::Object(b) && a@ == b@),
            r is None <==> !(*self is Object),
    {
        match self {
            Value::Object(o) => Some(o),
            _ => None,
        }
    }
}

impl From<bool> for Value {
    fn from(b: bool) -> (r: Self) {
        Value::Bool(b)
    }
}

impl vstd::std_specs::convert::FromSpecImpl<bool> for Value {
    open spec fn obeys_from_spec() -> bool {
        true
    }

    open spec fn from_spec(b: bool) -> Value {
        Value::Bool(b)
    }
}

impl From<i32> for Value {
    fn from(i: i32) -> (r: Self) {
        Value::Int32(i)
    }
}

impl vstd::std_specs::convert::FromSpecImpl<i32> for Value {
    open spec fn obeys_from_spec() -> bool {
        true
    }

    open spec fn from_spec(i: i32) -> Value {
        Value::Int32(i)
    }
}

impl From<i64> for Value {
    fn from(i: i64) -> (r: Self) {
        Value::Int64(i)
    }
}

impl vstd::std_specs::convert::FromSpecImpl<i64> for Value {
    open spec fn obeys_from_spec() -> bool {
        true
    }

    open spec fn from_spec(i: i64) -> Value {
        Value::Int64(i)
    }
}

impl From<String> for Value {
    fn from(s: String) -> (r: Self) {
        Value::String(s)
    }
}

impl vstd::std_specs::convert::FromSpecImpl<String> for Value {
    open spec fn obeys_from_spec() -> bool {
        true
    }

    open spec fn from_spec(s: String) -> Value {
        Value::String(s)
    }
}

impl From<&str> for Value {
    fn from(s: &str) -> (r: Self)
        ensures
            r matches Value::String(t) && t@ == s@,
    {
        Value::String(s.to_owned())
    }
}

impl vstd::std_specs::convert::FromSpecImpl<&str> for Value {
    /// The text of the result is stated by `from` itself.
    open spec fn obeys_from_spec() -> bool {
        false
    }

    open spec fn from_spec(s: &str) -> Value {
        Value::Null
    }
}

impl From<Vec<u8>> for Value {
    fn from(b: Vec<u8>) -> (r: Self) {
        Value::Binary(b)
    }
}

impl vstd::std_specs::convert::FromSpecImpl<Vec<u8>> for Value {
    open spec fn obeys_from_spec() -> bool {
        true
    }

    open spec fn from_spec(b: Vec<u8>) -> Value {
        Value::Binary(b)
    }
}

impl From<Vec<Value>> for Value {
    fn from(a: Vec<Value>) -> (r: Self) {
        Value::Array(a)
    }
}

impl vstd::std_specs::convert::FromSpecImpl<Vec<Value>> for Value {
    open spec fn obeys_from_spec() -> bool {
        true
    }

    open spec fn from_spec(a: Vec<Value>) -> Value {
        Value::Array(a)
    }
}

impl From<ObjectId> for Value {
    fn from(oid: ObjectId) -> (r: Self) {
        Value::ObjectId(oid)
    }
}

impl vstd::std_specs::convert::FromSpecImpl<ObjectId> for Value {
    open spec fn obeys_from_spec() -> bool {
        true
    }

    open spec fn from_spec(oid: ObjectId) -> Value {
        Value::ObjectId(oid)
    }
}

/// A document: its id and named fields.
#[derive(Debug)]
pub struct Document {
    /// The document's id
    pub id: DocumentId,
    /// The document's fields
    pub fields: Vec<Field>,
}

impl Document {
    /// No two fields of the document share a name.
    pub open spec fn wf(&self) -> bool {
        unique_names(self.fields@)
    }

    /// An empty document with a fresh random id.
    pub fn new() -> (r: Self)
        ensures
            r.wf(),
            r.fields@.len() == 0,
            r.id.0@[6] >> 4u8 == 4,
            r.id.0@[8] >> 6u8 == 2,
    {
        Document { id: DocumentId::new(), fields: Vec::new() }
    }

    /// An empty document with the given id.
    pub fn with_id(id: DocumentId) -> (r: Self)
        ensures
            r.wf(),
            r.id == id,
            r.fields@.len() == 0,
    {
        Document { id, fields: Vec::new() }
    }

    /// Sets the field `key` to `value`, leaving the other fields as they were.
    pub fn insert(&mut self, key: &str, value: Value)
        ensures
            old(self).wf() ==> final(self).wf(),
            final(self).id == old(self).id,
            lookup(final(self).fields@, key@) == Some(value),
            forall|other: Seq<char>|
                other != key@ ==> lookup(final(self).fields@, other) == #[trigger] lookup(
                    old(self).fields@,
                    other,
                ),
    {
        set_field(&mut self.fields, key, value);
    }

    /// The value of the field `key`, if the document has one.
    pub fn get(&self, key: &str) -> (r: Option<&Value>)
        ensures
            r matches Some(v) ==> lookup(self.fields@, key@) == Some(*v),
            r is None ==> lookup(self.fields@, key@) is None,
    {
        get_field(&self.fields, key)
    }
}

impl Default for Document {
    fn default() -> (r: Self)
        ensures
            r.wf(),
            r.fields@.len() == 0,
    {
        Self::new()
    }
}

} // verus!
