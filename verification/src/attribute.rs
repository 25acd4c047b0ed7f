//! The generic stored record: named attributes that are a string, a number
//! written as a string, or a binary blob; and the conversions between
//! attributes and the values of the domain.
use crate::decimal::{parse_decimal, parse_usize};
use crate::error::{DynamoAggregateError, ErrorView};
use crate::json::{json_decoding, json_error_message, json_error_text, json_from_slice};
use serde_json::Value;
use vstd::prelude::*;

verus! {

/// The value of one attribute of a stored record.
#[derive(Debug, Clone, PartialEq, Eq)]
pub enum Attribute {
    /// A string.
    S(String),
    /// A number, in the store's decimal text.
    N(String),
    /// A binary blob.
    B(Vec<u8>),
    /// A value of a kind that this adapter neither writes nor reads.
    Unsupported,
}

/// The mathematical value of an `Attribute`.
pub enum AttributeView {
    S(Seq<char>),
    N(Seq<char>),
    B(Seq<u8>),
    Unsupported,
}

impl View for Attribute {
    type V = AttributeView;

    open spec fn view(&self) -> AttributeView {
        match self {
            Attribute::S(text) => AttributeView::S(text@),
            Attribute::N(text) => AttributeView::N(text@),
            Attribute::B(bytes) => AttributeView::B(bytes@),
            Attribute::Unsupported => AttributeView::Unsupported,
        }
    }
}

impl Attribute {
    /// A copy of the attribute.
    pub fn duplicate(&self) -> (copy: Attribute)
        ensures
            copy@ == self@,
    {
        match self {
            Attribute::S(text) => Attribute::S(text.clone()),
            Attribute::N(text) => Attribute::N(text.clone()),
            Attribute::B(bytes) => {
                let copy = bytes.clone();
                assert(copy@ =~= bytes@);
                Attribute::B(copy)
            },
            Attribute::Unsupported => Attribute::Unsupported,
        }
    }
}

/// An attribute together with its name.
#[derive(Debug, Clone, PartialEq, Eq)]
pub struct NamedAttribute {
    pub name: String,
    pub value: Attribute,
}

/// A stored record: a map from attribute names to attribute values.
///
/// The attributes are kept in the order in which they were inserted. Where
/// a name occurs more than once, the last occurrence is the attribute of
/// that name; the earlier ones have been replaced.
#[derive(Debug, Clone, PartialEq, Eq)]
pub struct Item {
    pub attributes: Vec<NamedAttribute>,
}

/// The map that a list of named attributes stands for: each one inserted in
/// turn, a later one replacing an earlier one of the same name.
pub open spec fn attributes_map(entries: Seq<NamedAttribute>) -> Map<Seq<char>, AttributeView>
    decreases entries.len(),
{
    if entries.len() == 0 {
        Map::empty()
    } else {
        attributes_map(entries.drop_last()).insert(entries.last().name@, entries.last().value@)
    }
}

impl View for Item {
    type V = Map<Seq<char>, AttributeView>;

    open spec fn view(&self) -> Map<Seq<char>, AttributeView> {
        attributes_map(self.attributes@)
    }
}

/// The attribute of a name in a record, if the record has one.
pub open spec fn lookup(item: Map<Seq<char>, AttributeView>, name: Seq<char>) -> Option<
    AttributeView,
> {
    if item.contains_key(name) {
        Some(item[name])
    } else {
        None
    }
}

/// The view of an attribute that may be absent.
pub open spec fn attribute_view(attribute: Option<&Attribute>) -> Option<AttributeView> {
    match attribute {
        Some(value) => Some(value@),
        None => None,
    }
}

/// An attribute after which no attribute of the same name follows is the
/// attribute of that name.
pub proof fn lemma_last_occurrence(entries: Seq<NamedAttribute>, i: int, name: Seq<char>)
    requires
        0 <= i < entries.len(),
        entries[i].name@ == name,
        forall|j: int| i < j < entries.len() ==> (#[trigger] entries[j]).name@ != name,
    ensures
        attributes_map(entries).contains_key(name),
        attributes_map(entries)[name] == entries[i].value@,
    decreases entries.len(),
{
    if i < entries.len() - 1 {
        let rest = entries.drop_last();
        assert(entries.last() == entries[entries.len() - 1]);
        assert forall|j: int| i < j < rest.len() implies (#[trigger] rest[j]).name@ != name by {
            assert(rest[j] == entries[j]);
        }
        lemma_last_occurrence(rest, i, name);
    }
}

/// A name that no attribute bears is not in the map.
pub proof fn lemma_no_occurrence(entries: Seq<NamedAttribute>, name: Seq<char>)
    requires
        forall|j: int| 0 <= j < entries.len() ==> (#[trigger] entries[j]).name@ != name,
    ensures
        !attributes_map(entries).contains_key(name),
    decreases entries.len(),
{
    if entries.len() > 0 {
        let rest = entries.drop_last();
        assert(entries.last() == entries[entries.len() - 1]);
        assert forall|j: int| 0 <= j < rest.len() implies (#[trigger] rest[j]).name@ != name by {
            assert(rest[j] == entries[j]);
        }
        lemma_no_occurrence(rest, name);
    }
}

impl Item {
    /// A record without attributes.
    pub fn new() -> (item: Item)
        ensures
            item@ == Map::<Seq<char>, AttributeView>::empty(),
    {
        Item { attributes: Vec::new() }
    }

    /// Sets the attribute of a name, replacing the one it had.
    pub fn insert(&mut self, name: &str, value: Attribute)
        ensures
            final(self)@ == old(self)@.insert(name@, value@),
    {
        let entry = NamedAttribute { name: String::from_str(name), value };
        self.attributes.push(entry);
        assert(self.attributes@.drop_last() == old(self).attributes@);
    }

    /// The attribute of a name, if the record has one.
    pub fn get(&self, name: &str) -> (found: Option<&Attribute>)
        ensures
            attribute_view(found) == lookup(self@, name@),
    {
        let target = String::from_str(name);
        let mut i: usize = self.attributes.len();
        while i > 0
            invariant
                i <= self.attributes.len(),
                target@ == name@,
                forall|j: int|
                    i <= j < self.attributes.len() ==> (#[trigger] self.attributes@[j]).name@
                        != name@,
            decreases i,
        {
            i = i - 1;
            if self.attributes[i].name == target {
                proof {
                    lemma_last_occurrence(self.attributes@, i as int, name@);
                }
                return Some(&self.attributes[i].value);
            }
        }
        proof {
            lemma_no_occurrence(self.attributes@, name@);
        }
        None
    }
}

/// What a string attribute decodes to: its text. An absent attribute, or one
/// of another kind, is a deserialization error.
pub open spec fn string_of(attribute: Option<AttributeView>) -> Result<Seq<char>, ErrorView> {
    match attribute {
        None => Err(ErrorView::DeserializationError("missing attribute"@)),
        Some(AttributeView::S(text)) => Ok(text),
        Some(_) => Err(ErrorView::DeserializationError("attribute is not a string"@)),
    }
}

/// What a number attribute decodes to: the counter that its text stands for.
/// An absent attribute, one of another kind, a text that stands for no
/// number and a number that does not fit are deserialization errors.
pub open spec fn number_of(attribute: Option<AttributeView>) -> Result<usize, ErrorView> {
    match attribute {
        None => Err(ErrorView::DeserializationError("missing attribute"@)),
        Some(AttributeView::N(text)) => match parse_decimal(text) {
            Some(n) => if n <= usize::MAX {
                Ok(n as usize)
            } else {
                Err(ErrorView::DeserializationError("attribute does not hold a counter"@))
            },
            None => Err(ErrorView::DeserializationError("attribute does not hold a counter"@)),
        },
        Some(_) => Err(ErrorView::DeserializationError("attribute is not a number"@)),
    }
}

/// What a blob attribute holds: its bytes. An absent attribute, or one of
/// another kind, is a deserialization error.
pub open spec fn blob_of(attribute: Option<AttributeView>) -> Result<Seq<u8>, ErrorView> {
    match attribute {
        None => Err(ErrorView::DeserializationError("missing attribute"@)),
        Some(AttributeView::B(bytes)) => Ok(bytes),
        Some(_) => Err(ErrorView::DeserializationError("attribute is not a blob"@)),
    }
}

/// What reading bytes as JSON comes to: the value that was read, or a
/// deserialization error with the text of the JSON error.
pub open spec fn json_read(read: Result<Value, serde_json::Error>) -> Result<Value, ErrorView> {
    match read {
        Ok(value) => Ok(value),
        Err(error) => Err(ErrorView::DeserializationError(json_error_text(error))),
    }
}

/// What a blob attribute decodes to: the JSON value read from its bytes. An
/// absent attribute, one of another kind and bytes that are no JSON text are
/// deserialization errors; the last carries the text of the JSON error.
pub open spec fn value_of(attribute: Option<AttributeView>) -> Result<Value, ErrorView> {
    match blob_of(attribute) {
        Err(error) => Err(error),
        Ok(bytes) => json_read(json_decoding(bytes)),
    }
}

/// The outcome of decoding a counter, with the error by its view.
pub open spec fn number_outcome(decoded: Result<usize, DynamoAggregateError>) -> Result<
    usize,
    ErrorView,
> {
    match decoded {
        Ok(number) => Ok(number),
        Err(error) => Err(error@),
    }
}

/// The outcome of decoding a text, by its view.
pub open spec fn string_outcome(decoded: Result<String, DynamoAggregateError>) -> Result<
    Seq<char>,
    ErrorView,
> {
    match decoded {
        Ok(text) => Ok(text@),
        Err(error) => Err(error@),
    }
}

/// The outcome of taking the bytes of a blob, by its view.
pub open spec fn blob_outcome(decoded: Result<&Vec<u8>, DynamoAggregateError>) -> Result<
    Seq<u8>,
    ErrorView,
> {
    match decoded {
        Ok(bytes) => Ok(bytes@),
        Err(error) => Err(error@),
    }
}

/// The outcome of decoding a JSON value, with the error by its view.
pub open spec fn value_outcome(decoded: Result<Value, DynamoAggregateError>) -> Result<
    Value,
    ErrorView,
> {
    match decoded {
        Ok(value) => Ok(value),
        Err(error) => Err(error@),
    }
}

/// The bytes of a blob attribute.
pub fn att_as_blob<'a>(attribute: Option<&'a Attribute>) -> (decoded: Result<
    &'a Vec<u8>,
    DynamoAggregateError,
>)
    ensures
        blob_outcome(decoded) == blob_of(attribute_view(attribute)),
{
    match attribute {
        None => Err(DynamoAggregateError::DeserializationError(String::from_str("missing attribute"))),
        Some(Attribute::B(bytes)) => Ok(bytes),
        Some(_) => Err(
            DynamoAggregateError::DeserializationError(String::from_str("attribute is not a blob")),
        ),
    }
}

/// Turns the outcome of reading bytes as JSON into the outcome of decoding:
/// the value that was read, or a deserialization error with the text of the
/// JSON error.
pub fn deserialized(read: Result<Value, serde_json::Error>) -> (decoded: Result<
    Value,
    DynamoAggregateError,
>)
    ensures
        value_outcome(decoded) == json_read(read),
{
    match read {
        Ok(value) => Ok(value),
        Err(error) => Err(DynamoAggregateError::DeserializationError(json_error_message(&error))),
    }
}

/// Decodes a blob attribute into the JSON value that its bytes hold.
pub fn att_as_value(attribute: Option<&Attribute>) -> (decoded: Result<Value, DynamoAggregateError>)
    ensures
        value_outcome(decoded) == value_of(attribute_view(attribute)),
{
    match att_as_blob(attribute) {
        Ok(bytes) => deserialized(json_from_slice(bytes.as_slice())),
        Err(error) => Err(error),
    }
}

/// Decodes a number attribute into a counter.
pub fn att_as_number(attribute: Option<&Attribute>) -> (decoded: Result<usize, DynamoAggregateError>)
    ensures
        number_outcome(decoded) == number_of(attribute_view(attribute)),
{
    match attribute {
        None => Err(DynamoAggregateError::DeserializationError(String::from_str("missing attribute"))),
        Some(Attribute::N(text)) => match parse_usize(text.as_str()) {
            Some(number) => Ok(number),
            None => Err(
                DynamoAggregateError::DeserializationError(
                    String::from_str("attribute does not hold a counter"),
                ),
            ),
        },
        Some(_) => Err(
            DynamoAggregateError::DeserializationError(String::from_str("attribute is not a number")),
        ),
    }
}

/// Decodes a string attribute into its text.
pub fn att_as_string(attribute: Option<&Attribute>) -> (decoded: Result<String, DynamoAggregateError>)
    ensures
        string_outcome(decoded) == string_of(attribute_view(attribute)),
{
    match attribute {
        None => Err(DynamoAggregateError::DeserializationError(String::from_str("missing attribute"))),
        Some(Attribute::S(text)) => Ok(text.clone()),
        Some(_) => Err(
            DynamoAggregateError::DeserializationError(String::from_str("attribute is not a string")),
        ),
    }
}

} // verus!
