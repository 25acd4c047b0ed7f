use dynamo_es::attribute::{
    att_as_blob, att_as_number, att_as_string, att_as_value, deserialized, Attribute, Item,
    NamedAttribute,
};
use dynamo_es::error::DynamoAggregateError;
use serde_json::Value;

fn deserialization(text: &str) -> DynamoAggregateError {
    DynamoAggregateError::DeserializationError(text.to_string())
}

#[test]
fn a_new_record_has_no_attribute() {
    let item = Item::new();
    assert!(item.attributes.is_empty());
    assert_eq!(item.get("Payload"), None);
}

#[test]
fn an_inserted_attribute_is_found_under_its_name() {
    let mut item = Item::new();
    item.insert("AggregateId", Attribute::S("id-1".to_string()));
    item.insert("AggregateIdSequence", Attribute::N("3".to_string()));
    assert_eq!(item.get("AggregateId"), Some(&Attribute::S("id-1".to_string())));
    assert_eq!(item.get("AggregateIdSequence"), Some(&Attribute::N("3".to_string())));
    assert_eq!(item.get("aggregateid"), None);
    assert_eq!(item.get(""), None);
}

#[test]
fn a_later_attribute_replaces_an_earlier_one_of_the_same_name() {
    let mut item = Item::new();
    item.insert("ViewVersion", Attribute::N("1".to_string()));
    item.insert("Payload", Attribute::B(vec![1, 2, 3]));
    item.insert("ViewVersion", Attribute::N("2".to_string()));
    assert_eq!(item.get("ViewVersion"), Some(&Attribute::N("2".to_string())));
    assert_eq!(item.get("Payload"), Some(&Attribute::B(vec![1, 2, 3])));
}

#[test]
fn attributes_are_kept_in_the_order_of_insertion() {
    let mut item = Item::new();
    item.insert("b", Attribute::Unsupported);
    item.insert("a", Attribute::S("x".to_string()));
    assert_eq!(
        item.attributes,
        vec![
            NamedAttribute { name: "b".to_string(), value: Attribute::Unsupported },
            NamedAttribute { name: "a".to_string(), value: Attribute::S("x".to_string()) },
        ]
    );
}

#[test]
fn a_string_attribute_decodes_to_its_text() {
    let attribute = Attribute::S("TestAggregate".to_string());
    assert_eq!(att_as_string(Some(&attribute)), Ok("TestAggregate".to_string()));
    let empty = Attribute::S(String::new());
    assert_eq!(att_as_string(Some(&empty)), Ok(String::new()));
}

#[test]
fn a_missing_string_attribute_is_a_deserialization_error() {
    assert_eq!(att_as_string(None), Err(deserialization("missing attribute")));
}

#[test]
fn an_attribute_of_another_kind_is_no_string() {
    let number = Attribute::N("1".to_string());
    assert_eq!(att_as_string(Some(&number)), Err(deserialization("attribute is not a string")));
    let blob = Attribute::B(b"\"text\"".to_vec());
    assert_eq!(att_as_string(Some(&blob)), Err(deserialization("attribute is not a string")));
    assert_eq!(
        att_as_string(Some(&Attribute::Unsupported)),
        Err(deserialization("attribute is not a string"))
    );
}

#[test]
fn a_number_attribute_decodes_to_its_counter() {
    assert_eq!(att_as_number(Some(&Attribute::N("0".to_string()))), Ok(0));
    assert_eq!(att_as_number(Some(&Attribute::N("17".to_string()))), Ok(17));
    assert_eq!(
        att_as_number(Some(&Attribute::N(usize::MAX.to_string()))),
        Ok(usize::MAX)
    );
}

#[test]
fn a_missing_number_attribute_is_a_deserialization_error() {
    assert_eq!(att_as_number(None), Err(deserialization("missing attribute")));
}

#[test]
fn an_attribute_of_another_kind_is_no_number() {
    let text = Attribute::S("1".to_string());
    assert_eq!(att_as_number(Some(&text)), Err(deserialization("attribute is not a number")));
    let blob = Attribute::B(b"1".to_vec());
    assert_eq!(att_as_number(Some(&blob)), Err(deserialization("attribute is not a number")));
}

#[test]
fn a_number_attribute_that_holds_no_counter_is_a_deserialization_error() {
    for text in ["", "-1", "1.5", "one", "18446744073709551616"] {
        assert_eq!(
            att_as_number(Some(&Attribute::N(text.to_string()))),
            Err(deserialization("attribute does not hold a counter")),
            "text {:?}",
            text
        );
    }
}

#[test]
fn a_blob_attribute_decodes_to_its_json_value() {
    let blob = Attribute::B(b"{\"name\":\"a\",\"tags\":[1,true,null]}".to_vec());
    let mut expected = serde_json::Map::new();
    expected.insert("name".to_string(), Value::from("a"));
    expected.insert(
        "tags".to_string(),
        Value::Array(vec![Value::from(1), Value::Bool(true), Value::Null]),
    );
    assert_eq!(att_as_value(Some(&blob)), Ok(Value::Object(expected)));
    assert_eq!(att_as_value(Some(&Attribute::B(b"null".to_vec()))), Ok(Value::Null));
}

#[test]
fn a_missing_blob_attribute_is_a_deserialization_error() {
    assert_eq!(att_as_value(None), Err(deserialization("missing attribute")));
}

#[test]
fn an_attribute_of_another_kind_is_no_blob() {
    let text = Attribute::S("{}".to_string());
    assert_eq!(att_as_value(Some(&text)), Err(deserialization("attribute is not a blob")));
    let number = Attribute::N("1".to_string());
    assert_eq!(att_as_value(Some(&number)), Err(deserialization("attribute is not a blob")));
}

#[test]
fn a_blob_that_is_no_json_is_a_deserialization_error_with_the_parser_text() {
    for bytes in [&b"{\"name\":"[..], &b""[..], &b"{]"[..], &[0xff, 0xfe][..]] {
        let expected = serde_json::from_slice::<Value>(bytes).unwrap_err().to_string();
        assert!(!expected.is_empty());
        assert_eq!(
            att_as_value(Some(&Attribute::B(bytes.to_vec()))),
            Err(DynamoAggregateError::DeserializationError(expected))
        );
    }
}

#[test]
fn a_copy_of_an_attribute_equals_it() {
    for attribute in [
        Attribute::S("text".to_string()),
        Attribute::N("12".to_string()),
        Attribute::B(vec![0, 255, 7]),
        Attribute::Unsupported,
    ] {
        assert_eq!(attribute.duplicate(), attribute);
    }
}

#[test]
fn a_blob_attribute_gives_its_bytes() {
    let blob = Attribute::B(vec![1, 2, 3]);
    assert_eq!(att_as_blob(Some(&blob)), Ok(&vec![1u8, 2, 3]));
    assert_eq!(att_as_blob(None), Err(deserialization("missing attribute")));
    let text = Attribute::S("abc".to_string());
    assert_eq!(att_as_blob(Some(&text)), Err(deserialization("attribute is not a blob")));
}

#[test]
fn a_value_that_was_read_is_the_decoded_value() {
    assert_eq!(deserialized(Ok(Value::from(3))), Ok(Value::from(3)));
}

#[test]
fn a_json_error_is_a_deserialization_error_with_its_text() {
    let failure = serde_json::from_slice::<Value>(b"[1 2]").unwrap_err();
    let text = failure.to_string();
    assert_eq!(deserialized(Err(failure)), Err(DynamoAggregateError::DeserializationError(text)));
}
