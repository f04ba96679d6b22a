use dynamo_mapper::operations::delete_item::DeleteItemOperation;
use dynamo_mapper::operations::get_item::GetItemOperation;
use dynamo_mapper::operations::put_item::item_with_key;
use dynamo_mapper::operations::put_item::PutItemOperation;
use dynamo_mapper::operations::query::QueryOperationOutput;
use dynamo_mapper::operations::response::collect_records;
use dynamo_mapper::operations::response::conversion_result;
use dynamo_mapper::operations::response::ReturnValue;
use dynamo_mapper::operations::update_item::UpdateItemOperation;
use dynamo_mapper::string_map::StringMap;
use dynamo_mapper::AttributeValue;
use dynamo_mapper::Error;
use dynamo_mapper::Item;
use dynamo_mapper::table::Key;
use dynamo_mapper::KeySchema;

fn s(value: &str) -> AttributeValue {
    AttributeValue::S(value.to_string())
}

/// The key of a table without a sort key; its inputs are the encoded values.
#[derive(Debug)]
struct PlainKey;

impl Key for PlainKey {
    type PartitionInput = AttributeValue;
    type SortInput = Option<AttributeValue>;

    fn schema() -> KeySchema {
        KeySchema::partition_only("pk")
    }

    fn partition_key(input: AttributeValue) -> AttributeValue {
        input
    }

    fn sort_key(input: Option<AttributeValue>) -> Option<AttributeValue> {
        input
    }
}

/// The key of a table with a sort key; its inputs are the encoded values.
#[derive(Debug)]
struct CompositeKey;

impl Key for CompositeKey {
    type PartitionInput = AttributeValue;
    type SortInput = Option<AttributeValue>;

    fn schema() -> KeySchema {
        KeySchema::composite("pk", "sk")
    }

    fn partition_key(input: AttributeValue) -> AttributeValue {
        input
    }

    fn sort_key(input: Option<AttributeValue>) -> Option<AttributeValue> {
        input
    }
}

fn people() -> String {
    "People".to_string()
}

fn orders() -> String {
    "Orders".to_string()
}

#[test]
fn get_with_a_partition_only_key() {
    let get: GetItemOperation<(), PlainKey> = GetItemOperation::new(people());
    assert!(!get.has_key());
    let get = get.set_key(s("PERSON#12345"), None);
    assert!(get.has_key());
    let key = get.key.expect("the key is set");
    assert_eq!(key.len(), 1);
    assert_eq!(key.get("pk"), Some(&s("PERSON#12345")));
    assert_eq!(get.table_name, "People");
    assert_eq!(get.consistent_read, None);
    assert_eq!(get.projection_expression, None);
}

#[test]
fn a_key_that_does_not_fit_the_schema_is_not_set() {
    let get: GetItemOperation<(), PlainKey> = GetItemOperation::new(people());
    let get = get.set_key(s("PERSON#1"), Some(s("stray")));
    assert!(!get.has_key());

    let update: UpdateItemOperation<(), CompositeKey> = UpdateItemOperation::new(orders());
    let update = update.set_key(s("ORDER#1"), None);
    assert!(!update.has_key());

    let delete: DeleteItemOperation<(), CompositeKey> = DeleteItemOperation::new(orders());
    let delete = delete.set_key(s("ORDER#1"), Some(s("ITEM#1"))).set_key(s("ORDER#1"), None);
    assert!(!delete.has_key());
}

#[test]
fn a_key_is_set_from_its_value_too() {
    let key = KeySchema::composite("pk", "sk").key(s("ORDER#1"), Some(s("ITEM#2")));
    let get: GetItemOperation<(), CompositeKey> = GetItemOperation::new(orders()).with_key(key);
    assert_eq!(get.key.as_ref().map(|k| k.len()), Some(2));
    assert_eq!(get.key.as_ref().and_then(|k| k.get("sk")), Some(&s("ITEM#2")));
}

#[test]
fn key_of_a_composite_schema_holds_both_components() {
    let schema = KeySchema::composite("pk", "sk");
    let key = schema.key(s("ORDER#1"), Some(s("ITEM#2")));
    assert_eq!(key.len(), 2);
    assert_eq!(key.get("pk"), Some(&s("ORDER#1")));
    assert_eq!(key.get("sk"), Some(&s("ITEM#2")));
}

#[test]
fn schema_accepts_a_sort_key_exactly_where_it_declares_one() {
    let plain = KeySchema::partition_only("pk");
    assert!(plain.accepts_sort_key(&None));
    assert!(!plain.accepts_sort_key(&Some(s("x"))));
    let composite = KeySchema::composite("pk", "sk");
    assert!(composite.accepts_sort_key(&Some(s("x"))));
    assert!(!composite.accepts_sort_key(&None));
    assert_eq!(composite.partition_key, "pk");
    assert_eq!(composite.sort_key, Some("sk".to_string()));
    assert_eq!(plain.sort_key, None);
}

/// A record that is its own attributes, with a fixed key.
#[derive(Debug)]
struct Plain {
    attributes: Item,
}

impl dynamo_mapper::DynamodbTable for Plain {
    type Key = PlainKey;

    fn table_name() -> String {
        people()
    }

    fn key_inputs(&self) -> (AttributeValue, Option<AttributeValue>) {
        (s("PERSON#1"), None)
    }
}

impl From<Plain> for Item {
    fn from(record: Plain) -> Item {
        record.attributes
    }
}

#[test]
fn put_merges_the_key_over_the_record() {
    let record = Plain {
        attributes: StringMap::new()
            .insert("name".to_string(), s("Tanaka"))
            .insert("pk".to_string(), s("stale")),
    };
    let put: PutItemOperation<Plain> = PutItemOperation::new(people());
    assert!(!put.has_item());
    let put = put.set_item(record);
    assert!(put.has_item());
    let item = put.item.expect("the item is set");
    assert_eq!(item.len(), 2);
    assert_eq!(item.get("pk"), Some(&s("PERSON#1")));
    assert_eq!(item.get("name"), Some(&s("Tanaka")));
    assert_eq!(put.return_values, None);

    let merged = item_with_key(
        StringMap::new().insert("a".to_string(), s("1")),
        StringMap::new().insert("b".to_string(), s("2")),
    );
    assert_eq!(merged.len(), 2);

    let put: PutItemOperation<Plain> = PutItemOperation::new(people()).with_item(
        StringMap::new().insert("a".to_string(), s("1")),
        StringMap::new().insert("a".to_string(), s("2")),
    );
    assert_eq!(put.item.as_ref().and_then(|i| i.get("a")), Some(&s("2")));
}

#[test]
fn update_collects_what_was_set() {
    let names = StringMap::new().insert("#n".to_string(), "name".to_string());
    let values: Item = StringMap::new().insert(":n".to_string(), s("Sato"));
    let update: UpdateItemOperation<(), CompositeKey> = UpdateItemOperation::new(orders());
    let update = update
        .set_key(s("ORDER#1"), Some(s("ITEM#2")))
        .set_update_expression("SET #n = :n".to_string())
        .set_condition_expression("attribute_exists (#n)".to_string())
        .set_expression_attribute_names(names)
        .set_expression_attribute_values(values);
    assert!(update.has_key());
    assert_eq!(update.update_expression, Some("SET #n = :n".to_string()));
    assert_eq!(update.condition_expression, Some("attribute_exists (#n)".to_string()));
    assert_eq!(
        update.expression_attribute_names.as_ref().and_then(|m| m.get("#n")),
        Some(&"name".to_string())
    );
    assert_eq!(
        update.expression_attribute_values.as_ref().and_then(|m| m.get(":n")),
        Some(&s("Sato"))
    );
    let key = update.key.expect("the key is set");
    assert_eq!(key.get("pk"), Some(&s("ORDER#1")));
    assert_eq!(key.get("sk"), Some(&s("ITEM#2")));
}

fn attributes() -> Option<Item> {
    Some(StringMap::new().insert("pk".to_string(), s("x")))
}

#[test]
fn update_yields_an_item_for_all_new_or_all_old() {
    let cases = vec![
        (None, false),
        (Some(ReturnValue::Nothing), false),
        (Some(ReturnValue::AllNew), true),
        (Some(ReturnValue::AllOld), true),
        (Some(ReturnValue::UpdatedNew), false),
        (Some(ReturnValue::UpdatedOld), false),
    ];
    for (return_values, wanted) in cases {
        let mut update: UpdateItemOperation<(), CompositeKey> = UpdateItemOperation::new(orders());
        update.return_values = return_values;
        assert_eq!(update.wants_item(), wanted);
        let expected = if wanted { attributes() } else { None };
        assert_eq!(update.returned_item(attributes()), expected);
        assert_eq!(update.returned_item(None), None);
    }
}

#[test]
fn delete_yields_an_item_for_all_old_only() {
    let cases = vec![
        (None, false),
        (Some(ReturnValue::Nothing), false),
        (Some(ReturnValue::AllNew), false),
        (Some(ReturnValue::AllOld), true),
        (Some(ReturnValue::UpdatedNew), false),
        (Some(ReturnValue::UpdatedOld), false),
    ];
    for (return_values, wanted) in cases {
        let mut delete: DeleteItemOperation<(), PlainKey> = DeleteItemOperation::new(people());
        delete.return_values = return_values;
        assert_eq!(delete.wants_item(), wanted);
        let expected = if wanted { attributes() } else { None };
        assert_eq!(delete.returned_item(attributes()), expected);
    }
}

#[test]
fn delete_collects_what_was_set() {
    let delete: DeleteItemOperation<(), PlainKey> = DeleteItemOperation::new(people());
    let delete = delete
        .set_key(s("PERSON#1"), None)
        .set_condition_expression("#a = :a".to_string())
        .set_expression_attribute_names(StringMap::new().insert("#a".to_string(), "age".to_string()))
        .set_expression_attribute_values(StringMap::new().insert(":a".to_string(), s("1")));
    assert_eq!(delete.condition_expression, Some("#a = :a".to_string()));
    assert_eq!(delete.key.as_ref().map(|k| k.len()), Some(1));
    assert_eq!(delete.table_name, "People");
    assert!(delete.expression_attribute_names.is_some());
    assert!(delete.expression_attribute_values.is_some());
}

#[test]
fn one_conversion_failure_aborts_the_batch() {
    let all: Vec<Result<u32, String>> = vec![Ok(1), Ok(2), Ok(3)];
    assert_eq!(collect_records(all), Ok(vec![1, 2, 3]));

    let none: Vec<Result<u32, String>> = vec![];
    assert_eq!(collect_records(none), Ok(vec![]));

    let failing: Vec<Result<u32, String>> = vec![
        Ok(1),
        Err("first".to_string()),
        Ok(3),
        Err("second".to_string()),
    ];
    assert_eq!(
        collect_records(failing),
        Err(Error::Conversion("first".to_string()))
    );
}

#[test]
fn conversion_of_at_most_one_item() {
    let nothing: Option<Result<u32, String>> = None;
    assert_eq!(conversion_result(nothing), Ok(None));
    let record: Option<Result<u32, String>> = Some(Ok(7));
    assert_eq!(conversion_result(record), Ok(Some(7)));
    let failure: Option<Result<u32, String>> = Some(Err("bad".to_string()));
    assert_eq!(conversion_result(failure), Err(Error::Conversion("bad".to_string())));
    let forwarded: Error<String> = Error::Sdk("down".to_string());
    assert_ne!(forwarded, Error::Conversion("down".to_string()));
}

#[test]
fn query_output_keeps_order_and_continuation_key() {
    let last: Item = StringMap::new().insert("pk".to_string(), s("PERSON#9"));
    let converted: Vec<Result<u32, String>> = vec![Ok(3), Ok(1), Ok(2)];
    let output = QueryOperationOutput::decode(converted, Some(last)).expect("all items convert");
    assert_eq!(output.items, vec![3, 1, 2]);
    let last: Item = StringMap::new().insert("pk".to_string(), s("PERSON#9"));
    assert_eq!(output.last_evaluated_key, Some(last));

    let converted: Vec<Result<u32, String>> = vec![Ok(3), Err("broken".to_string()), Ok(2)];
    assert_eq!(
        QueryOperationOutput::decode(converted, None),
        Err(Error::Conversion("broken".to_string()))
    );

    let nothing: Vec<Result<u32, String>> = vec![];
    let output = QueryOperationOutput::decode(nothing, None).expect("no item fails");
    assert_eq!(output.items, Vec::<u32>::new());
    assert_eq!(output.last_evaluated_key, None);
}
