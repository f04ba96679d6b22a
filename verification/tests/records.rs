use dynamo_mapper::helpers::attribute_value::AttributeMap;
use dynamo_mapper::operations::delete_item::DeleteItem;
use dynamo_mapper::operations::get_item::GetItem;
use dynamo_mapper::operations::put_item::PutItem;
use dynamo_mapper::operations::query::Query;
use dynamo_mapper::operations::response::ReturnValue;
use dynamo_mapper::operations::update_item::UpdateItem;
use dynamo_mapper::string_map::StringMap;
use dynamo_mapper::table::DynamodbTable;
use dynamo_mapper::table::Key;
use dynamo_mapper::AttributeValue;
use dynamo_mapper::Item;
use dynamo_mapper::KeySchema;

fn s(value: &str) -> AttributeValue {
    AttributeValue::S(value.to_string())
}

#[derive(Debug)]
struct Person {
    id: String,
    name: String,
    age: u8,
}

#[derive(Debug)]
struct PersonKey;

impl Key for PersonKey {
    type PartitionInput = String;
    type SortInput = ();

    fn schema() -> KeySchema {
        KeySchema::partition_only("pk")
    }

    fn partition_key(input: String) -> AttributeValue {
        AttributeValue::S(format!("PERSON#{}", input))
    }

    fn sort_key(_: ()) -> Option<AttributeValue> {
        None
    }
}

impl DynamodbTable for Person {
    type Key = PersonKey;

    fn table_name() -> String {
        "People".to_string()
    }

    fn key_inputs(&self) -> (String, ()) {
        (self.id.clone(), ())
    }
}

impl GetItem for Person {}

impl PutItem for Person {
    fn return_values() -> Option<ReturnValue> {
        Some(ReturnValue::AllOld)
    }
}

impl UpdateItem for Person {
    fn return_values() -> Option<ReturnValue> {
        Some(ReturnValue::AllNew)
    }
}

impl DeleteItem for Person {}

impl Query for Person {}

impl From<Person> for Item {
    fn from(person: Person) -> Item {
        AttributeMap::new()
            .set_s("id", &person.id)
            .set_s("name", &person.name)
            .set_n("age", &person.age.to_string())
            .into_item()
    }
}

#[derive(Debug)]
struct Staff {
    id: String,
    shop_id: String,
}

#[derive(Debug)]
struct StaffKey;

impl Key for StaffKey {
    type PartitionInput = String;
    type SortInput = String;

    fn schema() -> KeySchema {
        KeySchema::composite("pk", "sk")
    }

    fn partition_key(input: String) -> AttributeValue {
        AttributeValue::S(format!("SHOP#{}", input))
    }

    fn sort_key(input: String) -> Option<AttributeValue> {
        if input.is_empty() {
            None
        } else {
            Some(AttributeValue::S(format!("STAFF#{}", input)))
        }
    }
}

impl DynamodbTable for Staff {
    type Key = StaffKey;

    fn table_name() -> String {
        "E-Commerse".to_string()
    }

    fn key_inputs(&self) -> (String, String) {
        (self.shop_id.clone(), self.id.clone())
    }
}

impl GetItem for Staff {
    fn consistent_read() -> Option<bool> {
        Some(true)
    }

    fn projection_expression() -> Option<String> {
        Some("#n".to_string())
    }

    fn expression_attribute_names() -> Option<StringMap<String>> {
        Some(StringMap::new().insert("#n".to_string(), "name".to_string()))
    }
}

impl UpdateItem for Staff {}

impl DeleteItem for Staff {}

impl Query for Staff {
    fn index_name() -> Option<String> {
        Some("by_shop".to_string())
    }

    fn limit() -> Option<i32> {
        Some(10)
    }

    fn scan_index_forward() -> Option<bool> {
        Some(false)
    }
}

/// A key whose sort-key function gives a value though the schema has no sort key.
#[derive(Debug)]
struct StrayKey;

impl Key for StrayKey {
    type PartitionInput = String;
    type SortInput = String;

    fn schema() -> KeySchema {
        KeySchema::partition_only("pk")
    }

    fn partition_key(input: String) -> AttributeValue {
        AttributeValue::S(input)
    }

    fn sort_key(input: String) -> Option<AttributeValue> {
        Some(AttributeValue::S(input))
    }
}

#[test]
fn get_of_a_person_holds_the_encoded_key() {
    let get = Person::get_item();
    assert_eq!(get.table_name, "People");
    assert_eq!(get.key, None);
    assert_eq!(get.consistent_read, None);
    let get = get.set_key("12345".to_string(), ());
    let key = get.key.expect("the key is set");
    assert_eq!(key.len(), 1);
    assert_eq!(key.get("pk"), Some(&s("PERSON#12345")));
}

#[test]
fn key_of_the_inputs() {
    let key = PersonKey::key("12345".to_string(), ()).expect("the key fits the schema");
    assert_eq!(key.len(), 1);
    assert_eq!(key.get("pk"), Some(&s("PERSON#12345")));

    let key = StaffKey::key("1".to_string(), "100".to_string()).expect("the key fits the schema");
    assert_eq!(key.len(), 2);
    assert_eq!(key.get("pk"), Some(&s("SHOP#1")));
    assert_eq!(key.get("sk"), Some(&s("STAFF#100")));
}

#[test]
fn key_that_does_not_fit_the_schema_is_rejected() {
    assert_eq!(StaffKey::key("1".to_string(), String::new()), None);
    assert_eq!(StrayKey::key("1".to_string(), "2".to_string()), None);
}

#[test]
fn record_builds_its_own_key() {
    let staff = Staff {
        id: "100".to_string(),
        shop_id: "1".to_string(),
    };
    let key = staff.key().expect("the key fits the schema");
    assert_eq!(key.get("pk"), Some(&s("SHOP#1")));
    assert_eq!(key.get("sk"), Some(&s("STAFF#100")));

    let table = Staff::table();
    assert_eq!(table.table_name, "E-Commerse");
    assert_eq!(table.key, KeySchema::composite("pk", "sk"));
}

#[test]
fn operations_start_with_the_preset_options() {
    let get = Staff::get_item();
    assert_eq!(get.table_name, "E-Commerse");
    assert_eq!(get.consistent_read, Some(true));
    assert_eq!(get.projection_expression, Some("#n".to_string()));
    assert_eq!(
        get.expression_attribute_names.as_ref().and_then(|names| names.get("#n")),
        Some(&"name".to_string())
    );
    assert_eq!(get.key, None);

    let put = Person::put_item();
    assert_eq!(put.return_values, Some(ReturnValue::AllOld));
    assert_eq!(put.item, None);
    assert_eq!(put.condition_expression, None);

    let update = Person::update_item();
    assert_eq!(update.return_values, Some(ReturnValue::AllNew));
    assert!(update.wants_item());
    assert_eq!(update.update_expression, None);

    let delete = Person::delete_item();
    assert_eq!(delete.return_values, None);
    assert!(!delete.wants_item());

    let query = Staff::query();
    assert_eq!(query.index_name, Some("by_shop".to_string()));
    assert_eq!(query.limit, Some(10));
    assert_eq!(query.scan_index_forward, Some(false));
    assert_eq!(query.pk_attr, "pk");
    assert_eq!(query.sk_attr, Some("sk".to_string()));
    assert_eq!(query.pk, None);
    assert_eq!(query.sk, None);

    let query = Person::query();
    assert_eq!(query.limit, None);
    assert_eq!(query.sk_attr, None);
}

#[test]
fn put_of_a_person_merges_the_key_in() {
    let person = Person {
        id: "12345".to_string(),
        name: "Tanaka".to_string(),
        age: 20,
    };
    let put = Person::put_item().set_item(person);
    let item = put.item.expect("the item is set");
    assert_eq!(item.len(), 4);
    assert_eq!(item.get("pk"), Some(&s("PERSON#12345")));
    assert_eq!(item.get("id"), Some(&s("12345")));
    assert_eq!(item.get("name"), Some(&s("Tanaka")));
    assert_eq!(item.get("age"), Some(&AttributeValue::N("20".to_string())));
}

#[test]
fn query_of_staff_by_shop() {
    let request = Staff::query()
        .pk_eq("1".to_string())
        .sk_gte("100".to_string())
        .into_request(None);
    assert_eq!(request.key_condition_expression, "#PK = :PK AND #SK >= :SK");
    assert_eq!(request.expression_attribute_values.get(":PK"), Some(&s("SHOP#1")));
    assert_eq!(request.expression_attribute_values.get(":SK"), Some(&s("STAFF#100")));
    assert_eq!(request.index_name, Some("by_shop".to_string()));
    assert_eq!(request.limit, Some(10));
}

#[test]
fn query_of_staff_between_two_ids() {
    let query = Staff::query()
        .pk_eq("1".to_string())
        .sk_between("100".to_string(), "200".to_string());
    assert_eq!(
        query.key_condition_expression(),
        "#PK = :PK AND #SK BETWEEN :SK_FROM AND :SK_TO"
    );
    let request = query.into_request(None);
    assert_eq!(request.expression_attribute_values.get(":SK_FROM"), Some(&s("STAFF#100")));
    assert_eq!(request.expression_attribute_values.get(":SK_TO"), Some(&s("STAFF#200")));

    let query = Staff::query()
        .pk_eq("1".to_string())
        .sk_between("100".to_string(), String::new());
    assert_eq!(query.sk, None);
}

#[test]
fn update_and_delete_of_staff_take_the_typed_key() {
    let update = Staff::update_item().set_key("1".to_string(), "100".to_string());
    let key = update.key.expect("the key is set");
    assert_eq!(key.get("pk"), Some(&s("SHOP#1")));
    assert_eq!(key.get("sk"), Some(&s("STAFF#100")));

    let delete = Staff::delete_item().set_key("1".to_string(), String::new());
    assert!(!delete.has_key());
}
