//! The key schema of a table and the primary keys built from it.

use vstd::prelude::*;
use vstd::string::*;
use crate::helpers::attribute_value::AttributeValue;
use crate::helpers::attribute_value::Item;
use crate::string_map::StringMap;

verus! {

/// The attribute names of a table's primary key. A table without a sort key
/// has no sort-key attribute name.
#[derive(Debug, PartialEq)]
pub struct KeySchema {
    /// The attribute name of the partition key.
    pub partition_key: String,
    /// The attribute name of the sort key, if the table has one.
    pub sort_key: Option<String>,
}

/// A table: its name and the schema of its primary key.
#[derive(Debug, PartialEq)]
pub struct TableSchema {
    /// The name of the table.
    pub table_name: String,
    /// The attribute names of its primary key.
    pub key: KeySchema,
}

impl KeySchema {
    /// Whether a sort-key value fits the schema: there is one exactly where
    /// the schema declares a sort key.
    pub open spec fn accepts(self, sk: Option<AttributeValue>) -> bool {
        self.sort_key is Some <==> sk is Some
    }

    /// The primary key of the given components: the partition-key value under
    /// the partition-key attribute, then the sort-key value under the
    /// sort-key attribute where both are there.
    pub open spec fn key_map(self, pk: AttributeValue, sk: Option<AttributeValue>) -> Map<
        Seq<char>,
        AttributeValue,
    > {
        let base = Map::<Seq<char>, AttributeValue>::empty().insert(self.partition_key@, pk);
        match (self.sort_key, sk) {
            (Some(attr), Some(value)) => base.insert(attr@, value),
            _ => base,
        }
    }

    /// The schema of a table with a partition key only.
    pub fn partition_only(partition_key: &str) -> (result: Self)
        requires
            partition_key@.len() > 0,
        ensures
            result.partition_key@ == partition_key@,
            result.sort_key is None,
    {
        KeySchema { partition_key: String::from_str(partition_key), sort_key: None }
    }

    /// The schema of a table with a partition key and a sort key.
    pub fn composite(partition_key: &str, sort_key: &str) -> (result: Self)
        requires
            partition_key@.len() > 0,
        ensures
            result.partition_key@ == partition_key@,
            match result.sort_key {
                Some(attr) => attr@ == sort_key@,
                None => false,
            },
    {
        KeySchema {
            partition_key: String::from_str(partition_key),
            sort_key: Some(String::from_str(sort_key)),
        }
    }

    /// Tests whether a sort-key value fits the schema.
    pub fn accepts_sort_key(&self, sk: &Option<AttributeValue>) -> (result: bool)
        ensures
            result == self.accepts(*sk),
    {
        self.sort_key.is_some() == sk.is_some()
    }

    /// Builds the primary key of the given components.
    pub fn key(&self, pk: AttributeValue, sk: Option<AttributeValue>) -> (result: Item)
        requires
            self.accepts(sk),
        ensures
            result@ == self.key_map(pk, sk),
    {
        let map: Item = StringMap::new();
        let map = map.insert(self.partition_key.clone(), pk);
        match (&self.sort_key, sk) {
            (Some(attr), Some(value)) => map.insert(attr.clone(), value),
            _ => map,
        }
    }
}

/// The key of a record type: the attribute names of its table's primary key
/// and how the caller's inputs are encoded as key values.
pub trait Key {
    /// What the partition-key value is made from.
    type PartitionInput;

    /// What the sort-key value is made from.
    type SortInput;

    /// The attribute names of the primary key.
    fn schema() -> KeySchema;

    /// Encodes the partition-key value.
    fn partition_key(input: Self::PartitionInput) -> AttributeValue;

    /// Encodes the sort-key value. A table without a sort key has none.
    fn sort_key(input: Self::SortInput) -> Option<AttributeValue>;

    /// Builds the primary key from the inputs: the key of the encoded values
    /// under the schema, and nothing where the encoded sort-key value does
    /// not fit the schema.
    fn key(pk: Self::PartitionInput, sk: Self::SortInput) -> (result: Option<Item>)
        ensures
            exists|schema: KeySchema, p: AttributeValue, s: Option<AttributeValue>|
                call_ensures(Self::schema, (), schema) && call_ensures(
                    Self::partition_key,
                    (pk,),
                    p,
                ) && call_ensures(Self::sort_key, (sk,), s) && match result {
                    Some(item) => schema.accepts(s) && item@ == schema.key_map(p, s),
                    None => !schema.accepts(s),
                },
    {
        let schema = Self::schema();
        let p = Self::partition_key(pk);
        let s = Self::sort_key(sk);
        if schema.accepts_sort_key(&s) {
            Some(schema.key(p, s))
        } else {
            None
        }
    }
}

/// A record type that is kept in a table.
pub trait DynamodbTable {
    /// The key of the record type.
    type Key: Key;

    /// The name of the table.
    fn table_name() -> String;

    /// The inputs from which the record's own key is made.
    fn key_inputs(&self) -> (
        <<Self as DynamodbTable>::Key as Key>::PartitionInput,
        <<Self as DynamodbTable>::Key as Key>::SortInput,
    );

    /// Builds the record's own primary key: the key of its key inputs.
    fn key(&self) -> (result: Option<Item>)
        ensures
            exists|
                inputs: (
                    <<Self as DynamodbTable>::Key as Key>::PartitionInput,
                    <<Self as DynamodbTable>::Key as Key>::SortInput,
                ),
            |
                call_ensures(Self::key_inputs, (self,), inputs) && call_ensures(
                    <<Self as DynamodbTable>::Key as Key>::key,
                    (inputs.0, inputs.1),
                    result,
                ),
    {
        let (pk, sk) = self.key_inputs();
        <<Self as DynamodbTable>::Key as Key>::key(pk, sk)
    }

    /// The table of the record type: its name and its key schema.
    fn table() -> (result: TableSchema)
        ensures
            call_ensures(Self::table_name, (), result.table_name),
            call_ensures(<<Self as DynamodbTable>::Key as Key>::schema, (), result.key),
    {
        TableSchema {
            table_name: Self::table_name(),
            key: <<Self as DynamodbTable>::Key as Key>::schema(),
        }
    }
}

} // verus!
