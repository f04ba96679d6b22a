//! The PutItem operation.

use vstd::prelude::*;
use std::marker::PhantomData;
use crate::helpers::attribute_value::AttributeValue;
use crate::helpers::attribute_value::Item;
use crate::operations::response::ReturnValue;
use crate::string_map::StringMap;
use crate::table::DynamodbTable;

verus! {

/// The PutItem operation on the records `T`, while it is being
/// built. Its fields are what the request holds.
#[derive(Debug)]
pub struct PutItemOperation<T> {
    pub table_name: String,
    pub item: Option<Item>,
    pub return_values: Option<ReturnValue>,
    pub condition_expression: Option<String>,
    pub expression_attribute_names: Option<StringMap<String>>,
    pub expression_attribute_values: Option<Item>,
    pub phantom: PhantomData<T>,
}

/// The options of a write that a record type may preset. Each is unset by default.
#[derive(Debug, PartialEq)]
pub struct PutItemOptions {
    pub return_values: Option<ReturnValue>,
    pub condition_expression: Option<String>,
    pub expression_attribute_names: Option<StringMap<String>>,
    pub expression_attribute_values: Option<Item>,
}

impl PutItemOptions {
    /// The options with none of them set.
    pub fn unset() -> (result: Self)
        ensures
            result == (PutItemOptions {
                return_values: None,
                condition_expression: None,
                expression_attribute_names: None,
                expression_attribute_values: None,
            }),
    {
        PutItemOptions {
            return_values: None,
            condition_expression: None,
            expression_attribute_names: None,
            expression_attribute_values: None,
        }
    }
}

/// The item that is written: the attributes of the record, then those of its
/// key, which replace a record's attribute of the same name.
pub open spec fn written(attributes: Map<Seq<char>, AttributeValue>, key: Map<
    Seq<char>,
    AttributeValue,
>) -> Map<Seq<char>, AttributeValue> {
    attributes.union_prefer_right(key)
}

/// Merges the key of a record into its attributes.
pub fn item_with_key(item: Item, key: Item) -> (result: Item)
    ensures
        result@ == written(item@, key@),
{
    item.extend(key)
}

impl<T: DynamodbTable + Into<Item>> PutItemOperation<T> {
    /// The operation as it starts on the table `table_name` with the preset
    /// `options`: nothing else is set.
    pub open spec fn started(table_name: String, options: PutItemOptions) -> Self {
        PutItemOperation {
            table_name,
            item: None,
            return_values: options.return_values,
            condition_expression: options.condition_expression,
            expression_attribute_names: options.expression_attribute_names,
            expression_attribute_values: options.expression_attribute_values,
            phantom: PhantomData,
        }
    }

    /// Starts the operation on the table `table_name` with the preset `options`.
    pub fn with_options(table_name: String, options: PutItemOptions) -> (result: Self)
        ensures
            result == Self::started(table_name, options),
    {
        PutItemOperation {
            table_name,
            item: None,
            return_values: options.return_values,
            condition_expression: options.condition_expression,
            expression_attribute_names: options.expression_attribute_names,
            expression_attribute_values: options.expression_attribute_values,
            phantom: PhantomData,
        }
    }

    /// Starts the operation on the table `table_name`, with nothing set.
    pub fn new(table_name: String) -> (result: Self)
        ensures
            result == (PutItemOperation {
                table_name,
                item: None,
                return_values: None,
                condition_expression: None,
                expression_attribute_names: None,
                expression_attribute_values: None,
                phantom: PhantomData::<T>,
            }),
    {
        PutItemOperation::with_options(table_name, PutItemOptions::unset())
    }

    /// Sets the item to write from the attributes of a record and the
    /// record's key, which is merged in.
    pub fn with_item(self, attributes: Item, key: Item) -> (result: Self)
        ensures
            result == (PutItemOperation { item: result.item, ..self }),
            match result.item {
                Some(item) => item@ == written(attributes@, key@),
                None => false,
            },
    {
        let item = item_with_key(attributes, key);
        PutItemOperation { item: Some(item), ..self }
    }

    /// Sets the item to write: the attributes that the record converts
    /// into, with the record's own key merged in. Where the record makes no
    /// key, because its sort-key value does not fit the schema, no item is set.
    pub fn set_item(self, item: T) -> (result: Self)
        ensures
            result == (PutItemOperation { item: result.item, ..self }),
            exists|key: Option<Item>, attributes: Item|
                call_ensures(T::key, (&item,), key) && call_ensures(
                    <T as Into<Item>>::into,
                    (item,),
                    attributes,
                ) && match (key, result.item) {
                    (Some(key), Some(written_item)) => written_item@ == written(
                        attributes@,
                        key@,
                    ),
                    (None, None) => true,
                    _ => false,
                },
    {
        let key = item.key();
        let attributes: Item = item.into();
        match key {
            Some(key) => {
                let result = self.with_item(attributes, key);
                assert(call_ensures(T::key, (&item,), Some(key)) && call_ensures(
                    <T as Into<Item>>::into,
                    (item,),
                    attributes,
                ));
                result
            },
            None => {
                assert(call_ensures(T::key, (&item,), None::<Item>) && call_ensures(
                    <T as Into<Item>>::into,
                    (item,),
                    attributes,
                ));
                PutItemOperation { item: None, ..self }
            },
        }
    }

    /// Whether the item is set, as a request needs it.
    pub fn has_item(&self) -> (result: bool)
        ensures
            result == self.item is Some,
    {
        self.item.is_some()
    }
}

/// A record type on which a write of one item can be made. The options that the record
/// type presets are unset by default.
pub trait PutItem: DynamodbTable + Into<Item> {
    /// Which attributes the response returns. Unset unless the record type says otherwise.
    fn return_values() -> (result: Option<ReturnValue>)
        default_ensures
            result is None,
    {
        None
    }

    /// The condition expression. Unset unless the record type says otherwise.
    fn condition_expression() -> (result: Option<String>)
        default_ensures
            result is None,
    {
        None
    }

    /// The attribute names of the expressions. Unset unless the record type says otherwise.
    fn expression_attribute_names() -> (result: Option<StringMap<String>>)
        default_ensures
            result is None,
    {
        None
    }

    /// The attribute values of the expressions. Unset unless the record type says otherwise.
    fn expression_attribute_values() -> (result: Option<Item>)
        default_ensures
            result is None,
    {
        None
    }

    /// Starts the operation on the record type's table, with the options
    /// that the record type presets.
    fn put_item() -> (result: PutItemOperation<Self>)
        ensures
            exists|table_name: String, options: PutItemOptions|
                call_ensures(Self::table_name, (), table_name) && call_ensures(
                    Self::return_values,
                    (),
                    options.return_values,
                ) && call_ensures(
                    Self::condition_expression,
                    (),
                    options.condition_expression,
                ) && call_ensures(
                    Self::expression_attribute_names,
                    (),
                    options.expression_attribute_names,
                ) && call_ensures(
                    Self::expression_attribute_values,
                    (),
                    options.expression_attribute_values,
                ) && result == PutItemOperation::<Self>::started(table_name, options),
    {
        let options = PutItemOptions {
            return_values: Self::return_values(),
            condition_expression: Self::condition_expression(),
            expression_attribute_names: Self::expression_attribute_names(),
            expression_attribute_values: Self::expression_attribute_values(),
        };
        PutItemOperation::with_options(Self::table_name(), options)
    }
}

} // verus!
