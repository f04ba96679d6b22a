//! The GetItem operation.

use vstd::prelude::*;
use std::marker::PhantomData;
use crate::helpers::attribute_value::Item;
use crate::string_map::StringMap;
use crate::table::DynamodbTable;
use crate::table::Key;

verus! {

/// The GetItem operation on the records `T` with the key `K`, while it is being
/// built. Its fields are what the request holds.
#[derive(Debug)]
pub struct GetItemOperation<T, K> {
    pub table_name: String,
    pub key: Option<Item>,
    pub consistent_read: Option<bool>,
    pub projection_expression: Option<String>,
    pub expression_attribute_names: Option<StringMap<String>>,
    pub item: PhantomData<T>,
    pub key_builder: PhantomData<K>,
}

/// The options of a read that a record type may preset. Each is unset by default.
#[derive(Debug, PartialEq)]
pub struct GetItemOptions {
    pub consistent_read: Option<bool>,
    pub projection_expression: Option<String>,
    pub expression_attribute_names: Option<StringMap<String>>,
}

impl GetItemOptions {
    /// The options with none of them set.
    pub fn unset() -> (result: Self)
        ensures
            result == (GetItemOptions {
                consistent_read: None,
                projection_expression: None,
                expression_attribute_names: None,
            }),
    {
        GetItemOptions {
            consistent_read: None,
            projection_expression: None,
            expression_attribute_names: None,
        }
    }
}

impl<T, K: Key> GetItemOperation<T, K> {
    /// The operation as it starts on the table `table_name` with the preset
    /// `options`: nothing else is set.
    pub open spec fn started(table_name: String, options: GetItemOptions) -> Self {
        GetItemOperation {
            table_name,
            key: None,
            consistent_read: options.consistent_read,
            projection_expression: options.projection_expression,
            expression_attribute_names: options.expression_attribute_names,
            item: PhantomData,
            key_builder: PhantomData,
        }
    }

    /// Starts the operation on the table `table_name` with the preset `options`.
    pub fn with_options(table_name: String, options: GetItemOptions) -> (result: Self)
        ensures
            result == Self::started(table_name, options),
    {
        GetItemOperation {
            table_name,
            key: None,
            consistent_read: options.consistent_read,
            projection_expression: options.projection_expression,
            expression_attribute_names: options.expression_attribute_names,
            item: PhantomData,
            key_builder: PhantomData,
        }
    }

    /// Starts the operation on the table `table_name`, with nothing set.
    pub fn new(table_name: String) -> (result: Self)
        ensures
            result == (GetItemOperation {
                table_name,
                key: None,
                consistent_read: None,
                projection_expression: None,
                expression_attribute_names: None,
                item: PhantomData::<T>,
                key_builder: PhantomData::<K>,
            }),
    {
        GetItemOperation::with_options(table_name, GetItemOptions::unset())
    }

    /// Sets the key of the item.
    pub fn with_key(self, key: Item) -> (result: Self)
        ensures
            result == (GetItemOperation { key: Some(key), ..self }),
    {
        GetItemOperation { key: Some(key), ..self }
    }

    /// Sets the key of the item to the key that `K` makes of the inputs.
    /// Where it makes none, because the sort-key value does not fit the
    /// schema, no key is set.
    pub fn set_key(self, pk: K::PartitionInput, sk: K::SortInput) -> (result: Self)
        ensures
            call_ensures(K::key, (pk, sk), result.key),
            result == (GetItemOperation { key: result.key, ..self }),
    {
        let key = K::key(pk, sk);
        GetItemOperation { key, ..self }
    }

    /// Whether the key is set, as a request needs it.
    pub fn has_key(&self) -> (result: bool)
        ensures
            result == self.key is Some,
    {
        self.key.is_some()
    }
}

/// A record type on which a read of one item can be made. The options that the record
/// type presets are unset by default.
pub trait GetItem: DynamodbTable + Sized {
    /// Whether reads are strongly consistent. Unset unless the record type says otherwise.
    fn consistent_read() -> (result: Option<bool>)
        default_ensures
            result is None,
    {
        None
    }

    /// The projection expression. Unset unless the record type says otherwise.
    fn projection_expression() -> (result: Option<String>)
        default_ensures
            result is None,
    {
        None
    }

    /// The attribute names of the expressions. Unset unless the record type says otherwise.
    fn expression_attribute_names() -> (result: Option<StringMap<String>>)
        default_ensures
            result is None,
    {
        None
    }

    /// Starts the operation on the record type's table, with the options
    /// that the record type presets.
    fn get_item() -> (result: GetItemOperation<Self, <Self as DynamodbTable>::Key>)
        ensures
            exists|table_name: String, options: GetItemOptions|
                call_ensures(Self::table_name, (), table_name) && call_ensures(
                    Self::consistent_read,
                    (),
                    options.consistent_read,
                ) && call_ensures(
                    Self::projection_expression,
                    (),
                    options.projection_expression,
                ) && call_ensures(
                    Self::expression_attribute_names,
                    (),
                    options.expression_attribute_names,
                ) && result == GetItemOperation::<Self, <Self as DynamodbTable>::Key>::started(table_name, options),
    {
        let options = GetItemOptions {
            consistent_read: Self::consistent_read(),
            projection_expression: Self::projection_expression(),
            expression_attribute_names: Self::expression_attribute_names(),
        };
        GetItemOperation::with_options(Self::table_name(), options)
    }
}

} // verus!
