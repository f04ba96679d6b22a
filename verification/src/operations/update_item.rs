//! The UpdateItem operation.

use vstd::prelude::*;
use std::marker::PhantomData;
use crate::helpers::attribute_value::Item;
use crate::operations::response::ReturnValue;
use crate::string_map::StringMap;
use crate::table::DynamodbTable;
use crate::table::Key;

verus! {

/// The UpdateItem operation on the records `T` with the key `K`, while it is being
/// built. Its fields are what the request holds.
#[derive(Debug)]
pub struct UpdateItemOperation<T, K> {
    pub table_name: String,
    pub key: Option<Item>,
    pub return_values: Option<ReturnValue>,
    pub update_expression: Option<String>,
    pub condition_expression: Option<String>,
    pub expression_attribute_names: Option<StringMap<String>>,
    pub expression_attribute_values: Option<Item>,
    pub item: PhantomData<T>,
    pub key_builder: PhantomData<K>,
}

/// The options of an update that a record type may preset. Each is unset by default.
#[derive(Debug, PartialEq)]
pub struct UpdateItemOptions {
    pub return_values: Option<ReturnValue>,
    pub update_expression: Option<String>,
    pub condition_expression: Option<String>,
    pub expression_attribute_names: Option<StringMap<String>>,
    pub expression_attribute_values: Option<Item>,
}

impl UpdateItemOptions {
    /// The options with none of them set.
    pub fn unset() -> (result: Self)
        ensures
            result == (UpdateItemOptions {
                return_values: None,
                update_expression: None,
                condition_expression: None,
                expression_attribute_names: None,
                expression_attribute_values: None,
            }),
    {
        UpdateItemOptions {
            return_values: None,
            update_expression: None,
            condition_expression: None,
            expression_attribute_names: None,
            expression_attribute_values: None,
        }
    }
}

/// An update yields an item where it asks for all attributes, new or old.
pub open spec fn returns_item(return_values: Option<ReturnValue>) -> bool {
    return_values == Some(ReturnValue::AllNew) || return_values == Some(ReturnValue::AllOld)
}

impl<T, K: Key> UpdateItemOperation<T, K> {
    /// The operation as it starts on the table `table_name` with the preset
    /// `options`: nothing else is set.
    pub open spec fn started(table_name: String, options: UpdateItemOptions) -> Self {
        UpdateItemOperation {
            table_name,
            key: None,
            return_values: options.return_values,
            update_expression: options.update_expression,
            condition_expression: options.condition_expression,
            expression_attribute_names: options.expression_attribute_names,
            expression_attribute_values: options.expression_attribute_values,
            item: PhantomData,
            key_builder: PhantomData,
        }
    }

    /// Starts the operation on the table `table_name` with the preset `options`.
    pub fn with_options(table_name: String, options: UpdateItemOptions) -> (result: Self)
        ensures
            result == Self::started(table_name, options),
    {
        UpdateItemOperation {
            table_name,
            key: None,
            return_values: options.return_values,
            update_expression: options.update_expression,
            condition_expression: options.condition_expression,
            expression_attribute_names: options.expression_attribute_names,
            expression_attribute_values: options.expression_attribute_values,
            item: PhantomData,
            key_builder: PhantomData,
        }
    }

    /// Starts the operation on the table `table_name`, with nothing set.
    pub fn new(table_name: String) -> (result: Self)
        ensures
            result == (UpdateItemOperation {
                table_name,
                key: None,
                return_values: None,
                update_expression: None,
                condition_expression: None,
                expression_attribute_names: None,
                expression_attribute_values: None,
                item: PhantomData::<T>,
                key_builder: PhantomData::<K>,
            }),
    {
        UpdateItemOperation::with_options(table_name, UpdateItemOptions::unset())
    }

    /// Sets the key of the item.
    pub fn with_key(self, key: Item) -> (result: Self)
        ensures
            result == (UpdateItemOperation { key: Some(key), ..self }),
    {
        UpdateItemOperation { key: Some(key), ..self }
    }

    /// Sets the key of the item to the key that `K` makes of the inputs.
    /// Where it makes none, because the sort-key value does not fit the
    /// schema, no key is set.
    pub fn set_key(self, pk: K::PartitionInput, sk: K::SortInput) -> (result: Self)
        ensures
            call_ensures(K::key, (pk, sk), result.key),
            result == (UpdateItemOperation { key: result.key, ..self }),
    {
        let key = K::key(pk, sk);
        UpdateItemOperation { key, ..self }
    }

    /// Whether the key is set, as a request needs it.
    pub fn has_key(&self) -> (result: bool)
        ensures
            result == self.key is Some,
    {
        self.key.is_some()
    }

    /// Sets the update expression.
    pub fn set_update_expression(self, expr: String) -> (result: Self)
        ensures
            result == (UpdateItemOperation { update_expression: Some(expr), ..self }),
    {
        UpdateItemOperation { update_expression: Some(expr), ..self }
    }

    /// Sets the condition expression.
    pub fn set_condition_expression(self, expr: String) -> (result: Self)
        ensures
            result == (UpdateItemOperation { condition_expression: Some(expr), ..self }),
    {
        UpdateItemOperation { condition_expression: Some(expr), ..self }
    }

    /// Sets the attribute names of the expressions.
    pub fn set_expression_attribute_names(self, names: StringMap<String>) -> (result: Self)
        ensures
            result == (UpdateItemOperation { expression_attribute_names: Some(names), ..self }),
    {
        UpdateItemOperation { expression_attribute_names: Some(names), ..self }
    }

    /// Sets the attribute values of the expressions.
    pub fn set_expression_attribute_values(self, values: Item) -> (result: Self)
        ensures
            result == (UpdateItemOperation { expression_attribute_values: Some(values), ..self }),
    {
        UpdateItemOperation { expression_attribute_values: Some(values), ..self }
    }

    /// Whether the response is to yield an item.
    pub fn wants_item(&self) -> (result: bool)
        ensures
            result == returns_item(self.return_values),
    {
        match self.return_values {
            Some(ReturnValue::AllNew) | Some(ReturnValue::AllOld) => true,
            _ => false,
        }
    }

    /// The item that the response yields: the returned attributes where the
    /// operation asked for them, and nothing otherwise.
    pub fn returned_item(&self, attributes: Option<Item>) -> (result: Option<Item>)
        ensures
            result == if returns_item(self.return_values) {
                attributes
            } else {
                None
            },
    {
        if self.wants_item() {
            attributes
        } else {
            None
        }
    }
}

/// A record type on which an update of one item can be made. The options that the record
/// type presets are unset by default.
pub trait UpdateItem: DynamodbTable + Sized {
    /// Which attributes the response returns. Unset unless the record type says otherwise.
    fn return_values() -> (result: Option<ReturnValue>)
        default_ensures
            result is None,
    {
        None
    }

    /// The update expression. Unset unless the record type says otherwise.
    fn update_expression() -> (result: Option<String>)
        default_ensures
            result is None,
    {
        None
    }

    /// The condition expression. Unset unless the record type says otherwise.
    fn condition_expression() -> (result: Option<String>)
        default_ensures
            result is None,
    {
        None
    }

    /// The attribute names of the expressions. Unset unless the record type says otherwise.
    fn expression_attribute_names() -> (result: Option<StringMap<String>>)
        default_ensures
            result is None,
    {
        None
    }

    /// The attribute values of the expressions. Unset unless the record type says otherwise.
    fn expression_attribute_values() -> (result: Option<Item>)
        default_ensures
            result is None,
    {
        None
    }

    /// Starts the operation on the record type's table, with the options
    /// that the record type presets.
    fn update_item() -> (result: UpdateItemOperation<Self, <Self as DynamodbTable>::Key>)
        ensures
            exists|table_name: String, options: UpdateItemOptions|
                call_ensures(Self::table_name, (), table_name) && call_ensures(
                    Self::return_values,
                    (),
                    options.return_values,
                ) && call_ensures(
                    Self::update_expression,
                    (),
                    options.update_expression,
                ) && call_ensures(
                    Self::condition_expression,
                    (),
                    options.condition_expression,
                ) && call_ensures(
                    Self::expression_attribute_names,
                    (),
                    options.expression_attribute_names,
                ) && call_ensures(
                    Self::expression_attribute_values,
                    (),
                    options.expression_attribute_values,
                ) && result == UpdateItemOperation::<Self, <Self as DynamodbTable>::Key>::started(table_name, options),
    {
        let options = UpdateItemOptions {
            return_values: Self::return_values(),
            update_expression: Self::update_expression(),
            condition_expression: Self::condition_expression(),
            expression_attribute_names: Self::expression_attribute_names(),
            expression_attribute_values: Self::expression_attribute_values(),
        };
        UpdateItemOperation::with_options(Self::table_name(), options)
    }
}

} // verus!
