//! The Query operation: the key-condition expression, its placeholders, and
//! the request that they make with the caller's filter.

use vstd::prelude::*;
use vstd::string::*;
use std::marker::PhantomData;
use crate::error::Error;
use crate::helpers::attribute_value::AttributeValue;
use crate::helpers::attribute_value::Item;
use crate::helpers::expression::condition::begins_with;
use crate::helpers::expression::condition::between_text;
use crate::helpers::expression::condition::call2;
use crate::helpers::expression::condition::compare_text;
use crate::helpers::expression::condition::Comperator;
use crate::helpers::expression::condition::Condition;
use crate::helpers::expression::operand::op;
use crate::operations::response::collect_records;
use crate::operations::response::first_failure;
use crate::operations::response::records;
use crate::string_map::StringMap;
use crate::table::DynamodbTable;
use crate::table::Key;
use crate::table::TableSchema;
use crate::text::concat3;

verus! {

/// The name alias of the partition-key attribute.
pub const PK_EXP_NAME: &'static str = "#PK";

/// The value alias of the partition-key value.
pub const PK_EXP_VALUE: &'static str = ":PK";

/// The name alias of the sort-key attribute.
pub const SK_EXP_NAME: &'static str = "#SK";

/// The value alias of the sort-key value.
pub const SK_EXP_VALUE: &'static str = ":SK";

/// The value alias of the lower bound of a `BETWEEN` condition.
pub const BETWEEN_FROM: &'static str = ":SK_FROM";

/// The value alias of the upper bound of a `BETWEEN` condition.
pub const BETWEEN_TO: &'static str = ":SK_TO";

/// The condition on the sort key of a query.
#[derive(Debug, PartialEq)]
pub enum SkCondition {
    Eq(AttributeValue),
    Lt(AttributeValue),
    Lte(AttributeValue),
    Gt(AttributeValue),
    Gte(AttributeValue),
    Between { from: AttributeValue, to: AttributeValue },
    BeginsWith(AttributeValue),
}

impl SkCondition {
    /// The text of the condition, over the reserved aliases.
    pub open spec fn text(self) -> Seq<char> {
        match self {
            SkCondition::Eq(_) => compare_text("#SK"@, Comperator::Eq, ":SK"@),
            SkCondition::Lt(_) => compare_text("#SK"@, Comperator::Lt, ":SK"@),
            SkCondition::Lte(_) => compare_text("#SK"@, Comperator::Lte, ":SK"@),
            SkCondition::Gt(_) => compare_text("#SK"@, Comperator::Gt, ":SK"@),
            SkCondition::Gte(_) => compare_text("#SK"@, Comperator::Gte, ":SK"@),
            SkCondition::Between { .. } => between_text("#SK"@, ":SK_FROM"@, ":SK_TO"@),
            SkCondition::BeginsWith(_) => call2("begins_with"@, "#SK"@, ":SK"@),
        }
    }

    /// The values that the condition binds, each under its reserved alias.
    pub open spec fn bindings(self) -> Map<Seq<char>, AttributeValue> {
        match self {
            SkCondition::Eq(value)
            | SkCondition::Lt(value)
            | SkCondition::Lte(value)
            | SkCondition::Gt(value)
            | SkCondition::Gte(value)
            | SkCondition::BeginsWith(value) => Map::<Seq<char>, AttributeValue>::empty().insert(
                ":SK"@,
                value,
            ),
            SkCondition::Between { from, to } => Map::<Seq<char>, AttributeValue>::empty().insert(
                ":SK_FROM"@,
                from,
            ).insert(":SK_TO"@, to),
        }
    }

    /// Renders the condition.
    pub fn expression(&self) -> (result: String)
        ensures
            result@ == self.text(),
    {
        let sk = op(SK_EXP_NAME);
        let val = op(SK_EXP_VALUE);
        let expr = match self {
            SkCondition::Eq(_) => sk.equal(val),
            SkCondition::Lt(_) => sk.lt(val),
            SkCondition::Lte(_) => sk.lte(val),
            SkCondition::Gt(_) => sk.gt(val),
            SkCondition::Gte(_) => sk.gte(val),
            SkCondition::Between { .. } => sk.between(op(BETWEEN_FROM), op(BETWEEN_TO)),
            SkCondition::BeginsWith(_) => begins_with(sk, val),
        };
        expr.to_string()
    }

    /// Puts the values of the condition into `map`, each under its alias.
    pub fn bind(self, map: Item) -> (result: Item)
        ensures
            result@ == map@.union_prefer_right(self.bindings()),
    {
        let result = match self {
            SkCondition::Eq(value)
            | SkCondition::Lt(value)
            | SkCondition::Lte(value)
            | SkCondition::Gt(value)
            | SkCondition::Gte(value)
            | SkCondition::BeginsWith(value) => map.insert(String::from_str(SK_EXP_VALUE), value),
            SkCondition::Between { from, to } => map.insert(
                String::from_str(BETWEEN_FROM),
                from,
            ).insert(String::from_str(BETWEEN_TO), to),
        };
        assert(result@ =~= map@.union_prefer_right(self.bindings()));
        result
    }
}

/// The view of a map that may be missing: the empty map where it is.
pub open spec fn map_or_empty<V>(map: Option<StringMap<V>>) -> Map<Seq<char>, V> {
    match map {
        Some(m) => m@,
        None => Map::empty(),
    }
}

/// The key-condition expression: the partition-key equality, followed by the
/// sort-key condition where the table has a sort key and a condition is set.
pub open spec fn key_condition_text(sk_attr: Option<String>, sk: Option<SkCondition>) -> Seq<
    char,
> {
    let pk_text = compare_text("#PK"@, Comperator::Eq, ":PK"@);
    match (sk_attr, sk) {
        (Some(_), Some(condition)) => pk_text + " AND "@ + condition.text(),
        _ => pk_text,
    }
}

/// The attribute names behind the aliases of the key condition.
pub open spec fn key_names(pk_attr: String, sk_attr: Option<String>, sk: Option<SkCondition>) -> Map<
    Seq<char>,
    String,
> {
    let base = Map::<Seq<char>, String>::empty().insert("#PK"@, pk_attr);
    match (sk_attr, sk) {
        (Some(attr), Some(_)) => base.insert("#SK"@, attr),
        _ => base,
    }
}

/// The values behind the aliases of the key condition.
pub open spec fn key_values(pk: AttributeValue, sk_attr: Option<String>, sk: Option<SkCondition>) -> Map<
    Seq<char>,
    AttributeValue,
> {
    let base = Map::<Seq<char>, AttributeValue>::empty().insert(":PK"@, pk);
    match (sk_attr, sk) {
        (Some(_), Some(condition)) => base.union_prefer_right(condition.bindings()),
        _ => base,
    }
}

/// The sort-key condition that two optional bounds make: one only where both
/// bounds are there.
pub open spec fn between_condition(from: Option<AttributeValue>, to: Option<AttributeValue>) -> Option<
    SkCondition,
> {
    match (from, to) {
        (Some(from), Some(to)) => Some(SkCondition::Between { from, to }),
        _ => None,
    }
}

/// The request of a query, ready to be sent.
#[derive(Debug, PartialEq)]
pub struct QueryRequest {
    pub table_name: String,
    pub index_name: Option<String>,
    pub limit: Option<i32>,
    pub consistent_read: Option<bool>,
    pub scan_index_forward: Option<bool>,
    pub projection_expression: Option<String>,
    pub filter_expression: Option<String>,
    pub key_condition_expression: String,
    pub expression_attribute_names: StringMap<String>,
    pub expression_attribute_values: Item,
    pub exclusive_start_key: Option<Item>,
}

/// What a query yields: the records in the order of the response, and the
/// key from which the next page starts, if there is one.
#[derive(Debug, PartialEq)]
pub struct QueryOperationOutput<T> {
    pub items: Vec<T>,
    pub last_evaluated_key: Option<Item>,
}

impl<T> QueryOperationOutput<T> {
    /// Decodes a response from its items, each already through the caller's
    /// conversion, and its continuation key. One failed conversion fails the
    /// whole response with the first failure; no record is dropped.
    pub fn decode<E>(converted: Vec<Result<T, E>>, last_evaluated_key: Option<Item>) -> (result:
        Result<Self, Error<E>>)
        ensures
            result is Ok <==> forall|i: int|
                0 <= i < converted@.len() ==> (#[trigger] converted@[i]) is Ok,
            match result {
                Ok(output) => output.items@ == records(converted@) && output.last_evaluated_key
                    == last_evaluated_key,
                Err(error) => error is Conversion && first_failure(converted@) == Some(
                    error->Conversion_0,
                ),
            },
    {
        match collect_records(converted) {
            Ok(items) => Ok(QueryOperationOutput { items, last_evaluated_key }),
            Err(error) => Err(error),
        }
    }
}

/// The Query operation on the records `T` with the key `K`, while it is
/// being built: first without a partition key, then with one, and with at
/// most one condition on the sort key.
#[derive(Debug)]
pub struct QueryOperation<T, K> {
    pub table_name: String,
    pub pk_attr: String,
    pub sk_attr: Option<String>,
    pub pk: Option<AttributeValue>,
    pub sk: Option<SkCondition>,
    pub index_name: Option<String>,
    pub limit: Option<i32>,
    pub consistent_read: Option<bool>,
    pub scan_index_forward: Option<bool>,
    pub projection_expression: Option<String>,
    pub filter_expression: Option<String>,
    pub expression_attribute_names: Option<StringMap<String>>,
    pub expression_attribute_values: Option<Item>,
    pub item: PhantomData<T>,
    pub key_builder: PhantomData<K>,
}

/// Builds the values behind the aliases of the key condition. A sort-key
/// condition is left out where the table has no sort key.
pub fn key_expression_attribute_values(
    pk: AttributeValue,
    sk_attr: &Option<String>,
    sk: Option<SkCondition>,
) -> (result: Item)
    ensures
        result@ == key_values(pk, *sk_attr, sk),
{
    let map: Item = StringMap::new();
    let map = map.insert(String::from_str(PK_EXP_VALUE), pk);
    if sk_attr.is_some() {
        match sk {
            Some(condition) => condition.bind(map),
            None => map,
        }
    } else {
        map
    }
}

/// The options of a query that a record type may preset. Each is unset by default.
#[derive(Debug, PartialEq)]
pub struct QueryOptions {
    pub index_name: Option<String>,
    pub limit: Option<i32>,
    pub consistent_read: Option<bool>,
    pub scan_index_forward: Option<bool>,
    pub projection_expression: Option<String>,
    pub filter_expression: Option<String>,
    pub expression_attribute_names: Option<StringMap<String>>,
    pub expression_attribute_values: Option<Item>,
}

impl QueryOptions {
    /// The options with none of them set.
    pub fn unset() -> (result: Self)
        ensures
            result == (QueryOptions {
                index_name: None,
                limit: None,
                consistent_read: None,
                scan_index_forward: None,
                projection_expression: None,
                filter_expression: None,
                expression_attribute_names: None,
                expression_attribute_values: None,
            }),
    {
        QueryOptions {
            index_name: None,
            limit: None,
            consistent_read: None,
            scan_index_forward: None,
            projection_expression: None,
            filter_expression: None,
            expression_attribute_names: None,
            expression_attribute_values: None,
        }
    }
}

impl<T, K: Key> QueryOperation<T, K> {
    /// The operation as it starts on `table` with the preset `options`:
    /// nothing else is set.
    pub open spec fn started(table: TableSchema, options: QueryOptions) -> Self {
        QueryOperation {
            table_name: table.table_name,
            pk_attr: table.key.partition_key,
            sk_attr: table.key.sort_key,
            pk: None,
            sk: None,
            index_name: options.index_name,
            limit: options.limit,
            consistent_read: options.consistent_read,
            scan_index_forward: options.scan_index_forward,
            projection_expression: options.projection_expression,
            filter_expression: options.filter_expression,
            expression_attribute_names: options.expression_attribute_names,
            expression_attribute_values: options.expression_attribute_values,
            item: PhantomData,
            key_builder: PhantomData,
        }
    }

    /// Starts a query on `table` with the preset `options` and no key condition.
    pub fn with_options(table: TableSchema, options: QueryOptions) -> (result: Self)
        ensures
            result == Self::started(table, options),
    {
        QueryOperation {
            table_name: table.table_name,
            pk_attr: table.key.partition_key,
            sk_attr: table.key.sort_key,
            pk: None,
            sk: None,
            index_name: options.index_name,
            limit: options.limit,
            consistent_read: options.consistent_read,
            scan_index_forward: options.scan_index_forward,
            projection_expression: options.projection_expression,
            filter_expression: options.filter_expression,
            expression_attribute_names: options.expression_attribute_names,
            expression_attribute_values: options.expression_attribute_values,
            item: PhantomData,
            key_builder: PhantomData,
        }
    }

    /// Starts a query on `table`, with no key condition and no option set.
    pub fn new(table: TableSchema) -> (result: Self)
        ensures
            result == (QueryOperation {
                table_name: table.table_name,
                pk_attr: table.key.partition_key,
                sk_attr: table.key.sort_key,
                pk: None,
                sk: None,
                index_name: None,
                limit: None,
                consistent_read: None,
                scan_index_forward: None,
                projection_expression: None,
                filter_expression: None,
                expression_attribute_names: None,
                expression_attribute_values: None,
                item: PhantomData::<T>,
                key_builder: PhantomData::<K>,
            }),
    {
        QueryOperation::with_options(table, QueryOptions::unset())
    }

    /// Sets the partition-key value.
    pub fn with_partition_key(self, value: AttributeValue) -> (result: Self)
        ensures
            result == (QueryOperation { pk: Some(value), ..self }),
    {
        QueryOperation { pk: Some(value), ..self }
    }

    /// Sets the condition on the sort key, in place of any condition set
    /// before. Without a condition none stays.
    pub fn with_sort_condition(self, condition: Option<SkCondition>) -> (result: Self)
        ensures
            result == (QueryOperation { sk: condition, ..self }),
    {
        QueryOperation { sk: condition, ..self }
    }

    /// Sets the partition key to the value that the key makes of `input`.
    pub fn pk_eq(self, input: K::PartitionInput) -> (result: Self)
        ensures
            result.pk is Some,
            call_ensures(K::partition_key, (input,), result.pk->Some_0),
            result == (QueryOperation { pk: result.pk, ..self }),
    {
        let value = K::partition_key(input);
        self.with_partition_key(value)
    }

    /// Sets the sort-key condition `equal to` on the value that the key makes
    /// of `input`, in place of any condition set before. Where the key makes
    /// no value, no condition stays.
    pub fn sk_eq(self, input: K::SortInput) -> (result: Self)
        ensures
            exists|value: Option<AttributeValue>|
                call_ensures(K::sort_key, (input,), value) && result == (QueryOperation {
                    sk: match value {
                        Some(v) => Some(SkCondition::Eq(v)),
                        None => None,
                    },
                    ..self
                }),
    {
        let sk = match K::sort_key(input) {
            Some(v) => Some(SkCondition::Eq(v)),
            None => None,
        };
        self.with_sort_condition(sk)
    }

    /// Sets the sort-key condition `less than` on the value that the key makes
    /// of `input`, in place of any condition set before. Where the key makes
    /// no value, no condition stays.
    pub fn sk_lt(self, input: K::SortInput) -> (result: Self)
        ensures
            exists|value: Option<AttributeValue>|
                call_ensures(K::sort_key, (input,), value) && result == (QueryOperation {
                    sk: match value {
                        Some(v) => Some(SkCondition::Lt(v)),
                        None => None,
                    },
                    ..self
                }),
    {
        let sk = match K::sort_key(input) {
            Some(v) => Some(SkCondition::Lt(v)),
            None => None,
        };
        self.with_sort_condition(sk)
    }

    /// Sets the sort-key condition `less than or equal to` on the value that the key makes
    /// of `input`, in place of any condition set before. Where the key makes
    /// no value, no condition stays.
    pub fn sk_lte(self, input: K::SortInput) -> (result: Self)
        ensures
            exists|value: Option<AttributeValue>|
                call_ensures(K::sort_key, (input,), value) && result == (QueryOperation {
                    sk: match value {
                        Some(v) => Some(SkCondition::Lte(v)),
                        None => None,
                    },
                    ..self
                }),
    {
        let sk = match K::sort_key(input) {
            Some(v) => Some(SkCondition::Lte(v)),
            None => None,
        };
        self.with_sort_condition(sk)
    }

    /// Sets the sort-key condition `greater than` on the value that the key makes
    /// of `input`, in place of any condition set before. Where the key makes
    /// no value, no condition stays.
    pub fn sk_gt(self, input: K::SortInput) -> (result: Self)
        ensures
            exists|value: Option<AttributeValue>|
                call_ensures(K::sort_key, (input,), value) && result == (QueryOperation {
                    sk: match value {
                        Some(v) => Some(SkCondition::Gt(v)),
                        None => None,
                    },
                    ..self
                }),
    {
        let sk = match K::sort_key(input) {
            Some(v) => Some(SkCondition::Gt(v)),
            None => None,
        };
        self.with_sort_condition(sk)
    }

    /// Sets the sort-key condition `greater than or equal to` on the value that the key makes
    /// of `input`, in place of any condition set before. Where the key makes
    /// no value, no condition stays.
    pub fn sk_gte(self, input: K::SortInput) -> (result: Self)
        ensures
            exists|value: Option<AttributeValue>|
                call_ensures(K::sort_key, (input,), value) && result == (QueryOperation {
                    sk: match value {
                        Some(v) => Some(SkCondition::Gte(v)),
                        None => None,
                    },
                    ..self
                }),
    {
        let sk = match K::sort_key(input) {
            Some(v) => Some(SkCondition::Gte(v)),
            None => None,
        };
        self.with_sort_condition(sk)
    }

    /// Sets the sort-key condition `between A and B` on the values that the
    /// key makes of `from` and `to`, in place of any condition set before.
    /// Where the key makes no value of one of them, no condition stays.
    pub fn sk_between(self, from: K::SortInput, to: K::SortInput) -> (result: Self)
        ensures
            exists|lower: Option<AttributeValue>, upper: Option<AttributeValue>|
                call_ensures(K::sort_key, (from,), lower) && call_ensures(
                    K::sort_key,
                    (to,),
                    upper,
                ) && result == (QueryOperation { sk: between_condition(lower, upper), ..self }),
    {
        let lower = K::sort_key(from);
        let upper = K::sort_key(to);
        let ghost bounds = (lower, upper);
        let sk = match (lower, upper) {
            (Some(from), Some(to)) => Some(SkCondition::Between { from, to }),
            _ => None,
        };
        let result = self.with_sort_condition(sk);
        assert(call_ensures(K::sort_key, (from,), bounds.0) && call_ensures(
            K::sort_key,
            (to,),
            bounds.1,
        ) && result == (QueryOperation { sk: between_condition(bounds.0, bounds.1), ..self }));
        result
    }

    /// Sets the sort-key condition `begins_with`, in place of any condition
    /// set before.
    pub fn sk_begins_with(self, value: AttributeValue) -> (result: Self)
        ensures
            result == (QueryOperation { sk: Some(SkCondition::BeginsWith(value)), ..self }),
    {
        QueryOperation { sk: Some(SkCondition::BeginsWith(value)), ..self }
    }

    /// Sets the limit.
    pub fn set_limit(self, limit: i32) -> (result: Self)
        ensures
            result == (QueryOperation { limit: Some(limit), ..self }),
    {
        QueryOperation { limit: Some(limit), ..self }
    }

    /// Sets the index name.
    pub fn set_index(self, name: String) -> (result: Self)
        ensures
            result == (QueryOperation { index_name: Some(name), ..self }),
    {
        QueryOperation { index_name: Some(name), ..self }
    }

    /// Sets the direction in which the index is scanned.
    pub fn set_scan_index_forward(self, forward: bool) -> (result: Self)
        ensures
            result == (QueryOperation { scan_index_forward: Some(forward), ..self }),
    {
        QueryOperation { scan_index_forward: Some(forward), ..self }
    }

    /// Sets the filter expression. The aliases `#PK`, `#SK`, `:PK`, `:SK`,
    /// `:SK_FROM` and `:SK_TO` belong to the key condition.
    pub fn set_filter_expression(self, expr: String) -> (result: Self)
        ensures
            result == (QueryOperation { filter_expression: Some(expr), ..self }),
    {
        QueryOperation { filter_expression: Some(expr), ..self }
    }

    /// Sets the attribute names of the filter expression. A name under `#PK`
    /// or `#SK` is replaced by that of the key condition when the request is made.
    pub fn set_expression_attribute_names(self, names: StringMap<String>) -> (result: Self)
        ensures
            result == (QueryOperation { expression_attribute_names: Some(names), ..self }),
    {
        QueryOperation { expression_attribute_names: Some(names), ..self }
    }

    /// Sets the attribute values of the filter expression. A value under
    /// `:PK`, `:SK`, `:SK_FROM` or `:SK_TO` is replaced by that of the key
    /// condition when the request is made.
    pub fn set_expression_attribute_values(self, values: Item) -> (result: Self)
        ensures
            result == (QueryOperation { expression_attribute_values: Some(values), ..self }),
    {
        QueryOperation { expression_attribute_values: Some(values), ..self }
    }

    /// Whether the partition key is set, as a request needs it.
    pub fn has_partition_key(&self) -> (result: bool)
        ensures
            result == self.pk is Some,
    {
        self.pk.is_some()
    }

    /// The text of the partition-key condition.
    pub fn pk_condtion_expression(&self) -> (result: String)
        ensures
            result@ == compare_text("#PK"@, Comperator::Eq, ":PK"@),
    {
        op(PK_EXP_NAME).equal(op(PK_EXP_VALUE)).to_string()
    }

    /// The text of the sort-key condition, where the table has a sort key and
    /// a condition is set.
    pub fn sk_condition_expression(&self) -> (result: Option<String>)
        ensures
            match result {
                Some(text) => self.sk_attr is Some && self.sk is Some && text@
                    == self.sk->Some_0.text(),
                None => self.sk_attr is None || self.sk is None,
            },
    {
        match (&self.sk_attr, &self.sk) {
            (Some(_), Some(condition)) => Some(condition.expression()),
            _ => None,
        }
    }

    /// The key-condition expression.
    pub fn key_condition_expression(&self) -> (result: String)
        ensures
            result@ == key_condition_text(self.sk_attr, self.sk),
    {
        let pk_expr = self.pk_condtion_expression();
        match self.sk_condition_expression() {
            Some(sk_expr) => concat3(pk_expr.as_str(), " AND ", sk_expr.as_str()),
            None => pk_expr,
        }
    }

    /// Builds the attribute names behind the aliases of the key condition.
    /// The sort-key attribute is named only where a sort-key condition is set.
    pub fn key_expression_attribute_names(&self) -> (result: StringMap<String>)
        ensures
            result@ == key_names(self.pk_attr, self.sk_attr, self.sk),
    {
        let names: StringMap<String> = StringMap::new();
        let names = names.insert(String::from_str(PK_EXP_NAME), self.pk_attr.clone());
        match (&self.sk_attr, &self.sk) {
            (Some(attr), Some(_)) => names.insert(String::from_str(SK_EXP_NAME), attr.clone()),
            _ => names,
        }
    }

    /// The attribute names of the request: those of the caller, then those of
    /// the key condition, which replace a caller's name under the same alias.
    pub open spec fn merged_names(self) -> Map<Seq<char>, String> {
        map_or_empty(self.expression_attribute_names).union_prefer_right(
            key_names(self.pk_attr, self.sk_attr, self.sk),
        )
    }

    /// The attribute values of the request: those of the caller, then those
    /// of the key condition, which replace a caller's value under the same alias.
    pub open spec fn merged_values(self) -> Map<Seq<char>, AttributeValue>
        recommends
            self.pk is Some,
    {
        map_or_empty(self.expression_attribute_values).union_prefer_right(
            key_values(self.pk->Some_0, self.sk_attr, self.sk),
        )
    }

    /// Assembles the request: the key-condition expression and the merged
    /// placeholder maps, beside the options as they were set.
    pub fn into_request(self, exclusive_start_key: Option<Item>) -> (result: QueryRequest)
        requires
            self.pk is Some,
        ensures
            result.table_name == self.table_name,
            result.index_name == self.index_name,
            result.limit == self.limit,
            result.consistent_read == self.consistent_read,
            result.scan_index_forward == self.scan_index_forward,
            result.projection_expression == self.projection_expression,
            result.filter_expression == self.filter_expression,
            result.exclusive_start_key == exclusive_start_key,
            result.key_condition_expression@ == key_condition_text(self.sk_attr, self.sk),
            result.expression_attribute_names@ == self.merged_names(),
            result.expression_attribute_values@ == self.merged_values(),
    {
        let key_condition_expression = self.key_condition_expression();
        let key_names = self.key_expression_attribute_names();
        let QueryOperation {
            table_name,
            pk_attr,
            sk_attr,
            pk,
            sk,
            index_name,
            limit,
            consistent_read,
            scan_index_forward,
            projection_expression,
            filter_expression,
            expression_attribute_names,
            expression_attribute_values,
            item: _,
            key_builder: _,
        } = self;
        let key_values = key_expression_attribute_values(pk.unwrap(), &sk_attr, sk);
        let names = match expression_attribute_names {
            Some(names) => names,
            None => StringMap::new(),
        };
        let values = match expression_attribute_values {
            Some(values) => values,
            None => StringMap::new(),
        };
        let names = names.extend(key_names);
        let values = values.extend(key_values);
        QueryRequest {
            table_name,
            index_name,
            limit,
            consistent_read,
            scan_index_forward,
            projection_expression,
            filter_expression,
            key_condition_expression,
            expression_attribute_names: names,
            expression_attribute_values: values,
            exclusive_start_key,
        }
    }
}

/// The reserved value aliases differ from one another.
pub proof fn lemma_value_aliases_differ()
    ensures
        ":PK"@ != ":SK"@,
        ":PK"@ != ":SK_FROM"@,
        ":PK"@ != ":SK_TO"@,
        ":SK"@ != ":SK_FROM"@,
        ":SK"@ != ":SK_TO"@,
        ":SK_FROM"@ != ":SK_TO"@,
        "#PK"@ != "#SK"@,
{
    reveal_strlit(":PK");
    reveal_strlit(":SK");
    reveal_strlit(":SK_FROM");
    reveal_strlit(":SK_TO");
    reveal_strlit("#PK");
    reveal_strlit("#SK");
    assert(":PK"@[1] != ":SK"@[1]);
    assert("#PK"@[1] != "#SK"@[1]);
    assert(":PK"@.len() != ":SK_FROM"@.len());
    assert(":PK"@.len() != ":SK_TO"@.len());
    assert(":SK"@.len() != ":SK_FROM"@.len());
    assert(":SK"@.len() != ":SK_TO"@.len());
    assert(":SK_FROM"@.len() != ":SK_TO"@.len());
}

/// On a table without a sort key the key condition is the partition-key
/// equality alone and binds the partition key alone, whatever sort-key
/// condition was set.
pub proof fn lemma_sort_condition_ignored_without_sort_key(
    pk_attr: String,
    pk: AttributeValue,
    sk: Option<SkCondition>,
)
    ensures
        key_condition_text(None, sk) == compare_text("#PK"@, Comperator::Eq, ":PK"@),
        key_names(pk_attr, None, sk) == Map::<Seq<char>, String>::empty().insert("#PK"@, pk_attr),
        key_values(pk, None, sk) == Map::<Seq<char>, AttributeValue>::empty().insert(":PK"@, pk),
{
}

/// With a partition key alone set, the key condition is the partition-key
/// equality alone, also on a table with a sort key.
pub proof fn lemma_partition_key_alone(pk_attr: String, sk_attr: Option<String>, pk: AttributeValue)
    ensures
        key_condition_text(sk_attr, None) == compare_text("#PK"@, Comperator::Eq, ":PK"@),
        key_names(pk_attr, sk_attr, None) == Map::<Seq<char>, String>::empty().insert(
            "#PK"@,
            pk_attr,
        ),
        key_values(pk, sk_attr, None) == Map::<Seq<char>, AttributeValue>::empty().insert(
            ":PK"@,
            pk,
        ),
{
}

/// On a table with a sort key, a comparison on the sort key follows the
/// partition-key equality after ` AND `, and both values are bound.
pub proof fn lemma_sort_key_equality(
    pk_attr: String,
    sk_attr: String,
    pk: AttributeValue,
    value: AttributeValue,
)
    ensures
        key_condition_text(Some(sk_attr), Some(SkCondition::Eq(value))) == compare_text(
            "#PK"@,
            Comperator::Eq,
            ":PK"@,
        ) + " AND "@ + compare_text("#SK"@, Comperator::Eq, ":SK"@),
        key_names(pk_attr, Some(sk_attr), Some(SkCondition::Eq(value))) == Map::<
            Seq<char>,
            String,
        >::empty().insert("#PK"@, pk_attr).insert("#SK"@, sk_attr),
        key_values(pk, Some(sk_attr), Some(SkCondition::Eq(value))) == Map::<
            Seq<char>,
            AttributeValue,
        >::empty().insert(":PK"@, pk).insert(":SK"@, value),
        key_values(pk, Some(sk_attr), Some(SkCondition::Eq(value)))[":PK"@] == pk,
{
    lemma_value_aliases_differ();
    let values = key_values(pk, Some(sk_attr), Some(SkCondition::Eq(value)));
    assert(values =~= Map::<Seq<char>, AttributeValue>::empty().insert(":PK"@, pk).insert(
        ":SK"@,
        value,
    ));
}

/// On a table with a sort key, a `BETWEEN` condition follows the
/// partition-key equality after ` AND `; it binds the two bounds, and
/// nothing under `:SK`.
pub proof fn lemma_sort_key_between(
    sk_attr: String,
    pk: AttributeValue,
    from: AttributeValue,
    to: AttributeValue,
)
    ensures
        key_condition_text(Some(sk_attr), Some(SkCondition::Between { from, to })) == compare_text(
            "#PK"@,
            Comperator::Eq,
            ":PK"@,
        ) + " AND "@ + between_text("#SK"@, ":SK_FROM"@, ":SK_TO"@),
        key_values(pk, Some(sk_attr), Some(SkCondition::Between { from, to })) == Map::<
            Seq<char>,
            AttributeValue,
        >::empty().insert(":PK"@, pk).insert(":SK_FROM"@, from).insert(":SK_TO"@, to),
        !key_values(pk, Some(sk_attr), Some(SkCondition::Between { from, to })).dom().contains(
            ":SK"@,
        ),
        key_values(pk, Some(sk_attr), Some(SkCondition::Between { from, to }))[":PK"@] == pk,
        key_values(pk, Some(sk_attr), Some(SkCondition::Between { from, to }))[":SK_FROM"@]
            == from,
        key_values(pk, Some(sk_attr), Some(SkCondition::Between { from, to }))[":SK_TO"@] == to,
{
    lemma_value_aliases_differ();
    let values = key_values(pk, Some(sk_attr), Some(SkCondition::Between { from, to }));
    assert(values =~= Map::<Seq<char>, AttributeValue>::empty().insert(":PK"@, pk).insert(
        ":SK_FROM"@,
        from,
    ).insert(":SK_TO"@, to));
}

/// The placeholders of the key condition replace a caller's placeholders of
/// the same alias, and every other placeholder of the caller stays.
pub proof fn lemma_key_placeholders_win<T, K: Key>(operation: QueryOperation<T, K>)
    requires
        operation.pk is Some,
    ensures
        forall|alias: Seq<char>|
            key_names(operation.pk_attr, operation.sk_attr, operation.sk).dom().contains(alias)
                ==> operation.merged_names().dom().contains(alias)
                && operation.merged_names()[alias] == key_names(
                operation.pk_attr,
                operation.sk_attr,
                operation.sk,
            )[alias],
        forall|alias: Seq<char>|
            key_values(operation.pk->Some_0, operation.sk_attr, operation.sk).dom().contains(alias)
                ==> operation.merged_values().dom().contains(alias)
                && operation.merged_values()[alias] == key_values(
                operation.pk->Some_0,
                operation.sk_attr,
                operation.sk,
            )[alias],
        forall|alias: Seq<char>|
            !key_names(operation.pk_attr, operation.sk_attr, operation.sk).dom().contains(alias)
                && map_or_empty(operation.expression_attribute_names).dom().contains(alias)
                ==> operation.merged_names().dom().contains(alias)
                && operation.merged_names()[alias] == map_or_empty(
                operation.expression_attribute_names,
            )[alias],
        forall|alias: Seq<char>|
            !key_values(operation.pk->Some_0, operation.sk_attr, operation.sk).dom().contains(alias)
                && map_or_empty(operation.expression_attribute_values).dom().contains(alias)
                ==> operation.merged_values().dom().contains(alias)
                && operation.merged_values()[alias] == map_or_empty(
                operation.expression_attribute_values,
            )[alias],
        operation.merged_names()["#PK"@] == operation.pk_attr,
        operation.merged_values()[":PK"@] == operation.pk->Some_0,
{
    lemma_value_aliases_differ();
    let values = key_values(operation.pk->Some_0, operation.sk_attr, operation.sk);
    let names = key_names(operation.pk_attr, operation.sk_attr, operation.sk);
    assert(names.dom().contains("#PK"@));
    assert(names["#PK"@] == operation.pk_attr);
    assert(values.dom().contains(":PK"@));
    assert(values[":PK"@] == operation.pk->Some_0);
}

/// A record type on which a query can be made. The options that the record
/// type presets are unset by default.
pub trait Query: DynamodbTable + Sized {
    /// The name of the index to query. Unset unless the record type says otherwise.
    fn index_name() -> (result: Option<String>)
        default_ensures
            result is None,
    {
        None
    }

    /// The greatest number of items to read. Unset unless the record type says otherwise.
    fn limit() -> (result: Option<i32>)
        default_ensures
            result is None,
    {
        None
    }

    /// Whether reads are strongly consistent. Unset unless the record type says otherwise.
    fn consistent_read() -> (result: Option<bool>)
        default_ensures
            result is None,
    {
        None
    }

    /// The direction in which the index is scanned. Unset unless the record type says otherwise.
    fn scan_index_forward() -> (result: Option<bool>)
        default_ensures
            result is None,
    {
        None
    }

    /// The projection expression. Unset unless the record type says otherwise.
    fn projection_expression() -> (result: Option<String>)
        default_ensures
            result is None,
    {
        None
    }

    /// The filter expression. Unset unless the record type says otherwise.
    fn filter_expression() -> (result: Option<String>)
        default_ensures
            result is None,
    {
        None
    }

    /// The attribute names of the expressions. Unset unless the record type says otherwise.
    fn expression_attribute_names() -> (result: Option<StringMap<String>>)
        default_ensures
            result is None,
    {
        None
    }

    /// The attribute values of the expressions. Unset unless the record type says otherwise.
    fn expression_attribute_values() -> (result: Option<Item>)
        default_ensures
            result is None,
    {
        None
    }

    /// Starts the operation on the record type's table, with the options
    /// that the record type presets.
    fn query() -> (result: QueryOperation<Self, <Self as DynamodbTable>::Key>)
        ensures
            exists|table: TableSchema, options: QueryOptions|
                call_ensures(Self::table, (), table) && call_ensures(
                    Self::index_name,
                    (),
                    options.index_name,
                ) && call_ensures(
                    Self::limit,
                    (),
                    options.limit,
                ) && call_ensures(
                    Self::consistent_read,
                    (),
                    options.consistent_read,
                ) && call_ensures(
                    Self::scan_index_forward,
                    (),
                    options.scan_index_forward,
                ) && call_ensures(
                    Self::projection_expression,
                    (),
                    options.projection_expression,
                ) && call_ensures(
                    Self::filter_expression,
                    (),
                    options.filter_expression,
                ) && call_ensures(
                    Self::expression_attribute_names,
                    (),
                    options.expression_attribute_names,
                ) && call_ensures(
                    Self::expression_attribute_values,
                    (),
                    options.expression_attribute_values,
                ) && result == QueryOperation::<Self, <Self as DynamodbTable>::Key>::started(
                    table,
                    options,
                ),
    {
        let options = QueryOptions {
            index_name: Self::index_name(),
            limit: Self::limit(),
            consistent_read: Self::consistent_read(),
            scan_index_forward: Self::scan_index_forward(),
            projection_expression: Self::projection_expression(),
            filter_expression: Self::filter_expression(),
            expression_attribute_names: Self::expression_attribute_names(),
            expression_attribute_values: Self::expression_attribute_values(),
        };
        QueryOperation::with_options(Self::table(), options)
    }
}

} // verus!
