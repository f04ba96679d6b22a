//! Attribute values, items, and a builder over an item.

use vstd::prelude::*;
use vstd::string::*;
use crate::string_map::StringMap;

verus! {

/// One value of an item: a tagged scalar or collection.
#[derive(Debug, PartialEq)]
pub enum AttributeValue {
    /// Binary data.
    B(Vec<u8>),
    /// A boolean.
    Bool(bool),
    /// A set of binary values.
    Bs(Vec<Vec<u8>>),
    /// A list of values.
    L(Vec<AttributeValue>),
    /// A map from attribute names to values.
    M(StringMap<AttributeValue>),
    /// A number, written as a string.
    N(String),
    /// A set of numbers, each written as a string.
    Ns(Vec<String>),
    /// The null flag.
    Null(bool),
    /// A string.
    S(String),
    /// A set of strings.
    Ss(Vec<String>),
}

/// An item: a map from attribute names to values.
pub type Item = StringMap<AttributeValue>;

/// The inner value of an `AttributeValue::B`, and nothing of any other variant.
pub fn opt_b(val: &AttributeValue) -> (result: Option<&Vec<u8>>)
    ensures
        match result {
            Some(inner) => *val == AttributeValue::B(*inner),
            None => !(*val is B),
        },
{
    match val {
        AttributeValue::B(inner) => Some(inner),
        _ => None,
    }
}

/// The inner value of an `AttributeValue::Bool`, and nothing of any other variant.
pub fn opt_bool(val: &AttributeValue) -> (result: Option<&bool>)
    ensures
        match result {
            Some(inner) => *val == AttributeValue::Bool(*inner),
            None => !(*val is Bool),
        },
{
    match val {
        AttributeValue::Bool(inner) => Some(inner),
        _ => None,
    }
}

/// The inner value of an `AttributeValue::Bs`, and nothing of any other variant.
pub fn opt_bs(val: &AttributeValue) -> (result: Option<&Vec<Vec<u8>>>)
    ensures
        match result {
            Some(inner) => *val == AttributeValue::Bs(*inner),
            None => !(*val is Bs),
        },
{
    match val {
        AttributeValue::Bs(inner) => Some(inner),
        _ => None,
    }
}

/// The inner value of an `AttributeValue::L`, and nothing of any other variant.
pub fn opt_l(val: &AttributeValue) -> (result: Option<&Vec<AttributeValue>>)
    ensures
        match result {
            Some(inner) => *val == AttributeValue::L(*inner),
            None => !(*val is L),
        },
{
    match val {
        AttributeValue::L(inner) => Some(inner),
        _ => None,
    }
}

/// The inner value of an `AttributeValue::M`, and nothing of any other variant.
pub fn opt_m(val: &AttributeValue) -> (result: Option<&Item>)
    ensures
        match result {
            Some(inner) => *val == AttributeValue::M(*inner),
            None => !(*val is M),
        },
{
    match val {
        AttributeValue::M(inner) => Some(inner),
        _ => None,
    }
}

/// The inner value of an `AttributeValue::N`, and nothing of any other variant.
pub fn opt_n(val: &AttributeValue) -> (result: Option<&String>)
    ensures
        match result {
            Some(inner) => *val == AttributeValue::N(*inner),
            None => !(*val is N),
        },
{
    match val {
        AttributeValue::N(inner) => Some(inner),
        _ => None,
    }
}

/// The inner value of an `AttributeValue::Ns`, and nothing of any other variant.
pub fn opt_ns(val: &AttributeValue) -> (result: Option<&Vec<String>>)
    ensures
        match result {
            Some(inner) => *val == AttributeValue::Ns(*inner),
            None => !(*val is Ns),
        },
{
    match val {
        AttributeValue::Ns(inner) => Some(inner),
        _ => None,
    }
}

/// The inner value of an `AttributeValue::Null`, and nothing of any other variant.
pub fn opt_null(val: &AttributeValue) -> (result: Option<&bool>)
    ensures
        match result {
            Some(inner) => *val == AttributeValue::Null(*inner),
            None => !(*val is Null),
        },
{
    match val {
        AttributeValue::Null(inner) => Some(inner),
        _ => None,
    }
}

/// The inner value of an `AttributeValue::S`, and nothing of any other variant.
pub fn opt_s(val: &AttributeValue) -> (result: Option<&String>)
    ensures
        match result {
            Some(inner) => *val == AttributeValue::S(*inner),
            None => !(*val is S),
        },
{
    match val {
        AttributeValue::S(inner) => Some(inner),
        _ => None,
    }
}

/// The inner value of an `AttributeValue::Ss`, and nothing of any other variant.
pub fn opt_ss(val: &AttributeValue) -> (result: Option<&Vec<String>>)
    ensures
        match result {
            Some(inner) => *val == AttributeValue::Ss(*inner),
            None => !(*val is Ss),
        },
{
    match val {
        AttributeValue::Ss(inner) => Some(inner),
        _ => None,
    }
}

/// A builder and accessor over an item.
#[derive(Debug, PartialEq)]
pub struct AttributeMap(pub Item);

impl View for AttributeMap {
    type V = Map<Seq<char>, AttributeValue>;

    open spec fn view(&self) -> Map<Seq<char>, AttributeValue> {
        self.0@
    }
}

/// The value that `map` holds under `key`, if it holds the key.
pub open spec fn lookup(map: Map<Seq<char>, AttributeValue>, key: Seq<char>) -> Option<
    AttributeValue,
> {
    if map.dom().contains(key) {
        Some(map[key])
    } else {
        None
    }
}

impl AttributeMap {
    /// Creates an empty map.
    pub fn new() -> (result: Self)
        ensures
            result@ == Map::<Seq<char>, AttributeValue>::empty(),
    {
        AttributeMap(StringMap::new())
    }

    /// The value under `key`.
    pub fn get(&self, key: &str) -> (result: Option<&AttributeValue>)
        ensures
            match result {
                Some(value) => lookup(self@, key@) == Some(*value),
                None => lookup(self@, key@) is None,
            },
    {
        self.0.get(key)
    }

    /// The inner value of the `AttributeValue::B` under `key`: nothing where
    /// the key is absent or holds another variant.
    pub fn b(&self, key: &str) -> (result: Option<&Vec<u8>>)
        ensures
            match result {
                Some(inner) => lookup(self@, key@) == Some(AttributeValue::B(*inner)),
                None => match lookup(self@, key@) {
                    Some(value) => !(value is B),
                    None => true,
                },
            },
    {
        match self.get(key) {
            Some(value) => opt_b(value),
            None => None,
        }
    }

    /// The inner value of the `AttributeValue::Bool` under `key`: nothing where
    /// the key is absent or holds another variant.
    pub fn bool(&self, key: &str) -> (result: Option<&bool>)
        ensures
            match result {
                Some(inner) => lookup(self@, key@) == Some(AttributeValue::Bool(*inner)),
                None => match lookup(self@, key@) {
                    Some(value) => !(value is Bool),
                    None => true,
                },
            },
    {
        match self.get(key) {
            Some(value) => opt_bool(value),
            None => None,
        }
    }

    /// The inner value of the `AttributeValue::Bs` under `key`: nothing where
    /// the key is absent or holds another variant.
    pub fn bs(&self, key: &str) -> (result: Option<&Vec<Vec<u8>>>)
        ensures
            match result {
                Some(inner) => lookup(self@, key@) == Some(AttributeValue::Bs(*inner)),
                None => match lookup(self@, key@) {
                    Some(value) => !(value is Bs),
                    None => true,
                },
            },
    {
        match self.get(key) {
            Some(value) => opt_bs(value),
            None => None,
        }
    }

    /// The inner value of the `AttributeValue::L` under `key`: nothing where
    /// the key is absent or holds another variant.
    pub fn l(&self, key: &str) -> (result: Option<&Vec<AttributeValue>>)
        ensures
            match result {
                Some(inner) => lookup(self@, key@) == Some(AttributeValue::L(*inner)),
                None => match lookup(self@, key@) {
                    Some(value) => !(value is L),
                    None => true,
                },
            },
    {
        match self.get(key) {
            Some(value) => opt_l(value),
            None => None,
        }
    }

    /// The inner value of the `AttributeValue::M` under `key`: nothing where
    /// the key is absent or holds another variant.
    pub fn m(&self, key: &str) -> (result: Option<&Item>)
        ensures
            match result {
                Some(inner) => lookup(self@, key@) == Some(AttributeValue::M(*inner)),
                None => match lookup(self@, key@) {
                    Some(value) => !(value is M),
                    None => true,
                },
            },
    {
        match self.get(key) {
            Some(value) => opt_m(value),
            None => None,
        }
    }

    /// The inner value of the `AttributeValue::N` under `key`: nothing where
    /// the key is absent or holds another variant.
    pub fn n(&self, key: &str) -> (result: Option<&String>)
        ensures
            match result {
                Some(inner) => lookup(self@, key@) == Some(AttributeValue::N(*inner)),
                None => match lookup(self@, key@) {
                    Some(value) => !(value is N),
                    None => true,
                },
            },
    {
        match self.get(key) {
            Some(value) => opt_n(value),
            None => None,
        }
    }

    /// The inner value of the `AttributeValue::Ns` under `key`: nothing where
    /// the key is absent or holds another variant.
    pub fn ns(&self, key: &str) -> (result: Option<&Vec<String>>)
        ensures
            match result {
                Some(inner) => lookup(self@, key@) == Some(AttributeValue::Ns(*inner)),
                None => match lookup(self@, key@) {
                    Some(value) => !(value is Ns),
                    None => true,
                },
            },
    {
        match self.get(key) {
            Some(value) => opt_ns(value),
            None => None,
        }
    }

    /// The inner value of the `AttributeValue::Null` under `key`: nothing where
    /// the key is absent or holds another variant.
    pub fn null(&self, key: &str) -> (result: Option<&bool>)
        ensures
            match result {
                Some(inner) => lookup(self@, key@) == Some(AttributeValue::Null(*inner)),
                None => match lookup(self@, key@) {
                    Some(value) => !(value is Null),
                    None => true,
                },
            },
    {
        match self.get(key) {
            Some(value) => opt_null(value),
            None => None,
        }
    }

    /// The inner value of the `AttributeValue::S` under `key`: nothing where
    /// the key is absent or holds another variant.
    pub fn s(&self, key: &str) -> (result: Option<&String>)
        ensures
            match result {
                Some(inner) => lookup(self@, key@) == Some(AttributeValue::S(*inner)),
                None => match lookup(self@, key@) {
                    Some(value) => !(value is S),
                    None => true,
                },
            },
    {
        match self.get(key) {
            Some(value) => opt_s(value),
            None => None,
        }
    }

    /// The inner value of the `AttributeValue::Ss` under `key`: nothing where
    /// the key is absent or holds another variant.
    pub fn ss(&self, key: &str) -> (result: Option<&Vec<String>>)
        ensures
            match result {
                Some(inner) => lookup(self@, key@) == Some(AttributeValue::Ss(*inner)),
                None => match lookup(self@, key@) {
                    Some(value) => !(value is Ss),
                    None => true,
                },
            },
    {
        match self.get(key) {
            Some(value) => opt_ss(value),
            None => None,
        }
    }

    /// Puts `val` under `key`, in place of the value that was there, if any.
    pub fn set(self, key: &str, val: AttributeValue) -> (result: Self)
        ensures
            result@ == self@.insert(key@, val),
    {
        AttributeMap(self.0.insert(String::from_str(key), val))
    }

    /// Puts `val` under `key` as an `AttributeValue::B`.
    pub fn set_b(self, key: &str, val: Vec<u8>) -> (result: Self)
        ensures
            result@ == self@.insert(key@, AttributeValue::B(val)),
    {
        self.set(key, AttributeValue::B(val))
    }

    /// Puts `val` under `key` as an `AttributeValue::Bool`.
    pub fn set_bool(self, key: &str, val: bool) -> (result: Self)
        ensures
            result@ == self@.insert(key@, AttributeValue::Bool(val)),
    {
        self.set(key, AttributeValue::Bool(val))
    }

    /// Puts `val` under `key` as an `AttributeValue::Bs`.
    pub fn set_bs(self, key: &str, val: Vec<Vec<u8>>) -> (result: Self)
        ensures
            result@ == self@.insert(key@, AttributeValue::Bs(val)),
    {
        self.set(key, AttributeValue::Bs(val))
    }

    /// Puts `val` under `key` as an `AttributeValue::L`.
    pub fn set_l(self, key: &str, val: Vec<AttributeValue>) -> (result: Self)
        ensures
            result@ == self@.insert(key@, AttributeValue::L(val)),
    {
        self.set(key, AttributeValue::L(val))
    }

    /// Puts `val` under `key` as an `AttributeValue::M`.
    pub fn set_m(self, key: &str, val: Item) -> (result: Self)
        ensures
            result@ == self@.insert(key@, AttributeValue::M(val)),
    {
        self.set(key, AttributeValue::M(val))
    }

    /// Puts `val` under `key` as an `AttributeValue::N`.
    pub fn set_n(self, key: &str, val: &str) -> (result: Self)
        ensures
            result@.dom() == self@.dom().insert(key@),
            forall|k: Seq<char>| k != key@ && self@.dom().contains(k) ==> result@[k] == self@[k],
            match result@[key@] {
                AttributeValue::N(text) => text@ == val@,
                _ => false,
            },
    {
        self.set(key, AttributeValue::N(String::from_str(val)))
    }

    /// Puts `val` under `key` as an `AttributeValue::Ns`.
    pub fn set_ns(self, key: &str, val: Vec<String>) -> (result: Self)
        ensures
            result@ == self@.insert(key@, AttributeValue::Ns(val)),
    {
        self.set(key, AttributeValue::Ns(val))
    }

    /// Puts `val` under `key` as an `AttributeValue::Null`.
    pub fn set_null(self, key: &str, val: bool) -> (result: Self)
        ensures
            result@ == self@.insert(key@, AttributeValue::Null(val)),
    {
        self.set(key, AttributeValue::Null(val))
    }

    /// Puts `val` under `key` as an `AttributeValue::S`.
    pub fn set_s(self, key: &str, val: &str) -> (result: Self)
        ensures
            result@.dom() == self@.dom().insert(key@),
            forall|k: Seq<char>| k != key@ && self@.dom().contains(k) ==> result@[k] == self@[k],
            match result@[key@] {
                AttributeValue::S(text) => text@ == val@,
                _ => false,
            },
    {
        self.set(key, AttributeValue::S(String::from_str(val)))
    }

    /// Puts `val` under `key` as an `AttributeValue::Ss`.
    pub fn set_ss(self, key: &str, val: Vec<String>) -> (result: Self)
        ensures
            result@ == self@.insert(key@, AttributeValue::Ss(val)),
    {
        self.set(key, AttributeValue::Ss(val))
    }

    /// The item that the map holds.
    pub fn into_item(self) -> (result: Item)
        ensures
            result@ == self@,
    {
        self.0
    }

    /// The map as an `AttributeValue::M`.
    pub fn into_m(self) -> (result: AttributeValue)
        ensures
            result == AttributeValue::M(self.0),
    {
        AttributeValue::M(self.0)
    }
}

impl Default for AttributeMap {
    fn default() -> (result: Self)
        ensures
            result@ == Map::<Seq<char>, AttributeValue>::empty(),
    {
        AttributeMap::new()
    }
}

impl vstd::std_specs::convert::FromSpecImpl<Item> for AttributeMap {
    open spec fn obeys_from_spec() -> bool {
        true
    }

    open spec fn from_spec(v: Item) -> AttributeMap {
        AttributeMap(v)
    }
}

impl From<Item> for AttributeMap {
    fn from(item: Item) -> (result: Self) {
        AttributeMap(item)
    }
}

impl vstd::std_specs::convert::FromSpecImpl<AttributeMap> for Item {
    open spec fn obeys_from_spec() -> bool {
        true
    }

    open spec fn from_spec(v: AttributeMap) -> Item {
        v.0
    }
}

impl From<AttributeMap> for Item {
    fn from(item: AttributeMap) -> (result: Self) {
        item.0
    }
}

} // verus!
