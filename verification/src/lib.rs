//! An object mapper and expression builder for DynamoDB-style tables.
//!
//! The crate builds condition, update and key-condition expressions together
//! with their placeholder maps, and assembles the requests of the five item
//! operations as plain values. Every rendering function states the exact text
//! that it returns.

pub mod error;
pub mod helpers;
pub mod operations;
pub mod string_map;
pub mod table;
pub mod text;

pub use error::Error;
pub use helpers::attribute_value::AttributeValue;
pub use helpers::attribute_value::Item;
pub use helpers::expression::operand::op;
pub use helpers::expression::operand::op_path;
pub use table::DynamodbTable;
pub use table::Key;
pub use table::KeySchema;
pub use table::TableSchema;
