//! Helpers for attribute values and for building expressions.

/// Attribute values, items, and a builder over an item.
pub mod attribute_value;
/// Condition expressions kept as text.
pub mod condition_expression;
/// Helper structs for building condition and update expressions.
pub mod expression;
