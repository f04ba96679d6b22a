//! The typed expression builders.

pub mod condition;
pub mod operand;
pub mod update;

pub use operand::Operand;
