//! The five item operations: builders that assemble a request as plain
//! values, and the decisions on what a response yields.

pub mod delete_item;
pub mod get_item;
pub mod put_item;
pub mod query;
pub mod response;
pub mod update_item;
