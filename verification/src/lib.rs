//! A composer of literal SQL text: a tree that describes one SELECT, UPDATE
//! or DELETE statement is turned into the statement's text, or into the
//! reason why the tree does not describe a statement.
//!
//! Every executable function carries a contract over the sequence of
//! characters it produces, and every contract is proved.

pub mod generic_query;
pub mod query_builder;
