//! A plain description of one filter of a query: what is compared, how, and
//! with which data.

use vstd::prelude::*;

verus! {

/// How the key of a filter is compared with its data.
pub enum QueryOperator {
    Equal,
    NotEqual,
    In,
    LessThan,
    GreaterThan,
    Like,
}

/// How a filter is joined to the one before it.
pub enum LogicalOperator {
    And,
    Or,
}

/// What kind of literal the data of a filter is.
pub enum DataType {
    String,
    Number,
}

/// One filter: a key, an operator and the data to compare with.
pub struct QueryObject {
    key: String,
    operator: QueryOperator,
    data: Vec<String>,
    data_type: Option<DataType>,
    logical_operator: Option<LogicalOperator>,
}

} // verus!
