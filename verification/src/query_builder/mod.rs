//! The statement tree and the functions that turn it into SQL text.

pub mod compile;
pub mod conditions;
pub mod error;
pub mod laws;
pub mod macro_error;
pub mod model;
pub mod text;
pub mod validity;

pub use conditions::{build_like_query, build_where_condition};
pub use error::ConstructionError;
pub use model::{
    EnumToStr, LogicOperator, QueryAction, QueryBuilder, QueryComponent, QueryComponentView,
    QueryOperator, WhereCondition, WhereConditionView,
};
