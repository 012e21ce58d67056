//! The types of the expressions of a body, and what is wrong with them.
pub mod applicability;
pub mod assignment;
pub mod candidate;
pub mod catch;
pub mod context;
pub mod conversion;
pub mod creation;
pub mod ctx;
pub mod diag;
pub mod exceptions;
pub mod expr;
pub mod field;
pub mod flow;
pub mod functional;
pub mod lambda;
pub mod local;
pub mod lookup;
pub mod method;
pub mod new_expr;
pub mod operator;
pub mod overload;
pub mod poly;
pub mod reports;
pub mod simple;
pub mod stmt;
pub mod switch;
