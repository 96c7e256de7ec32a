//! Requests on customers, one module for each endpoint.
pub mod balance_transactions;
pub mod common;
pub mod create;
pub mod delete;
pub mod fund_cash_balance;
pub mod funding_instructions;
pub mod list;
pub mod object;
pub mod page;
pub mod payment_methods;
pub mod retrieve;
pub mod search;
pub mod update;
