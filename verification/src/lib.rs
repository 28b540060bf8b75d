//! Interactive SQL client core: command parsing, connection-string scanning,
//! session state, execution dispatch, result materialization and diagnostic
//! formatting, with machine-checked contracts.

pub mod column;
pub mod command;
pub mod completer;
pub mod conn;
pub mod context;
pub mod diag;
pub mod dispatch;
pub mod display;
pub mod input;
pub mod materialize;
pub mod parser;
pub mod result;
pub mod strutil;
pub mod table;
pub mod validate;
pub mod value;
