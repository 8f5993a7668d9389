//! Error-reporting and schema-identity-resolution core of a query-language
//! execution engine: a closed taxonomy of execution failures rendered into
//! spec-shaped response error records (message, response path, source
//! locations), and a lazy, memoized resolver from external definition handles
//! to their materialized definitions.

pub mod execution_error;
pub mod location;
pub mod wrapped_definition;
