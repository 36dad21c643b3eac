//! Session helpers for a request-handling server: signed, expiring claims
//! tokens, and a per-request pipeline that gathers named values for a
//! template and hands them over exactly once.

pub mod errors;
pub mod json;
pub mod jwt;
pub mod template;
