//! A lint rule that reports `new Promise(...)` calls whose executor is an
//! async function or async arrow function.

pub mod ast;
pub mod rule;
pub mod laws;
