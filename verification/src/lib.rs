//! Translating parsed SQL `SELECT` statements into the query options of a
//! schema-less document store: a nested predicate document for the `WHERE`
//! clause, a sort specification, a field projection, and pagination, with
//! every translation rule stated as a contract and proved.

pub mod ast;
pub mod document;
pub mod laws;
pub mod mongo_misc;
pub mod numlit;
pub mod sqlmongo;
