//! A schema model built from SQL data-definition text: tables, columns, indexes,
//! constraints and the relationships between tables, explicit and inferred.
//!
//! The text is cut into statements (`splitter`), a grammar that the caller brings
//! turns each into the values of `ast`, the statements are applied to the schema of
//! `model` one after the other (`statement`, `constraints`, `alter`, with `columns`
//! and `datatype` for the columns), and relationships that column names suggest are
//! added at the end (`infer`). `analyzer` ties these together; `laws` states what
//! holds of the model whatever the input is.

pub mod alter;
pub mod analyzer;
pub mod ast;
pub mod columns;
pub mod constraints;
pub mod datatype;
pub mod infer;
pub mod laws;
pub mod lists;
pub mod model;
pub mod splitter;
pub mod statement;
pub mod text;
