//! Joins per-neighbourhood statistics onto a neighbourhood boundary map.
//!
//! Three independently maintained datasets spell neighbourhood names in
//! slightly different ways. This library reconciles the spellings and joins
//! case counts and census populations onto boundary features by the
//! reconciled name.

pub mod boundary;
pub mod cases;
pub mod census;
pub mod document;
pub mod error;
pub mod external;
pub mod join;
pub mod names;
pub mod population;
pub mod registry;
pub mod table;
pub mod text;
