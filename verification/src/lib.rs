//! Front end of the Lacon configuration language: an indentation-sensitive
//! scanner with hyphenated identifiers, string interpolation and numeric
//! literals that carry physical units, together with the catalog of units.

pub mod interpretator;
pub mod lexer;
pub mod shared;
pub mod text;
pub mod numbers;
