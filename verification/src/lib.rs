//! Texts of small records.
//!
//! A value can be written in two ways. Its inspection text shows its
//! structure: the name of its type and every field in the order of
//! declaration, on one line or, in the pretty variant, one field per line.
//! Its human-readable text is whatever its type defines for a reader. A type
//! may define one of the two, both or neither.
//!
//! - [`records`] holds the record types and, as the traits [`records::Inspect`]
//!   and [`records::Show`], the two capabilities. Asking a type for a text
//!   that it does not define does not compile.
//! - [`layout`] says how an inspection text is laid out, and writes it from
//!   the texts of the fields.
//! - [`decimal`] writes integers.
//! - [`value`] holds values whose type is known only at run time, and chooses
//!   the text of a value by its type and the requested mode.
//! - [`grammar`] and [`template`] read templates, text with holes, and fill
//!   the holes with positional and named arguments. Every error is found
//!   before anything is written.
//! - [`text`] holds the two things that are believed of `String` and `str`
//!   rather than proved: that `String::push` adds a character at the end,
//!   and that the inspection text of a string is a function of the string.
//!
//! Every function states in its contract the exact text that it returns, over
//! sequences of characters, and is proved to return it.

pub mod decimal;
pub mod error;
pub mod grammar;
pub mod layout;
pub mod records;
pub mod template;
pub mod text;
pub mod value;
