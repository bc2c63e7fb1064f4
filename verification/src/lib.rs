//! Generation of command-identifier source for a network protocol client.
//!
//! From a JSON table of numeric command identifiers and their symbolic names
//! this library writes a source unit with one constant for each entry and a
//! function that finds the name of an identifier. It also picks the schema
//! files out of a directory listing and decides, step by step, what a run of
//! the generator does next. Reading and writing files and running the schema
//! compiler and the formatter are left to the program that calls it.

pub mod document;
pub mod emit;
pub mod generator;
pub mod locate;
pub mod meaning;
pub mod pipeline;
pub mod table;
pub mod text;
