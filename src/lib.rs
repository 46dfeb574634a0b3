//! Runtime for a zero-copy, word-oriented binary message format.
//!
//! A message is a table of segments of 64-bit words. One-word pointers
//! (`pointer`, `resolve`) link structs and lists; readers (`reader`, `list`,
//! `text`) view them in place by segment and offset, refusing targets outside
//! their segment, chained far pointers, and reads beyond a nesting and a word
//! budget; builders (`builder`) grow a segment and write fields and pointers.
//! `struct_list` hands out the elements of a list as values of a struct type,
//! and `node`, `requested_file` and `code_generator_request` are such types,
//! including a union selected by a discriminant. `laws` states what holds
//! across these operations.

pub mod annotation;
pub mod builder;
pub mod code_generator_request;
pub mod enumerant;
pub mod field;
pub mod laws;
pub mod list;
pub mod message;
pub mod node;
pub mod pointer;
pub mod reader;
pub mod requested_file;
pub mod resolve;
pub mod size;
pub mod struct_list;
pub mod text;
