//! Tokenizer for one line of markdown: emphasis, inline code, links, images,
//! checkboxes and the plain text between them.
pub mod constants;
pub mod types;
pub mod grammar;
pub mod parser_element;
pub mod laws;
