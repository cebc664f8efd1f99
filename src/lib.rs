//! A small command shell's core: the line tokenizer, the redirection clause,
//! command resolution and the decisions of the built-in commands.
pub mod text;
pub mod tokenizer;
pub mod redirect;
pub mod path;
pub mod exit_code;
pub mod builtin;
pub mod command;
