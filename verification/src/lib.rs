//! Reading names, paths and types out of fragments of Rust source, for a code
//! completer.
//!
//! - `syntax_tree`: the parts of a parsed syntax tree that are read, as plain values.
//! - `parse`: parsing text with the `syntex_syntax` parser into such a tree.
//! - `visitors`: what is read out of a tree (names, paths, fields, functions).
//! - `extract`: parsing a text and reading one kind of information out of it.
//! - `typeinf`: working out the type of an expression or a `let` binding, as
//!   step machines that ask a name resolver questions.
//! - `laws`: properties that relate several functions or inputs.
pub mod syntax_tree;
pub mod parse;
pub mod visitors;
pub mod extract;
pub mod typeinf;
pub mod laws;

pub use crate::extract::{
    parse_enum, parse_fn, parse_fn_output, parse_impl, parse_mod, parse_struct_fields,
    parse_trait, parse_type, parse_view_item,
};
pub use crate::parse::{string_to_crate, string_to_expr, string_to_item, string_to_parser, string_to_stmt};
pub use crate::typeinf::{get_type_of, parse_let, LetResult, Match, MatchType};
pub use crate::visitors::{
    EnumVisitor, FnVisitor, ImplVisitor, ModVisitor, TraitVisitor, TypeVisitor, ViewItemVisitor,
};
