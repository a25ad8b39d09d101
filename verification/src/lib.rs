//! A source-to-source rewrite rule for parsed programs: every call of a method of
//! `console` gets a generated prefix as a new first argument, unless the method is
//! exempt.
//!
//! The work is done in three steps. [`resolve_config`] reads the plugin's options and
//! the host's context and merges them into a [`Config`]. [`TransformVisitor::generate_prefix`]
//! makes the prefix for the file at hand from that configuration. The visitor then walks
//! the tree, children before parents, and rewrites the calls that qualify.
//! [`process_transform`] does all three.
//!
//! Every function here is verified against a contract that is stated over mathematical
//! models: [`ast::Tree`] for a node, [`config::ConfigView`] for a configuration,
//! [`json::JsonView`] for a JSON value. What the transform does to a tree is the spec
//! function [`rewrite::rewritten`]; what holds of it on every tree is proved in
//! [`laws`].

pub mod ast;
pub mod config;
pub mod json;
pub mod laws;
pub mod rewrite;
pub mod schema;
pub mod text;
pub mod transform;
pub mod visitor;

pub use crate::ast::{CallExpr, Ident, Lit, MemberExpr, Node, Program};
pub use crate::config::{default_prefix_pattern, Config, PluginContext};
pub use crate::json::Json;
pub use crate::schema::ParseError;
pub use crate::transform::{combine, process_transform, resolve_config, transform_program, TransformError};
pub use crate::visitor::{console_method, TransformVisitor};
