//! Addresses the fields of an in-memory tree of values by textual command paths.
//!
//! A command such as `foo.bar[2][?].baz:get` names a way down a tree of
//! values and an action for the value at its end. [`NodeRunner::new`] parses
//! the command into tokens, and the values of the tree, which are [`Node`]s,
//! take the tokens one by one: a node hands the runner on to the child that
//! the next token names, or performs the action and answers with a text.
//!
//! The integers, `bool`, `String`, `Option`, `Vec`, arrays, tuples,
//! [`ContextVec`], [`KeyedContextVec`] and [`StringMap`] are nodes. Aggregates of an
//! application become nodes with the functions of [`aggregate`].
//!
//! Every function states what it does over mathematical values: a command is
//! a sequence of [`node_token::Token`]s, a text a sequence of characters, a
//! node its [`Node::Model`]. What a node makes of a command is the function
//! [`Node::outcome`]; [`laws`] holds what follows for every command.
//!
//! JSON is read and written by `serde_json`. What its functions return is
//! taken on trust, and said in [`json`].

pub mod aggregate;
pub mod arrays;
pub mod collections;
pub mod container;
pub mod context;
pub mod context_vec;
pub mod json;
pub mod keyed_context_vec;
pub mod keys;
pub mod laws;
pub mod node;
pub mod node_runner;
pub mod node_token;
pub mod numeric;
pub mod string_map;
pub mod text;
pub mod tuples;

pub use context_vec::ContextVec;
pub use keyed_context_vec::KeyedContextVec;
pub use node::{Clipboard, Node};
pub use node_runner::NodeRunner;
pub use node_token::NodeToken;
pub use string_map::StringMap;
