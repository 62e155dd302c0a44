//! A modal text editor with sandboxed plugins, without its terminal.
//!
//! Plugins are WebAssembly modules. They reach the editor only through a fixed
//! set of host functions; every such call becomes a message to the one owner
//! of the buffers, which applies it and, for queries, answers it within a
//! bounded time.
//!
//! The bridge: `abi` holds the host functions, `marshal` moves bytes in and
//! out of guest memory, `bridge` queues effects and waits for answers,
//! `editor` applies them, `loader` makes plugins of modules and calls into
//! them, and `render` resolves the highlights of a line for display. What is
//! taken on trust from other crates stands in `runtime`, `linkage`,
//! `channel` and, for text and layout, in `text` and `screen`.
//!
//! The editor: `buffer` and `editing` hold the text and what keys do to it,
//! `keys`, `command` and `session` take keys, `screen` and `tree` say what
//! is shown. `laws` proves what holds of the whole.

pub mod abi;
pub mod bridge;
pub mod buffer;
pub mod channel;
pub mod command;
pub mod editing;
pub mod editor;
pub mod keys;
pub mod laws;
pub mod linkage;
pub mod loader;
pub mod marshal;
pub mod render;
pub mod runtime;
pub mod sample;
pub mod screen;
pub mod session;
pub mod style;
pub mod syntax;
pub mod text;
pub mod tree;
