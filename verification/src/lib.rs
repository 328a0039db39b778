//! Commands described as data.
//!
//! A caller describes a command-line interface as an expression: a command
//! with its arguments, its subcommands and its settings. The library
//! decodes the description ([`from_expr`]), compiles it to a `clap` parser
//! ([`to_clap`]), keeps for every command of the parser what a parse does
//! not keep ([`metadata`]), parses a command line, and reads what was
//! matched along the chain of the selected subcommands ([`results`],
//! [`pipeline`]). What the library asks of `clap`, and what it believes of
//! it, stands in [`engine`].
//!
//! Beside that stand the parts of a command-line tool that need no kernel
//! to be decided: its verbosity ([`config`]), the names of paclets and the
//! evaluations that the paclet commands ask for ([`paclet`]), what is done
//! with the packets of a kernel ([`session`]), which versions of the
//! language are supported ([`kernel`]), and the help of a command tree as
//! one document ([`help`]).

pub mod config;
pub mod engine;
pub mod expr;
pub mod from_expr;
pub mod help;
pub mod kernel;
pub mod metadata;
pub mod paclet;
pub mod pipeline;
pub mod results;
pub mod schema;
pub mod session;
pub mod text;
pub mod to_clap;
