//! The session engine of an interactive, line-oriented program builder. The
//! user enters statements and expressions one line at a time; after each
//! accepted line the whole accumulated program is generated anew, built and
//! run.
//!
//! The engine sorts input lines into commands (`input`) and enters them into
//! the line reader's recall history (`history`), keeps the accumulated program
//! as a snapshot of generated units and renders it as one program text
//! (`function`), judges what the compiler and the binary left behind
//! (`bridge`), and decides what becomes of the snapshot (`repl`). Reading
//! lines, running commands and printing are left to the caller.

pub mod bridge;
pub mod function;
pub mod history;
pub mod input;
pub mod repl;
pub mod text;
