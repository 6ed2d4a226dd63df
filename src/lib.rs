//! An editor extension for the Nushell scripting dialect: the commands that
//! run, test and check scripts through the `nu` interpreter, and the
//! registrations that make them known to the host editor.
//!
//! The host and the interpreter are outside this library. Each command is a
//! decision made before the interpreter runs and one made after it exits;
//! activation is a sequence of registrations that stops at the first failure.
pub mod command;
pub mod extension;
pub mod language_server;
pub mod text;
