//! Greeting text for the desktop shell's `greet` command, with its shape proved.

pub mod greeting;

pub use greeting::greet;
