//! Context assembly and conversation state for a command-line assistant that
//! answers questions about a source tree as the project's tech lead.
//!
//! The library decides and the program around it acts: it walks the file
//! system, reads the files, calls the chat service and talks to the console,
//! and hands what it got to the library as plain values.
//!
//! At the start the listing of the directory tree goes through the
//! [`scanner`], which leaves out hidden entries and build output. The
//! [`context`] builder then asks for each file that the [`summarizer`] has a
//! strategy for, and the [`assembler`] gives the system prompt its form. The
//! prompt opens the [`conversation`]; the [`turn`] executor appends a user
//! message and an assistant message for each turn, and the [`repl`] driver
//! says what the console is to do next. [`chat`] holds the values that go to
//! the chat service and come back, [`config`] what the environment sets, and
//! [`text`] the operations on characters that the others share.
//!
//! Contracts speak of views: a text is the sequence of its characters, a
//! collection the sequence of the views of its items.

pub mod assembler;
pub mod chat;
pub mod config;
pub mod context;
pub mod conversation;
pub mod repl;
pub mod scanner;
pub mod summarizer;
pub mod text;
pub mod turn;
