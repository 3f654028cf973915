//! Decisions about TypeScript tests.

pub mod assoc;
pub mod ast;
pub mod bigint;
pub mod history;
pub mod inner;
pub mod it_call;
pub mod line_laws;
pub mod lines;
pub mod literal_laws;
pub mod message_laws;
pub mod messages;
pub mod nodes;
pub mod span;
pub mod swc;
pub mod syntax;
pub mod syntax_laws;
pub mod template;
