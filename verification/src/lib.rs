//! The core of Necessist's TypeScript support: warnings that are reported at most as often as
//! they should be, and the decisions that a Mocha-like backend takes about `it` messages, source
//! files and syntax.

pub mod emitted;
pub mod kebab;
pub mod paint;
pub mod quote;
pub mod ts;
pub mod warn;
pub mod warn_history;
pub mod warn_laws;
pub mod warning;
