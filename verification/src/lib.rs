//! A linear-time glob/wildcard matcher.
//!
//! The matcher decides whether a haystack of symbols satisfies a pattern made
//! of literal symbols, a match-any-run wildcard (`*` by default), a
//! match-exactly-one wildcard (`?` by default), an optional escape symbol and
//! optional bracketed character classes with ranges and negation.
//!
//! The two entry points are [`dowild`], the fast path with the default
//! symbols, and [`dowild_with`], the general path driven by [`Options`].
//! Both are proved against the recursive matching semantics in [`semantics`].

mod adapters;
mod classes;
mod engine;
mod harness;
mod options;
pub mod semantics;
pub mod summary;
mod token;

pub use adapters::DoWild;
pub use engine::dowild;
pub use engine::dowild_with;
pub use harness::FuzzOptions;
pub use harness::PatternOptions;
pub use options::Options;
pub use options::SimpleMatchError;
pub use token::Wildcard;
