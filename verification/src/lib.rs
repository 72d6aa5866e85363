//! Diagnostic layer of a deterministic top-down parser runtime.
//!
//! When the parsing engine or the lookahead engine fails, it captures the
//! source text it was scanning, the byte spans of the offending tokens and
//! the set of expected continuations, and raises one of the error variants
//! defined here.  Every variant owns all the data needed to render a full
//! report later, without re-reading or re-lexing the input.

pub mod errors;
pub mod expected;
pub mod report;
pub mod source;

pub use errors::LookaheadError;
pub use errors::ParserError;
pub use errors::UnexpectedToken;
pub use expected::TokenVec;
pub use source::FileSource;
pub use source::NamedSource;
pub use source::Span;
