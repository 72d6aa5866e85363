//! The closed set of failure variants raised by the parsing engine and the
//! lookahead engine.  Each variant owns exactly the data needed to render a
//! complete report on its own: the captured source snapshot, the byte spans
//! involved, the expected-token set and any related unexpected tokens.

use vstd::prelude::*;

use crate::expected::TokenVec;
use crate::source::FileSource;
use crate::source::NamedSource;
use crate::source::Span;
use crate::source::SpanContents;
use crate::source::bytes_of;
use crate::source::resolved_ok;

verus! {

/// The low-level tree-index failure of the structural storage the parse
/// result is built in, wrapped verbatim by [`ParserError::IdTreeError`].
#[verifier::external_type_specification]
pub struct ExNodeIdError(id_tree::NodeIdError);

/// One lexical token found where the grammar allowed none of it: its
/// grammar-level name, the concrete matched category, the snapshot it was
/// read from and the byte span it occupies there.  Never mutated after
/// creation; attached as related context to a prediction failure.
#[derive(Debug)]
pub struct UnexpectedToken {
    pub name: String,
    pub token_type: String,
    pub input: NamedSource,
    pub token: Span,
}

impl UnexpectedToken {
    /// The stored span is non-empty and lies within the paired snapshot's
    /// text.
    pub open spec fn wf(&self) -> bool {
        &&& self.token.length > 0
        &&& self.token.within(bytes_of(self.input.text@).len() as int)
    }

    /// Records an unexpected token at the moment prediction rejects it,
    /// taking the span from the token's own location metadata.
    pub fn new(name: String, token_type: String, input: NamedSource, token: &Span) -> (r: Self)
        requires
            token.length > 0,
            token.offset + token.length <= bytes_of(input.text@).len(),
        ensures
            r.name@ == name@,
            r.token_type@ == token_type@,
            r.input == input,
            r.token == *token,
            r.wf(),
    {
        let token = *token;
        UnexpectedToken { name, token_type, input, token }
    }
}

/// The closed set of failures the parsing engine raises.  Every variant is
/// terminal for the current parse attempt and self-contained: it never
/// depends on still-live engine state.
#[derive(Debug)]
pub enum ParserError {
    /// An internal tree-manipulation operation used to build the parse
    /// result failed; wraps the low-level failure transparently.
    IdTreeError { source: id_tree::NodeIdError },
    /// The predicting engine cannot choose a production: the current token
    /// matches none of the expected continuations.
    PredictionErrorWithExpectations {
        cause: String,
        input: NamedSource,
        error_location: Span,
        unexpected_tokens: Vec<UnexpectedToken>,
        expected_tokens: TokenVec,
    },
    /// Parsing completed but input remains that was never consumed.
    UnprocessedInput { input: NamedSource, last_token: Span },
    /// The lexer's nested-mode scanner stack was popped while already
    /// empty; the context string identifies the call site.
    PopOnEmptyScannerStateStack { context: String, input: NamedSource },
    /// Any invariant violation not otherwise classified.
    InternalError(String),
}

impl ParserError {
    /// Every variant that reports a location carries a span valid against
    /// the snapshot it also carries.
    pub open spec fn wf(&self) -> bool {
        match self {
            ParserError::PredictionErrorWithExpectations {
                input,
                error_location,
                unexpected_tokens,
                ..
            } => {
                &&& error_location.within(bytes_of(input.text@).len() as int)
                &&& forall|i: int|
                    0 <= i < unexpected_tokens@.len() ==> (#[trigger] unexpected_tokens@[i]).wf()
            },
            ParserError::UnprocessedInput { input, last_token } => last_token.within(
                bytes_of(input.text@).len() as int,
            ),
            _ => true,
        }
    }

    /// Resolves the primary span this failure reports against the snapshot
    /// the same failure carries.  Every span of a well-formed failure was
    /// produced from the parse the snapshot was captured for, so for the
    /// location-carrying variants resolution never fails; the variants
    /// without a location yield nothing.
    pub fn resolve_primary(
        &self,
        context_lines_before: usize,
        context_lines_after: usize,
    ) -> (r: Option<SpanContents>)
        requires
            self.wf(),
        ensures
            match *self {
                ParserError::PredictionErrorWithExpectations { input, error_location, .. } => r
                    matches Some(c) && resolved_ok(c, bytes_of(input.text@), error_location),
                ParserError::UnprocessedInput { input, last_token } => r matches Some(c)
                    && resolved_ok(c, bytes_of(input.text@), last_token),
                _ => r is None,
            },
    {
        match self {
            ParserError::PredictionErrorWithExpectations { input, error_location, .. } => {
                let snapshot = FileSource::from(input.clone());
                match snapshot.read_span(error_location, context_lines_before, context_lines_after) {
                    Ok(c) => Some(c),
                    Err(_) => vstd::pervasive::unreached(),
                }
            },
            ParserError::UnprocessedInput { input, last_token } => {
                let snapshot = FileSource::from(input.clone());
                match snapshot.read_span(last_token, context_lines_before, context_lines_after) {
                    Ok(c) => Some(c),
                    Err(_) => vstd::pervasive::unreached(),
                }
            },
            _ => None,
        }
    }
}

impl From<id_tree::NodeIdError> for ParserError {
    /// Wraps the structural-storage failure without altering it.
    fn from(source: id_tree::NodeIdError) -> (r: Self) {
        ParserError::IdTreeError { source }
    }
}

impl vstd::std_specs::convert::FromSpecImpl<id_tree::NodeIdError> for ParserError {
    open spec fn obeys_from_spec() -> bool {
        true
    }

    open spec fn from_spec(v: id_tree::NodeIdError) -> Self {
        ParserError::IdTreeError { source: v }
    }
}

/// The closed set of failures the lookahead engine raises.
#[derive(Debug)]
pub enum LookaheadError {
    /// A defect in the generated grammar data.
    DataError(&'static str),
    /// Production prediction failed on the current input.
    PredictionError { cause: String },
    /// No valid token could be read.
    TokenBufferEmptyError,
}

} // verus!
