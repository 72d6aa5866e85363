//! Rendering of the error taxonomy into a self-contained report value:
//! primary message, stable machine-readable code, help text, the labeled
//! primary span, the named source it resolves against, and the related
//! labeled spans.  Presentation is kept out of the taxonomy itself: one
//! pure function per error kind, exhaustive over the variants.

use vstd::prelude::*;
use vstd::string::StringExecFns;

use crate::errors::LookaheadError;
use crate::errors::ParserError;
use crate::errors::UnexpectedToken;
use crate::expected::rendered;
use crate::source::NamedSource;
use crate::source::Span;

verus! {

/// A labeled span of a report: the label text and the byte range it marks.
#[derive(Debug)]
pub struct Label {
    pub text: String,
    pub span: Span,
}

/// A renderable diagnostic: everything a report handler needs, owned by the
/// value itself.
#[derive(Debug)]
pub struct Report {
    /// The primary message, with any free-text cause or context
    /// interpolated.
    pub message: String,
    /// A stable, namespaced machine-readable code.
    pub code: String,
    /// A help text for the user.
    pub help: String,
    /// The named source the spans of this report resolve against, when the
    /// error kind carries a location.
    pub source: Option<NamedSource>,
    /// The primary labeled span, when the error kind has a location.
    pub label: Option<Label>,
    /// Secondary reports: one per related unexpected token.
    pub related: Vec<Report>,
}

/// The message the wrapped structural-storage failure displays, forwarded
/// verbatim: the fixed text its own rendering produces for each variant.
pub open spec fn node_id_error_message(e: id_tree::NodeIdError) -> Seq<char> {
    match e {
        id_tree::NodeIdError::InvalidNodeIdForTree => "NodeIdError: The given NodeId belongs to a different Tree."@,
        id_tree::NodeIdError::NodeIdNoLongerValid => "NodeIdError: The given NodeId is no longer valid. The Node in question has been removed."@,
    }
}

/// The primary message of each parser failure kind.
pub open spec fn parser_message(e: ParserError) -> Seq<char> {
    match e {
        ParserError::IdTreeError { source } => node_id_error_message(source),
        ParserError::PredictionErrorWithExpectations { cause, expected_tokens, .. } => cause@
            + "Expecting one of "@ + rendered(expected_tokens@),
        ParserError::UnprocessedInput { .. } => "Unprocessed input is left after parsing has finished"@,
        ParserError::PopOnEmptyScannerStateStack { context, .. } => context@
            + "Tried to pop from an empty scanner stack"@,
        ParserError::InternalError(message) => message@,
    }
}

/// The stable code of each parser failure kind.
pub open spec fn parser_code(e: ParserError) -> Seq<char> {
    match e {
        ParserError::IdTreeError { .. } => "parol_runtime::parser::id_tree_error"@,
        ParserError::PredictionErrorWithExpectations { .. } => "parol_runtime::parser::syntax_error"@,
        ParserError::UnprocessedInput { .. } => "parol_runtime::parser::unprocessed_input"@,
        ParserError::PopOnEmptyScannerStateStack { .. } => "parol_runtime::parser::pop_on_empty_scanner_stack"@,
        ParserError::InternalError(..) => "parol_runtime::parser::internal_error"@,
    }
}

/// The help text of each parser failure kind.
pub open spec fn parser_help(e: ParserError) -> Seq<char> {
    match e {
        ParserError::IdTreeError { .. } => "Error from id_tree crate"@,
        ParserError::PredictionErrorWithExpectations { .. } => "Syntax error in input prevents prediction of next production"@,
        ParserError::UnprocessedInput { .. } => "Unprocessed input is left after parsing has finished"@,
        ParserError::PopOnEmptyScannerStateStack { .. } => "Tried to pop from an empty scanner stack"@,
        ParserError::InternalError(..) => "Unexpected internal state"@,
    }
}

/// The primary labeled span each parser failure kind reports: the offending
/// token's location for a prediction failure, the last processed token for
/// leftover input, and none for the kinds without a location.
pub open spec fn parser_label_ok(lab: Option<Label>, e: ParserError) -> bool {
    match e {
        ParserError::PredictionErrorWithExpectations { error_location, .. } => lab matches Some(l)
            && l.text@ == "Error location"@ && l.span == error_location,
        ParserError::UnprocessedInput { last_token, .. } => lab matches Some(l) && l.text@
            == "Last processed token"@ && l.span == last_token,
        _ => lab is None,
    }
}

/// The named source a parser report resolves against: the snapshot the
/// variant carries, for the kinds that carry one.
pub open spec fn parser_source_ok(src: Option<NamedSource>, e: ParserError) -> bool {
    match e {
        ParserError::PredictionErrorWithExpectations { input, .. } => src matches Some(s) && s
            == input,
        ParserError::UnprocessedInput { input, .. } => src matches Some(s) && s == input,
        ParserError::PopOnEmptyScannerStateStack { input, .. } => src matches Some(s) && s == input,
        _ => src is None,
    }
}

/// The report of one unexpected token, as attached to a prediction failure:
/// its own message, code, help, source and labeled span.
pub open spec fn unexpected_reports(r: Report, t: UnexpectedToken) -> bool {
    &&& r.message@ == "Unexpected token: "@ + t.name@ + " ("@ + t.token_type@ + ")"@
    &&& r.code@ == "parol_runtime::unexpected_token"@
    &&& r.help@ == "Unexpected token"@
    &&& r.source matches Some(s) && s == t.input
    &&& r.label matches Some(l) && l.text@ == "Unexpected token"@ && l.span == t.token
    &&& r.related@.len() == 0
}

/// The related reports of a parser failure: one per unexpected token of a
/// prediction failure, in order; no other kind has related reports.
pub open spec fn parser_related_ok(rel: Seq<Report>, e: ParserError) -> bool {
    match e {
        ParserError::PredictionErrorWithExpectations { unexpected_tokens, .. } => {
            &&& rel.len() == unexpected_tokens@.len()
            &&& forall|j: int|
                0 <= j < rel.len() ==> unexpected_reports(
                    #[trigger] rel[j],
                    unexpected_tokens@[j],
                )
        },
        _ => rel.len() == 0,
    }
}

/// A report renders a parser failure completely: message, code, help,
/// source, primary label and related reports all agree with the variant.
pub open spec fn reports_parser_error(r: Report, e: ParserError) -> bool {
    &&& r.message@ == parser_message(e)
    &&& r.code@ == parser_code(e)
    &&& r.help@ == parser_help(e)
    &&& parser_label_ok(r.label, e)
    &&& parser_source_ok(r.source, e)
    &&& parser_related_ok(r.related@, e)
}

impl UnexpectedToken {
    /// The report of this token alone, used as related context of a
    /// prediction failure.
    pub fn render(&self) -> (r: Report)
        ensures
            unexpected_reports(r, *self),
    {
        let message = String::from_str("Unexpected token: ").concat(self.name.as_str()).concat(
            " (",
        ).concat(self.token_type.as_str()).concat(")");
        Report {
            message,
            code: String::from_str("parol_runtime::unexpected_token"),
            help: String::from_str("Unexpected token"),
            source: Some(self.input.clone()),
            label: Some(Label { text: String::from_str("Unexpected token"), span: self.token }),
            related: Vec::new(),
        }
    }
}

impl ParserError {
    /// Renders this failure into a self-contained report.
    pub fn render(&self) -> (r: Report)
        ensures
            reports_parser_error(r, *self),
    {
        match self {
            ParserError::IdTreeError { source } => {
                let message = match source {
                    id_tree::NodeIdError::InvalidNodeIdForTree => String::from_str(
                        "NodeIdError: The given NodeId belongs to a different Tree.",
                    ),
                    id_tree::NodeIdError::NodeIdNoLongerValid => String::from_str(
                        "NodeIdError: The given NodeId is no longer valid. The Node in question has been removed.",
                    ),
                };
                Report {
                    message,
                    code: String::from_str("parol_runtime::parser::id_tree_error"),
                    help: String::from_str("Error from id_tree crate"),
                    source: None,
                    label: None,
                    related: Vec::new(),
                }
            },
            ParserError::PredictionErrorWithExpectations {
                cause,
                input,
                error_location,
                unexpected_tokens,
                expected_tokens,
            } => {
                let message = cause.clone().concat("Expecting one of ").concat(
                    expected_tokens.render().as_str(),
                );
                let mut related: Vec<Report> = Vec::new();
                let n: usize = unexpected_tokens.len();
                for i in 0..n
                    invariant
                        n == unexpected_tokens.len(),
                        related.len() == i,
                        forall|j: int|
                            0 <= j < i ==> unexpected_reports(
                                #[trigger] related@[j],
                                unexpected_tokens@[j],
                            ),
                {
                    related.push(unexpected_tokens[i].render());
                }
                Report {
                    message,
                    code: String::from_str("parol_runtime::parser::syntax_error"),
                    help: String::from_str(
                        "Syntax error in input prevents prediction of next production",
                    ),
                    source: Some(input.clone()),
                    label: Some(
                        Label { text: String::from_str("Error location"), span: *error_location },
                    ),
                    related,
                }
            },
            ParserError::UnprocessedInput { input, last_token } => {
                Report {
                    message: String::from_str(
                        "Unprocessed input is left after parsing has finished",
                    ),
                    code: String::from_str("parol_runtime::parser::unprocessed_input"),
                    help: String::from_str("Unprocessed input is left after parsing has finished"),
                    source: Some(input.clone()),
                    label: Some(
                        Label {
                            text: String::from_str("Last processed token"),
                            span: *last_token,
                        },
                    ),
                    related: Vec::new(),
                }
            },
            ParserError::PopOnEmptyScannerStateStack { context, input } => {
                Report {
                    message: context.clone().concat("Tried to pop from an empty scanner stack"),
                    code: String::from_str("parol_runtime::parser::pop_on_empty_scanner_stack"),
                    help: String::from_str("Tried to pop from an empty scanner stack"),
                    source: Some(input.clone()),
                    label: None,
                    related: Vec::new(),
                }
            },
            ParserError::InternalError(message) => {
                Report {
                    message: message.clone(),
                    code: String::from_str("parol_runtime::parser::internal_error"),
                    help: String::from_str("Unexpected internal state"),
                    source: None,
                    label: None,
                    related: Vec::new(),
                }
            },
        }
    }
}

/// The primary message of each lookahead failure kind.
pub open spec fn lookahead_message(e: LookaheadError) -> Seq<char> {
    match e {
        LookaheadError::DataError(description) => description@,
        LookaheadError::PredictionError { cause } => cause@,
        LookaheadError::TokenBufferEmptyError => "No valid token read"@,
    }
}

/// The stable code of each lookahead failure kind.
pub open spec fn lookahead_code(e: LookaheadError) -> Seq<char> {
    match e {
        LookaheadError::DataError(..) => "parol_runtime::lookahead::generation_error"@,
        LookaheadError::PredictionError { .. } => "parol_runtime::lookahead::production_prediction_error"@,
        LookaheadError::TokenBufferEmptyError => "parol_runtime::lookahead::empty_token_buffer"@,
    }
}

/// The help text of each lookahead failure kind.
pub open spec fn lookahead_help(e: LookaheadError) -> Seq<char> {
    match e {
        LookaheadError::DataError(..) => "Error in generated source"@,
        LookaheadError::PredictionError { .. } => "Error in input"@,
        LookaheadError::TokenBufferEmptyError => "No valid token read"@,
    }
}

/// A report renders a lookahead failure completely.  No lookahead kind
/// carries a location, so the report has no source, no label and no
/// related reports.
pub open spec fn reports_lookahead_error(r: Report, e: LookaheadError) -> bool {
    &&& r.message@ == lookahead_message(e)
    &&& r.code@ == lookahead_code(e)
    &&& r.help@ == lookahead_help(e)
    &&& r.source is None
    &&& r.label is None
    &&& r.related@.len() == 0
}

impl LookaheadError {
    /// Renders this failure into a self-contained report.
    pub fn render(&self) -> (r: Report)
        ensures
            reports_lookahead_error(r, *self),
    {
        match self {
            LookaheadError::DataError(description) => {
                Report {
                    message: String::from_str(description),
                    code: String::from_str("parol_runtime::lookahead::generation_error"),
                    help: String::from_str("Error in generated source"),
                    source: None,
                    label: None,
                    related: Vec::new(),
                }
            },
            LookaheadError::PredictionError { cause } => {
                Report {
                    message: cause.clone(),
                    code: String::from_str(
                        "parol_runtime::lookahead::production_prediction_error",
                    ),
                    help: String::from_str("Error in input"),
                    source: None,
                    label: None,
                    related: Vec::new(),
                }
            },
            LookaheadError::TokenBufferEmptyError => {
                Report {
                    message: String::from_str("No valid token read"),
                    code: String::from_str("parol_runtime::lookahead::empty_token_buffer"),
                    help: String::from_str("No valid token read"),
                    source: None,
                    label: None,
                    related: Vec::new(),
                }
            },
        }
    }
}

} // verus!
