use parol_runtime::FileSource;
use parol_runtime::LookaheadError;
use parol_runtime::NamedSource;
use parol_runtime::ParserError;
use parol_runtime::Span;
use parol_runtime::TokenVec;
use parol_runtime::UnexpectedToken;

fn named(name: &str, text: &str) -> NamedSource {
    NamedSource::from(FileSource::from_stream(name.to_string(), text.to_string()))
}

#[test]
fn unexpected_token_span_is_nonempty_and_in_bounds() {
    let input = named("calc.txt", "1 + + 2");
    let span = Span::new(4, 1);
    let tok = UnexpectedToken::new("Plus".to_string(), "+".to_string(), input, &span);
    assert_eq!(tok.token, span);
    assert!(tok.token.length > 0);
    assert!(tok.token.offset + tok.token.length <= tok.input.text.len());
}

#[test]
fn prediction_error_on_doubled_operator() {
    // Parsing "1 + + 2": the grammar expects a number or an identifier
    // after the first "+", but finds the second "+" at byte 4.
    let text = "1 + + 2";
    let input = named("calc.txt", text);
    let second_plus = Span::new(4, 1);
    assert_eq!(&text.as_bytes()[4..5], b"+");

    let mut expected = TokenVec::default();
    expected.push("Number".to_string());
    expected.push("Identifier".to_string());

    let unexpected = UnexpectedToken::new(
        "Plus".to_string(),
        "+".to_string(),
        named("calc.txt", text),
        &second_plus,
    );

    let err = ParserError::PredictionErrorWithExpectations {
        cause: "Production prediction failed. ".to_string(),
        input,
        error_location: second_plus,
        unexpected_tokens: vec![unexpected],
        expected_tokens: expected,
    };

    match &err {
        ParserError::PredictionErrorWithExpectations {
            error_location,
            expected_tokens,
            ..
        } => {
            assert_eq!(*error_location, Span::new(4, 1));
            let list = expected_tokens.render();
            assert!(list.contains("Number"));
            assert!(list.contains("Identifier"));
            assert_eq!(list, "Number, Identifier");
        }
        _ => panic!("wrong variant"),
    }

    let report = err.render();
    assert_eq!(
        report.message,
        "Production prediction failed. Expecting one of Number, Identifier"
    );
    assert_eq!(report.code, "parol_runtime::parser::syntax_error");
    assert_eq!(
        report.help,
        "Syntax error in input prevents prediction of next production"
    );
    let label = report.label.unwrap();
    assert_eq!(label.text, "Error location");
    assert_eq!(label.span, Span::new(4, 1));
    assert_eq!(report.related.len(), 1);
    assert_eq!(report.related[0].message, "Unexpected token: Plus (+)");
    assert_eq!(report.related[0].code, "parol_runtime::unexpected_token");
    let rlabel = report.related[0].label.as_ref().unwrap();
    assert_eq!(rlabel.span, Span::new(4, 1));

    // The reported span resolves against the carried snapshot.
    let source = report.source.unwrap();
    let fs = FileSource::from(source);
    let c = fs.read_span(&Span::new(4, 1), 0, 0).unwrap();
    assert_eq!(c.data, b"+".to_vec());
    assert_eq!(c.line, 0);
    assert_eq!(c.column, 4);
}

#[test]
fn unprocessed_input_after_complete_parse() {
    // A grammar that consumes "a b" fully but is given "a b c": the last
    // processed token is "b" at byte 2.
    let text = "a b c";
    let err = ParserError::UnprocessedInput {
        input: named("ab.txt", text),
        last_token: Span::new(2, 1),
    };
    match &err {
        ParserError::UnprocessedInput { input, last_token } => {
            assert_eq!(*last_token, Span::new(2, 1));
            assert_eq!(&input.text.as_bytes()[2..3], b"b");
        }
        _ => panic!("wrong variant"),
    }
    let report = err.render();
    assert_eq!(
        report.message,
        "Unprocessed input is left after parsing has finished"
    );
    assert_eq!(report.code, "parol_runtime::parser::unprocessed_input");
    let label = report.label.unwrap();
    assert_eq!(label.text, "Last processed token");
    assert_eq!(label.span, Span::new(2, 1));
}

#[test]
fn pop_on_empty_scanner_stack_names_the_call_site() {
    let err = ParserError::PopOnEmptyScannerStateStack {
        context: "LexerImpl::pop_scanner: ".to_string(),
        input: named("modes.txt", "a b"),
    };
    let report = err.render();
    assert_eq!(
        report.message,
        "LexerImpl::pop_scanner: Tried to pop from an empty scanner stack"
    );
    assert_eq!(
        report.code,
        "parol_runtime::parser::pop_on_empty_scanner_stack"
    );
    assert!(report.label.is_none());
    assert_eq!(report.source.unwrap().name, "modes.txt");
}

#[test]
fn internal_error_carries_its_message() {
    let err = ParserError::InternalError("stack underflow in AST builder".to_string());
    let report = err.render();
    assert_eq!(report.message, "stack underflow in AST builder");
    assert_eq!(report.code, "parol_runtime::parser::internal_error");
    assert_eq!(report.help, "Unexpected internal state");
    assert!(report.source.is_none());
    assert!(report.label.is_none());
}

#[test]
fn id_tree_error_message_is_forwarded_verbatim() {
    let low = id_tree::NodeIdError::InvalidNodeIdForTree;
    let forwarded = format!("{}", low);
    let err = ParserError::from(low);
    let report = err.render();
    assert_eq!(report.message, forwarded);
    assert_eq!(report.code, "parol_runtime::parser::id_tree_error");
    assert_eq!(report.help, "Error from id_tree crate");
    assert!(report.source.is_none());

    let low = id_tree::NodeIdError::NodeIdNoLongerValid;
    let forwarded = format!("{}", low);
    let report = ParserError::from(low).render();
    assert_eq!(report.message, forwarded);
}

#[test]
fn primary_span_of_well_formed_error_always_resolves() {
    let text = "x := 1 +\ny := 2\n";
    let err = ParserError::UnprocessedInput {
        input: named("u.txt", text),
        last_token: Span::new(9, 1),
    };
    let c = err.resolve_primary(0, 0).unwrap();
    assert_eq!(c.data, b"y".to_vec());
    assert_eq!(c.line, 1);
    assert_eq!(c.column, 0);

    let none = ParserError::InternalError("no location".to_string()).resolve_primary(1, 1);
    assert!(none.is_none());
}

#[test]
fn lookahead_error_reports() {
    let report = LookaheadError::DataError("unknown non-terminal index").render();
    assert_eq!(report.message, "unknown non-terminal index");
    assert_eq!(report.code, "parol_runtime::lookahead::generation_error");
    assert_eq!(report.help, "Error in generated source");

    let report = LookaheadError::PredictionError {
        cause: "no production applicable".to_string(),
    }
    .render();
    assert_eq!(report.message, "no production applicable");
    assert_eq!(
        report.code,
        "parol_runtime::lookahead::production_prediction_error"
    );

    let report = LookaheadError::TokenBufferEmptyError.render();
    assert_eq!(report.message, "No valid token read");
    assert_eq!(report.code, "parol_runtime::lookahead::empty_token_buffer");
    assert_eq!(report.help, "No valid token read");
    assert!(report.label.is_none());
    assert!(report.related.is_empty());
}
