//! The payload validator: is a byte payload syntactically valid YAML or JSON?
//!
//! Parsing itself is done by `yaml-rust` and `serde_json`. What those parsers
//! answer on a given input is named by the uninterpreted functions below; the
//! validator's contracts say how its result is made of those answers.
//!
//! A YAML text is validated by walking the parser's events. Nothing is built
//! from them: a text that nests deep, or whose aliases would multiply when
//! expanded, costs no more than its length.

use vstd::prelude::*;
use vstd::utf8::*;

verus! {

/// The two payload grammars the validator knows.
#[derive(Clone, Copy, Debug, PartialEq, Eq, Structural)]
pub enum PayloadKind {
    Yaml,
    Json,
}

/// Which stage of validation rejected a payload.
#[derive(Clone, Copy, Debug, PartialEq, Eq, Structural)]
pub enum ParseFault {
    /// The payload is not UTF-8 text (YAML only: the JSON parser reads bytes).
    InvalidUtf8,
    /// A YAML alias names an anchor that its own document does not define.
    ForeignAnchor,
    /// The YAML parser rejected the text.
    Yaml,
    /// The JSON parser rejected the bytes.
    Json,
}

/// Why a payload was rejected: the stage that failed and the message it gave.
#[derive(Debug)]
pub struct ParseError {
    fault: ParseFault,
    diagnostic: String,
}

/// What a [`ParseError`] holds, as mathematical values.
pub struct ParseErrorView {
    pub fault: ParseFault,
    pub diagnostic: Seq<char>,
}

impl View for ParseError {
    type V = ParseErrorView;

    closed spec fn view(&self) -> ParseErrorView {
        ParseErrorView { fault: self.fault, diagnostic: self.diagnostic@ }
    }
}

impl ParseError {
    /// Makes the error of the given stage with the given message.
    pub fn new(fault: ParseFault, diagnostic: String) -> (error: ParseError)
        ensures
            error@ == (ParseErrorView { fault, diagnostic: diagnostic@ }),
    {
        ParseError { fault, diagnostic }
    }

    /// The stage that rejected the payload.
    pub fn fault(&self) -> (fault: ParseFault)
        ensures
            fault == self@.fault,
    {
        self.fault
    }

    /// The rejecting stage's message, unchanged.
    pub fn diagnostic(&self) -> (diagnostic: &str)
        ensures
            diagnostic@ == self@.diagnostic,
    {
        self.diagnostic.as_str()
    }
}

/// The message with which `std::str::from_utf8` describes why `bytes` is not
/// UTF-8. Meaningful only where `bytes` is not valid UTF-8.
pub uninterp spec fn utf8_diagnostic(bytes: Seq<u8>) -> Seq<char>;

/// One pull from the YAML parser, as far as the validator reads it.
#[derive(Debug)]
pub enum YamlStep {
    /// A document starts.
    DocumentStart,
    /// A scalar, or the start of a sequence or mapping, with the number of
    /// the anchor it defines (zero where it defines none).
    Node(usize),
    /// An alias, with the number of the anchor it refers to.
    Alias(usize),
    /// Any other event.
    Other,
    /// The stream's end.
    End,
    /// A scan error, as its message.
    Failed(String),
}

/// A [`YamlStep`] with its contents as mathematical values.
pub enum YamlStepView {
    DocumentStart,
    Node(nat),
    Alias(nat),
    Other,
    End,
    Failed(Seq<char>),
}

impl View for YamlStep {
    type V = YamlStepView;

    open spec fn view(&self) -> YamlStepView {
        match self {
            YamlStep::DocumentStart => YamlStepView::DocumentStart,
            YamlStep::Node(anchor) => YamlStepView::Node(*anchor as nat),
            YamlStep::Alias(anchor) => YamlStepView::Alias(*anchor as nat),
            YamlStep::Other => YamlStepView::Other,
            YamlStep::End => YamlStepView::End,
            YamlStep::Failed(message) => YamlStepView::Failed(message@),
        }
    }
}

/// What the pull of the given index (from zero) gives, of the pulls from a
/// `yaml_rust::parser::Parser` that was started on `text`.
pub uninterp spec fn yaml_step(text: Seq<char>, index: nat) -> YamlStepView;

/// The diagnostic for an alias to an anchor of another document.
pub open spec fn foreign_anchor_message() -> Seq<char> {
    "alias to an anchor that its document does not define"@
}

/// The highest anchor number that a node among the first `count` pulls defines.
pub open spec fn highest_after(text: Seq<char>, count: nat) -> nat
    decreases count,
{
    if count == 0 {
        0
    } else {
        let before = highest_after(text, (count - 1) as nat);
        match yaml_step(text, (count - 1) as nat) {
            YamlStepView::Node(anchor) => if anchor > before {
                anchor
            } else {
                before
            },
            _ => before,
        }
    }
}

/// The highest anchor number that was defined before the document began in
/// which the parser stands after the first `count` pulls. The parser numbers
/// anchors upwards, so the anchors of that document are those above it.
pub open spec fn floor_after(text: Seq<char>, count: nat) -> nat
    decreases count,
{
    if count == 0 {
        0
    } else {
        match yaml_step(text, (count - 1) as nat) {
            YamlStepView::DocumentStart => highest_after(text, (count - 1) as nat),
            _ => floor_after(text, (count - 1) as nat),
        }
    }
}

/// What a step settles, where `floor` is the highest anchor number of earlier
/// documents: the stream's end settles acceptance; a scan error, or an alias
/// to an anchor of an earlier document, settles rejection; any other step
/// settles nothing.
pub open spec fn step_verdict(floor: nat, step: YamlStepView) -> Option<Result<(), ParseErrorView>> {
    match step {
        YamlStepView::End => Some(Ok(())),
        YamlStepView::Failed(diagnostic) => Some(
            Err(ParseErrorView { fault: ParseFault::Yaml, diagnostic }),
        ),
        YamlStepView::Alias(anchor) => if anchor <= floor {
            Some(
                Err(
                    ParseErrorView {
                        fault: ParseFault::ForeignAnchor,
                        diagnostic: foreign_anchor_message(),
                    },
                ),
            )
        } else {
            None
        },
        _ => None,
    }
}

/// What the pull of the given index settles on `text`.
pub open spec fn settled_by(text: Seq<char>, index: nat) -> Option<Result<(), ParseErrorView>> {
    step_verdict(floor_after(text, index), yaml_step(text, index))
}

/// The pull of the given index is the first that settles anything on `text`.
pub open spec fn settled_at(text: Seq<char>, index: nat) -> bool {
    &&& settled_by(text, index) is Some
    &&& forall|earlier: nat| earlier < index ==> settled_by(text, earlier) is None
}

/// The verdict on a YAML text: what the first pull that settles anything settles.
pub open spec fn yaml_text_verdict(text: Seq<char>) -> Result<(), ParseErrorView> {
    let index = choose|index: nat| settled_at(text, index);
    settled_by(text, index)->Some_0
}

/// Only one pull is the first to settle anything, so the verdict on a text
/// is what that pull settles.
pub proof fn lemma_first_settling_pull_decides(text: Seq<char>, index: nat)
    requires
        settled_at(text, index),
    ensures
        yaml_text_verdict(text) == settled_by(text, index)->Some_0,
{
    let chosen = choose|chosen: nat| settled_at(text, chosen);
    assert(settled_at(text, chosen));
    if chosen < index {
        assert(settled_by(text, chosen) is None);
    } else if index < chosen {
        assert(settled_by(text, index) is None);
    }
}

/// The answer of `serde_json::from_slice` on `bytes`, read as a
/// `serde_json::Value`: `None` where it parses, else the error's message.
pub uninterp spec fn json_diagnostic(bytes: Seq<u8>) -> Option<Seq<char>>;

/// The parser stage that speaks for a payload kind.
pub open spec fn parser_fault(kind: PayloadKind) -> ParseFault {
    match kind {
        PayloadKind::Yaml => ParseFault::Yaml,
        PayloadKind::Json => ParseFault::Json,
    }
}

/// The verdict that follows from a parser's answer: acceptance where the
/// parser gave no message, else a rejection carrying that message.
pub open spec fn parser_verdict(kind: PayloadKind, failure: Option<Seq<char>>) -> Result<
    (),
    ParseErrorView,
> {
    match failure {
        None => Ok(()),
        Some(diagnostic) => Err(ParseErrorView { fault: parser_fault(kind), diagnostic }),
    }
}

/// The verdict on a YAML payload: it must be UTF-8 text, the YAML parser must
/// read that text to its end, and each alias must name an anchor of its own
/// document.
pub open spec fn yaml_verdict(payload: Seq<u8>) -> Result<(), ParseErrorView> {
    if valid_utf8(payload) {
        yaml_text_verdict(decode_utf8(payload))
    } else {
        Err(
            ParseErrorView {
                fault: ParseFault::InvalidUtf8,
                diagnostic: utf8_diagnostic(payload),
            },
        )
    }
}

/// The verdict on a JSON payload: the JSON parser must read the bytes as one value.
pub open spec fn json_verdict(payload: Seq<u8>) -> Result<(), ParseErrorView> {
    parser_verdict(PayloadKind::Json, json_diagnostic(payload))
}

/// The verdict on a payload of the given kind.
pub open spec fn verdict_of(payload: Seq<u8>, kind: PayloadKind) -> Result<(), ParseErrorView> {
    match kind {
        PayloadKind::Yaml => yaml_verdict(payload),
        PayloadKind::Json => json_verdict(payload),
    }
}

/// A payload is well formed for a kind where the verdict on it is acceptance.
pub open spec fn well_formed(payload: Seq<u8>, kind: PayloadKind) -> bool {
    verdict_of(payload, kind) is Ok
}

/// A validation result with its error, if any, taken by its view.
pub open spec fn verdict_view(verdict: Result<(), ParseError>) -> Result<(), ParseErrorView> {
    match verdict {
        Ok(_) => Ok(()),
        Err(error) => Err(error@),
    }
}

/// Calls `std::str::from_utf8`. Trusted: it succeeds exactly on valid UTF-8 and
/// then yields the text those bytes encode; else the error's `Display` text,
/// which depends on the bytes alone, is handed back.
#[verifier::external_body]
fn decode_text(bytes: &[u8]) -> (decoded: Result<&str, String>)
    ensures
        match decoded {
            Ok(text) => valid_utf8(bytes@) && text@ == decode_utf8(bytes@),
            Err(message) => !valid_utf8(bytes@) && message@ == utf8_diagnostic(bytes@),
        },
{
    match std::str::from_utf8(bytes) {
        Ok(text) => Ok(text),
        Err(error) => Err(error.to_string()),
    }
}

/// The outside parser type, carried through as an opaque value.
#[verifier::external_type_specification]
#[verifier::external_body]
#[verifier::reject_recursive_types(T)]
pub struct ExYamlParser<T>(yaml_rust::parser::Parser<T>);

/// The text that a parser was started on.
pub uninterp spec fn source_text(parser: yaml_rust::parser::Parser<std::str::Chars<'_>>) -> Seq<char>;

/// The number of events that were pulled from a parser so far.
pub uninterp spec fn steps_taken(parser: yaml_rust::parser::Parser<std::str::Chars<'_>>) -> nat;

/// No pull before the one of the given index gave the stream's end or an error.
pub open spec fn runs_on(text: Seq<char>, index: nat) -> bool {
    forall|earlier: nat|
        earlier < index ==> !(yaml_step(text, earlier) is End) && !(yaml_step(
            text,
            earlier,
        ) is Failed)
}

/// Calls `yaml_rust::parser::Parser::new` on the characters of the text.
/// Trusted: the parser stands at the start of that text, and its events come
/// to a stop: after finitely many pulls one gives the stream's end or a scan
/// error.
#[verifier::external_body]
fn start_parser<'a>(text: &'a str) -> (parser: yaml_rust::parser::Parser<std::str::Chars<'a>>)
    ensures
        source_text(parser) == text@,
        steps_taken(parser) == 0,
        exists|index: nat|
            yaml_step(source_text(parser), index) is End || yaml_step(
                source_text(parser),
                index,
            ) is Failed,
{
    yaml_rust::parser::Parser::new(text.chars())
}

/// Calls `yaml_rust::parser::Parser::next` once, on a parser that has not yet
/// given the stream's end or an error, and tells the kinds of event apart.
/// Trusted: what a pull gives depends on the text and on the number of pulls
/// before it alone; the parser keeps its states in a vector and builds
/// nothing from the events, so a pull returns however the text nests; and a
/// scan error's `Display` text, of the form "<info> at line <l> column <c>",
/// is never empty.
#[verifier::external_body]
fn pull<'a>(parser: &mut yaml_rust::parser::Parser<std::str::Chars<'a>>) -> (step: YamlStep)
    requires
        runs_on(source_text(*old(parser)), steps_taken(*old(parser))),
    ensures
        step@ == yaml_step(source_text(*old(parser)), steps_taken(*old(parser))),
        step matches YamlStep::Failed(message) ==> message@.len() > 0,
        source_text(*final(parser)) == source_text(*old(parser)),
        steps_taken(*final(parser)) == steps_taken(*old(parser)) + 1,
{
    match parser.next() {
        Ok((yaml_rust::parser::Event::DocumentStart, _)) => YamlStep::DocumentStart,
        Ok((yaml_rust::parser::Event::Scalar(_, _, anchor, _), _)) => YamlStep::Node(anchor),
        Ok((yaml_rust::parser::Event::SequenceStart(anchor), _)) => YamlStep::Node(anchor),
        Ok((yaml_rust::parser::Event::MappingStart(anchor), _)) => YamlStep::Node(anchor),
        Ok((yaml_rust::parser::Event::Alias(anchor), _)) => YamlStep::Alias(anchor),
        Ok((yaml_rust::parser::Event::StreamEnd, _)) => YamlStep::End,
        Ok(_) => YamlStep::Other,
        Err(error) => YamlStep::Failed(error.to_string()),
    }
}

/// What a step settles, where `floor` is the highest anchor number of earlier
/// documents: `None` where the walk goes on.
pub fn settle(floor: usize, step: YamlStep) -> (settled: Option<Result<(), ParseError>>)
    ensures
        match settled {
            None => step_verdict(floor as nat, step@) is None,
            Some(verdict) => step_verdict(floor as nat, step@) == Some(verdict_view(verdict)),
        },
{
    match step {
        YamlStep::End => Some(Ok(())),
        YamlStep::Failed(message) => Some(Err(ParseError::new(ParseFault::Yaml, message))),
        YamlStep::Alias(anchor) => {
            if anchor <= floor {
                Some(
                    Err(
                        ParseError::new(
                            ParseFault::ForeignAnchor,
                            "alias to an anchor that its document does not define".to_owned(),
                        ),
                    ),
                )
            } else {
                None
            }
        },
        _ => None,
    }
}

/// Walks the parser's events on `text` to the first that settles the verdict.
fn walk_yaml(text: &str) -> (verdict: Result<(), ParseError>)
    ensures
        verdict_view(verdict) == yaml_text_verdict(text@),
        verdict matches Err(error) ==> error@.diagnostic.len() > 0,
{
    let mut parser = start_parser(text);
    let ghost stop = choose|index: nat|
        yaml_step(text@, index) is End || yaml_step(text@, index) is Failed;
    let ghost mut pulls: nat = 0;
    let mut floor: usize = 0;
    let mut highest: usize = 0;
    loop
        invariant
            source_text(parser) == text@,
            steps_taken(parser) == pulls,
            yaml_step(text@, stop) is End || yaml_step(text@, stop) is Failed,
            pulls <= stop,
            forall|earlier: nat| earlier < pulls ==> settled_by(text@, earlier) is None,
            floor == floor_after(text@, pulls),
            highest == highest_after(text@, pulls),
        decreases stop - pulls,
    {
        assert(runs_on(text@, pulls)) by {
            assert forall|earlier: nat| earlier < pulls implies !(yaml_step(text@, earlier) is End)
                && !(yaml_step(text@, earlier) is Failed) by {
                assert(settled_by(text@, earlier) is None);
            }
        }
        let step = pull(&mut parser);
        let mut next_floor = floor;
        let mut next_highest = highest;
        match &step {
            YamlStep::DocumentStart => {
                next_floor = highest;
            },
            YamlStep::Node(anchor) => {
                if *anchor > highest {
                    next_highest = *anchor;
                }
            },
            _ => {},
        }
        proof {
            reveal_strlit("alias to an anchor that its document does not define");
        }
        match settle(floor, step) {
            Some(verdict) => {
                proof {
                    lemma_first_settling_pull_decides(text@, pulls);
                }
                return verdict;
            },
            None => {},
        }
        proof {
            assert(settled_by(text@, pulls) is None);
            assert(pulls != stop);
            pulls = pulls + 1;
        }
        floor = next_floor;
        highest = next_highest;
    }
}

/// Calls `serde_json::from_slice` for a `serde_json::Value` and drops the value.
/// Trusted: the parser returns on every input (it bounds its own recursion),
/// its outcome depends on the bytes alone, and an error is handed back as its
/// `Display` text, which names what the parser found and is never empty.
#[verifier::external_body]
fn json_failure(bytes: &[u8]) -> (failure: Option<String>)
    ensures
        match failure {
            None => json_diagnostic(bytes@) is None,
            Some(message) => json_diagnostic(bytes@) == Some(message@) && message@.len() > 0,
        },
{
    match serde_json::from_slice::<serde_json::Value>(bytes) {
        Ok(_) => None,
        Err(error) => Some(error.to_string()),
    }
}

/// The validator's verdict on a parser's answer: `Ok` where the parser gave
/// no message, else the error of that parser's stage with the message
/// unchanged.
pub fn verdict(kind: PayloadKind, failure: Option<String>) -> (verdict: Result<(), ParseError>)
    ensures
        verdict_view(verdict) == parser_verdict(
            kind,
            match failure {
                None => None,
                Some(message) => Some(message@),
            },
        ),
{
    match failure {
        None => Ok(()),
        Some(message) => {
            let fault = match kind {
                PayloadKind::Yaml => ParseFault::Yaml,
                PayloadKind::Json => ParseFault::Json,
            };
            Err(ParseError::new(fault, message))
        },
    }
}

/// Checks that `secret_data` is UTF-8 text that the YAML parser reads to its
/// end, with each alias naming an anchor of its own document.
///
/// An empty payload is accepted: it is text, and the parser reads it as no
/// document at all.
pub fn validate_yaml(secret_data: &[u8]) -> (verdict: Result<(), ParseError>)
    ensures
        verdict_view(verdict) == yaml_verdict(secret_data@),
        verdict is Ok <==> well_formed(secret_data@, PayloadKind::Yaml),
        verdict matches Err(error) ==> (error@.fault != ParseFault::InvalidUtf8
            ==> error@.diagnostic.len() > 0),
{
    match decode_text(secret_data) {
        Err(message) => Err(ParseError::new(ParseFault::InvalidUtf8, message)),
        Ok(text) => walk_yaml(text),
    }
}

/// Checks that the JSON parser reads `secret_data` as exactly one JSON value.
pub fn validate_json(secret_data: &[u8]) -> (verdict: Result<(), ParseError>)
    ensures
        verdict_view(verdict) == json_verdict(secret_data@),
        verdict is Ok <==> well_formed(secret_data@, PayloadKind::Json),
        verdict matches Err(error) ==> error@.diagnostic.len() > 0,
{
    self::verdict(PayloadKind::Json, json_failure(secret_data))
}

/// Validates a payload as the given kind.
///
/// The result is a function of the payload and the kind alone: the same
/// payload always gets the same verdict, with the same diagnostic.
pub fn validate(payload: &[u8], kind: PayloadKind) -> (verdict: Result<(), ParseError>)
    ensures
        verdict_view(verdict) == verdict_of(payload@, kind),
        verdict is Ok <==> well_formed(payload@, kind),
        verdict matches Err(error) ==> (error@.fault != ParseFault::InvalidUtf8
            ==> error@.diagnostic.len() > 0),
{
    match kind {
        PayloadKind::Yaml => validate_yaml(payload),
        PayloadKind::Json => validate_json(payload),
    }
}

} // verus!
