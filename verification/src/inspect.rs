//! The secret inspector: validates each payload whose key names a known format
//! and reports the outcome per key.

use crate::logging::{log_debug, log_err, LogEntry, LogEntryView, LogSeverity};
use crate::secret::{SecretObject, SecretObjectView};
use crate::validate::{validate, verdict_of, verdict_view, ParseError, ParseErrorView, PayloadKind};
use vstd::prelude::*;
use vstd::string::*;

verus! {

/// The format that a key's suffix names: `.yaml` for YAML, `.json` for JSON,
/// none for any other key.
pub open spec fn kind_of_key(key: Seq<char>) -> Option<PayloadKind> {
    if ".yaml"@.is_suffix_of(key) {
        Some(PayloadKind::Yaml)
    } else if ".json"@.is_suffix_of(key) {
        Some(PayloadKind::Json)
    } else {
        None
    }
}

/// The name of a format as it appears in messages.
pub open spec fn kind_label(kind: PayloadKind) -> Seq<char> {
    match kind {
        PayloadKind::Yaml => "YAML"@,
        PayloadKind::Json => "JSON"@,
    }
}

/// The message for a payload that passed.
pub open spec fn valid_message(name: Seq<char>, key: Seq<char>) -> Seq<char> {
    name + ", key "@ + key + " is valid"@
}

/// The message for a payload that failed: it names the object, the key, the
/// format and the parser's diagnostic.
pub open spec fn invalid_message(
    name: Seq<char>,
    key: Seq<char>,
    kind: PayloadKind,
    diagnostic: Seq<char>,
) -> Seq<char> {
    name + ", key "@ + key + " contains invalid "@ + kind_label(kind) + ": "@ + diagnostic
}

/// The result of validating one payload.
#[derive(Debug, PartialEq, Eq)]
pub enum Outcome {
    Valid,
    /// The payload was rejected, for the reason given.
    Invalid(String),
}

/// An [`Outcome`] with its reason as a sequence of characters.
pub enum OutcomeView {
    Valid,
    Invalid(Seq<char>),
}

impl View for Outcome {
    type V = OutcomeView;

    open spec fn view(&self) -> OutcomeView {
        match self {
            Outcome::Valid => OutcomeView::Valid,
            Outcome::Invalid(reason) => OutcomeView::Invalid(reason@),
        }
    }
}

/// What the inspector found under one key: the outcome, the log entry that
/// records it and, for a rejected payload, the alert to send.
#[derive(Debug)]
pub struct KeyReport {
    key: String,
    outcome: Outcome,
    entry: LogEntry,
    alert: Option<String>,
}

/// What a [`KeyReport`] holds, as mathematical values.
pub struct KeyReportView {
    pub key: Seq<char>,
    pub outcome: OutcomeView,
    pub entry: LogEntryView,
    pub alert: Option<Seq<char>>,
}

/// An optional text taken by its view.
pub open spec fn text_view(text: Option<String>) -> Option<Seq<char>> {
    match text {
        None => None,
        Some(text) => Some(text@),
    }
}

impl View for KeyReport {
    type V = KeyReportView;

    closed spec fn view(&self) -> KeyReportView {
        KeyReportView {
            key: self.key@,
            outcome: self.outcome@,
            entry: self.entry@,
            alert: text_view(self.alert),
        }
    }
}

impl KeyReport {
    /// The key the report is about.
    pub fn key(&self) -> (key: &str)
        ensures
            key@ == self@.key,
    {
        self.key.as_str()
    }

    /// The validation outcome.
    pub fn outcome(&self) -> (outcome: &Outcome)
        ensures
            outcome@ == self@.outcome,
    {
        &self.outcome
    }

    /// The log entry that records the outcome.
    pub fn entry(&self) -> (entry: &LogEntry)
        ensures
            entry@ == self@.entry,
    {
        &self.entry
    }

    /// The alert to hand to the notifier: present exactly for a rejected payload.
    pub fn alert(&self) -> (alert: &Option<String>)
        ensures
            text_view(*alert) == self@.alert,
    {
        &self.alert
    }
}

/// The report on one key of the object `name`, given the verdict on its payload.
///
/// An accepted payload is logged at `DEBUG` and raises no alert; a rejected
/// one is logged at `ERROR` and raises an alert with the same message.
pub open spec fn report_of(
    name: Seq<char>,
    key: Seq<char>,
    kind: PayloadKind,
    verdict: Result<(), ParseErrorView>,
) -> KeyReportView {
    match verdict {
        Ok(_) => KeyReportView {
            key,
            outcome: OutcomeView::Valid,
            entry: LogEntryView {
                severity: LogSeverity::DEBUG,
                message: valid_message(name, key),
            },
            alert: None,
        },
        Err(error) => KeyReportView {
            key,
            outcome: OutcomeView::Invalid(error.diagnostic),
            entry: LogEntryView {
                severity: LogSeverity::ERROR,
                message: invalid_message(name, key, kind, error.diagnostic),
            },
            alert: Some(invalid_message(name, key, kind, error.diagnostic)),
        },
    }
}

/// The reports on the given entries of the object `name`, in the entries'
/// order: one for each key that names a format, none for any other key.
pub open spec fn inspect_entries(name: Seq<char>, data: Seq<(Seq<char>, Seq<u8>)>) -> Seq<
    KeyReportView,
>
    decreases data.len(),
{
    if data.len() == 0 {
        Seq::empty()
    } else {
        let earlier = inspect_entries(name, data.drop_last());
        let (key, payload) = data.last();
        match kind_of_key(key) {
            None => earlier,
            Some(kind) => earlier.push(report_of(name, key, kind, verdict_of(payload, kind))),
        }
    }
}

/// The reports that inspecting an object yields.
pub open spec fn inspection_of(object: SecretObjectView) -> Seq<KeyReportView> {
    inspect_entries(object.name, object.data)
}

/// A list of reports with each report taken by its view.
pub open spec fn reports_view(reports: Seq<KeyReport>) -> Seq<KeyReportView> {
    reports.map_values(|report: KeyReport| report@)
}

/// Does `text` end with `suffix`? Compares character by character from the
/// start of the would-be suffix.
pub fn ends_with(text: &str, suffix: &str) -> (found: bool)
    ensures
        found == suffix@.is_suffix_of(text@),
{
    let n = text.unicode_len();
    let m = suffix.unicode_len();
    if m > n {
        return false;
    }
    let start: usize = n - m;
    let mut i: usize = 0;
    while i < m
        invariant
            0 <= i <= m <= n,
            start == n - m,
            n == text@.len(),
            m == suffix@.len(),
            forall|j: int| 0 <= j < i ==> text@[start + j] == suffix@[j],
        decreases m - i,
    {
        if text.get_char(start + i) != suffix.get_char(i) {
            assert(text@.subrange(start as int, n as int)[i as int] != suffix@[i as int]);
            return false;
        }
        i += 1;
    }
    assert(suffix@ =~= text@.subrange(start as int, n as int));
    true
}

/// The format that a key names by its suffix, if any.
pub fn classify(key: &str) -> (kind: Option<PayloadKind>)
    ensures
        kind == kind_of_key(key@),
{
    if ends_with(key, ".yaml") {
        Some(PayloadKind::Yaml)
    } else if ends_with(key, ".json") {
        Some(PayloadKind::Json)
    } else {
        None
    }
}

/// Builds the message for a payload that passed.
fn valid_text(name: &str, key: &str) -> (message: String)
    ensures
        message@ == valid_message(name@, key@),
{
    let mut message = String::from_str(name);
    message.append(", key ");
    message.append(key);
    message.append(" is valid");
    message
}

/// Builds the message for a payload that failed.
fn invalid_text(name: &str, key: &str, kind: PayloadKind, diagnostic: &str) -> (message: String)
    ensures
        message@ == invalid_message(name@, key@, kind, diagnostic@),
{
    let mut message = String::from_str(name);
    message.append(", key ");
    message.append(key);
    message.append(" contains invalid ");
    match kind {
        PayloadKind::Yaml => message.append("YAML"),
        PayloadKind::Json => message.append("JSON"),
    }
    message.append(": ");
    message.append(diagnostic);
    message
}

/// Makes the report on one key from the verdict on its payload.
pub fn report_key(name: &str, key: &str, kind: PayloadKind, verdict: Result<(), ParseError>) -> (report:
    KeyReport)
    ensures
        report@ == report_of(name@, key@, kind, verdict_view(verdict)),
{
    match verdict {
        Ok(_) => KeyReport {
            key: String::from_str(key),
            outcome: Outcome::Valid,
            entry: log_debug(valid_text(name, key)),
            alert: None,
        },
        Err(error) => {
            let diagnostic = error.diagnostic();
            KeyReport {
                key: String::from_str(key),
                outcome: Outcome::Invalid(String::from_str(diagnostic)),
                entry: log_err(invalid_text(name, key, kind, diagnostic)),
                alert: Some(invalid_text(name, key, kind, diagnostic)),
            }
        },
    }
}

/// Inspects an object: validates the payload under each key that ends in
/// `.yaml` or `.json`, as that format, and reports on it. Other keys are
/// skipped: their payloads are not validated and nothing is reported on them.
pub fn inspect(object: &SecretObject) -> (reports: Vec<KeyReport>)
    ensures
        reports_view(reports@) == inspection_of(object@),
{
    let count = object.len();
    let mut reports: Vec<KeyReport> = Vec::new();
    let mut i: usize = 0;
    assert(object@.data.take(0) =~= Seq::empty());
    assert(reports_view(reports@) =~= Seq::empty());
    while i < count
        invariant
            0 <= i <= count,
            count == object@.data.len(),
            reports_view(reports@) == inspect_entries(object@.name, object@.data.take(i as int)),
        decreases count - i,
    {
        let (key, payload) = object.entry(i);
        let ghost seen = object@.data.take(i as int + 1);
        assert(seen.drop_last() =~= object@.data.take(i as int));
        assert(seen.last() == object@.data[i as int]);
        match classify(key) {
            None => {},
            Some(kind) => {
                let report = report_key(object.name(), key, kind, validate(payload, kind));
                let ghost earlier = reports@;
                reports.push(report);
                assert(reports_view(reports@) =~= reports_view(earlier).push(report@));
            },
        }
        i += 1;
    }
    assert(object@.data.take(count as int) =~= object@.data);
    reports
}

/// An object none of whose keys ends in `.yaml` or `.json` yields no report:
/// no payload of it reaches the validator.
pub proof fn lemma_unrecognised_keys_yield_nothing(name: Seq<char>, data: Seq<(Seq<char>, Seq<u8>)>)
    requires
        forall|i: int| 0 <= i < data.len() ==> kind_of_key(#[trigger] data[i].0) is None,
    ensures
        inspect_entries(name, data) == Seq::<KeyReportView>::empty(),
    decreases data.len(),
{
    if data.len() > 0 {
        let earlier = data.drop_last();
        assert forall|i: int| 0 <= i < earlier.len() implies kind_of_key(
            #[trigger] earlier[i].0,
        ) is None by {
            assert(earlier[i] == data[i]);
        }
        lemma_unrecognised_keys_yield_nothing(name, earlier);
        assert(kind_of_key(data[data.len() - 1].0) is None);
    }
}

/// Every report is about a key of the object that names a format, and there
/// are no more reports than entries.
pub proof fn lemma_reports_are_on_recognised_keys(name: Seq<char>, data: Seq<(Seq<char>, Seq<u8>)>)
    ensures
        inspect_entries(name, data).len() <= data.len(),
        forall|r: int|
            0 <= r < inspect_entries(name, data).len() ==> {
                &&& kind_of_key(#[trigger] inspect_entries(name, data)[r].key) is Some
                &&& exists|i: int|
                    0 <= i < data.len() && #[trigger] data[i].0 == inspect_entries(name, data)[r].key
            },
    decreases data.len(),
{
    if data.len() > 0 {
        let earlier = data.drop_last();
        lemma_reports_are_on_recognised_keys(name, earlier);
        let reports = inspect_entries(name, data);
        assert forall|r: int| 0 <= r < reports.len() implies {
            &&& kind_of_key(#[trigger] reports[r].key) is Some
            &&& exists|i: int| 0 <= i < data.len() && #[trigger] data[i].0 == reports[r].key
        } by {
            if r < inspect_entries(name, earlier).len() {
                assert(reports[r] == inspect_entries(name, earlier)[r]);
                let i = choose|i: int|
                    0 <= i < earlier.len() && #[trigger] earlier[i].0 == reports[r].key;
                assert(data[i].0 == reports[r].key);
            } else {
                assert(data[data.len() - 1].0 == reports[r].key);
            }
        }
    }
}

} // verus!
