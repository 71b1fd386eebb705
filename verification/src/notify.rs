//! The notifier's decisions: whether an alert is delivered, where to and with
//! what body, and what is logged once the delivery was tried.

use crate::inspect::{text_view, KeyReport, KeyReportView};
use crate::logging::{log_debug, log_err, LogEntry, LogEntryView, LogSeverity};
use vstd::prelude::*;
use vstd::string::*;

verus! {

/// Seconds after which a delivery attempt is given up.
pub const DELIVERY_TIMEOUT_SECS: u64 = 10;

/// The body posted to the notification endpoint.
#[derive(Debug)]
pub struct WebhookBody {
    text: String,
}

impl View for WebhookBody {
    type V = Seq<char>;

    closed spec fn view(&self) -> Seq<char> {
        self.text@
    }
}

impl WebhookBody {
    /// The body that carries `text`.
    pub fn new(text: String) -> (body: WebhookBody)
        ensures
            body@ == text@,
    {
        WebhookBody { text }
    }

    /// The text the body carries.
    pub fn text(&self) -> (text: &str)
        ensures
            text@ == self@,
    {
        self.text.as_str()
    }
}

/// One delivery to attempt: a single POST of `body` to `url`, given up after
/// `timeout_secs` seconds.
#[derive(Debug)]
pub struct Delivery {
    url: String,
    body: WebhookBody,
    timeout_secs: u64,
}

/// What a [`Delivery`] holds, as mathematical values.
pub struct DeliveryView {
    pub url: Seq<char>,
    pub text: Seq<char>,
    pub timeout_secs: u64,
}

impl View for Delivery {
    type V = DeliveryView;

    closed spec fn view(&self) -> DeliveryView {
        DeliveryView { url: self.url@, text: self.body@, timeout_secs: self.timeout_secs }
    }
}

impl Delivery {
    /// The endpoint to post to.
    pub fn url(&self) -> (url: &str)
        ensures
            url@ == self@.url,
    {
        self.url.as_str()
    }

    /// The body to post.
    pub fn body(&self) -> (body: &WebhookBody)
        ensures
            body@ == self@.text,
    {
        &self.body
    }

    /// The bound on the attempt, in seconds.
    pub fn timeout_secs(&self) -> (secs: u64)
        ensures
            secs == self@.timeout_secs,
    {
        self.timeout_secs
    }
}

/// A delivery with its fields taken by their views, where there is one.
pub open spec fn delivery_view(delivery: Option<Delivery>) -> Option<DeliveryView> {
    match delivery {
        None => None,
        Some(delivery) => Some(delivery@),
    }
}

/// The delivery that a message leads to: none without an endpoint, else one
/// post of the message to the endpoint.
pub open spec fn delivery_of(endpoint: Option<Seq<char>>, message: Seq<char>) -> Option<
    DeliveryView,
> {
    match endpoint {
        None => None,
        Some(url) => Some(
            DeliveryView { url, text: message, timeout_secs: DELIVERY_TIMEOUT_SECS },
        ),
    }
}

/// The delivery that a report leads to: none for a report without an alert,
/// else that of the alert.
pub open spec fn alert_delivery_of(endpoint: Option<Seq<char>>, report: KeyReportView) -> Option<
    DeliveryView,
> {
    match report.alert {
        None => None,
        Some(message) => delivery_of(endpoint, message),
    }
}

/// The log entry that records how a delivery attempt ended: the response
/// status at `DEBUG`, or the transport error at `ERROR`.
pub open spec fn delivery_entry_of(outcome: Result<Seq<char>, Seq<char>>) -> LogEntryView {
    match outcome {
        Ok(status) => LogEntryView {
            severity: LogSeverity::DEBUG,
            message: "Webhook fired: "@ + status,
        },
        Err(error) => LogEntryView { severity: LogSeverity::ERROR, message: error },
    }
}

/// The notifier: holds the endpoint that alerts go to, if one is configured.
#[derive(Debug)]
pub struct Notifier {
    endpoint: Option<String>,
}

impl View for Notifier {
    type V = Option<Seq<char>>;

    closed spec fn view(&self) -> Option<Seq<char>> {
        text_view(self.endpoint)
    }
}

impl Notifier {
    /// A notifier for the given endpoint; without one, nothing is ever delivered.
    pub fn new(endpoint: Option<String>) -> (notifier: Notifier)
        ensures
            notifier@ == text_view(endpoint),
    {
        Notifier { endpoint }
    }

    /// Is an endpoint configured?
    pub fn is_configured(&self) -> (configured: bool)
        ensures
            configured == (self@ is Some),
    {
        self.endpoint.is_some()
    }

    /// The entry to log at startup where no endpoint is configured.
    pub fn startup_notice(&self) -> (notice: Option<LogEntry>)
        ensures
            notice is Some <==> self@ is None,
            notice matches Some(entry) ==> entry@ == (LogEntryView {
                severity: LogSeverity::NOTICE,
                message: "SLACK_WEBHOOK_URL is not configured."@,
            }),
    {
        match &self.endpoint {
            Some(_) => None,
            None => Some(crate::logging::log_notice(String::from_str("SLACK_WEBHOOK_URL is not configured."))),
        }
    }

    /// Decides the delivery of an alert: without an endpoint none, whatever the
    /// message; else a single post of the message to the endpoint.
    pub fn notify(&self, msg: String) -> (delivery: Option<Delivery>)
        ensures
            delivery_view(delivery) == delivery_of(self@, msg@),
            self@ is None ==> delivery is None,
    {
        match &self.endpoint {
            None => None,
            Some(url) => Some(
                Delivery {
                    url: url.clone(),
                    body: WebhookBody::new(msg),
                    timeout_secs: DELIVERY_TIMEOUT_SECS,
                },
            ),
        }
    }

    /// Decides the delivery that a report calls for: none for an accepted
    /// payload and none without an endpoint; else a post of the report's alert.
    pub fn alert_for(&self, report: &KeyReport) -> (delivery: Option<Delivery>)
        ensures
            delivery_view(delivery) == alert_delivery_of(self@, report@),
            self@ is None ==> delivery is None,
    {
        match report.alert() {
            None => None,
            Some(message) => self.notify(message.clone()),
        }
    }
}

/// Makes the log entry for a delivery attempt that ended with the given
/// response status (`Ok`) or transport error (`Err`). A failed delivery is
/// logged and has no other effect.
pub fn delivery_report(outcome: Result<String, String>) -> (entry: LogEntry)
    ensures
        entry@ == delivery_entry_of(
            match outcome {
                Ok(status) => Ok(status@),
                Err(error) => Err(error@),
            },
        ),
{
    match outcome {
        Ok(status) => {
            let mut message = String::from_str("Webhook fired: ");
            message.append(status.as_str());
            log_debug(message)
        },
        Err(error) => log_err(error),
    }
}

/// Without an endpoint no report leads to a delivery, whatever its outcome.
pub proof fn lemma_no_endpoint_no_delivery(report: KeyReportView, message: Seq<char>)
    ensures
        alert_delivery_of(None, report) is None,
        delivery_of(None, message) is None,
{
}

} // verus!
