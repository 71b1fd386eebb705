use k8s_secret_check::inspect::{inspect, report_key};
use k8s_secret_check::logging::{log, log_debug, log_err, log_notice, LogSeverity};
use k8s_secret_check::notify::{delivery_report, Notifier, WebhookBody, DELIVERY_TIMEOUT_SECS};
use k8s_secret_check::secret::SecretObject;
use k8s_secret_check::validate::{ParseError, ParseFault, PayloadKind};

#[test]
fn log_helpers_set_the_severity() {
    let entry = log_debug("d".to_string());
    assert_eq!(entry.severity(), LogSeverity::DEBUG);
    assert_eq!(entry.message(), "d");
    let entry = log_notice("n".to_string());
    assert_eq!(entry.severity(), LogSeverity::NOTICE);
    assert_eq!(entry.message(), "n");
    let entry = log_err("e".to_string());
    assert_eq!(entry.severity(), LogSeverity::ERROR);
    assert_eq!(entry.message(), "e");
    let entry = log(LogSeverity::WARNING, "w".to_string());
    assert_eq!(entry.severity(), LogSeverity::WARNING);
    assert_eq!(entry.message(), "w");
    let entry = log(LogSeverity::INFO, String::new());
    assert_eq!(entry.severity(), LogSeverity::INFO);
    assert_eq!(entry.message(), "");
}

#[test]
fn webhook_body_carries_the_text() {
    let body = WebhookBody::new("alert!".to_string());
    assert_eq!(body.text(), "alert!");
}

#[test]
fn notifier_without_endpoint_delivers_nothing() {
    let notifier = Notifier::new(None);
    assert!(!notifier.is_configured());
    assert!(notifier.notify("anything".to_string()).is_none());
    assert!(notifier.notify(String::new()).is_none());

    let mut subject = SecretObject::new("cfg-1".to_string());
    subject.insert("app.yaml".to_string(), b"foo: 1\n  bad: 2\n".to_vec());
    subject.insert("ok.json".to_string(), b"{}".to_vec());
    subject.insert("bad.json".to_string(), b"{".to_vec());
    for report in inspect(&subject) {
        assert!(notifier.alert_for(&report).is_none());
    }
}

#[test]
fn notifier_with_endpoint_posts_the_message_once() {
    let notifier = Notifier::new(Some("http://hooks.example/T000".to_string()));
    assert!(notifier.is_configured());
    let delivery = notifier.notify("cfg-1, key app.yaml contains invalid YAML: x".to_string()).unwrap();
    assert_eq!(delivery.url(), "http://hooks.example/T000");
    assert_eq!(delivery.body().text(), "cfg-1, key app.yaml contains invalid YAML: x");
    assert_eq!(delivery.timeout_secs(), 10);
    assert_eq!(DELIVERY_TIMEOUT_SECS, 10);
}

#[test]
fn only_rejected_payloads_raise_a_delivery() {
    let notifier = Notifier::new(Some("http://hooks.example/T000".to_string()));
    let mut subject = SecretObject::new("cfg-1".to_string());
    subject.insert("app.yaml".to_string(), b"foo: 1\n  bad: 2\n".to_vec());
    subject.insert("ok.json".to_string(), b"{}".to_vec());
    let reports = inspect(&subject);
    assert_eq!(reports.len(), 2);
    let delivery = notifier.alert_for(&reports[0]).unwrap();
    assert_eq!(delivery.url(), "http://hooks.example/T000");
    assert!(delivery.body().text().contains("cfg-1"));
    assert!(delivery.body().text().contains("app.yaml"));
    assert_eq!(
        delivery.body().text(),
        "cfg-1, key app.yaml contains invalid YAML: mapping values are not allowed in this context at line 2 column 6"
    );
    assert!(notifier.alert_for(&reports[1]).is_none());
}

#[test]
fn alert_for_follows_the_report() {
    let notifier = Notifier::new(Some("u".to_string()));
    let failed = report_key(
        "o",
        "k.json",
        PayloadKind::Json,
        Err(ParseError::new(ParseFault::Json, "d".to_string())),
    );
    let delivery = notifier.alert_for(&failed).unwrap();
    assert_eq!(delivery.url(), "u");
    assert_eq!(delivery.body().text(), "o, key k.json contains invalid JSON: d");
    let passed = report_key("o", "k.json", PayloadKind::Json, Ok(()));
    assert!(notifier.alert_for(&passed).is_none());
}

#[test]
fn delivery_outcome_is_logged_and_nothing_more() {
    let fired = delivery_report(Ok("200 OK".to_string()));
    assert_eq!(fired.severity(), LogSeverity::DEBUG);
    assert_eq!(fired.message(), "Webhook fired: 200 OK");
    let failed = delivery_report(Err("connection refused".to_string()));
    assert_eq!(failed.severity(), LogSeverity::ERROR);
    assert_eq!(failed.message(), "connection refused");
}

#[test]
fn startup_notice_only_without_endpoint() {
    let notice = Notifier::new(None).startup_notice().unwrap();
    assert_eq!(notice.severity(), LogSeverity::NOTICE);
    assert_eq!(notice.message(), "SLACK_WEBHOOK_URL is not configured.");
    assert!(Notifier::new(Some("u".to_string())).startup_notice().is_none());
}
