use k8s_secret_check::inspect::Outcome;
use k8s_secret_check::logging::LogSeverity;
use k8s_secret_check::notify::Notifier;
use k8s_secret_check::secret::SecretObject;
use k8s_secret_check::watch::{
    startup_log, ChangeEvent, Directive, Phase, Signal, Termination, WatchLoop,
    LISTING_TIMEOUT_SECS, RELIST_RETRY_DELAY_SECS,
};

fn secret(name: &str, key: &str, payload: &[u8]) -> SecretObject {
    let mut object = SecretObject::new(name.to_string());
    object.insert(key.to_string(), payload.to_vec());
    object
}

#[test]
fn loop_starts_watching_from_the_beginning() {
    let watch_loop = WatchLoop::new();
    assert_eq!(watch_loop.cursor(), "0");
    assert_eq!(watch_loop.phase(), Phase::Watching);
    assert_eq!(watch_loop.pending(), Directive::OpenWatch("0".to_string()));
}

#[test]
fn stream_closure_without_bookmark_relists_and_reopens_from_the_listing() {
    let mut watch_loop = WatchLoop::new();
    let reaction = watch_loop.step(Signal::Change(ChangeEvent::Added(secret(
        "x",
        "app.yaml",
        b"a: 1\n",
    ))));
    assert_eq!(reaction.directive, Directive::Continue);
    assert_eq!(reaction.logs.len(), 1);
    assert_eq!(reaction.logs[0].severity(), LogSeverity::DEBUG);
    assert_eq!(reaction.logs[0].message(), "x added, validating...");
    assert_eq!(reaction.reports.len(), 1);
    assert_eq!(*reaction.reports[0].outcome(), Outcome::Valid);
    assert_eq!(watch_loop.cursor(), "0");

    let reaction = watch_loop.step(Signal::StreamClosed);
    assert_eq!(reaction.directive, Directive::Relist);
    assert_eq!(reaction.pause_secs, 0);
    assert!(reaction.logs.is_empty());
    assert!(reaction.reports.is_empty());
    assert_eq!(watch_loop.phase(), Phase::Reconnecting);
    assert_eq!(watch_loop.cursor(), "0");
    assert_eq!(watch_loop.pending(), Directive::Relist);

    let reaction = watch_loop.step(Signal::Listed(Some("T".to_string())));
    assert_eq!(reaction.directive, Directive::OpenWatch("T".to_string()));
    assert_eq!(reaction.logs.len(), 1);
    assert_eq!(reaction.logs[0].severity(), LogSeverity::DEBUG);
    assert_eq!(reaction.logs[0].message(), "new res.ver: T");
    assert_eq!(watch_loop.phase(), Phase::Watching);
    assert_eq!(watch_loop.cursor(), "T");
    assert_eq!(watch_loop.pending(), Directive::OpenWatch("T".to_string()));
}

#[test]
fn modified_object_is_inspected_again_each_time() {
    let mut watch_loop = WatchLoop::new();
    for _ in 0..2 {
        let reaction = watch_loop.step(Signal::Change(ChangeEvent::Modified(secret(
            "cfg-1",
            "app.yaml",
            b"foo: 1\n  bad: 2\n",
        ))));
        assert_eq!(reaction.directive, Directive::Continue);
        assert_eq!(reaction.logs.len(), 1);
        assert_eq!(reaction.logs[0].message(), "cfg-1 modified, validating...");
        assert_eq!(reaction.reports.len(), 1);
        assert!(matches!(reaction.reports[0].outcome(), Outcome::Invalid(_)));
        assert!(reaction.reports[0].alert().is_some());
    }
    assert_eq!(watch_loop.cursor(), "0");
    assert_eq!(watch_loop.phase(), Phase::Watching);
}

#[test]
fn deletion_is_passed_over() {
    let mut watch_loop = WatchLoop::new();
    let reaction = watch_loop.step(Signal::Change(ChangeEvent::Deleted("gone".to_string())));
    assert_eq!(reaction.directive, Directive::Continue);
    assert!(reaction.logs.is_empty());
    assert!(reaction.reports.is_empty());
    assert_eq!(watch_loop.cursor(), "0");
    assert_eq!(watch_loop.phase(), Phase::Watching);
}

#[test]
fn bookmark_moves_the_cursor() {
    let mut watch_loop = WatchLoop::new();
    let reaction = watch_loop.step(Signal::Change(ChangeEvent::Bookmark("41".to_string())));
    assert_eq!(reaction.directive, Directive::Continue);
    assert_eq!(reaction.logs.len(), 1);
    assert_eq!(reaction.logs[0].severity(), LogSeverity::DEBUG);
    assert_eq!(reaction.logs[0].message(), "bookmark: 41");
    assert!(reaction.reports.is_empty());
    assert_eq!(watch_loop.cursor(), "41");
    assert_eq!(watch_loop.phase(), Phase::Watching);
}

#[test]
fn error_event_is_logged_and_the_stream_goes_on() {
    let mut watch_loop = WatchLoop::new();
    let reaction = watch_loop.step(Signal::Change(ChangeEvent::Error("too old".to_string())));
    assert_eq!(reaction.directive, Directive::Continue);
    assert_eq!(reaction.logs.len(), 1);
    assert_eq!(reaction.logs[0].severity(), LogSeverity::ERROR);
    assert_eq!(reaction.logs[0].message(), "too old");
    assert_eq!(watch_loop.phase(), Phase::Watching);
    assert_eq!(watch_loop.cursor(), "0");
    let reaction = watch_loop.step(Signal::StreamClosed);
    assert_eq!(reaction.directive, Directive::Relist);
    assert_eq!(watch_loop.phase(), Phase::Reconnecting);
}

#[test]
fn cursor_follows_bookmarks_and_listings_in_order() {
    let mut watch_loop = WatchLoop::new();
    let mut seen: Vec<u64> = vec![watch_loop.cursor().parse().unwrap()];
    let signals = vec![
        Signal::Change(ChangeEvent::Bookmark("3".to_string())),
        Signal::Change(ChangeEvent::Deleted("a".to_string())),
        Signal::Change(ChangeEvent::Bookmark("7".to_string())),
        Signal::StreamClosed,
        Signal::Listed(Some("7".to_string())),
        Signal::Change(ChangeEvent::Error("e".to_string())),
        Signal::StreamClosed,
        Signal::Listed(None),
        Signal::Change(ChangeEvent::Bookmark("12".to_string())),
        Signal::WatchFailed("reset".to_string()),
        Signal::ListFailed("busy".to_string()),
        Signal::Listed(Some("15".to_string())),
    ];
    for signal in signals {
        watch_loop.step(signal);
        seen.push(watch_loop.cursor().parse().unwrap());
    }
    assert_eq!(seen, vec![0, 3, 3, 7, 7, 7, 7, 7, 7, 12, 12, 12, 15]);
    assert!(seen.windows(2).all(|pair| pair[0] <= pair[1]));
}

#[test]
fn listing_without_a_token_keeps_the_cursor() {
    let mut watch_loop = WatchLoop::new();
    watch_loop.step(Signal::Change(ChangeEvent::Bookmark("9".to_string())));
    watch_loop.step(Signal::StreamClosed);
    let reaction = watch_loop.step(Signal::Listed(None));
    assert_eq!(reaction.directive, Directive::OpenWatch("9".to_string()));
    assert!(reaction.logs.is_empty());
    assert_eq!(watch_loop.cursor(), "9");
    assert_eq!(watch_loop.phase(), Phase::Watching);
}

#[test]
fn one_relist_between_closure_and_reopening() {
    let mut watch_loop = WatchLoop::new();
    let signals = vec![
        Signal::StreamClosed,
        Signal::StreamClosed,
        Signal::Change(ChangeEvent::Bookmark("99".to_string())),
        Signal::WatchFailed("late".to_string()),
        Signal::Listed(Some("5".to_string())),
    ];
    let mut directives: Vec<Directive> = Vec::new();
    for signal in signals {
        directives.push(watch_loop.step(signal).directive);
    }
    assert_eq!(
        directives,
        vec![
            Directive::Relist,
            Directive::Continue,
            Directive::Continue,
            Directive::Continue,
            Directive::OpenWatch("5".to_string()),
        ]
    );
    assert_eq!(watch_loop.cursor(), "5");
}

#[test]
fn failed_stream_is_logged_and_relisted() {
    let mut watch_loop = WatchLoop::new();
    let reaction = watch_loop.step(Signal::WatchFailed("connection reset".to_string()));
    assert_eq!(reaction.directive, Directive::Relist);
    assert_eq!(reaction.logs.len(), 1);
    assert_eq!(reaction.logs[0].severity(), LogSeverity::ERROR);
    assert_eq!(reaction.logs[0].message(), "connection reset");
    assert_eq!(watch_loop.phase(), Phase::Reconnecting);
}

#[test]
fn failed_relist_is_logged_and_tried_again() {
    let mut watch_loop = WatchLoop::new();
    watch_loop.step(Signal::StreamClosed);
    let reaction = watch_loop.step(Signal::ListFailed("503".to_string()));
    assert_eq!(reaction.directive, Directive::Relist);
    assert_eq!(reaction.pause_secs, RELIST_RETRY_DELAY_SECS);
    assert_eq!(RELIST_RETRY_DELAY_SECS, 5);
    assert_eq!(reaction.logs.len(), 1);
    assert_eq!(reaction.logs[0].severity(), LogSeverity::ERROR);
    assert_eq!(reaction.logs[0].message(), "503");
    assert_eq!(watch_loop.phase(), Phase::Reconnecting);
    assert_eq!(watch_loop.cursor(), "0");
    let reaction = watch_loop.step(Signal::Listed(Some("8".to_string())));
    assert_eq!(reaction.directive, Directive::OpenWatch("8".to_string()));
}

#[test]
fn failed_first_listing_is_fatal() {
    let mut watch_loop = WatchLoop::listing_first();
    assert_eq!(watch_loop.phase(), Phase::Listing);
    assert_eq!(watch_loop.cursor(), "0");
    assert_eq!(watch_loop.pending(), Directive::Relist);
    let reaction = watch_loop.step(Signal::ListFailed("unauthorized".to_string()));
    assert_eq!(reaction.directive, Directive::Exit(Termination::Fatal));
    assert_eq!(reaction.logs.len(), 1);
    assert_eq!(reaction.logs[0].severity(), LogSeverity::ERROR);
    assert_eq!(reaction.logs[0].message(), "unauthorized");
    assert_eq!(watch_loop.phase(), Phase::Failed);
    assert_eq!(watch_loop.pending(), Directive::Exit(Termination::Fatal));
    let reaction = watch_loop.step(Signal::Listed(Some("1".to_string())));
    assert_eq!(reaction.directive, Directive::Exit(Termination::Fatal));
    assert_eq!(watch_loop.phase(), Phase::Failed);
    assert_eq!(watch_loop.cursor(), "0");
}

#[test]
fn first_listing_sets_the_cursor_and_opens_the_stream() {
    let mut watch_loop = WatchLoop::listing_first();
    let reaction = watch_loop.step(Signal::Change(ChangeEvent::Bookmark("4".to_string())));
    assert_eq!(reaction.directive, Directive::Continue);
    assert_eq!(watch_loop.cursor(), "0");
    let reaction = watch_loop.step(Signal::Listed(Some("21".to_string())));
    assert_eq!(reaction.directive, Directive::OpenWatch("21".to_string()));
    assert_eq!(watch_loop.phase(), Phase::Watching);
    assert_eq!(watch_loop.cursor(), "21");
}

#[test]
fn cancellation_ends_the_loop_from_any_phase() {
    let mut watching = WatchLoop::new();
    let reaction = watching.step(Signal::Cancelled);
    assert_eq!(reaction.directive, Directive::Exit(Termination::Graceful));
    assert!(reaction.logs.is_empty());
    assert_eq!(watching.phase(), Phase::Stopped);

    let mut reconnecting = WatchLoop::new();
    reconnecting.step(Signal::StreamClosed);
    let reaction = reconnecting.step(Signal::Cancelled);
    assert_eq!(reaction.directive, Directive::Exit(Termination::Graceful));
    assert_eq!(reconnecting.phase(), Phase::Stopped);
    let reaction = reconnecting.step(Signal::Listed(Some("2".to_string())));
    assert_eq!(reaction.directive, Directive::Exit(Termination::Graceful));
    assert_eq!(reconnecting.phase(), Phase::Stopped);
    assert_eq!(reconnecting.cursor(), "0");
    assert_eq!(reconnecting.pending(), Directive::Exit(Termination::Graceful));

    let mut listing = WatchLoop::listing_first();
    let reaction = listing.step(Signal::Cancelled);
    assert_eq!(reaction.directive, Directive::Exit(Termination::Graceful));
    assert_eq!(listing.phase(), Phase::Stopped);
}

#[test]
fn listing_answers_are_ignored_while_watching() {
    let mut watch_loop = WatchLoop::new();
    let reaction = watch_loop.step(Signal::Listed(Some("77".to_string())));
    assert_eq!(reaction.directive, Directive::Continue);
    assert!(reaction.logs.is_empty());
    assert_eq!(watch_loop.cursor(), "0");
    let reaction = watch_loop.step(Signal::ListFailed("x".to_string()));
    assert_eq!(reaction.directive, Directive::Continue);
    assert!(reaction.logs.is_empty());
    assert_eq!(watch_loop.phase(), Phase::Watching);
}

#[test]
fn exit_codes_tell_graceful_from_fatal() {
    assert_eq!(Termination::Graceful.exit_code(), 0);
    assert_eq!(Termination::Fatal.exit_code(), 1);
    assert_eq!(LISTING_TIMEOUT_SECS, 30);
}

#[test]
fn startup_log_says_what_is_configured() {
    let entries = startup_log(&Notifier::new(None));
    assert_eq!(entries.len(), 2);
    assert_eq!(entries[0].severity(), LogSeverity::NOTICE);
    assert_eq!(entries[0].message(), "k8s-secret-check started");
    assert_eq!(entries[1].severity(), LogSeverity::NOTICE);
    assert_eq!(entries[1].message(), "SLACK_WEBHOOK_URL is not configured.");
    let entries = startup_log(&Notifier::new(Some("http://hook".to_string())));
    assert_eq!(entries.len(), 1);
    assert_eq!(entries[0].message(), "k8s-secret-check started");
}
