//! The watch-reconcile loop as a state machine.
//!
//! The loop owns the cursor: the resource version from which the next watch
//! stream is opened. The program around it opens streams and lists the
//! collection; it hands each thing it observed to [`WatchLoop::step`] as a
//! [`Signal`] and carries out the [`Directive`] that comes back.

use crate::inspect::{
    inspect, inspection_of, reports_view, text_view, KeyReport, KeyReportView,
};
use crate::logging::{
    entries_view, log_debug, log_err, log_notice, LogEntry, LogEntryView, LogSeverity,
};
use crate::notify::Notifier;
use crate::secret::{SecretObject, SecretObjectView};
use vstd::prelude::*;
use vstd::string::*;

verus! {

/// Where the loop stands.
#[derive(Clone, Copy, Debug, PartialEq, Eq, Structural)]
pub enum Phase {
    /// The first listing is outstanding; no stream was opened yet.
    Listing,
    /// A stream is open, or about to be opened, from the cursor.
    Watching,
    /// The stream has closed and a listing is outstanding.
    Reconnecting,
    /// The loop was cancelled and has ended.
    Stopped,
    /// The loop has ended on a failure it cannot recover from.
    Failed,
}

/// How the loop ended.
#[derive(Clone, Copy, Debug, PartialEq, Eq, Structural)]
pub enum Termination {
    Graceful,
    Fatal,
}

impl Termination {
    /// The process exit code: zero exactly for a graceful end.
    pub fn exit_code(self) -> (code: i32)
        ensures
            code == 0 <==> self == Termination::Graceful,
            code == 0 || code == 1,
    {
        match self {
            Termination::Graceful => 0,
            Termination::Fatal => 1,
        }
    }
}

/// One event of a watch stream.
#[derive(Debug)]
pub enum ChangeEvent {
    /// An object was added; the event carries the object.
    Added(SecretObject),
    /// An object was modified; the event carries the object as it is now.
    Modified(SecretObject),
    /// The object of the given name was deleted.
    Deleted(String),
    /// A checkpoint: the stream has reached the given resource version.
    Bookmark(String),
    /// The server reported an error within the stream.
    Error(String),
}

/// A [`ChangeEvent`] with its contents taken by their views.
pub enum ChangeEventView {
    Added(SecretObjectView),
    Modified(SecretObjectView),
    Deleted(Seq<char>),
    Bookmark(Seq<char>),
    Error(Seq<char>),
}

impl View for ChangeEvent {
    type V = ChangeEventView;

    open spec fn view(&self) -> ChangeEventView {
        match self {
            ChangeEvent::Added(object) => ChangeEventView::Added(object@),
            ChangeEvent::Modified(object) => ChangeEventView::Modified(object@),
            ChangeEvent::Deleted(name) => ChangeEventView::Deleted(name@),
            ChangeEvent::Bookmark(token) => ChangeEventView::Bookmark(token@),
            ChangeEvent::Error(detail) => ChangeEventView::Error(detail@),
        }
    }
}

/// Anything the program around the loop can observe and report to it.
#[derive(Debug)]
pub enum Signal {
    /// The stream yielded an event.
    Change(ChangeEvent),
    /// The stream ended.
    StreamClosed,
    /// The stream could not be opened, or broke with a transport error.
    WatchFailed(String),
    /// A listing succeeded; it carries the listing's resource version, if it has one.
    Listed(Option<String>),
    /// A listing failed.
    ListFailed(String),
    /// The process was asked to shut down.
    Cancelled,
}

/// A [`Signal`] with its contents taken by their views.
pub enum SignalView {
    Change(ChangeEventView),
    StreamClosed,
    WatchFailed(Seq<char>),
    Listed(Option<Seq<char>>),
    ListFailed(Seq<char>),
    Cancelled,
}

impl View for Signal {
    type V = SignalView;

    open spec fn view(&self) -> SignalView {
        match self {
            Signal::Change(event) => SignalView::Change(event@),
            Signal::StreamClosed => SignalView::StreamClosed,
            Signal::WatchFailed(detail) => SignalView::WatchFailed(detail@),
            Signal::Listed(token) => SignalView::Listed(text_view(*token)),
            Signal::ListFailed(detail) => SignalView::ListFailed(detail@),
            Signal::Cancelled => SignalView::Cancelled,
        }
    }
}

/// What the program around the loop is to do next.
#[derive(Debug, PartialEq, Eq)]
pub enum Directive {
    /// Go on with what is outstanding: read the next event of the open
    /// stream, or wait for the listing that was asked for.
    Continue,
    /// Open a watch stream that starts after the given resource version.
    OpenWatch(String),
    /// List the whole collection, within [`LISTING_TIMEOUT_SECS`].
    Relist,
    /// End the process.
    Exit(Termination),
}

/// A [`Directive`] with its resource version as a sequence of characters.
pub enum DirectiveView {
    Continue,
    OpenWatch(Seq<char>),
    Relist,
    Exit(Termination),
}

impl View for Directive {
    type V = DirectiveView;

    open spec fn view(&self) -> DirectiveView {
        match self {
            Directive::Continue => DirectiveView::Continue,
            Directive::OpenWatch(cursor) => DirectiveView::OpenWatch(cursor@),
            Directive::Relist => DirectiveView::Relist,
            Directive::Exit(termination) => DirectiveView::Exit(*termination),
        }
    }
}

/// Seconds after which a listing call is given up.
pub const LISTING_TIMEOUT_SECS: u64 = 30;

/// Seconds to wait before a listing that failed is made again.
pub const RELIST_RETRY_DELAY_SECS: u64 = 5;

/// The loop's answer to one signal.
#[derive(Debug)]
pub struct Reaction {
    /// Entries to log, in order, before anything else.
    pub logs: Vec<LogEntry>,
    /// The inspector's reports on the object that the signal carried, in order.
    pub reports: Vec<KeyReport>,
    /// What to do next.
    pub directive: Directive,
    /// Seconds to wait before doing it: zero, but before a listing is retried.
    pub pause_secs: u64,
}

/// What a [`Reaction`] holds, as mathematical values.
pub struct ReactionView {
    pub logs: Seq<LogEntryView>,
    pub reports: Seq<KeyReportView>,
    pub directive: DirectiveView,
    pub pause_secs: u64,
}

impl View for Reaction {
    type V = ReactionView;

    open spec fn view(&self) -> ReactionView {
        ReactionView {
            logs: entries_view(self.logs@),
            reports: reports_view(self.reports@),
            directive: self.directive@,
            pause_secs: self.pause_secs,
        }
    }
}

/// The loop's state: the cursor and the phase.
pub struct LoopState {
    pub cursor: Seq<char>,
    pub phase: Phase,
}

/// A reaction that logs nothing, reports nothing and gives the directive, to
/// be carried out at once.
pub open spec fn quiet(directive: DirectiveView) -> ReactionView {
    ReactionView { logs: Seq::empty(), reports: Seq::empty(), directive, pause_secs: 0 }
}

/// A reaction that logs one entry, reports nothing and gives the directive,
/// to be carried out at once.
pub open spec fn noted(severity: LogSeverity, message: Seq<char>, directive: DirectiveView) -> ReactionView {
    ReactionView {
        logs: seq![LogEntryView { severity, message }],
        reports: Seq::empty(),
        directive,
        pause_secs: 0,
    }
}

/// The directive that starts, or starts again, the work of a phase.
pub open spec fn pending_of(state: LoopState) -> DirectiveView {
    match state.phase {
        Phase::Listing => DirectiveView::Relist,
        Phase::Watching => DirectiveView::OpenWatch(state.cursor),
        Phase::Reconnecting => DirectiveView::Relist,
        Phase::Stopped => DirectiveView::Exit(Termination::Graceful),
        Phase::Failed => DirectiveView::Exit(Termination::Fatal),
    }
}

/// The state after a listing has answered with the given resource version:
/// the loop watches again, from that version if there is one, else from the
/// cursor it had.
pub open spec fn relisted(state: LoopState, token: Option<Seq<char>>) -> LoopState {
    LoopState {
        cursor: match token {
            None => state.cursor,
            Some(token) => token,
        },
        phase: Phase::Watching,
    }
}

/// The state that follows `state` on `signal`.
pub open spec fn next_state(state: LoopState, signal: SignalView) -> LoopState {
    match state.phase {
        Phase::Stopped | Phase::Failed => state,
        Phase::Watching => match signal {
            SignalView::Cancelled => LoopState { phase: Phase::Stopped, ..state },
            SignalView::Change(ChangeEventView::Bookmark(token)) => LoopState {
                cursor: token,
                ..state
            },
            SignalView::StreamClosed | SignalView::WatchFailed(_) => LoopState {
                phase: Phase::Reconnecting,
                ..state
            },
            _ => state,
        },
        Phase::Reconnecting => match signal {
            SignalView::Cancelled => LoopState { phase: Phase::Stopped, ..state },
            SignalView::Listed(token) => relisted(state, token),
            _ => state,
        },
        Phase::Listing => match signal {
            SignalView::Cancelled => LoopState { phase: Phase::Stopped, ..state },
            SignalView::Listed(token) => relisted(state, token),
            SignalView::ListFailed(_) => LoopState { phase: Phase::Failed, ..state },
            _ => state,
        },
    }
}

/// The reaction to an event of the open stream.
pub open spec fn change_reaction(event: ChangeEventView) -> ReactionView {
    match event {
        ChangeEventView::Added(object) => ReactionView {
            logs: seq![
                LogEntryView {
                    severity: LogSeverity::DEBUG,
                    message: object.name + " added, validating..."@,
                },
            ],
            reports: inspection_of(object),
            directive: DirectiveView::Continue,
            pause_secs: 0,
        },
        ChangeEventView::Modified(object) => ReactionView {
            logs: seq![
                LogEntryView {
                    severity: LogSeverity::DEBUG,
                    message: object.name + " modified, validating..."@,
                },
            ],
            reports: inspection_of(object),
            directive: DirectiveView::Continue,
            pause_secs: 0,
        },
        ChangeEventView::Deleted(_) => quiet(DirectiveView::Continue),
        ChangeEventView::Bookmark(token) => noted(
            LogSeverity::DEBUG,
            "bookmark: "@ + token,
            DirectiveView::Continue,
        ),
        ChangeEventView::Error(detail) => noted(
            LogSeverity::ERROR,
            detail,
            DirectiveView::Continue,
        ),
    }
}

/// The reaction to a listing that answered with the given resource version.
pub open spec fn relisted_reaction(state: LoopState, token: Option<Seq<char>>) -> ReactionView {
    match token {
        None => quiet(DirectiveView::OpenWatch(state.cursor)),
        Some(token) => noted(
            LogSeverity::DEBUG,
            "new res.ver: "@ + token,
            DirectiveView::OpenWatch(token),
        ),
    }
}

/// The loop's reaction to `signal` in `state`.
///
/// A signal that does not belong to the phase (a listing's answer while
/// watching, a stream event while a listing is outstanding) is ignored.
pub open spec fn reaction_of(state: LoopState, signal: SignalView) -> ReactionView {
    match state.phase {
        Phase::Stopped => quiet(DirectiveView::Exit(Termination::Graceful)),
        Phase::Failed => quiet(DirectiveView::Exit(Termination::Fatal)),
        Phase::Watching => match signal {
            SignalView::Cancelled => quiet(DirectiveView::Exit(Termination::Graceful)),
            SignalView::Change(event) => change_reaction(event),
            SignalView::StreamClosed => quiet(DirectiveView::Relist),
            SignalView::WatchFailed(detail) => noted(
                LogSeverity::ERROR,
                detail,
                DirectiveView::Relist,
            ),
            _ => quiet(DirectiveView::Continue),
        },
        Phase::Reconnecting => match signal {
            SignalView::Cancelled => quiet(DirectiveView::Exit(Termination::Graceful)),
            SignalView::Listed(token) => relisted_reaction(state, token),
            SignalView::ListFailed(detail) => ReactionView {
                pause_secs: RELIST_RETRY_DELAY_SECS,
                ..noted(LogSeverity::ERROR, detail, DirectiveView::Relist)
            },
            _ => quiet(DirectiveView::Continue),
        },
        Phase::Listing => match signal {
            SignalView::Cancelled => quiet(DirectiveView::Exit(Termination::Graceful)),
            SignalView::Listed(token) => relisted_reaction(state, token),
            SignalView::ListFailed(detail) => noted(
                LogSeverity::ERROR,
                detail,
                DirectiveView::Exit(Termination::Fatal),
            ),
            _ => quiet(DirectiveView::Continue),
        },
    }
}

/// The watch-reconcile loop: the cursor and the phase, owned by nobody else.
#[derive(Debug)]
pub struct WatchLoop {
    cursor: String,
    phase: Phase,
}

impl View for WatchLoop {
    type V = LoopState;

    closed spec fn view(&self) -> LoopState {
        LoopState { cursor: self.cursor@, phase: self.phase }
    }
}

/// Makes a reaction that logs nothing and reports nothing.
fn quiet_reaction(directive: Directive) -> (reaction: Reaction)
    ensures
        reaction@ == quiet(directive@),
{
    let reaction = Reaction { logs: Vec::new(), reports: Vec::new(), directive, pause_secs: 0 };
    assert(reaction@.logs =~= Seq::empty());
    assert(reaction@.reports =~= Seq::empty());
    reaction
}

/// Makes a reaction that logs the entry and reports nothing.
fn noted_reaction(entry: LogEntry, directive: Directive) -> (reaction: Reaction)
    ensures
        reaction@ == noted(entry@.severity, entry@.message, directive@),
{
    let mut logs: Vec<LogEntry> = Vec::new();
    logs.push(entry);
    let reaction = Reaction { logs, reports: Vec::new(), directive, pause_secs: 0 };
    assert(reaction@.logs =~= seq![entry@]);
    assert(reaction@.reports =~= Seq::empty());
    reaction
}

/// Joins a text and a suffix into a new string.
fn joined(text: &str, suffix: &str) -> (whole: String)
    ensures
        whole@ == text@ + suffix@,
{
    let mut whole = String::from_str(text);
    whole.append(suffix);
    whole
}

/// Reacts to an object that was added or modified: logs the announcement
/// after the object's name and inspects the object.
fn inspected_reaction(object: &SecretObject, announcement: &str) -> (reaction: Reaction)
    ensures
        reaction@ == (ReactionView {
            logs: seq![
                LogEntryView {
                    severity: LogSeverity::DEBUG,
                    message: object@.name + announcement@,
                },
            ],
            reports: inspection_of(object@),
            directive: DirectiveView::Continue,
            pause_secs: 0,
        }),
{
    let entry = log_debug(joined(object.name(), announcement));
    let mut logs: Vec<LogEntry> = Vec::new();
    logs.push(entry);
    let reaction = Reaction {
        logs,
        reports: inspect(object),
        directive: Directive::Continue,
        pause_secs: 0,
    };
    assert(reaction@.logs =~= seq![entry@]);
    reaction
}

/// Reacts to an event of the open stream; a bookmark's token is the only
/// thing the caller has to take over into the cursor.
fn react_to_change(event: &ChangeEvent) -> (reaction: Reaction)
    ensures
        reaction@ == change_reaction(event@),
{
    match event {
        ChangeEvent::Added(object) => inspected_reaction(object, " added, validating..."),
        ChangeEvent::Modified(object) => inspected_reaction(object, " modified, validating..."),
        ChangeEvent::Deleted(_) => quiet_reaction(Directive::Continue),
        ChangeEvent::Bookmark(token) => noted_reaction(
            log_debug(joined("bookmark: ", token.as_str())),
            Directive::Continue,
        ),
        ChangeEvent::Error(detail) => noted_reaction(
            log_err(detail.clone()),
            Directive::Continue,
        ),
    }
}

impl WatchLoop {
    /// A loop that watches from the beginning: cursor `"0"`, phase `Watching`.
    pub fn new() -> (watch_loop: WatchLoop)
        ensures
            watch_loop@ == (LoopState { cursor: "0"@, phase: Phase::Watching }),
    {
        WatchLoop { cursor: String::from_str("0"), phase: Phase::Watching }
    }

    /// A loop that lists the collection before it opens its first stream. A
    /// failure of that first listing ends the loop.
    pub fn listing_first() -> (watch_loop: WatchLoop)
        ensures
            watch_loop@ == (LoopState { cursor: "0"@, phase: Phase::Listing }),
    {
        WatchLoop { cursor: String::from_str("0"), phase: Phase::Listing }
    }

    /// The cursor: the resource version the next stream starts after.
    pub fn cursor(&self) -> (cursor: &str)
        ensures
            cursor@ == self@.cursor,
    {
        self.cursor.as_str()
    }

    /// The phase the loop is in.
    pub fn phase(&self) -> (phase: Phase)
        ensures
            phase == self@.phase,
    {
        self.phase
    }

    /// The directive that starts, or starts again, the work of the loop's
    /// phase. The state is left as it is.
    pub fn pending(&self) -> (directive: Directive)
        ensures
            directive@ == pending_of(self@),
    {
        match self.phase {
            Phase::Listing => Directive::Relist,
            Phase::Watching => Directive::OpenWatch(self.cursor.clone()),
            Phase::Reconnecting => Directive::Relist,
            Phase::Stopped => Directive::Exit(Termination::Graceful),
            Phase::Failed => Directive::Exit(Termination::Fatal),
        }
    }

    /// Takes the answer of a listing: moves the cursor to the listing's
    /// resource version, if it has one, and goes back to watching.
    fn take_listing(&mut self, token: Option<String>) -> (reaction: Reaction)
        ensures
            final(self)@ == relisted(old(self)@, text_view(token)),
            reaction@ == relisted_reaction(old(self)@, text_view(token)),
    {
        self.phase = Phase::Watching;
        match token {
            None => quiet_reaction(Directive::OpenWatch(self.cursor.clone())),
            Some(token) => {
                let entry = log_debug(joined("new res.ver: ", token.as_str()));
                self.cursor = token;
                noted_reaction(entry, Directive::OpenWatch(self.cursor.clone()))
            },
        }
    }

    /// Advances the loop by one signal.
    ///
    /// While watching, an added or modified object is inspected, a deletion is
    /// passed over, a bookmark moves the cursor to its token, and an error
    /// event is logged; the end of the stream, or its failure, sends the loop
    /// to reconnecting with a listing to make. While a listing is outstanding,
    /// its answer moves the cursor to the listing's resource version and
    /// reopens the stream from there; its failure is logged and the listing
    /// is made again after a pause, unless it was the first listing, whose
    /// failure ends the loop. Cancellation ends the loop from any phase. The cursor changes on
    /// a bookmark and on a listing's answer, and on nothing else.
    pub fn step(&mut self, signal: Signal) -> (reaction: Reaction)
        ensures
            final(self)@ == next_state(old(self)@, signal@),
            reaction@ == reaction_of(old(self)@, signal@),
    {
        match self.phase {
            Phase::Stopped => quiet_reaction(Directive::Exit(Termination::Graceful)),
            Phase::Failed => quiet_reaction(Directive::Exit(Termination::Fatal)),
            Phase::Watching => match signal {
                Signal::Cancelled => {
                    self.phase = Phase::Stopped;
                    quiet_reaction(Directive::Exit(Termination::Graceful))
                },
                Signal::Change(event) => {
                    let reaction = react_to_change(&event);
                    match event {
                        ChangeEvent::Bookmark(token) => {
                            self.cursor = token;
                        },
                        _ => {},
                    }
                    reaction
                },
                Signal::StreamClosed => {
                    self.phase = Phase::Reconnecting;
                    quiet_reaction(Directive::Relist)
                },
                Signal::WatchFailed(detail) => {
                    self.phase = Phase::Reconnecting;
                    noted_reaction(log_err(detail), Directive::Relist)
                },
                Signal::Listed(_) => quiet_reaction(Directive::Continue),
                Signal::ListFailed(_) => quiet_reaction(Directive::Continue),
            },
            Phase::Reconnecting => match signal {
                Signal::Cancelled => {
                    self.phase = Phase::Stopped;
                    quiet_reaction(Directive::Exit(Termination::Graceful))
                },
                Signal::Listed(token) => self.take_listing(token),
                Signal::ListFailed(detail) => {
                    let mut reaction = noted_reaction(log_err(detail), Directive::Relist);
                    reaction.pause_secs = RELIST_RETRY_DELAY_SECS;
                    reaction
                },
                Signal::Change(_) => quiet_reaction(Directive::Continue),
                Signal::StreamClosed => quiet_reaction(Directive::Continue),
                Signal::WatchFailed(_) => quiet_reaction(Directive::Continue),
            },
            Phase::Listing => match signal {
                Signal::Cancelled => {
                    self.phase = Phase::Stopped;
                    quiet_reaction(Directive::Exit(Termination::Graceful))
                },
                Signal::Listed(token) => self.take_listing(token),
                Signal::ListFailed(detail) => {
                    self.phase = Phase::Failed;
                    noted_reaction(log_err(detail), Directive::Exit(Termination::Fatal))
                },
                Signal::Change(_) => quiet_reaction(Directive::Continue),
                Signal::StreamClosed => quiet_reaction(Directive::Continue),
                Signal::WatchFailed(_) => quiet_reaction(Directive::Continue),
            },
        }
    }
}

/// The entries to log when the process starts: that it started and, where no
/// notification endpoint is configured, that none is.
pub fn startup_log(notifier: &Notifier) -> (entries: Vec<LogEntry>)
    ensures
        entries@.len() == if notifier@ is None { 2nat } else { 1nat },
        entries@[0]@ == (LogEntryView {
            severity: LogSeverity::NOTICE,
            message: "k8s-secret-check started"@,
        }),
        notifier@ is None ==> entries@[1]@ == (LogEntryView {
            severity: LogSeverity::NOTICE,
            message: "SLACK_WEBHOOK_URL is not configured."@,
        }),
{
    let mut entries: Vec<LogEntry> = Vec::new();
    entries.push(log_notice(String::from_str("k8s-secret-check started")));
    match notifier.startup_notice() {
        None => {},
        Some(notice) => {
            entries.push(notice);
        },
    }
    entries
}

/// The resource version that a signal hands to the loop, if it carries one: a
/// bookmark's token, or that of a listing's answer.
pub open spec fn token_of(signal: SignalView) -> Option<Seq<char>> {
    match signal {
        SignalView::Change(ChangeEventView::Bookmark(token)) => Some(token),
        SignalView::Listed(token) => token,
        _ => None,
    }
}

/// The state after the loop has taken the signals in order, starting from `state`.
pub open spec fn state_after(state: LoopState, signals: Seq<SignalView>) -> LoopState
    decreases signals.len(),
{
    if signals.len() == 0 {
        state
    } else {
        next_state(state_after(state, signals.drop_last()), signals.last())
    }
}

/// The directives that the loop gives while it takes the signals in order,
/// one for each signal.
pub open spec fn directives_after(state: LoopState, signals: Seq<SignalView>) -> Seq<DirectiveView>
    decreases signals.len(),
{
    if signals.len() == 0 {
        Seq::empty()
    } else {
        directives_after(state, signals.drop_last()).push(
            reaction_of(state_after(state, signals.drop_last()), signals.last()).directive,
        )
    }
}

/// One step leaves the cursor as it is or moves it to the token that the
/// signal carries: nothing but a bookmark or a listing's answer moves it.
pub proof fn lemma_cursor_moves_only_to_tokens(state: LoopState, signal: SignalView)
    ensures
        next_state(state, signal).cursor == state.cursor || token_of(signal) == Some(
            next_state(state, signal).cursor,
        ),
{
}

/// Over signals `from..to` of a run, the cursor stays as it was or ends at
/// the token of one of those signals.
pub proof fn lemma_cursor_is_a_token_seen(
    state: LoopState,
    signals: Seq<SignalView>,
    from: int,
    to: int,
)
    requires
        0 <= from <= to <= signals.len(),
    ensures
        state_after(state, signals.take(to)).cursor == state_after(
            state,
            signals.take(from),
        ).cursor || exists|k: int|
            from <= k < to && #[trigger] token_of(signals[k]) == Some(
                state_after(state, signals.take(to)).cursor,
            ),
    decreases to - from,
{
    if from < to {
        lemma_cursor_is_a_token_seen(state, signals, from, to - 1);
        let before = state_after(state, signals.take(to - 1));
        assert(signals.take(to).drop_last() =~= signals.take(to - 1));
        assert(signals.take(to).last() == signals[to - 1]);
        assert(state_after(state, signals.take(to)) == next_state(before, signals[to - 1]));
        lemma_cursor_moves_only_to_tokens(before, signals[to - 1]);
        let after = state_after(state, signals.take(to)).cursor;
        if after == before.cursor {
            if before.cursor != state_after(state, signals.take(from)).cursor {
                let k = choose|k: int|
                    from <= k < to - 1 && #[trigger] token_of(signals[k]) == Some(before.cursor);
                assert(from <= k < to && token_of(signals[k]) == Some(after));
            }
        } else {
            assert(from <= to - 1 < to && token_of(signals[to - 1]) == Some(after));
        }
    }
}

/// The cursor never goes back, as long as the server's resource versions do
/// not: where, in the order `precedes`, each token that the signals carry is
/// at or after the starting cursor and at or after every token carried
/// earlier, the cursor at any point of the run is at or after the cursor at
/// every earlier point.
pub proof fn lemma_cursor_never_decreases(
    precedes: spec_fn(Seq<char>, Seq<char>) -> bool,
    state: LoopState,
    signals: Seq<SignalView>,
    earlier: int,
    later: int,
)
    requires
        forall|token: Seq<char>| #[trigger] precedes(token, token),
        forall|k: int|
            0 <= k < signals.len() && token_of(signals[k]) is Some ==> precedes(
                state.cursor,
                #[trigger] token_of(signals[k])->Some_0,
            ),
        forall|j: int, k: int|
            0 <= j < k < signals.len() && token_of(signals[j]) is Some && token_of(
                signals[k],
            ) is Some ==> precedes(
                #[trigger] token_of(signals[j])->Some_0,
                #[trigger] token_of(signals[k])->Some_0,
            ),
        0 <= earlier <= later <= signals.len(),
    ensures
        precedes(
            state_after(state, signals.take(earlier)).cursor,
            state_after(state, signals.take(later)).cursor,
        ),
{
    let at_earlier = state_after(state, signals.take(earlier)).cursor;
    let at_later = state_after(state, signals.take(later)).cursor;
    lemma_cursor_is_a_token_seen(state, signals, earlier, later);
    lemma_cursor_is_a_token_seen(state, signals, 0, earlier);
    assert(signals.take(0) =~= Seq::empty());
    assert(state_after(state, signals.take(0)) == state);
    if at_later != at_earlier {
        let k = choose|k: int|
            earlier <= k < later && #[trigger] token_of(signals[k]) == Some(at_later);
        if at_earlier != state.cursor {
            let j = choose|j: int|
                0 <= j < earlier && #[trigger] token_of(signals[j]) == Some(at_earlier);
            assert(precedes(token_of(signals[j])->Some_0, token_of(signals[k])->Some_0));
        } else {
            assert(precedes(state.cursor, token_of(signals[k])->Some_0));
        }
    }
}

/// After a stream closes, the loop asks for one listing and reopens the
/// stream on its answer, from the listing's resource version: the directive
/// on the closure is `Relist`, the directive on the answer is `OpenWatch`
/// with the new cursor, and the new cursor is the listing's token (the old
/// cursor where the listing has none).
pub proof fn lemma_relist_then_reopen(state: LoopState, listing: Option<Seq<char>>)
    requires
        state.phase == Phase::Watching,
    ensures
        ({
            let closed = next_state(state, SignalView::StreamClosed);
            let reopened = next_state(closed, SignalView::Listed(listing));
            &&& reaction_of(state, SignalView::StreamClosed).directive == DirectiveView::Relist
            &&& closed == (LoopState { cursor: state.cursor, phase: Phase::Reconnecting })
            &&& reaction_of(closed, SignalView::Listed(listing)).directive
                == DirectiveView::OpenWatch(reopened.cursor)
            &&& reopened.phase == Phase::Watching
            &&& listing matches Some(token) ==> reopened.cursor == token
            &&& listing is None ==> reopened.cursor == state.cursor
        }),
{
}

/// A signal that the loop passes over while a listing is outstanding: a
/// stream event, the stream's end or its failure.
pub open spec fn is_stream_signal(signal: SignalView) -> bool {
    signal is Change || signal is StreamClosed || signal is WatchFailed
}

/// The number of `Relist` directives among the given ones.
pub open spec fn relists_in(directives: Seq<DirectiveView>) -> nat
    decreases directives.len(),
{
    if directives.len() == 0 {
        0
    } else {
        relists_in(directives.drop_last()) + if directives.last() is Relist {
            1nat
        } else {
            0nat
        }
    }
}

/// Between a stream's end and its reopening the loop asks for exactly one
/// listing: in a run from `Watching` that is the stream's end, then any
/// number of stray stream signals, then a listing's answer, the directives
/// hold exactly one `Relist`, the first of them, and the last directive
/// reopens the stream from the cursor the run ends with.
pub proof fn lemma_exactly_one_relist_before_reopening(
    state: LoopState,
    stray: Seq<SignalView>,
    listing: Option<Seq<char>>,
)
    requires
        state.phase == Phase::Watching,
        forall|k: int| 0 <= k < stray.len() ==> is_stream_signal(#[trigger] stray[k]),
    ensures
        ({
            let signals = seq![SignalView::StreamClosed] + stray + seq![SignalView::Listed(listing)];
            let directives = directives_after(state, signals);
            let end = state_after(state, signals);
            &&& directives.len() == signals.len()
            &&& directives[0] == DirectiveView::Relist
            &&& relists_in(directives) == 1
            &&& directives.last() == DirectiveView::OpenWatch(end.cursor)
            &&& end.phase == Phase::Watching
            &&& end.cursor == relisted(state, listing).cursor
        }),
{
    let waiting = seq![SignalView::StreamClosed] + stray;
    lemma_waiting_for_the_listing(state, stray);
    let signals = waiting + seq![SignalView::Listed(listing)];
    assert(signals.drop_last() =~= waiting);
    assert(signals.last() == SignalView::Listed(listing));
    let directives = directives_after(state, signals);
    assert(directives.drop_last() =~= directives_after(state, waiting));
    assert(directives[0] == directives_after(state, waiting)[0]);
}

/// While the listing is outstanding after a stream's end, stray stream
/// signals change nothing and ask for nothing.
proof fn lemma_waiting_for_the_listing(state: LoopState, stray: Seq<SignalView>)
    requires
        state.phase == Phase::Watching,
        forall|k: int| 0 <= k < stray.len() ==> is_stream_signal(#[trigger] stray[k]),
    ensures
        ({
            let signals = seq![SignalView::StreamClosed] + stray;
            let directives = directives_after(state, signals);
            &&& directives.len() == signals.len()
            &&& directives[0] == DirectiveView::Relist
            &&& relists_in(directives) == 1
            &&& state_after(state, signals) == (LoopState {
                cursor: state.cursor,
                phase: Phase::Reconnecting,
            })
        }),
    decreases stray.len(),
{
    let signals = seq![SignalView::StreamClosed] + stray;
    if stray.len() == 0 {
        let none = Seq::<SignalView>::empty();
        assert(signals.drop_last() =~= none);
        assert(signals.last() == SignalView::StreamClosed);
        assert(state_after(state, none) == state);
        assert(directives_after(state, none) =~= Seq::empty());
        let directives = directives_after(state, signals);
        assert(directives =~= seq![DirectiveView::Relist]);
        assert(directives.drop_last() =~= Seq::empty());
        assert(relists_in(directives.drop_last()) == 0);
    } else {
        let fewer = stray.drop_last();
        assert forall|k: int| 0 <= k < fewer.len() implies is_stream_signal(#[trigger] fewer[k]) by {
            assert(fewer[k] == stray[k]);
        }
        lemma_waiting_for_the_listing(state, fewer);
        assert(signals.drop_last() =~= seq![SignalView::StreamClosed] + fewer);
        assert(signals.last() == stray[stray.len() - 1]);
        assert(is_stream_signal(stray[stray.len() - 1]));
        let directives = directives_after(state, signals);
        assert(directives.drop_last() =~= directives_after(state, signals.drop_last()));
        assert(directives.last() == DirectiveView::Continue);
        assert(directives[0] == directives_after(state, signals.drop_last())[0]);
    }
}

} // verus!
