//! The life of one invocation: load the connection record, connect,
//! dispatch the command, drain the event stream, stop.
//!
//! The session does none of this itself. It is a state machine: the caller
//! performs each [`Action`] and reports what happened as an [`Event`], and
//! [`Session::step`] answers with the next action. What the session
//! guards is the order of things: the connection is let go exactly when the
//! command's kind says so, and a newly issued credential is written down
//! before the stream is looked at again.

use vstd::prelude::*;
use crate::args::{Command, ConfigCommand};
use crate::config::Config;
use crate::request::Request;
use crate::router::{routed, Plan, RouterError};

verus! {

/// The two kinds of command, by what they need from the connection.
#[derive(Debug, Clone, Copy, PartialEq, Eq, Structural)]
pub enum SessionOutcome {
    /// One exchange; the connection may close as soon as it is over.
    Transactional,
    /// A standing feed of events; the connection stays until the process is
    /// interrupted.
    Subscription,
}

/// The kind of a command: a subscription for an event command, a
/// transaction for every other.
pub open spec fn outcome_of(command: Command) -> SessionOutcome {
    if command is Events {
        SessionOutcome::Subscription
    } else {
        SessionOutcome::Transactional
    }
}

/// Classifies a command.
pub fn classify(command: &Command) -> (r: SessionOutcome)
    ensures
        r == outcome_of(*command),
{
    if command.is_event_subscription() {
        SessionOutcome::Subscription
    } else {
        SessionOutcome::Transactional
    }
}

/// Whether output is written on one line: when the user asked for it, and
/// always for a subscription, whose output other programs read.
pub fn use_compact(compact: bool, outcome: SessionOutcome) -> (r: bool)
    ensures
        r == (compact || outcome == SessionOutcome::Subscription),
{
    match outcome {
        SessionOutcome::Subscription => true,
        SessionOutcome::Transactional => compact,
    }
}

/// Where the session stands.
#[derive(Debug, Clone, Copy, PartialEq, Eq, Structural)]
pub enum Phase {
    Loading,
    Connecting,
    Dispatching,
    Draining,
    /// The stream ended and nothing is pending: success.
    Terminated,
    /// A failure ended the session.
    Failed,
}

impl Phase {
    /// The place of a phase in the order in which a session passes through
    /// them; the two ends come last.
    pub open spec fn rank(&self) -> nat {
        match *self {
            Phase::Loading => 0,
            Phase::Connecting => 1,
            Phase::Dispatching => 2,
            Phase::Draining => 3,
            Phase::Terminated => 4,
            Phase::Failed => 4,
        }
    }
}

/// What has become of the connection handle.
#[derive(Debug, Clone, Copy, PartialEq, Eq, Structural)]
pub enum Handle {
    /// No connection has been built yet.
    Absent,
    /// The session owns the handle.
    Held,
    /// The session has let the handle go; the connection is closing.
    Released,
}

/// Why a session failed.
#[derive(Debug, Clone, PartialEq, Eq)]
pub enum SessionError {
    /// There is no connection record; the user has to initialise one.
    ConfigNotFound,
    /// The connection record cannot be read.
    ConfigParseError,
    /// The command failed.
    Router(RouterError),
    /// A newly issued credential could not be written down.
    PersistError,
    /// The caller reported something that cannot happen in this phase.
    Unexpected,
}

impl SessionError {
    /// The text of the message.
    pub open spec fn text(&self) -> Seq<char> {
        match *self {
            SessionError::ConfigNotFound =>
                "failed to load config file (try running `init` to create the file)"@,
            SessionError::ConfigParseError => "failed to parse JSON from config file"@,
            SessionError::Router(e) => e.text(),
            SessionError::PersistError => "failed to write config file"@,
            SessionError::Unexpected => "the session received an event out of turn"@,
        }
    }

    /// The message shown to the user; it names the stage that failed.
    pub fn message(&self) -> (r: String)
        ensures
            r@ == self.text(),
    {
        match self {
            SessionError::ConfigNotFound => {
                "failed to load config file (try running `init` to create the file)".to_owned()
            },
            SessionError::ConfigParseError => "failed to parse JSON from config file".to_owned(),
            SessionError::Router(e) => e.message(),
            SessionError::PersistError => "failed to write config file".to_owned(),
            SessionError::Unexpected => "the session received an event out of turn".to_owned(),
        }
    }
}

/// One item of the connection's event stream.
#[derive(Debug, Clone, PartialEq, Eq)]
pub enum StreamItem {
    /// The server issued a new credential.
    NewAuthToken(String),
    /// The application pushed an event.
    Api,
    /// Anything else.
    Other,
}

/// What the caller reports.
#[derive(Debug, Clone, PartialEq, Eq)]
pub enum Event {
    /// The connection record was read.
    ConfigLoaded(Config),
    /// There is no connection record.
    ConfigMissing,
    /// The connection record is malformed.
    ConfigMalformed,
    /// The client is built.
    Connected,
    /// The router returned without a failure.
    Dispatched,
    /// The router returned with a failure.
    DispatchFailed(RouterError),
    /// The stream produced an item.
    Stream(StreamItem),
    /// The stream ended.
    StreamEnded,
    /// The record handed out with [`Action::Persist`] was written (`true`)
    /// or could not be written (`false`).
    Persisted(bool),
}

/// What the caller has to do next.
#[derive(Debug, Clone, PartialEq, Eq)]
pub enum Action {
    /// Read the connection record.
    LoadConfig,
    /// Build the client with this credential and identity.
    Connect { token: Option<String>, plugin_name: String, plugin_developer: String },
    /// Hand the command to the router, once.
    Dispatch,
    /// Let the connection handle go, then wait for the next stream item.
    ReleaseAndPoll,
    /// Wait for the next stream item.
    Poll,
    /// Write this record to the store, then report how it went.
    Persist(Config),
    /// Write the event just received to the output, then wait for the next
    /// stream item.
    Emit,
    /// Stop; the invocation succeeded.
    Finish,
    /// Stop; the invocation failed.
    Abort(SessionError),
}

impl Action {
    /// The action waits for the next stream item.
    pub open spec fn polls(&self) -> bool {
        *self is Poll || *self is ReleaseAndPoll || *self is Emit
    }

    /// The status the process ends with, for the two actions that end it.
    pub fn exit_code(&self) -> (r: Option<u8>)
        ensures
            *self is Finish ==> r == Some(0u8),
            *self is Abort ==> r == Some(1u8),
            !(*self is Finish) && !(*self is Abort) ==> r.is_none(),
    {
        match self {
            Action::Finish => Some(0),
            Action::Abort(_) => Some(1),
            _ => None,
        }
    }
}

/// The state of one invocation.
#[derive(Debug, Clone, PartialEq, Eq)]
pub struct Session {
    pub phase: Phase,
    pub outcome: SessionOutcome,
    /// The connection record, once there is one.
    pub config: Option<Config>,
    pub handle: Handle,
    /// The record holds a credential that has not been written down yet.
    pub unsaved: bool,
}

/// The action that builds the client from a record.
pub open spec fn connect_with(config: Config) -> Action {
    Action::Connect {
        token: config.token,
        plugin_name: config.plugin_name,
        plugin_developer: config.plugin_developer,
    }
}

/// The two records agree in everything but the credential: the server's
/// address and this client's identity.
pub open spec fn same_but_token(a: Config, b: Config) -> bool {
    &&& a.host == b.host
    &&& a.port == b.port
    &&& a.plugin_name == b.plugin_name
    &&& a.plugin_developer == b.plugin_developer
}

/// The record with its credential replaced.
pub open spec fn rotated(config: Config, token: String) -> Config {
    Config { token: Some(token), ..config }
}

impl Session {
    /// What holds of every session that [`Session::begin`] and
    /// [`Session::step`] produce.
    pub open spec fn wf(&self) -> bool {
        &&& self.outcome == SessionOutcome::Subscription ==> self.handle != Handle::Released
        &&& match self.phase {
            Phase::Loading => self.config.is_none() && self.handle == Handle::Absent
                && !self.unsaved,
            Phase::Connecting => self.config.is_some() && self.handle == Handle::Absent
                && !self.unsaved,
            Phase::Dispatching => self.config.is_some() && self.handle == Handle::Held
                && !self.unsaved,
            Phase::Draining => {
                &&& self.config.is_some()
                &&& self.outcome == SessionOutcome::Transactional ==> self.handle
                    == Handle::Released
                &&& self.outcome == SessionOutcome::Subscription ==> self.handle == Handle::Held
                &&& self.unsaved ==> self.config.unwrap().token.is_some()
            },
            Phase::Terminated => !self.unsaved,
            Phase::Failed => true,
        }
    }

    /// The session has ended.
    pub open spec fn is_over(&self) -> bool {
        self.phase == Phase::Terminated || self.phase == Phase::Failed
    }

    /// The first state and action for a command: the initialising command
    /// brings its own record and goes straight to connecting; every other
    /// command has the record loaded first.
    pub open spec fn start(command: Command) -> (Session, Action) {
        match command {
            Command::Config(ConfigCommand::Init(conf)) => (
                Session {
                    phase: Phase::Connecting,
                    outcome: outcome_of(command),
                    config: Some(conf),
                    handle: Handle::Absent,
                    unsaved: false,
                },
                connect_with(conf),
            ),
            _ => (
                Session {
                    phase: Phase::Loading,
                    outcome: outcome_of(command),
                    config: None,
                    handle: Handle::Absent,
                    unsaved: false,
                },
                Action::LoadConfig,
            ),
        }
    }

    /// The session stopped by a failure, with the action that reports it.
    pub open spec fn failed(self, error: SessionError) -> (Session, Action) {
        (Session { phase: Phase::Failed, ..self }, Action::Abort(error))
    }

    /// The transition function: the state and action that follow `event`.
    pub open spec fn next(self, event: Event) -> (Session, Action) {
        match self.phase {
            Phase::Loading => match event {
                Event::ConfigLoaded(c) => (
                    Session { phase: Phase::Connecting, config: Some(c), ..self },
                    connect_with(c),
                ),
                Event::ConfigMissing => self.failed(SessionError::ConfigNotFound),
                Event::ConfigMalformed => self.failed(SessionError::ConfigParseError),
                _ => self.failed(SessionError::Unexpected),
            },
            Phase::Connecting => match event {
                Event::Connected => (
                    Session { phase: Phase::Dispatching, handle: Handle::Held, ..self },
                    Action::Dispatch,
                ),
                _ => self.failed(SessionError::Unexpected),
            },
            Phase::Dispatching => match event {
                Event::Dispatched => match self.outcome {
                    SessionOutcome::Transactional => (
                        Session { phase: Phase::Draining, handle: Handle::Released, ..self },
                        Action::ReleaseAndPoll,
                    ),
                    SessionOutcome::Subscription => (
                        Session { phase: Phase::Draining, ..self },
                        Action::Poll,
                    ),
                },
                Event::DispatchFailed(e) => self.failed(SessionError::Router(e)),
                _ => self.failed(SessionError::Unexpected),
            },
            Phase::Draining => if self.unsaved {
                match event {
                    Event::Persisted(true) => (Session { unsaved: false, ..self }, Action::Poll),
                    Event::Persisted(false) => self.failed(SessionError::PersistError),
                    _ => self.failed(SessionError::Unexpected),
                }
            } else {
                match (event, self.config) {
                    (Event::Stream(StreamItem::NewAuthToken(token)), Some(c)) => (
                        Session { config: Some(rotated(c, token)), unsaved: true, ..self },
                        Action::Persist(rotated(c, token)),
                    ),
                    (Event::Stream(StreamItem::Api), _) => (self, Action::Emit),
                    (Event::Stream(StreamItem::Other), _) => (self, Action::Poll),
                    (Event::StreamEnded, _) => (
                        Session { phase: Phase::Terminated, ..self },
                        Action::Finish,
                    ),
                    _ => self.failed(SessionError::Unexpected),
                }
            },
            Phase::Terminated => (self, Action::Finish),
            Phase::Failed => (self, Action::Abort(SessionError::Unexpected)),
        }
    }

    /// The state after a run of events, one step for each.
    pub open spec fn run(self, events: Seq<Event>) -> Session
        decreases events.len(),
    {
        if events.len() == 0 {
            self
        } else {
            self.next(events[0]).0.run(events.subrange(1, events.len() as int))
        }
    }

    /// The actions that a run of events is answered with, one for each.
    pub open spec fn actions(self, events: Seq<Event>) -> Seq<Action>
        decreases events.len(),
    {
        if events.len() == 0 {
            Seq::empty()
        } else {
            seq![self.next(events[0]).1] + self.next(events[0]).0.actions(
                events.subrange(1, events.len() as int),
            )
        }
    }

    /// Opens the session for a command.
    pub fn begin(command: &Command) -> (r: (Session, Action))
        ensures
            r == Self::start(*command),
            r.0.wf(),
    {
        let outcome = classify(command);
        match command {
            Command::Config(ConfigCommand::Init(conf)) => {
                let action = connect_action(conf);
                (
                    Session {
                        phase: Phase::Connecting,
                        outcome,
                        config: Some(conf.duplicate()),
                        handle: Handle::Absent,
                        unsaved: false,
                    },
                    action,
                )
            },
            _ => (
                Session {
                    phase: Phase::Loading,
                    outcome,
                    config: None,
                    handle: Handle::Absent,
                    unsaved: false,
                },
                Action::LoadConfig,
            ),
        }
    }

    /// Stops the session with a failure.
    fn fail(self, error: SessionError) -> (r: (Session, Action))
        ensures
            r == self.failed(error),
    {
        (
            Session {
                phase: Phase::Failed,
                outcome: self.outcome,
                config: self.config,
                handle: self.handle,
                unsaved: self.unsaved,
            },
            Action::Abort(error),
        )
    }

    /// Takes one event and answers with the next state and action.
    ///
    /// Any event is accepted in any phase: one that cannot happen there
    /// ends the session with [`SessionError::Unexpected`].
    pub fn step(self, event: Event) -> (r: (Session, Action))
        ensures
            r == self.next(event),
            self.wf() ==> r.0.wf(),
    {
        match self.phase {
            Phase::Loading => match event {
                Event::ConfigLoaded(c) => {
                    let action = connect_action(&c);
                    (
                        Session {
                            phase: Phase::Connecting,
                            outcome: self.outcome,
                            config: Some(c),
                            handle: self.handle,
                            unsaved: self.unsaved,
                        },
                        action,
                    )
                },
                Event::ConfigMissing => self.fail(SessionError::ConfigNotFound),
                Event::ConfigMalformed => self.fail(SessionError::ConfigParseError),
                _ => self.fail(SessionError::Unexpected),
            },
            Phase::Connecting => match event {
                Event::Connected => (
                    Session {
                        phase: Phase::Dispatching,
                        outcome: self.outcome,
                        config: self.config,
                        handle: Handle::Held,
                        unsaved: self.unsaved,
                    },
                    Action::Dispatch,
                ),
                _ => self.fail(SessionError::Unexpected),
            },
            Phase::Dispatching => match event {
                Event::Dispatched => match self.outcome {
                    SessionOutcome::Transactional => (
                        Session {
                            phase: Phase::Draining,
                            outcome: self.outcome,
                            config: self.config,
                            handle: Handle::Released,
                            unsaved: self.unsaved,
                        },
                        Action::ReleaseAndPoll,
                    ),
                    SessionOutcome::Subscription => (
                        Session {
                            phase: Phase::Draining,
                            outcome: self.outcome,
                            config: self.config,
                            handle: self.handle,
                            unsaved: self.unsaved,
                        },
                        Action::Poll,
                    ),
                },
                Event::DispatchFailed(e) => self.fail(SessionError::Router(e)),
                _ => self.fail(SessionError::Unexpected),
            },
            Phase::Draining => {
                if self.unsaved {
                    match event {
                        Event::Persisted(true) => (
                            Session {
                                phase: self.phase,
                                outcome: self.outcome,
                                config: self.config,
                                handle: self.handle,
                                unsaved: false,
                            },
                            Action::Poll,
                        ),
                        Event::Persisted(false) => self.fail(SessionError::PersistError),
                        _ => self.fail(SessionError::Unexpected),
                    }
                } else {
                    match event {
                        Event::Stream(StreamItem::NewAuthToken(token)) => {
                            let Session { phase, outcome, config, handle, unsaved } = self;
                            match config {
                                Some(mut c) => {
                                    c.rotate_token(token);
                                    let copy = c.duplicate();
                                    (
                                        Session {
                                            phase,
                                            outcome,
                                            config: Some(c),
                                            handle,
                                            unsaved: true,
                                        },
                                        Action::Persist(copy),
                                    )
                                },
                                None => (
                                    Session {
                                        phase: Phase::Failed,
                                        outcome,
                                        config: None,
                                        handle,
                                        unsaved,
                                    },
                                    Action::Abort(SessionError::Unexpected),
                                ),
                            }
                        },
                        Event::Stream(StreamItem::Api) => (self, Action::Emit),
                        Event::Stream(StreamItem::Other) => (self, Action::Poll),
                        Event::StreamEnded => (
                            Session {
                                phase: Phase::Terminated,
                                outcome: self.outcome,
                                config: self.config,
                                handle: self.handle,
                                unsaved: self.unsaved,
                            },
                            Action::Finish,
                        ),
                        _ => self.fail(SessionError::Unexpected),
                    }
                }
            },
            Phase::Terminated => (self, Action::Finish),
            Phase::Failed => (self, Action::Abort(SessionError::Unexpected)),
        }
    }
}

/// The action that builds the client from a record.
fn connect_action(config: &Config) -> (r: Action)
    ensures
        r == connect_with(*config),
{
    let token = match &config.token {
        Some(t) => Some(t.clone()),
        None => None,
    };
    Action::Connect {
        token,
        plugin_name: config.plugin_name.clone(),
        plugin_developer: config.plugin_developer.clone(),
    }
}

/// Every step keeps a session well-formed, and so does every run.
pub proof fn law_run_keeps_wf(s: Session, events: Seq<Event>)
    requires
        s.wf(),
    ensures
        s.run(events).wf(),
    decreases events.len(),
{
    if events.len() > 0 {
        law_run_keeps_wf(s.next(events[0]).0, events.subrange(1, events.len() as int));
    }
}

/// For a subscription, the handle is never let go: no step asks for it,
/// and after any run from the opening of the session the handle has not
/// been released.
pub proof fn law_subscription_keeps_handle(command: Command, events: Seq<Event>, event: Event)
    requires
        outcome_of(command) == SessionOutcome::Subscription,
    ensures
        ({
            let s = Session::start(command).0.run(events);
            &&& s.handle != Handle::Released
            &&& !(s.next(event).1 is ReleaseAndPoll)
            &&& s.next(event).0.handle != Handle::Released
        }),
{
    let s0 = Session::start(command).0;
    law_run_keeps_outcome(s0, events);
    law_run_keeps_wf(s0, events);
}

/// No step changes the kind of the session.
pub proof fn law_run_keeps_outcome(s: Session, events: Seq<Event>)
    ensures
        s.run(events).outcome == s.outcome,
    decreases events.len(),
{
    if events.len() > 0 {
        law_run_keeps_outcome(s.next(events[0]).0, events.subrange(1, events.len() as int));
    }
}

/// For a transaction, the handle is held while the router works and is let
/// go in the very step that takes the router's return; draining begins
/// with the handle released.
pub proof fn law_transaction_releases_after_dispatch(s: Session)
    requires
        s.wf(),
        s.outcome == SessionOutcome::Transactional,
        s.phase == Phase::Dispatching,
    ensures
        s.handle == Handle::Held,
        s.next(Event::Dispatched).1 == Action::ReleaseAndPoll,
        s.next(Event::Dispatched).0.handle == Handle::Released,
        s.next(Event::Dispatched).0.phase == Phase::Draining,
{
}

/// A newly issued credential is taken into the record and handed out for
/// writing in the same step, and until the caller reports that it was
/// written the session neither waits for another stream item nor finishes:
/// the only things that can follow are the report of the write, or failure.
pub proof fn law_rotation_is_saved_before_next_poll(s: Session, token: String, event: Event)
    requires
        s.wf(),
        s.phase == Phase::Draining,
        !s.unsaved,
    ensures
        ({
            let (after, action) = s.next(Event::Stream(StreamItem::NewAuthToken(token)));
            let (then, following) = after.next(event);
            &&& action == Action::Persist(rotated(s.config.unwrap(), token))
            &&& after.config == Some(rotated(s.config.unwrap(), token))
            &&& after.unsaved
            &&& after.phase == Phase::Draining
            &&& event == Event::Persisted(true) ==> following == Action::Poll && !then.unsaved
                && then.config == after.config
            &&& event != Event::Persisted(true) ==> following is Abort && then.phase
                == Phase::Failed
            &&& event == Event::Persisted(false) ==> following == Action::Abort(
                SessionError::PersistError,
            )
        }),
{
}

/// While a credential is unsaved, no step waits on the stream or finishes
/// unless it is the step that takes the report of a successful write. So
/// at most one rotation is ever unsaved, and none is skipped.
pub proof fn law_unsaved_blocks_stream(s: Session, event: Event)
    requires
        s.wf(),
        s.unsaved,
        s.phase == Phase::Draining,
    ensures
        (s.next(event).1.polls() || s.next(event).1 is Finish) ==> event == Event::Persisted(
            true,
        ),
        !(s.next(event).1 is Persist),
{
}

/// A session only moves forward: no step takes it to an earlier phase, and
/// a session that has ended stays as it is.
pub proof fn law_phases_only_advance(s: Session, event: Event)
    ensures
        s.next(event).0.phase.rank() >= s.phase.rank(),
        s.is_over() ==> s.next(event).0 == s && (s.next(event).1 is Finish || s.next(event).1
            is Abort),
{
}

/// The command is dispatched once: only the step out of connecting asks
/// for it, and that phase is never entered again. What the stream pushes is
/// shown only while draining, so after the command's own output.
pub proof fn law_dispatch_once_then_events(s: Session, event: Event)
    ensures
        s.next(event).1 is Dispatch ==> s.phase == Phase::Connecting && s.next(event).0.phase
            == Phase::Dispatching,
        s.next(event).1 is Emit ==> s.phase == Phase::Draining,
        s.next(event).1.polls() ==> s.next(event).0.phase == Phase::Draining,
        s.next(event).0.phase == Phase::Connecting ==> s.phase == Phase::Loading,
{
}

/// The answer to the event at `i` of a run is the step taken from the
/// state that the events before it lead to.
pub proof fn lemma_action_at(s: Session, events: Seq<Event>, i: int)
    requires
        0 <= i < events.len(),
    ensures
        s.actions(events).len() == events.len(),
        s.actions(events)[i] == s.run(events.subrange(0, i)).next(events[i]).1,
    decreases events.len(),
{
    lemma_actions_len(s, events);
    let rest = events.subrange(1, events.len() as int);
    let s1 = s.next(events[0]).0;
    lemma_actions_len(s1, rest);
    if i == 0 {
        assert(events.subrange(0, 0).len() == 0);
    } else {
        lemma_action_at(s1, rest, i - 1);
        let before = events.subrange(0, i);
        assert(before[0] == events[0]);
        assert(before.subrange(1, before.len() as int) =~= rest.subrange(0, i - 1));
        assert(s.run(before) == s1.run(rest.subrange(0, i - 1)));
    }
}

/// A run is answered with one action for each event.
pub proof fn lemma_actions_len(s: Session, events: Seq<Event>)
    ensures
        s.actions(events).len() == events.len(),
    decreases events.len(),
{
    if events.len() > 0 {
        lemma_actions_len(s.next(events[0]).0, events.subrange(1, events.len() as int));
    }
}

/// In any run, however many credentials the server issues while the
/// session drains: each one that arrives is answered by handing out the
/// record with that credential for writing (or by failure), and the action
/// after it waits on the stream or finishes only if the event between them
/// is the report that the write succeeded. No credential is passed over.
pub proof fn law_every_rotation_is_saved(s: Session, events: Seq<Event>, i: int, token: String)
    requires
        s.wf(),
        0 <= i < events.len(),
        events[i] == Event::Stream(StreamItem::NewAuthToken(token)),
        s.run(events.subrange(0, i)).phase == Phase::Draining,
    ensures
        ({
            let acts = s.actions(events);
            &&& acts.len() == events.len()
            &&& acts[i] is Persist || acts[i] is Abort
            &&& acts[i] matches Action::Persist(c) ==> c.token == Some(token)
            &&& i + 1 < events.len() && (acts[i + 1].polls() || acts[i + 1] is Finish)
                ==> acts[i] is Persist && events[i + 1] == Event::Persisted(true)
        }),
{
    lemma_action_at(s, events, i);
    law_run_keeps_wf(s, events.subrange(0, i));
    if i + 1 < events.len() {
        lemma_action_at(s, events, i + 1);
        lemma_run_snoc(s, events.subrange(0, i), events[i]);
        assert(events.subrange(0, i).push(events[i]) =~= events.subrange(0, i + 1));
    }
}

/// Running one more event is one more step.
pub proof fn lemma_run_snoc(s: Session, events: Seq<Event>, last: Event)
    ensures
        s.run(events.push(last)) == s.run(events).next(last).0,
    decreases events.len(),
{
    let all = events.push(last);
    if events.len() == 0 {
        assert(all.subrange(1, 1).len() == 0);
        assert(all[0] == last);
        assert(s.run(all) == s.next(last).0.run(all.subrange(1, 1)));
    } else {
        let s1 = s.next(events[0]).0;
        let rest = events.subrange(1, events.len() as int);
        lemma_run_snoc(s1, rest, last);
        assert(all.subrange(1, all.len() as int) =~= rest.push(last));
        assert(all[0] == events[0]);
    }
}

/// The record is written to by nothing but the stream: a step changes it
/// only by taking it in when it is loaded, or by replacing its credential
/// with one the server issued while the session drains.
pub proof fn law_record_changes_only_by_rotation(s: Session, event: Event)
    requires
        s.wf(),
        s.next(event).0.config != s.config,
    ensures
        s.phase == Phase::Loading || s.phase == Phase::Draining,
        s.phase == Phase::Loading ==> event is ConfigLoaded && s.next(event).0.config == Some(
            event->ConfigLoaded_0,
        ),
        s.phase == Phase::Draining ==> (event matches Event::Stream(
            StreamItem::NewAuthToken(token),
        ) && s.next(event).0.config == Some(rotated(s.config.unwrap(), token))),
{
}

/// Once a session has its record, no run changes the address or the
/// identity in it: whatever is handed out for writing later differs from
/// what was loaded in the credential alone.
pub proof fn law_run_keeps_identity(s: Session, events: Seq<Event>)
    requires
        s.wf(),
        s.config.is_some(),
    ensures
        s.run(events).config.is_some(),
        same_but_token(s.config.unwrap(), s.run(events).config.unwrap()),
        forall|i: int|
            0 <= i < events.len() ==> (#[trigger] s.actions(events)[i] matches Action::Persist(c)
                ==> same_but_token(s.config.unwrap(), c)),
    decreases events.len(),
{
    lemma_actions_len(s, events);
    if events.len() > 0 {
        let s1 = s.next(events[0]).0;
        let rest = events.subrange(1, events.len() as int);
        law_run_keeps_identity(s1, rest);
        lemma_actions_len(s1, rest);
        assert forall|i: int| 0 <= i < events.len() implies (#[trigger] s.actions(events)[i] matches Action::Persist(
            c,
        ) ==> same_but_token(s.config.unwrap(), c)) by {
            if i > 0 {
                assert(s.actions(events)[i] == s1.actions(rest)[i - 1]);
            }
        }
    }
}

/// The subscriptions are exactly the commands whose plan is a request to
/// subscribe; that request's response is never shown.
pub proof fn law_subscription_plan(command: Command, r: Result<Plan, RouterError>)
    requires
        routed(command, r),
    ensures
        outcome_of(command) == SessionOutcome::Subscription <==> (r matches Ok(
            Plan::Send { request: Request::EventSubscription { .. }, .. },
        )),
        outcome_of(command) == SessionOutcome::Subscription ==> (r matches Ok(
            Plan::Send { print, .. },
        ) && !print),
{
}

} // verus!
