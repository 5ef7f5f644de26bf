//! The decisions of one session, from the first inbound frame to the last
//! outbound one.
//!
//! The caller performs the I/O: it hands each [`Event`] to [`Bridge::step`]
//! and carries out the returned actions in order. A session runs
//! Accumulating, then Launching, then Running, and ends Terminated. Closing
//! the inbound channel is the only event that cancels a running child; it
//! kills the child and nothing is sent after it.
use vstd::prelude::*;
use crate::codec::{
    Message,
    MessageView,
    ProtocolError,
    decode_body,
    protocol_error_text,
    tag_of,
};
use crate::session::{
    BuilderView,
    LaunchError,
    LaunchSpec,
    LaunchSpecView,
    SessionBuilder,
    add_spec,
    empty_builder,
    finalize_spec,
    launch_error_text,
    missing_program_text,
};

verus! {

/// How the child ended, as far as the caller could learn it.
pub enum ExitOutcome {
    /// It exited with this code.
    Code(i32),
    /// It ended without a code, for instance killed by a signal.
    NoCode,
    /// Waiting for it failed.
    Failed(String),
}

pub enum ExitOutcomeView {
    Code(i32),
    NoCode,
    Failed(Seq<char>),
}

impl View for ExitOutcome {
    type V = ExitOutcomeView;

    open spec fn view(&self) -> ExitOutcomeView {
        match self {
            ExitOutcome::Code(c) => ExitOutcomeView::Code(*c),
            ExitOutcome::NoCode => ExitOutcomeView::NoCode,
            ExitOutcome::Failed(s) => ExitOutcomeView::Failed(s@),
        }
    }
}

/// What happened, as the caller reports it.
pub enum Event {
    /// A frame body (tag and payload) arrived from the parent.
    Frame(Vec<u8>),
    /// The parent's channel ended in an orderly way.
    InboundClosed,
    /// Reading the parent's channel failed.
    InboundFailed(String),
    /// The child was started.
    Spawned,
    /// The child could not be started.
    SpawnFailed(LaunchError),
    /// The child's stdin was written in full, or could not be, and is closed.
    StdinFinished,
    /// The child wrote these bytes to stdout.
    Stdout(Vec<u8>),
    /// The child's stdout ended.
    StdoutClosed,
    /// The child wrote these bytes to stderr.
    Stderr(Vec<u8>),
    /// The child's stderr ended.
    StderrClosed,
    /// The child ended.
    Exited(ExitOutcome),
}

pub enum EventView {
    Frame(Seq<u8>),
    InboundClosed,
    InboundFailed(Seq<char>),
    Spawned,
    SpawnFailed(Seq<char>),
    StdinFinished,
    Stdout(Seq<u8>),
    StdoutClosed,
    Stderr(Seq<u8>),
    StderrClosed,
    Exited(ExitOutcomeView),
}

impl View for Event {
    type V = EventView;

    open spec fn view(&self) -> EventView {
        match self {
            Event::Frame(b) => EventView::Frame(b@),
            Event::InboundClosed => EventView::InboundClosed,
            Event::InboundFailed(s) => EventView::InboundFailed(s@),
            Event::Spawned => EventView::Spawned,
            Event::SpawnFailed(e) => EventView::SpawnFailed(launch_error_text(*e)),
            Event::StdinFinished => EventView::StdinFinished,
            Event::Stdout(b) => EventView::Stdout(b@),
            Event::StdoutClosed => EventView::StdoutClosed,
            Event::Stderr(b) => EventView::Stderr(b@),
            Event::StderrClosed => EventView::StderrClosed,
            Event::Exited(o) => EventView::Exited(o@),
        }
    }
}

/// What the caller is to do.
pub enum Action {
    /// Start the child.
    Launch(LaunchSpec),
    /// Send this message to the parent.
    Send(Message),
    /// Kill the child; harmless if it has already ended.
    Kill,
    /// The session is over: release what is left.
    Stop,
}

pub enum ActionView {
    Launch(LaunchSpecView),
    Send(MessageView),
    Kill,
    Stop,
}

impl View for Action {
    type V = ActionView;

    open spec fn view(&self) -> ActionView {
        match self {
            Action::Launch(s) => ActionView::Launch(s@),
            Action::Send(m) => ActionView::Send(m@),
            Action::Kill => ActionView::Kill,
            Action::Stop => ActionView::Stop,
        }
    }
}

pub open spec fn actions_view(a: Seq<Action>) -> Seq<ActionView> {
    a.map_values(|x: Action| x@)
}

#[derive(Clone, Copy, Debug, PartialEq, Eq, Structural)]
pub enum Phase {
    Accumulating,
    Launching,
    Running,
    Terminated,
}

/// One session's state.
pub struct Bridge {
    phase: Phase,
    builder: Option<SessionBuilder>,
    stdin_done: bool,
    stdout_done: bool,
    stderr_done: bool,
    exit: Option<ExitOutcome>,
}

pub struct BridgeView {
    pub phase: Phase,
    pub builder: BuilderView,
    pub stdin_done: bool,
    pub stdout_done: bool,
    pub stderr_done: bool,
    pub exit: Option<ExitOutcomeView>,
}

pub open spec fn exit_view(o: Option<ExitOutcome>) -> Option<ExitOutcomeView> {
    match o {
        Some(x) => Some(x@),
        None => None,
    }
}

impl View for Bridge {
    type V = BridgeView;

    closed spec fn view(&self) -> BridgeView {
        BridgeView {
            phase: self.phase,
            builder: match self.builder {
                Some(b) => b@,
                None => empty_builder(),
            },
            stdin_done: self.stdin_done,
            stdout_done: self.stdout_done,
            stderr_done: self.stderr_done,
            exit: exit_view(self.exit),
        }
    }
}

pub open spec fn initial() -> BridgeView {
    BridgeView {
        phase: Phase::Accumulating,
        builder: empty_builder(),
        stdin_done: false,
        stdout_done: false,
        stderr_done: false,
        exit: None,
    }
}

pub open spec fn running() -> BridgeView {
    BridgeView { phase: Phase::Running, ..initial() }
}

pub open spec fn terminated(s: BridgeView) -> BridgeView {
    BridgeView { phase: Phase::Terminated, builder: empty_builder(), ..s }
}

/// Report a fatal condition to a parent that is still there.
pub open spec fn fatal(text: Seq<char>) -> Seq<ActionView> {
    seq![
        ActionView::Send(MessageView::Error(text)),
        ActionView::Send(MessageView::Eot),
        ActionView::Stop,
    ]
}

/// What ends the exchange once the child has ended and its streams are done.
pub open spec fn report(o: ExitOutcomeView) -> Seq<ActionView> {
    match o {
        ExitOutcomeView::Code(c) => seq![
            ActionView::Send(MessageView::ExitStatus(c)),
            ActionView::Send(MessageView::Eot),
            ActionView::Stop,
        ],
        ExitOutcomeView::NoCode => seq![ActionView::Send(MessageView::Eot), ActionView::Stop],
        ExitOutcomeView::Failed(t) => fatal(t),
    }
}

/// The error that a frame arriving while the child runs amounts to.
pub open spec fn stray_frame_error(b: Seq<u8>) -> ProtocolError {
    match decode_body(b) {
        Ok(m) => ProtocolError::Unexpected(tag_of(m)),
        Err(e) => e,
    }
}

/// Ends a running session once stdin, stdout, stderr and the wait are all done.
pub open spec fn complete(s: BridgeView) -> (BridgeView, Seq<ActionView>) {
    if s.stdin_done && s.stdout_done && s.stderr_done && s.exit is Some {
        (terminated(s), report(s.exit->0))
    } else {
        (s, seq![])
    }
}

/// Cancellation or a fatal condition while a child may exist: kill it first.
pub open spec fn abort(s: BridgeView, e: EventView) -> (BridgeView, Seq<ActionView>) {
    match e {
        EventView::InboundClosed => (terminated(s), seq![ActionView::Kill, ActionView::Stop]),
        EventView::InboundFailed(t) => (terminated(s), seq![ActionView::Kill] + fatal(t)),
        EventView::Frame(b) => (
            terminated(s),
            seq![ActionView::Kill] + fatal(protocol_error_text(stray_frame_error(b))),
        ),
        _ => (s, seq![]),
    }
}

pub open spec fn on_frame(s: BridgeView, b: Seq<u8>) -> (BridgeView, Seq<ActionView>) {
    match decode_body(b) {
        Err(pe) => (terminated(s), fatal(protocol_error_text(pe))),
        Ok(m) => {
            let (nb, r) = add_spec(s.builder, m);
            match r {
                Err(pe) => (terminated(s), fatal(protocol_error_text(pe))),
                Ok(ready) => if !ready {
                    (BridgeView { builder: nb, ..s }, seq![])
                } else {
                    match finalize_spec(nb) {
                        None => (terminated(s), fatal(missing_program_text())),
                        Some(spec) => (
                            BridgeView { phase: Phase::Launching, builder: empty_builder(), ..s },
                            seq![ActionView::Launch(spec)],
                        ),
                    }
                },
            }
        },
    }
}

/// The next state and the actions, in order, for one event.
pub open spec fn next(s: BridgeView, e: EventView) -> (BridgeView, Seq<ActionView>) {
    match s.phase {
        Phase::Terminated => (s, seq![]),
        Phase::Accumulating => match e {
            EventView::Frame(b) => on_frame(s, b),
            EventView::InboundClosed => (terminated(s), seq![ActionView::Stop]),
            EventView::InboundFailed(t) => (terminated(s), fatal(t)),
            _ => (s, seq![]),
        },
        Phase::Launching => match e {
            EventView::Spawned => (running(), seq![]),
            EventView::SpawnFailed(t) => (terminated(s), fatal(t)),
            _ => abort(s, e),
        },
        Phase::Running => match e {
            EventView::StdinFinished => complete(BridgeView { stdin_done: true, ..s }),
            EventView::Stdout(b) => if s.stdout_done {
                (s, seq![])
            } else {
                (s, seq![ActionView::Send(MessageView::Stdout(b))])
            },
            EventView::StdoutClosed => complete(BridgeView { stdout_done: true, ..s }),
            EventView::Stderr(b) => if s.stderr_done {
                (s, seq![])
            } else {
                (s, seq![ActionView::Send(MessageView::Stderr(b))])
            },
            EventView::StderrClosed => complete(BridgeView { stderr_done: true, ..s }),
            EventView::Exited(o) => if s.exit is Some {
                (s, seq![])
            } else {
                complete(BridgeView { exit: Some(o), ..s })
            },
            _ => abort(s, e),
        },
    }
}

/// All the actions that a run of events gives, from state `s`.
pub open spec fn run(s: BridgeView, events: Seq<EventView>) -> Seq<ActionView>
    decreases events.len(),
{
    if events.len() == 0 {
        seq![]
    } else {
        let (t, a) = next(s, events[0]);
        a + run(t, events.drop_first())
    }
}

/// Once a session has ended, no event makes it do anything.
pub proof fn lemma_terminated_is_silent(s: BridgeView, events: Seq<EventView>)
    requires
        s.phase == Phase::Terminated,
    ensures
        run(s, events) == Seq::<ActionView>::empty(),
    decreases events.len(),
{
    if events.len() > 0 {
        lemma_terminated_is_silent(s, events.drop_first());
    }
}

/// When the parent's channel closes while a child may be running, the child
/// is killed and nothing at all is sent, then or after, whatever else happens.
pub proof fn lemma_disconnect_kills(s: BridgeView, later: Seq<EventView>)
    requires
        s.phase == Phase::Running || s.phase == Phase::Launching,
    ensures
        run(s, seq![EventView::InboundClosed] + later) == seq![ActionView::Kill, ActionView::Stop],
{
    let events = seq![EventView::InboundClosed] + later;
    assert(events.drop_first() == later);
    lemma_terminated_is_silent(terminated(s), later);
}

/// A child that cannot be started is reported as one Error and an Eot, and no
/// exit status follows, whatever else happens.
pub proof fn lemma_spawn_failure_reported(s: BridgeView, text: Seq<char>, later: Seq<EventView>)
    requires
        s.phase == Phase::Launching,
    ensures
        run(s, seq![EventView::SpawnFailed(text)] + later) == fatal(text),
{
    let events = seq![EventView::SpawnFailed(text)] + later;
    assert(events.drop_first() == later);
    lemma_terminated_is_silent(terminated(s), later);
}

/// An Eot is sent only as the session ends, and it is the last message.
pub proof fn lemma_eot_ends_session(s: BridgeView, e: EventView)
    ensures
        next(s, e).1.contains(ActionView::Send(MessageView::Eot)) ==> {
            &&& next(s, e).0.phase == Phase::Terminated
            &&& next(s, e).1.last() == ActionView::Stop
            &&& next(s, e).1[next(s, e).1.len() - 2] == ActionView::Send(MessageView::Eot)
        },
{
    let (t, a) = next(s, e);
    if a.contains(ActionView::Send(MessageView::Eot)) {
        let i = choose|i: int| 0 <= i < a.len() && a[i] == ActionView::Send(MessageView::Eot);
        if t.phase != Phase::Terminated {
            assert(a.len() <= 1);
            assert(false);
        }
    }
}

/// What a running child writes to stdout is sent on, chunk by chunk, unchanged
/// and in order.
pub proof fn lemma_stdout_relayed(s: BridgeView, chunks: Seq<Seq<u8>>)
    requires
        s.phase == Phase::Running,
        !s.stdout_done,
    ensures
        run(s, chunks.map_values(|c: Seq<u8>| EventView::Stdout(c))) == chunks.map_values(
            |c: Seq<u8>| ActionView::Send(MessageView::Stdout(c)),
        ),
    decreases chunks.len(),
{
    let events = chunks.map_values(|c: Seq<u8>| EventView::Stdout(c));
    let sent = chunks.map_values(|c: Seq<u8>| ActionView::Send(MessageView::Stdout(c)));
    if chunks.len() > 0 {
        let rest = chunks.drop_first();
        lemma_stdout_relayed(s, rest);
        assert(events.drop_first() == rest.map_values(|c: Seq<u8>| EventView::Stdout(c)));
        assert(sent == seq![sent[0]] + rest.map_values(
            |c: Seq<u8>| ActionView::Send(MessageView::Stdout(c)),
        ));
    } else {
        assert(sent == Seq::<ActionView>::empty());
    }
}

/// At most one child per session: once the fields are complete, no run of
/// events launches anything again.
pub proof fn lemma_single_launch(s: BridgeView, events: Seq<EventView>)
    requires
        s.phase != Phase::Accumulating,
    ensures
        forall|i: int| 0 <= i < run(s, events).len() ==> !(#[trigger] run(s, events)[i] is Launch),
    decreases events.len(),
{
    if events.len() > 0 {
        let (t, a) = next(s, events[0]);
        assert(t.phase != Phase::Accumulating);
        assert(forall|i: int| 0 <= i < a.len() ==> !(#[trigger] a[i] is Launch));
        lemma_single_launch(t, events.drop_first());
        let rest = run(t, events.drop_first());
        assert forall|i: int| 0 <= i < run(s, events).len() implies !(#[trigger] run(
            s,
            events,
        )[i] is Launch) by {
            if i < a.len() {
                assert(run(s, events)[i] == a[i]);
            } else {
                assert(run(s, events)[i] == rest[i - a.len()]);
            }
        }
    }
}

fn fatal_actions(text: String) -> (r: Vec<Action>)
    ensures
        actions_view(r@) == fatal(text@),
{
    let mut r: Vec<Action> = Vec::new();
    r.push(Action::Send(Message::Error(text)));
    r.push(Action::Send(Message::Eot));
    r.push(Action::Stop);
    assert(actions_view(r@) =~= fatal(text@));
    r
}

fn kill_then(rest: Vec<Action>) -> (r: Vec<Action>)
    ensures
        actions_view(r@) == seq![ActionView::Kill] + actions_view(rest@),
{
    let ghost tail = rest@;
    let mut rest = rest;
    let mut r: Vec<Action> = Vec::new();
    r.push(Action::Kill);
    r.append(&mut rest);
    assert(actions_view(r@) =~= seq![ActionView::Kill] + actions_view(tail));
    r
}

fn report_actions(o: &ExitOutcome) -> (r: Vec<Action>)
    ensures
        actions_view(r@) == report(o@),
{
    match o {
        ExitOutcome::Code(c) => {
            let mut r: Vec<Action> = Vec::new();
            r.push(Action::Send(Message::ExitStatus(*c)));
            r.push(Action::Send(Message::Eot));
            r.push(Action::Stop);
            assert(actions_view(r@) =~= report(o@));
            r
        },
        ExitOutcome::NoCode => {
            let mut r: Vec<Action> = Vec::new();
            r.push(Action::Send(Message::Eot));
            r.push(Action::Stop);
            assert(actions_view(r@) =~= report(o@));
            r
        },
        ExitOutcome::Failed(t) => fatal_actions(t.clone()),
    }
}

fn one(a: Action) -> (r: Vec<Action>)
    ensures
        actions_view(r@) == seq![a@],
{
    let ghost v = a@;
    let mut r: Vec<Action> = Vec::new();
    r.push(a);
    assert(actions_view(r@) =~= seq![v]);
    r
}

fn none() -> (r: Vec<Action>)
    ensures
        actions_view(r@) == Seq::<ActionView>::empty(),
{
    let r: Vec<Action> = Vec::new();
    assert(actions_view(r@) =~= Seq::<ActionView>::empty());
    r
}

impl Bridge {
    pub open spec fn wf(&self) -> bool {
        &&& self@.phase == Phase::Accumulating ==> self.has_builder()
        &&& self@.phase != Phase::Accumulating ==> self@.builder == empty_builder()
        &&& (self@.phase == Phase::Accumulating || self@.phase == Phase::Launching) ==> {
            &&& !self@.stdin_done
            &&& !self@.stdout_done
            &&& !self@.stderr_done
            &&& self@.exit is None
        }
    }

    /// The builder is present and well formed.
    pub closed spec fn has_builder(&self) -> bool {
        self.builder matches Some(b) && b.wf()
    }

    /// A session that has received nothing yet.
    pub fn new() -> (r: Bridge)
        ensures
            r.wf(),
            r@ == initial(),
    {
        Bridge {
            phase: Phase::Accumulating,
            builder: Some(SessionBuilder::new()),
            stdin_done: false,
            stdout_done: false,
            stderr_done: false,
            exit: None,
        }
    }

    /// The phase the session is in.
    pub fn phase(&self) -> (r: Phase)
        ensures
            r == self@.phase,
    {
        self.phase
    }

    fn terminate(&mut self)
        ensures
            final(self)@ == terminated(old(self)@),
            final(self).wf(),
    {
        self.phase = Phase::Terminated;
        self.builder = None;
    }

    fn complete(&mut self) -> (r: Vec<Action>)
        requires
            old(self).wf(),
            old(self)@.phase == Phase::Running,
        ensures
            final(self).wf(),
            (final(self)@, actions_view(r@)) == complete(old(self)@),
    {
        if self.stdin_done && self.stdout_done && self.stderr_done {
            match &self.exit {
                Some(o) => {
                    let r = report_actions(o);
                    self.terminate();
                    r
                },
                None => none(),
            }
        } else {
            none()
        }
    }

    fn abort(&mut self, event: Event) -> (r: Vec<Action>)
        requires
            old(self).wf(),
            old(self)@.phase != Phase::Accumulating,
            old(self)@.phase != Phase::Terminated,
        ensures
            final(self).wf(),
            (final(self)@, actions_view(r@)) == abort(old(self)@, event@),
    {
        match event {
            Event::InboundClosed => {
                self.terminate();
                let mut r: Vec<Action> = Vec::new();
                r.push(Action::Kill);
                r.push(Action::Stop);
                assert(actions_view(r@) =~= seq![ActionView::Kill, ActionView::Stop]);
                r
            },
            Event::InboundFailed(t) => {
                self.terminate();
                kill_then(fatal_actions(t))
            },
            Event::Frame(b) => {
                self.terminate();
                let e = match Message::from_bytes(b.as_slice()) {
                    Ok(m) => ProtocolError::Unexpected(m.tag()),
                    Err(e) => e,
                };
                kill_then(fatal_actions(e.description()))
            },
            _ => none(),
        }
    }

    fn on_frame(&mut self, bytes: Vec<u8>) -> (r: Vec<Action>)
        requires
            old(self).wf(),
            old(self)@.phase == Phase::Accumulating,
        ensures
            final(self).wf(),
            (final(self)@, actions_view(r@)) == on_frame(old(self)@, bytes@),
    {
        let message = match Message::from_bytes(bytes.as_slice()) {
            Ok(m) => m,
            Err(pe) => {
                self.terminate();
                return fatal_actions(pe.description());
            },
        };
        let mut builder = match self.builder.take() {
            Some(b) => b,
            None => {
                return none();
            },
        };
        match builder.add(message) {
            Err(pe) => {
                self.terminate();
                fatal_actions(pe.description())
            },
            Ok(false) => {
                self.builder = Some(builder);
                none()
            },
            Ok(true) => match builder.finalize() {
                Err(e) => {
                    self.terminate();
                    fatal_actions(e.description())
                },
                Ok(spec) => {
                    self.phase = Phase::Launching;
                    one(Action::Launch(spec))
                },
            },
        }
    }

    /// Takes one event and returns what the caller is to do, in order.
    pub fn step(&mut self, event: Event) -> (r: Vec<Action>)
        requires
            old(self).wf(),
        ensures
            final(self).wf(),
            (final(self)@, actions_view(r@)) == next(old(self)@, event@),
    {
        match self.phase {
            Phase::Terminated => none(),
            Phase::Accumulating => match event {
                Event::Frame(b) => self.on_frame(b),
                Event::InboundClosed => {
                    self.terminate();
                    one(Action::Stop)
                },
                Event::InboundFailed(t) => {
                    self.terminate();
                    fatal_actions(t)
                },
                _ => none(),
            },
            Phase::Launching => match event {
                Event::Spawned => {
                    self.phase = Phase::Running;
                    none()
                },
                Event::SpawnFailed(e) => {
                    self.terminate();
                    fatal_actions(e.description())
                },
                _ => self.abort(event),
            },
            Phase::Running => match event {
                Event::StdinFinished => {
                    self.stdin_done = true;
                    self.complete()
                },
                Event::Stdout(b) => {
                    if self.stdout_done {
                        none()
                    } else {
                        one(Action::Send(Message::Stdout(b)))
                    }
                },
                Event::StdoutClosed => {
                    self.stdout_done = true;
                    self.complete()
                },
                Event::Stderr(b) => {
                    if self.stderr_done {
                        none()
                    } else {
                        one(Action::Send(Message::Stderr(b)))
                    }
                },
                Event::StderrClosed => {
                    self.stderr_done = true;
                    self.complete()
                },
                Event::Exited(o) => {
                    if self.exit.is_some() {
                        none()
                    } else {
                        self.exit = Some(o);
                        self.complete()
                    }
                },
                _ => self.abort(event),
            },
        }
    }
}

} // verus!
