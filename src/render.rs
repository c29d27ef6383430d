//! The render supervisor as a state machine. The caller runs the loop: it hands
//! each message, channel closure and timer tick to the session, performs the
//! actions it gets back (draw the status line, print a newline, signal
//! completion), and paces out the emissions planned for each queued fragment.

use vstd::prelude::*;
use crate::pacing::{Emission, Pacer, Unit, planned_units, lemma_units_join, unit_closes};
use vstd::seq_lib::lemma_flatten_concat;
use crate::queue::ContentQueue;
use crate::status::{Status, next_status, status_line, status_line_of, transition};

verus! {

/// The shortest time between two timer-driven redraws of the status line.
pub const STATUS_REFRESH_MS: u64 = 1000;

/// An immutable snapshot of what one response is rendered with.
#[derive(Clone, Debug)]
pub struct RenderConfig {
    /// No status line and no colour: only the raw content.
    pub pure: bool,
    pub model_config_name: String,
    pub model_name: String,
    pub prompt_config_name: String,
    /// Units emitted per second.
    pub type_speed: u32,
    /// Print each fragment at once, without pacing.
    pub disable_stream: bool,
    /// Whether units are characters or words.
    pub unit: Unit,
}

/// Why a session could not start.
#[derive(Clone, Copy, Debug, PartialEq, Eq, Structural)]
pub enum RenderError {
    /// A pacing rate of zero units per second.
    ZeroRate,
}

/// An instruction sent to the renderer.
#[derive(Clone, Debug)]
pub enum RenderMessage {
    Content(String),
    SetStatus(Status),
    Stop,
}

/// The mathematical content of a message.
pub enum MessageView {
    Content(Seq<char>),
    SetStatus(Status),
    Stop,
}

impl View for RenderMessage {
    type V = MessageView;

    open spec fn view(&self) -> MessageView {
        match self {
            RenderMessage::Content(t) => MessageView::Content(t@),
            RenderMessage::SetStatus(s) => MessageView::SetStatus(*s),
            RenderMessage::Stop => MessageView::Stop,
        }
    }
}

/// What the caller must do for the session.
#[derive(Clone, Debug)]
pub enum Action {
    /// Draw the status line, which shows `status`.
    DrawStatus { status: Status, line: String },
    /// End the output with a newline.
    NewLine,
    /// Signal completion: everything has been rendered.
    Complete,
}

/// An action without its text.
pub enum Signal {
    Status(Status),
    NewLine,
    Complete,
}

pub open spec fn signal_of(a: Action) -> Signal {
    match a {
        Action::DrawStatus { status, .. } => Signal::Status(status),
        Action::NewLine => Signal::NewLine,
        Action::Complete => Signal::Complete,
    }
}

pub open spec fn signals_of(v: Seq<Action>) -> Seq<Signal> {
    v.map_values(|a: Action| signal_of(a))
}

/// Every status line among `actions` is the one for its state, the time
/// `elapsed_ms` and the labels of `config`.
pub open spec fn lines_match(actions: Seq<Action>, elapsed_ms: nat, config: RenderConfig) -> bool {
    forall|i: int|
        0 <= i < actions.len() ==> (#[trigger] actions[i] matches Action::DrawStatus { status, line }
            ==> line@ == status_line_of(
            status,
            elapsed_ms,
            config.model_config_name@,
            config.model_name@,
            config.prompt_config_name@,
        ))
}

/// The abstract state of a session.
pub struct SessionView {
    pub status: Status,
    pub pure: bool,
    /// The ingestion side is closed: no message is taken any more.
    pub closed: bool,
    /// Completion has been signalled.
    pub completed: bool,
    /// Fragments received and not yet handed to pacing.
    pub queue: Seq<Seq<char>>,
    /// Every fragment received, in arrival order.
    pub received: Seq<Seq<char>>,
    /// Every fragment handed to pacing, in order.
    pub emitted: Seq<Seq<char>>,
}

/// A session just started.
pub open spec fn fresh(pure: bool) -> SessionView {
    SessionView {
        status: Status::Responding,
        pure,
        closed: false,
        completed: false,
        queue: seq![],
        received: seq![],
        emitted: seq![],
    }
}

/// What a session does first: draw the status line, unless pure.
pub open spec fn opening(pure: bool) -> Seq<Signal> {
    if pure {
        seq![]
    } else {
        seq![Signal::Status(Status::Responding)]
    }
}

/// Taking one message. Once closed, a session ignores every message.
pub open spec fn message_step(v: SessionView, m: MessageView) -> (SessionView, Seq<Signal>) {
    if v.closed {
        (v, seq![])
    } else {
        match m {
            MessageView::Content(t) => (
                SessionView { queue: v.queue.push(t), received: v.received.push(t), ..v },
                seq![],
            ),
            MessageView::SetStatus(s) => {
                let n = next_status(v.status, s);
                (
                    SessionView { status: n, ..v },
                    if n != v.status && !v.pure {
                        seq![Signal::Status(n)]
                    } else {
                        seq![]
                    },
                )
            },
            MessageView::Stop => (SessionView { closed: true, ..v }, seq![]),
        }
    }
}

/// The ingestion side closing.
pub open spec fn close_step(v: SessionView) -> SessionView {
    SessionView { closed: true, ..v }
}

/// Handing the front fragment, if any, to pacing.
pub open spec fn drain_step(v: SessionView) -> SessionView {
    if v.queue.len() == 0 {
        v
    } else {
        SessionView { queue: v.queue.drop_first(), emitted: v.emitted.push(v.queue[0]), ..v }
    }
}

/// A timer tick, where `due` says whether the refresh interval has passed.
pub open spec fn tick_signals(v: SessionView, due: bool) -> Seq<Signal> {
    if due && !v.pure && !v.completed {
        seq![Signal::Status(v.status)]
    } else {
        seq![]
    }
}

/// Whether the session can finish now: closed, drained, not yet completed.
pub open spec fn can_finish(v: SessionView) -> bool {
    v.closed && v.queue.len() == 0 && !v.completed
}

/// Finishing: a response that ends while still responding has ended well; the
/// final status line is drawn (unless pure), then a newline, then completion.
pub open spec fn finish_step(v: SessionView) -> (SessionView, Seq<Signal>) {
    if can_finish(v) {
        let s = next_status(v.status, Status::Done);
        (
            SessionView { status: s, completed: true, ..v },
            (if v.pure {
                seq![]
            } else {
                seq![Signal::Status(s)]
            }) + seq![Signal::NewLine, Signal::Complete],
        )
    } else {
        (v, seq![])
    }
}

/// Anything that can happen to a session.
pub enum Event {
    Message(MessageView),
    Close,
    Drain,
    Tick(bool),
    Finish,
}

pub open spec fn event_step(v: SessionView, e: Event) -> (SessionView, Seq<Signal>) {
    match e {
        Event::Message(m) => message_step(v, m),
        Event::Close => (close_step(v), seq![]),
        Event::Drain => (drain_step(v), seq![]),
        Event::Tick(due) => (v, tick_signals(v, due)),
        Event::Finish => finish_step(v),
    }
}

/// The state reached and the signals given over a sequence of events.
pub open spec fn run(v: SessionView, evs: Seq<Event>) -> (SessionView, Seq<Signal>)
    decreases evs.len(),
{
    if evs.len() == 0 {
        (v, seq![])
    } else {
        let (v1, s1) = event_step(v, evs[0]);
        let (v2, s2) = run(v1, evs.drop_first());
        (v2, s1 + s2)
    }
}

/// How many completion signals a sequence holds.
pub open spec fn completions(s: Seq<Signal>) -> nat
    decreases s.len(),
{
    if s.len() == 0 {
        0
    } else {
        completions(s.drop_last()) + if s.last() is Complete {
            1nat
        } else {
            0nat
        }
    }
}

/// What the alternate `Debug` form of `std::time::Duration` writes for a
/// duration of `nanos` nanoseconds.
pub uninterp spec fn duration_debug_of(nanos: nat) -> Seq<char>;

/// Relies on `Debug` for `std::time::Duration` (`{:#?}` of
/// `Duration::from_nanos`): the text depends on the duration alone.
#[verifier::external_body]
fn duration_text(nanos: u64) -> (r: String)
    ensures
        r@ == duration_debug_of(nanos as nat),
{
    format!("{:#?}", std::time::Duration::from_nanos(nanos))
}

/// The tail line around a duration's text: a newline, a check mark, the
/// text, a newline.
pub fn tail_line(duration: &str) -> (r: String)
    ensures
        r@ == "\n\u{2705}"@ + duration@ + "\n"@,
{
    let s = "\n\u{2705}".to_owned();
    let s = s.concat(duration);
    s.concat("\n")
}

/// Makes the renderer's sessions.
pub struct ResponseRenderer {}

/// One response being rendered.
pub struct RenderSession {
    config: RenderConfig,
    status: Status,
    queue: ContentQueue,
    pacer: Pacer,
    interval_nanos: u64,
    closed: bool,
    completed: bool,
    last_draw_ms: u64,
    received: Ghost<Seq<Seq<char>>>,
    emitted: Ghost<Seq<Seq<char>>>,
}

impl View for RenderSession {
    type V = SessionView;

    closed spec fn view(&self) -> SessionView {
        SessionView {
            status: self.status,
            pure: self.config.pure,
            closed: self.closed,
            completed: self.completed,
            queue: self.queue@,
            received: self.received@,
            emitted: self.emitted@,
        }
    }
}

impl ResponseRenderer {
    /// A renderer; the clock that sessions report against is the caller's.
    pub fn new() -> (r: ResponseRenderer) {
        ResponseRenderer {  }
    }

    /// The text printed after a response has been rendered: a newline, a
    /// check mark and the elapsed time in `Duration`'s debug form (`1.5s`,
    /// `850ms`), then a newline. Nothing in pure mode.
    pub fn render_tail_bar(&self, elapsed_nanos: u64, pure: bool) -> (r: Option<String>)
        ensures
            r is None <==> pure,
            r matches Some(t) ==> t@ == "\n\u{2705}"@ + duration_debug_of(elapsed_nanos as nat) + "\n"@,
    {
        if pure {
            return None;
        }
        Some(tail_line(duration_text(elapsed_nanos).as_str()))
    }

    /// Starts a session: refuses a rate of zero, and otherwise begins in
    /// `Responding` with the status line drawn first (unless pure).
    pub fn start_render(&self, config: RenderConfig) -> (r: Result<
        (RenderSession, Vec<Action>),
        RenderError,
    >)
        ensures
            r is Err <==> config.type_speed == 0,
            r matches Err(e) ==> e == RenderError::ZeroRate,
            r matches Ok((s, acts)) ==> {
                &&& s.wf()
                &&& s@ == fresh(config.pure)
                &&& s.config() == config
                &&& !s.pause_pending()
                &&& s.last_drawn_ms() == 0
                &&& signals_of(acts@) == opening(config.pure)
                &&& lines_match(acts@, 0, config)
            },
    {
        if config.type_speed == 0 {
            return Err(RenderError::ZeroRate);
        }
        let interval_nanos = 1_000_000_000u64 / (config.type_speed as u64);
        let pacer = Pacer::new(config.unit, config.disable_stream);
        let mut acts: Vec<Action> = Vec::new();
        if !config.pure {
            let line = status_line(
                Status::Responding,
                0,
                config.model_config_name.as_str(),
                config.model_name.as_str(),
                config.prompt_config_name.as_str(),
            );
            acts.push(Action::DrawStatus { status: Status::Responding, line });
        }
        let ghost nothing: Seq<Seq<char>> = seq![];
        let s = RenderSession {
            config,
            status: Status::Responding,
            queue: ContentQueue::new(),
            pacer,
            interval_nanos,
            closed: false,
            completed: false,
            last_draw_ms: 0,
            received: Ghost(nothing),
            emitted: Ghost(nothing),
        };
        proof {
            assert(s@ =~= fresh(s.config.pure));
            assert(signals_of(acts@) =~= opening(s.config.pure));
        }
        Ok((s, acts))
    }
}

impl RenderSession {
    /// The session's own consistency: every fragment received has been handed
    /// to pacing or waits in the queue, in order; completion comes only after
    /// closure and drain; pacing follows the configuration.
    pub closed spec fn wf(&self) -> bool {
        &&& self.received@ == self.emitted@ + self.queue@
        &&& self.completed ==> self.closed && self.queue@.len() == 0
        &&& self.pacer.unit == self.config.unit
        &&& self.pacer.bypass == self.config.disable_stream
        &&& self.config.type_speed > 0
        &&& self.interval_nanos == 1_000_000_000int / (self.config.type_speed as int)
    }

    pub closed spec fn config(&self) -> RenderConfig {
        self.config
    }

    /// Whether the next unit planned waits one interval first: the last unit
    /// planned was a complete one.
    pub closed spec fn pause_pending(&self) -> bool {
        self.pacer.pause_pending
    }

    /// When the status line was last drawn, in milliseconds since the start.
    pub closed spec fn last_drawn_ms(&self) -> nat {
        self.last_draw_ms as nat
    }

    /// The configuration the session renders with.
    pub fn render_config(&self) -> (r: &RenderConfig)
        ensures
            *r == self.config(),
    {
        &self.config
    }

    /// The pause between two units, in nanoseconds: one second over the rate.
    pub fn interval_nanos(&self) -> (r: u64)
        requires
            self.wf(),
        ensures
            r == 1_000_000_000int / (self.config().type_speed as int),
    {
        self.interval_nanos
    }

    pub fn status(&self) -> (r: Status)
        ensures
            r == self@.status,
    {
        self.status
    }

    pub fn is_closed(&self) -> (r: bool)
        ensures
            r == self@.closed,
    {
        self.closed
    }

    pub fn is_completed(&self) -> (r: bool)
        ensures
            r == self@.completed,
    {
        self.completed
    }

    /// Takes one message: content is queued, a status request moves the state
    /// machine and redraws the line on a change, `Stop` closes. A closed
    /// session ignores every message.
    pub fn on_message(&mut self, msg: RenderMessage, elapsed_ms: u64) -> (r: Vec<Action>)
        requires
            old(self).wf(),
        ensures
            final(self).wf(),
            final(self)@ == message_step(old(self)@, msg@).0,
            signals_of(r@) == message_step(old(self)@, msg@).1,
            lines_match(r@, elapsed_ms as nat, old(self).config()),
            final(self).config() == old(self).config(),
            final(self).pause_pending() == old(self).pause_pending(),
            final(self).last_drawn_ms() == if r@.len() > 0 {
                elapsed_ms as nat
            } else {
                old(self).last_drawn_ms()
            },
    {
        let mut acts: Vec<Action> = Vec::new();
        if self.closed {
            assert(signals_of(acts@) =~= seq![]);
            return acts;
        }
        match msg {
            RenderMessage::Content(t) => {
                let ghost tv = t@;
                self.queue.enqueue(t);
                proof {
                    self.received@ = self.received@.push(tv);
                    assert(self.received@ =~= self.emitted@ + self.queue@);
                }
            },
            RenderMessage::SetStatus(s) => {
                let n = transition(self.status, s);
                if n != self.status && !self.config.pure {
                    let line = status_line(
                        n,
                        elapsed_ms,
                        self.config.model_config_name.as_str(),
                        self.config.model_name.as_str(),
                        self.config.prompt_config_name.as_str(),
                    );
                    acts.push(Action::DrawStatus { status: n, line });
                    self.last_draw_ms = elapsed_ms;
                }
                self.status = n;
            },
            RenderMessage::Stop => {
                self.closed = true;
            },
        }
        proof {
            assert(self@ =~= message_step(old(self)@, msg@).0);
            assert(signals_of(acts@) =~= message_step(old(self)@, msg@).1);
        }
        acts
    }

    /// The ingestion side has closed; closing again changes nothing.
    pub fn on_close(&mut self)
        requires
            old(self).wf(),
        ensures
            final(self).wf(),
            final(self)@ == close_step(old(self)@),
            final(self).config() == old(self).config(),
            final(self).pause_pending() == old(self).pause_pending(),
            final(self).last_drawn_ms() == old(self).last_drawn_ms(),
    {
        self.closed = true;
        assert(self@ =~= close_step(old(self)@));
    }

    /// A timer tick: redraws the status line when the refresh interval has
    /// passed since the last drawing, unless pure or completed.
    pub fn on_tick(&mut self, elapsed_ms: u64) -> (r: Vec<Action>)
        requires
            old(self).wf(),
        ensures
            final(self).wf(),
            final(self)@ == old(self)@,
            signals_of(r@) == tick_signals(old(self)@, r@.len() > 0),
            (r@.len() > 0) == (!old(self)@.pure && !old(self)@.completed && elapsed_ms
                >= old(self).last_drawn_ms() + STATUS_REFRESH_MS),
            lines_match(r@, elapsed_ms as nat, old(self).config()),
            final(self).config() == old(self).config(),
            final(self).pause_pending() == old(self).pause_pending(),
            final(self).last_drawn_ms() == if r@.len() > 0 {
                elapsed_ms as nat
            } else {
                old(self).last_drawn_ms()
            },
    {
        let mut acts: Vec<Action> = Vec::new();
        let due = elapsed_ms >= self.last_draw_ms && elapsed_ms - self.last_draw_ms
            >= STATUS_REFRESH_MS;
        if due && !self.config.pure && !self.completed {
            let line = status_line(
                self.status,
                elapsed_ms,
                self.config.model_config_name.as_str(),
                self.config.model_name.as_str(),
                self.config.prompt_config_name.as_str(),
            );
            acts.push(Action::DrawStatus { status: self.status, line });
            self.last_draw_ms = elapsed_ms;
        }
        proof {
            assert(signals_of(acts@) =~= tick_signals(old(self)@, acts@.len() > 0));
        }
        acts
    }

    /// Hands the front fragment to pacing and returns its planned emissions:
    /// its units in order, each preceded by a pause unless it is the first
    /// and no complete unit came before it.
    pub fn next_fragment(&mut self) -> (r: Option<Vec<Emission>>)
        requires
            old(self).wf(),
        ensures
            final(self).wf(),
            final(self)@ == drain_step(old(self)@),
            r is None <==> old(self)@.queue.len() == 0,
            r matches Some(p) ==> {
                let u = planned_units(
                    old(self)@.queue[0],
                    old(self).config().unit,
                    old(self).config().disable_stream,
                );
                &&& p@.len() == u.len()
                &&& forall|i: int|
                    0 <= i < p@.len() ==> (#[trigger] p@[i]).text@ == u[i] && p@[i].pause_before
                        == (!old(self).config().disable_stream && (i > 0 || old(self).pause_pending()))
                &&& final(self).pause_pending() == if p@.len() > 0 {
                    unit_closes(u.last(), old(self).config().unit)
                } else {
                    old(self).pause_pending()
                }
            },
            r is None ==> final(self).pause_pending() == old(self).pause_pending(),
            final(self).config() == old(self).config(),
            final(self).last_drawn_ms() == old(self).last_drawn_ms(),
    {
        match self.queue.dequeue() {
            None => {
                assert(self@ =~= drain_step(old(self)@));
                None
            },
            Some(fragment) => {
                proof {
                    self.emitted@ = self.emitted@.push(fragment@);
                    assert(old(self).queue@ =~= seq![fragment@] + self.queue@);
                    assert(self.received@ =~= self.emitted@ + self.queue@);
                    assert(self@ =~= drain_step(old(self)@));
                }
                let plan = self.pacer.plan(fragment.as_str());
                Some(plan)
            },
        }
    }

    /// Finishes the session once it is closed and drained: a response still
    /// responding is done; the final status line is drawn (unless pure), then
    /// a newline, then completion is signalled. Completion comes once: at any
    /// other time nothing happens.
    pub fn finish(&mut self, elapsed_ms: u64) -> (r: Vec<Action>)
        requires
            old(self).wf(),
        ensures
            final(self).wf(),
            final(self)@ == finish_step(old(self)@).0,
            signals_of(r@) == finish_step(old(self)@).1,
            lines_match(r@, elapsed_ms as nat, old(self).config()),
            final(self).config() == old(self).config(),
            final(self).pause_pending() == old(self).pause_pending(),
            final(self).last_drawn_ms() == if r@.len() > 0 && !old(self)@.pure {
                elapsed_ms as nat
            } else {
                old(self).last_drawn_ms()
            },
    {
        let mut acts: Vec<Action> = Vec::new();
        if !(self.closed && self.queue.is_empty() && !self.completed) {
            assert(signals_of(acts@) =~= seq![]);
            return acts;
        }
        let s = transition(self.status, Status::Done);
        if !self.config.pure {
            let line = status_line(
                s,
                elapsed_ms,
                self.config.model_config_name.as_str(),
                self.config.model_name.as_str(),
                self.config.prompt_config_name.as_str(),
            );
            acts.push(Action::DrawStatus { status: s, line });
            self.last_draw_ms = elapsed_ms;
        }
        acts.push(Action::NewLine);
        acts.push(Action::Complete);
        self.status = s;
        self.completed = true;
        proof {
            assert(self@ =~= finish_step(old(self)@).0);
            assert(signals_of(acts@) =~= finish_step(old(self)@).1);
        }
        acts
    }
}

/// No signal in `s` draws the status line.
pub open spec fn no_status_draw(s: Seq<Signal>) -> bool {
    forall|i: int| 0 <= i < s.len() ==> !(#[trigger] s[i] is Status)
}

/// Every status line drawn in `s` shows `st`.
pub open spec fn draws_only(s: Seq<Signal>, st: Status) -> bool {
    forall|i: int| 0 <= i < s.len() ==> (#[trigger] s[i] matches Signal::Status(x) ==> x == st)
}

/// A pure session never draws a status line, whatever happens to it.
pub proof fn lemma_pure_never_draws(v: SessionView, evs: Seq<Event>)
    requires
        v.pure,
    ensures
        run(v, evs).0.pure,
        no_status_draw(run(v, evs).1),
    decreases evs.len(),
{
    if evs.len() > 0 {
        let (v1, s1) = event_step(v, evs[0]);
        lemma_pure_never_draws(v1, evs.drop_first());
        let s2 = run(v1, evs.drop_first()).1;
        assert forall|i: int| 0 <= i < (s1 + s2).len() implies !(#[trigger] (s1 + s2)[i] is Status) by {
            if i >= s1.len() {
                assert((s1 + s2)[i] == s2[i - s1.len()]);
            }
        }
    }
}

/// Once `Done` or `Error` is reached, the state never changes again, and every
/// status line drawn shows it.
pub proof fn lemma_terminal_is_final(v: SessionView, evs: Seq<Event>)
    requires
        v.status.is_terminal(),
    ensures
        run(v, evs).0.status == v.status,
        draws_only(run(v, evs).1, v.status),
    decreases evs.len(),
{
    if evs.len() > 0 {
        let (v1, s1) = event_step(v, evs[0]);
        lemma_terminal_is_final(v1, evs.drop_first());
        let s2 = run(v1, evs.drop_first()).1;
        assert forall|i: int| 0 <= i < (s1 + s2).len() implies (#[trigger] (s1 + s2)[i] matches Signal::Status(x) ==> x == v.status) by {
            if i >= s1.len() {
                assert((s1 + s2)[i] == s2[i - s1.len()]);
            }
        }
    }
}

proof fn lemma_completions_add(s1: Seq<Signal>, s2: Seq<Signal>)
    ensures
        completions(s1 + s2) == completions(s1) + completions(s2),
    decreases s2.len(),
{
    if s2.len() == 0 {
        assert(s1 + s2 =~= s1);
    } else {
        lemma_completions_add(s1, s2.drop_last());
        assert((s1 + s2).drop_last() =~= s1 + s2.drop_last());
    }
}

proof fn lemma_step_completions(v: SessionView, e: Event)
    ensures
        v.completed ==> event_step(v, e).0.completed,
        completions(event_step(v, e).1) == if event_step(v, e).0.completed && !v.completed {
            1nat
        } else {
            0nat
        },
{
    let s1 = event_step(v, e).1;
    let nl = seq![Signal::NewLine];
    assert(nl.drop_last() =~= Seq::<Signal>::empty());
    assert(nl.last() == Signal::NewLine);
    assert(completions(Seq::<Signal>::empty()) == 0);
    assert(completions(nl) == 0);
    match e {
        Event::Finish => {
            if can_finish(v) {
                let head: Seq<Signal> = if v.pure {
                    seq![]
                } else {
                    seq![Signal::Status(next_status(v.status, Status::Done))]
                };
                let tail = seq![Signal::NewLine, Signal::Complete];
                assert(tail.drop_last() =~= nl);
                assert(completions(tail) == 1);
                if !v.pure {
                    assert(head.drop_last() =~= Seq::<Signal>::empty());
                }
                assert(completions(head) == 0);
                lemma_completions_add(head, tail);
            } else {
                assert(completions(s1) == 0);
            }
        },
        Event::Message(m) => {
            if s1.len() > 0 {
                assert(s1.drop_last() =~= Seq::<Signal>::empty());
            }
        },
        Event::Tick(due) => {
            if s1.len() > 0 {
                assert(s1.drop_last() =~= Seq::<Signal>::empty());
            }
        },
        _ => {},
    }
}

/// Completion is signalled exactly when the session becomes completed, and a
/// completed session stays so: over any run, completion comes at most once.
pub proof fn lemma_completes_once(v: SessionView, evs: Seq<Event>)
    ensures
        v.completed ==> run(v, evs).0.completed,
        completions(run(v, evs).1) == if run(v, evs).0.completed && !v.completed {
            1nat
        } else {
            0nat
        },
    decreases evs.len(),
{
    if evs.len() > 0 {
        let (v1, s1) = event_step(v, evs[0]);
        lemma_step_completions(v, evs[0]);
        lemma_completes_once(v1, evs.drop_first());
        let s2 = run(v1, evs.drop_first()).1;
        lemma_completions_add(s1, s2);
    }
}

/// `n` drain events.
pub open spec fn drains(n: nat) -> Seq<Event> {
    Seq::new(n, |i: int| Event::Drain)
}

/// A closed session that has not completed, drained of its queue and then
/// finished, completes with exactly one completion signal; with nothing ever
/// received, that is an empty render.
pub proof fn lemma_close_drain_finish(v: SessionView)
    requires
        v.closed,
        !v.completed,
    ensures
        run(v, drains(v.queue.len()).push(Event::Finish)).0.completed,
        completions(run(v, drains(v.queue.len()).push(Event::Finish)).1) == 1,
        run(v, drains(v.queue.len()).push(Event::Finish)).0.queue.len() == 0,
    decreases v.queue.len(),
{
    let evs = drains(v.queue.len()).push(Event::Finish);
    lemma_completes_once(v, evs);
    if v.queue.len() == 0 {
        assert(evs[0] == Event::Finish);
        assert(evs.drop_first() =~= Seq::<Event>::empty());
        assert(run(finish_step(v).0, Seq::<Event>::empty()).0 == finish_step(v).0);
        assert(run(v, evs).0 == finish_step(v).0);
    } else {
        let v1 = drain_step(v);
        assert(evs[0] == Event::Drain);
        assert(evs.drop_first() =~= drains(v1.queue.len()).push(Event::Finish));
        lemma_close_drain_finish(v1);
        assert(run(v, evs).0 == run(v1, evs.drop_first()).0);
    }
}

/// A response with no content at all, closed at once, completes exactly once.
pub proof fn lemma_empty_response_completes(pure: bool)
    ensures
        run(fresh(pure), seq![Event::Close, Event::Finish]).0.completed,
        completions(run(fresh(pure), seq![Event::Close, Event::Finish]).1) == 1,
{
    let v = close_step(fresh(pure));
    lemma_close_drain_finish(v);
    assert(drains(0).push(Event::Finish) =~= seq![Event::Finish]);
    assert(seq![Event::Close, Event::Finish].drop_first() =~= seq![Event::Finish]);
    assert(run(fresh(pure), seq![Event::Close, Event::Finish]).0 == run(v, seq![Event::Finish]).0);
    assert(run(fresh(pure), seq![Event::Close, Event::Finish]).1 =~= run(v, seq![Event::Finish]).1);
}

/// Closing a closed session changes nothing, and neither does any message
/// sent after closure (a late `Stop` included): no second completion, no
/// failure.
pub proof fn lemma_shutdown_idempotent(v: SessionView, m: MessageView)
    requires
        v.closed,
    ensures
        close_step(v) == v,
        close_step(close_step(v)) == close_step(v),
        message_step(v, m) == (v, Seq::<Signal>::empty()),
{
}

/// The payloads of the content messages among `evs`, in order.
pub open spec fn contents(evs: Seq<Event>) -> Seq<Seq<char>>
    decreases evs.len(),
{
    if evs.len() == 0 {
        seq![]
    } else {
        (if let Event::Message(MessageView::Content(t)) = evs[0] {
            seq![t]
        } else {
            seq![]
        }) + contents(evs.drop_first())
    }
}

/// Whether an event closes the ingestion side.
pub open spec fn closes(e: Event) -> bool {
    e is Close || e matches Event::Message(MessageView::Stop)
}

/// Whether an event carries content.
pub open spec fn carries_content(e: Event) -> bool {
    e matches Event::Message(MessageView::Content(_))
}

/// Every content message comes before the ingestion side closes.
pub open spec fn sent_before_close(evs: Seq<Event>) -> bool {
    forall|i: int, j: int|
        0 <= i < j < evs.len() && closes(#[trigger] evs[i]) ==> !carries_content(#[trigger] evs[j])
}

/// The bookkeeping of fragments: all received ones are emitted or queued, and a
/// completed session has emptied its queue.
pub open spec fn accounted(v: SessionView) -> bool {
    &&& v.received == v.emitted + v.queue
    &&& v.completed ==> v.closed && v.queue.len() == 0
}

proof fn lemma_accounted_step(v: SessionView, e: Event)
    requires
        accounted(v),
    ensures
        accounted(event_step(v, e).0),
        v.closed ==> event_step(v, e).0.closed && event_step(v, e).0.received == v.received,
        !closes(e) && !v.closed ==> !event_step(v, e).0.closed,
{
    if v.queue.len() > 0 {
        assert(v.emitted.push(v.queue[0]) + v.queue.drop_first() =~= v.emitted + v.queue);
    }
    if let Event::Message(MessageView::Content(t)) = e {
        assert(v.emitted + v.queue.push(t) =~= (v.emitted + v.queue).push(t));
    }
}

proof fn lemma_accounted_kept(v: SessionView, evs: Seq<Event>)
    requires
        accounted(v),
    ensures
        accounted(run(v, evs).0),
        v.closed ==> run(v, evs).0.received == v.received,
    decreases evs.len(),
{
    if evs.len() > 0 {
        let v1 = event_step(v, evs[0]).0;
        lemma_accounted_step(v, evs[0]);
        lemma_accounted_kept(v1, evs.drop_first());
    }
}

proof fn lemma_no_contents(evs: Seq<Event>)
    requires
        forall|j: int| 0 <= j < evs.len() ==> !carries_content(#[trigger] evs[j]),
    ensures
        contents(evs) == Seq::<Seq<char>>::empty(),
    decreases evs.len(),
{
    if evs.len() > 0 {
        assert(!carries_content(evs[0]));
        lemma_no_contents(evs.drop_first());
        assert(contents(evs) =~= Seq::<Seq<char>>::empty());
    }
}

proof fn lemma_received_is_contents(v: SessionView, evs: Seq<Event>)
    requires
        accounted(v),
        !v.closed,
        sent_before_close(evs),
    ensures
        run(v, evs).0.received == v.received + contents(evs),
    decreases evs.len(),
{
    if evs.len() == 0 {
        assert(v.received + contents(evs) =~= v.received);
    } else {
        let v1 = event_step(v, evs[0]).0;
        let rest = evs.drop_first();
        lemma_accounted_step(v, evs[0]);
        if closes(evs[0]) {
            assert forall|j: int| 0 <= j < rest.len() implies !carries_content(#[trigger] rest[j]) by {
                assert(rest[j] == evs[j + 1]);
            }
            lemma_no_contents(rest);
            lemma_accounted_kept(v1, rest);
            assert(contents(evs) =~= Seq::<Seq<char>>::empty() + contents(rest));
            assert(v.received + contents(evs) =~= v.received);
        } else {
            assert(sent_before_close(rest)) by {
                assert forall|i: int, j: int|
                    0 <= i < j < rest.len() && closes(#[trigger] rest[i]) implies !carries_content(#[trigger] rest[j]) by {
                    assert(rest[i] == evs[i + 1] && rest[j] == evs[j + 1]);
                }
            }
            lemma_received_is_contents(v1, rest);
            if let Event::Message(MessageView::Content(t)) = evs[0] {
                assert(v.received + contents(evs) =~= v.received.push(t) + contents(rest));
            } else {
                assert(v.received + contents(evs) =~= v.received + contents(rest));
            }
        }
    }
}

/// No content is lost, duplicated or reordered: over any run of a fresh session
/// in which every fragment is sent before closure, the fragments received are
/// exactly those sent, every one is emitted or still queued, in order, and once
/// completion is signalled the fragments handed to pacing are exactly those
/// sent. Each fragment's planned units join back into the fragment, so the
/// emitted text is the concatenation of the fragments sent.
pub proof fn lemma_content_preserved(pure: bool, unit: Unit, bypass: bool, evs: Seq<Event>)
    requires
        sent_before_close(evs),
    ensures
        run(fresh(pure), evs).0.received == contents(evs),
        run(fresh(pure), evs).0.emitted + run(fresh(pure), evs).0.queue == contents(evs),
        run(fresh(pure), evs).0.completed ==> run(fresh(pure), evs).0.emitted == contents(evs),
        run(fresh(pure), evs).0.emitted.map_values(
            |f: Seq<char>| planned_units(f, unit, bypass).flatten(),
        ).flatten() + run(fresh(pure), evs).0.queue.flatten() == contents(evs).flatten(),
{
    let v = fresh(pure);
    assert(accounted(v)) by {
        assert(v.emitted + v.queue =~= v.received);
    }
    lemma_received_is_contents(v, evs);
    lemma_accounted_kept(v, evs);
    assert(v.received + contents(evs) =~= contents(evs));
    let w = run(v, evs).0;
    let joined = w.emitted.map_values(|f: Seq<char>| planned_units(f, unit, bypass).flatten());
    assert forall|i: int| 0 <= i < w.emitted.len() implies #[trigger] joined[i] == w.emitted[i] by {
        lemma_units_join(w.emitted[i], unit, bypass);
    }
    assert(joined =~= w.emitted);
    lemma_flatten_concat(w.emitted, w.queue);
    if w.completed {
        assert(w.emitted + w.queue =~= w.emitted);
    }
}

} // verus!
