//! One invocation against the microphone, as a state machine.
//!
//! Every invocation opens the device, authenticates, boots the DSP, reads the
//! lock state and unlocks a locked device; then it runs its command; then it
//! re-locks a device that it found locked, unless the command itself changed
//! the lock. The machine decides; its driver performs each [`Action`] (open
//! the device, send a command line, read a message) and hands back the
//! [`Event`] that came of it, with the current time.
use vstd::prelude::*;
use crate::command::{
    lines_view, lock_line, lock_text, mute_line, mute_text, version_line, version_text, Command,
    DeviceState,
};
use crate::merge::{merge_value_results, merged};
use crate::protocol::{
    command_text, error_of, failed, flag_of, reply_outcome, reply_window, restore_result,
    timeout_error, Outcome, OutcomeView, Request, READ_TIMEOUT_MS,
};

verus! {

/// What an invocation does once the device is ready.
#[derive(Clone, Copy, Debug, PartialEq, Eq, Structural)]
pub enum Operation {
    /// A command of the command-line tool.
    Run(Command),
    /// Read the mute and lock state (tray refresh).
    QueryState,
    /// Flip the mute state (tray toggle).
    ToggleMute,
    /// Flip the lock state and leave it so (tray lock toggle).
    ToggleLock,
}

/// What a finished invocation reports.
#[derive(Clone, Debug, PartialEq, Eq)]
pub enum Report {
    /// Lines for the command-line tool to print.
    Lines(Vec<String>),
    /// The device state, for the tray.
    State(DeviceState),
}

/// The mathematical value of a [`Report`].
pub enum ReportView {
    Lines(Seq<Seq<char>>),
    State(DeviceState),
}

impl View for Report {
    type V = ReportView;

    open spec fn view(&self) -> ReportView {
        match self {
            Report::Lines(v) => ReportView::Lines(lines_view(v@)),
            Report::State(s) => ReportView::State(*s),
        }
    }
}

/// A finished invocation's result, with views.
pub open spec fn result_view(r: Result<Report, String>) -> Result<ReportView, Seq<char>> {
    match r {
        Ok(rep) => Ok(rep@),
        Err(e) => Err(e@),
    }
}

/// The views of a history of outcomes.
pub open spec fn history_view(h: Seq<Outcome>) -> Seq<OutcomeView> {
    h.map_values(|o: Outcome| o@)
}

/// What the protocol does next, given the outcomes of the exchanges so far.
pub enum Plan {
    /// Make this request.
    Issue(Request),
    /// The invocation is over, with this result.
    Finish(Result<ReportView, Seq<char>>),
}

/// Where the opening handshake stands: a plan while it runs or has failed,
/// `None` once it has succeeded.
///
/// The handshake opens the device, authenticates, boots the DSP and reads
/// the lock state; a locked device is then unlocked. The first failure ends
/// the invocation with its message, and nothing is re-locked.
pub open spec fn handshake_plan(h: Seq<OutcomeView>) -> Option<Plan> {
    if h.len() == 0 {
        Some(Plan::Issue(Request::Open))
    } else if failed(h[0]) {
        Some(Plan::Finish(Err(error_of(h[0]))))
    } else if h.len() == 1 {
        Some(Plan::Issue(Request::Authenticate))
    } else if failed(h[1]) {
        Some(Plan::Finish(Err(error_of(h[1]))))
    } else if h.len() == 2 {
        Some(Plan::Issue(Request::BootDsp))
    } else if failed(h[2]) {
        Some(Plan::Finish(Err(error_of(h[2]))))
    } else if h.len() == 3 {
        Some(Plan::Issue(Request::QueryLock))
    } else if failed(h[3]) {
        Some(Plan::Finish(Err(error_of(h[3]))))
    } else if flag_of(h[3]) {
        if h.len() == 4 {
            Some(Plan::Issue(Request::SetLock(false)))
        } else if failed(h[4]) {
            Some(Plan::Finish(Err(error_of(h[4]))))
        } else {
            None
        }
    } else {
        None
    }
}

/// Whether the handshake found the device locked (it reads the lock state in
/// its fourth exchange).
pub open spec fn found_locked(h: Seq<OutcomeView>) -> bool {
    flag_of(h[3])
}

/// Number of exchanges of a successful handshake.
pub open spec fn handshake_len(h: Seq<OutcomeView>) -> int {
    if found_locked(h) {
        5
    } else {
        4
    }
}

/// The first request of an operation's own work.
pub open spec fn first_request(op: Operation) -> Request {
    match op {
        Operation::Run(Command::On) => Request::SetMute(true),
        Operation::Run(Command::Off) => Request::SetMute(false),
        Operation::Run(Command::Lock) => Request::SetLock(true),
        Operation::Run(Command::Unlock) => Request::SetLock(false),
        _ => Request::QueryMute,
    }
}

/// The second request of an operation's own work, if it has one, given the
/// lock state found by the handshake and the answer to the first request.
pub open spec fn second_request(op: Operation, was_locked: bool, first: bool) -> Option<Request> {
    match op {
        Operation::Run(Command::Toggle) => Some(Request::SetMute(!first)),
        Operation::ToggleMute => Some(Request::SetMute(!first)),
        Operation::ToggleLock => if was_locked {
            None
        } else {
            Some(Request::SetLock(true))
        },
        _ => None,
    }
}

/// What a successful operation reports, given the lock state found by the
/// handshake and the answer to its first request (the mute state, for the
/// operations that query it).
pub open spec fn report(op: Operation, was_locked: bool, first: bool) -> ReportView {
    match op {
        Operation::Run(Command::Toggle) => ReportView::Lines(seq![mute_line(!first)]),
        Operation::Run(Command::On) => ReportView::Lines(seq![mute_line(true)]),
        Operation::Run(Command::Off) => ReportView::Lines(seq![mute_line(false)]),
        Operation::Run(Command::Status) => ReportView::Lines(
            seq![mute_line(first), lock_line(was_locked)],
        ),
        Operation::Run(Command::Lock) => ReportView::Lines(seq![lock_line(true)]),
        Operation::Run(Command::Unlock) => ReportView::Lines(seq![lock_line(false)]),
        Operation::Run(Command::Version) => ReportView::Lines(seq![version_line()]),
        Operation::QueryState => ReportView::State(DeviceState { muted: first, locked: was_locked }),
        Operation::ToggleMute => ReportView::State(DeviceState { muted: !first, locked: was_locked }),
        Operation::ToggleLock => ReportView::State(DeviceState { muted: first, locked: !was_locked }),
    }
}

/// Operations that leave the lock as they set it once they succeed, so that
/// the device is not re-locked after them.
pub open spec fn sets_lock(op: Operation) -> bool {
    match op {
        Operation::Run(Command::Lock) | Operation::Run(Command::Unlock) | Operation::ToggleLock => true,
        _ => false,
    }
}

/// Where an operation's own work stands.
pub enum BodyPlan {
    /// Make this request.
    Issue(Request),
    /// The work is over with this result; the flag says whether the lock is
    /// to be left as the work set it; the number counts its exchanges.
    Complete(Result<ReportView, Seq<char>>, bool, int),
}

/// Where an operation's own work stands, given its outcomes so far. The first
/// failure ends it with that failure's message.
pub open spec fn body_plan(op: Operation, was_locked: bool, b: Seq<OutcomeView>) -> BodyPlan {
    if b.len() == 0 {
        BodyPlan::Issue(first_request(op))
    } else if failed(b[0]) {
        BodyPlan::Complete(Err(error_of(b[0])), false, 1)
    } else {
        match second_request(op, was_locked, flag_of(b[0])) {
            None => BodyPlan::Complete(
                Ok(report(op, was_locked, flag_of(b[0]))),
                sets_lock(op),
                1,
            ),
            Some(r) => if b.len() == 1 {
                BodyPlan::Issue(r)
            } else if failed(b[1]) {
                BodyPlan::Complete(Err(error_of(b[1])), false, 2)
            } else {
                BodyPlan::Complete(Ok(report(op, was_locked, flag_of(b[0]))), sets_lock(op), 2)
            },
        }
    }
}

/// The protocol: what an invocation does next after the exchanges whose
/// outcomes are `h`.
pub open spec fn plan(op: Operation, h: Seq<OutcomeView>) -> Plan {
    if op == Operation::Run(Command::Version) {
        Plan::Finish(Ok(ReportView::Lines(seq![version_line()])))
    } else {
        match handshake_plan(h) {
            Some(p) => p,
            None => {
                let was_locked = found_locked(h);
                let b = h.subrange(handshake_len(h), h.len() as int);
                match body_plan(op, was_locked, b) {
                    BodyPlan::Issue(r) => Plan::Issue(r),
                    BodyPlan::Complete(res, keep, used) => if was_locked && !keep {
                        if b.len() == used {
                            Plan::Issue(Request::SetLock(true))
                        } else {
                            Plan::Finish(merged(res, restore_result(b[used])))
                        }
                    } else {
                        Plan::Finish(res)
                    },
                }
            },
        }
    }
}

/// Exec form of a [`Plan`].
enum NextStep {
    Issue(Request),
    Finish(Result<Report, String>),
}

impl View for NextStep {
    type V = Plan;

    closed spec fn view(&self) -> Plan {
        match self {
            NextStep::Issue(r) => Plan::Issue(*r),
            NextStep::Finish(res) => Plan::Finish(result_view(*res)),
        }
    }
}

/// Builds a list of one line.
fn one_line(l: String) -> (v: Vec<String>)
    ensures
        lines_view(v@) == seq![l@],
{
    let mut v: Vec<String> = Vec::new();
    v.push(l);
    assert(lines_view(v@) =~= seq![l@]);
    v
}

/// Builds what a successful operation reports.
fn build_report(op: Operation, was_locked: bool, first: bool) -> (r: Report)
    ensures
        r@ == report(op, was_locked, first),
{
    match op {
        Operation::Run(Command::Toggle) => Report::Lines(one_line(mute_text(!first))),
        Operation::Run(Command::On) => Report::Lines(one_line(mute_text(true))),
        Operation::Run(Command::Off) => Report::Lines(one_line(mute_text(false))),
        Operation::Run(Command::Status) => {
            let mut v: Vec<String> = Vec::new();
            let a = mute_text(first);
            let b = lock_text(was_locked);
            v.push(a);
            v.push(b);
            assert(lines_view(v@) =~= seq![mute_line(first), lock_line(was_locked)]);
            Report::Lines(v)
        },
        Operation::Run(Command::Lock) => Report::Lines(one_line(lock_text(true))),
        Operation::Run(Command::Unlock) => Report::Lines(one_line(lock_text(false))),
        Operation::Run(Command::Version) => Report::Lines(one_line(version_text())),
        Operation::QueryState => Report::State(DeviceState { muted: first, locked: was_locked }),
        Operation::ToggleMute => Report::State(DeviceState { muted: !first, locked: was_locked }),
        Operation::ToggleLock => Report::State(DeviceState { muted: first, locked: !was_locked }),
    }
}

/// Exec form of [`first_request`].
fn first_request_of(op: Operation) -> (r: Request)
    ensures
        r == first_request(op),
{
    match op {
        Operation::Run(Command::On) => Request::SetMute(true),
        Operation::Run(Command::Off) => Request::SetMute(false),
        Operation::Run(Command::Lock) => Request::SetLock(true),
        Operation::Run(Command::Unlock) => Request::SetLock(false),
        _ => Request::QueryMute,
    }
}

/// Exec form of [`second_request`].
fn second_request_of(op: Operation, was_locked: bool, first: bool) -> (r: Option<Request>)
    ensures
        r == second_request(op, was_locked, first),
{
    match op {
        Operation::Run(Command::Toggle) => Some(Request::SetMute(!first)),
        Operation::ToggleMute => Some(Request::SetMute(!first)),
        Operation::ToggleLock => if was_locked {
            None
        } else {
            Some(Request::SetLock(true))
        },
        _ => None,
    }
}

/// Exec form of [`sets_lock`].
fn sets_lock_of(op: Operation) -> (b: bool)
    ensures
        b == sets_lock(op),
{
    match op {
        Operation::Run(Command::Lock) | Operation::Run(Command::Unlock) | Operation::ToggleLock => true,
        _ => false,
    }
}

/// Computes the plan for the outcomes `h`.
fn next_step(op: Operation, h: &Vec<Outcome>) -> (p: NextStep)
    ensures
        p@ == plan(op, history_view(h@)),
{
    let ghost hv = history_view(h@);
    if op == Operation::Run(Command::Version) {
        return NextStep::Finish(Ok(Report::Lines(one_line(version_text()))));
    }
    let n = h.len();
    if n == 0 {
        return NextStep::Issue(Request::Open);
    }
    assert(hv[0] == h@[0]@);
    if h[0].is_failed() {
        return NextStep::Finish(Err(h[0].error()));
    }
    if n == 1 {
        return NextStep::Issue(Request::Authenticate);
    }
    assert(hv[1] == h@[1]@);
    if h[1].is_failed() {
        return NextStep::Finish(Err(h[1].error()));
    }
    if n == 2 {
        return NextStep::Issue(Request::BootDsp);
    }
    assert(hv[2] == h@[2]@);
    if h[2].is_failed() {
        return NextStep::Finish(Err(h[2].error()));
    }
    if n == 3 {
        return NextStep::Issue(Request::QueryLock);
    }
    assert(hv[3] == h@[3]@);
    if h[3].is_failed() {
        return NextStep::Finish(Err(h[3].error()));
    }
    let was_locked = h[3].flag();
    let start: usize = if was_locked {
        if n == 4 {
            return NextStep::Issue(Request::SetLock(false));
        }
        assert(hv[4] == h@[4]@);
        if h[4].is_failed() {
            return NextStep::Finish(Err(h[4].error()));
        }
        5
    } else {
        4
    };
    assert(handshake_plan(hv) is None);
    assert(start == handshake_len(hv));
    let ghost b = hv.subrange(start as int, n as int);
    // The operation's own work.
    let (res, keep, used): (Result<Report, String>, bool, usize) = if n == start {
        return NextStep::Issue(first_request_of(op));
    } else {
        assert(b[0] == h@[start as int]@);
        if h[start].is_failed() {
            (Err(h[start].error()), false, 1)
        } else {
            let first = h[start].flag();
            match second_request_of(op, was_locked, first) {
                None => (Ok(build_report(op, was_locked, first)), sets_lock_of(op), 1),
                Some(r) => {
                    if n == start + 1 {
                        return NextStep::Issue(r);
                    }
                    assert(b[1] == h@[start + 1]@);
                    if h[start + 1].is_failed() {
                        (Err(h[start + 1].error()), false, 2)
                    } else {
                        (Ok(build_report(op, was_locked, first)), sets_lock_of(op), 2)
                    }
                },
            }
        }
    };
    assert(body_plan(op, was_locked, b) == BodyPlan::Complete(result_view(res), keep, used as int));
    if was_locked && !keep {
        if n == start + used {
            NextStep::Issue(Request::SetLock(true))
        } else {
            assert(b[used as int] == h@[start + used]@);
            let restore = h[start + used].as_restore();
            NextStep::Finish(merge_value_results(res, restore))
        }
    } else {
        NextStep::Finish(res)
    }
}

/// What the driver is asked to do next.
#[derive(Debug, PartialEq, Eq)]
pub enum Action {
    /// Open the HID interface of the microphone.
    OpenDevice,
    /// Send this command line.
    Send(String),
    /// Read one message, waiting at most this many milliseconds.
    Read(i32),
    /// The invocation is over, with this result.
    Done(Result<Report, String>),
}

/// The mathematical value of an [`Action`].
pub enum ActionView {
    OpenDevice,
    Send(Seq<char>),
    Read(i32),
    Done(Result<ReportView, Seq<char>>),
}

impl View for Action {
    type V = ActionView;

    open spec fn view(&self) -> ActionView {
        match self {
            Action::OpenDevice => ActionView::OpenDevice,
            Action::Send(c) => ActionView::Send(c@),
            Action::Read(t) => ActionView::Read(*t),
            Action::Done(r) => ActionView::Done(result_view(*r)),
        }
    }
}

/// What came of an action.
#[derive(Debug, PartialEq, Eq)]
pub enum Event {
    /// The device was opened, or could not be.
    Opened(Result<(), String>),
    /// The command line was written, or could not be.
    Sent(Result<(), String>),
    /// A read returned a message, returned nothing in time, or failed.
    Received(Result<Option<String>, String>),
}

/// The mathematical value of an [`Event`].
pub enum EventView {
    Opened(Result<(), Seq<char>>),
    Sent(Result<(), Seq<char>>),
    Received(Result<Option<Seq<char>>, Seq<char>>),
}

impl View for Event {
    type V = EventView;

    open spec fn view(&self) -> EventView {
        match self {
            Event::Opened(r) => EventView::Opened(
                match r {
                    Ok(_) => Ok(()),
                    Err(e) => Err(e@),
                },
            ),
            Event::Sent(r) => EventView::Sent(
                match r {
                    Ok(_) => Ok(()),
                    Err(e) => Err(e@),
                },
            ),
            Event::Received(r) => EventView::Received(
                match r {
                    Ok(Some(m)) => Ok(Some(m@)),
                    Ok(None) => Ok(None),
                    Err(e) => Err(e@),
                },
            ),
        }
    }
}

/// One invocation against the microphone.
pub struct Session {
    op: Operation,
    outcomes: Vec<Outcome>,
    deadline: Option<u64>,
}

/// The abstract state of a [`Session`]: the operation, the outcomes of the
/// exchanges that are over, and, while a reply is awaited, the time (in
/// milliseconds) until which it is awaited.
pub struct SessionView {
    pub op: Operation,
    pub history: Seq<OutcomeView>,
    pub deadline: Option<u64>,
}

impl View for Session {
    type V = SessionView;

    closed spec fn view(&self) -> SessionView {
        SessionView { op: self.op, history: history_view(self.outcomes@), deadline: self.deadline }
    }
}

/// The state of a session that has not begun.
pub open spec fn initial(op: Operation) -> SessionView {
    SessionView { op, history: seq![], deadline: None }
}

/// What a session asks of its driver.
pub open spec fn action_of(s: SessionView) -> ActionView {
    match plan(s.op, s.history) {
        Plan::Finish(res) => ActionView::Done(res),
        Plan::Issue(r) => if r == Request::Open {
            ActionView::OpenDevice
        } else if s.deadline is Some {
            ActionView::Read(READ_TIMEOUT_MS)
        } else {
            ActionView::Send(command_text(r))
        },
    }
}

/// `now + window`, or the largest time where that overflows.
pub open spec fn deadline_after(now: u64, window: u64) -> u64 {
    if now + window <= u64::MAX {
        (now + window) as u64
    } else {
        u64::MAX
    }
}

/// The session with the current exchange settled by `o`.
pub open spec fn settle(s: SessionView, o: OutcomeView) -> SessionView {
    SessionView { op: s.op, history: s.history.push(o), deadline: None }
}

/// The session after `ev` came of its action at time `now` (milliseconds).
/// An event that does not answer the pending action changes nothing, and a
/// finished session stays as it is.
pub open spec fn advanced(s: SessionView, ev: EventView, now: u64) -> SessionView {
    match plan(s.op, s.history) {
        Plan::Finish(_) => s,
        Plan::Issue(r) => if r == Request::Open {
            match ev {
                EventView::Opened(Ok(_)) => settle(s, OutcomeView::Done),
                EventView::Opened(Err(e)) => settle(s, OutcomeView::Failed(e)),
                _ => s,
            }
        } else {
            match s.deadline {
                None => match ev {
                    EventView::Sent(Ok(_)) => match reply_window(r) {
                        Some(w) => SessionView {
                            op: s.op,
                            history: s.history,
                            deadline: Some(deadline_after(now, w)),
                        },
                        None => settle(s, OutcomeView::Done),
                    },
                    EventView::Sent(Err(e)) => settle(s, OutcomeView::Failed(e)),
                    _ => s,
                },
                Some(d) => match ev {
                    EventView::Received(Err(e)) => settle(s, OutcomeView::Failed(e)),
                    EventView::Received(Ok(m)) => {
                        let answer = match m {
                            Some(msg) => reply_outcome(r, msg),
                            None => None,
                        };
                        match answer {
                            Some(o) => settle(s, o),
                            None => if now < d {
                                s
                            } else {
                                settle(s, OutcomeView::Failed(timeout_error(r)))
                            },
                        }
                    },
                    _ => s,
                },
            }
        },
    }
}

impl Session {
    /// A session for `op` that has not begun.
    pub fn new(op: Operation) -> (s: Session)
        ensures
            s@ == initial(op),
    {
        let s = Session { op, outcomes: Vec::new(), deadline: None };
        assert(history_view(s.outcomes@) =~= seq![]);
        s
    }

    /// The operation of this session.
    pub fn operation(&self) -> (op: Operation)
        ensures
            op == self@.op,
    {
        self.op
    }

    /// What the driver is to do next.
    pub fn action(&self) -> (a: Action)
        ensures
            a@ == action_of(self@),
    {
        match next_step(self.op, &self.outcomes) {
            NextStep::Finish(res) => Action::Done(res),
            NextStep::Issue(r) => {
                if r == Request::Open {
                    Action::OpenDevice
                } else if self.deadline.is_some() {
                    Action::Read(READ_TIMEOUT_MS)
                } else {
                    Action::Send(r.command())
                }
            },
        }
    }

    /// Whether the session is over.
    pub fn is_finished(&self) -> (b: bool)
        ensures
            b == (plan(self@.op, self@.history) is Finish),
    {
        match next_step(self.op, &self.outcomes) {
            NextStep::Finish(_) => true,
            NextStep::Issue(_) => false,
        }
    }

    /// Settles the current exchange with `o`.
    fn settle_with(&mut self, o: Outcome)
        ensures
            final(self)@ == settle(old(self)@, o@),
    {
        self.outcomes.push(o);
        self.deadline = None;
        assert(history_view(self.outcomes@) =~= history_view(old(self).outcomes@).push(o@));
    }

    /// Hands the session what came of its action, at time `now_ms`.
    pub fn advance(&mut self, event: Event, now_ms: u64)
        ensures
            final(self)@ == advanced(old(self)@, event@, now_ms),
    {
        let r = match next_step(self.op, &self.outcomes) {
            NextStep::Finish(_) => return,
            NextStep::Issue(r) => r,
        };
        if r == Request::Open {
            match event {
                Event::Opened(Ok(())) => self.settle_with(Outcome::Done),
                Event::Opened(Err(e)) => self.settle_with(Outcome::Failed(e)),
                _ => {},
            }
            return;
        }
        match self.deadline {
            None => match event {
                Event::Sent(Ok(())) => match r.window_ms() {
                    Some(w) => {
                        self.deadline = Some(now_ms.saturating_add(w));
                    },
                    None => self.settle_with(Outcome::Done),
                },
                Event::Sent(Err(e)) => self.settle_with(Outcome::Failed(e)),
                _ => {},
            },
            Some(d) => match event {
                Event::Received(Err(e)) => self.settle_with(Outcome::Failed(e)),
                Event::Received(Ok(m)) => {
                    let answer = match &m {
                        Some(msg) => r.read_reply(msg.as_str()),
                        None => None,
                    };
                    match answer {
                        Some(o) => self.settle_with(o),
                        None => {
                            if now_ms >= d {
                                self.settle_with(Outcome::Failed(r.timeout_message()));
                            }
                        },
                    }
                },
                _ => {},
            },
        }
    }
}

/// Starts the invocation of a command-line command. `Version` needs no
/// device: its session is finished from the start.
pub fn run(command: Command) -> (s: Session)
    ensures
        s@ == initial(Operation::Run(command)),
{
    Session::new(Operation::Run(command))
}

/// Starts reading the mute and lock state.
pub fn query_state() -> (s: Session)
    ensures
        s@ == initial(Operation::QueryState),
{
    Session::new(Operation::QueryState)
}

/// Starts flipping the mute state.
pub fn toggle_mute_state() -> (s: Session)
    ensures
        s@ == initial(Operation::ToggleMute),
{
    Session::new(Operation::ToggleMute)
}

/// Starts flipping the lock state.
pub fn toggle_lock_state() -> (s: Session)
    ensures
        s@ == initial(Operation::ToggleLock),
{
    Session::new(Operation::ToggleLock)
}

} // verus!
