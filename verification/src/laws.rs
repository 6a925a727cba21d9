//! Properties of the invocation protocol as a whole, over every history of
//! exchange outcomes.
use vstd::prelude::*;
use crate::command::{lock_line, mute_line, version_line, Command, DeviceState};
use crate::merge::merged;
use crate::protocol::{
    error_of, failed, flag_of, reply_window, restore_result, timeout_error, OutcomeView, Request,
};
use crate::session::{
    action_of, advanced, body_plan, deadline_after, found_locked, handshake_len, initial, plan,
    sets_lock, settle, ActionView, BodyPlan, EventView, Operation, Plan, ReportView, SessionView,
};

verus! {

/// `h` is the history of a session at the moment it finished: the last
/// exchange was asked for, and after it the protocol is over.
pub open spec fn completed(op: Operation, h: Seq<OutcomeView>) -> bool {
    &&& h.len() > 0
    &&& plan(op, h) is Finish
    &&& plan(op, h.drop_last()) is Issue
}

/// The result a finished session reports.
pub open spec fn result_of(op: Operation, h: Seq<OutcomeView>) -> Result<ReportView, Seq<char>> {
    plan(op, h)->Finish_0
}

/// The request whose outcome is the `i`-th entry of `h`.
pub open spec fn request_at(op: Operation, h: Seq<OutcomeView>, i: int) -> Request {
    plan(op, h.take(i))->Issue_0
}

/// The last request of a finished session.
pub open spec fn last_request(op: Operation, h: Seq<OutcomeView>) -> Request {
    plan(op, h.drop_last())->Issue_0
}

/// The opening handshake succeeded and found the device locked (so it
/// unlocked it).
pub open spec fn unlocked_by_handshake(h: Seq<OutcomeView>) -> bool {
    &&& h.len() >= 5
    &&& !failed(h[0])
    &&& !failed(h[1])
    &&& !failed(h[2])
    &&& !failed(h[3])
    &&& flag_of(h[3])
    &&& !failed(h[4])
}

/// Re-lock after use: once the handshake has unlocked a locked device, the
/// last thing every invocation does is send `lock on`, whether its command
/// succeeded or failed, unless the command was one that sets the lock itself
/// and it succeeded.
pub proof fn relock_after_unlocking(op: Operation, h: Seq<OutcomeView>)
    requires
        op != Operation::Run(Command::Version),
        completed(op, h),
        unlocked_by_handshake(h),
        !sets_lock(op) || result_of(op, h) is Err,
    ensures
        last_request(op, h) == Request::SetLock(true),
{
    lemma_history_entries(h);
}

/// Makes the entries of `h`, of `h` without its last entry, and of the
/// command part of both (after a handshake of four or five exchanges)
/// visible to the solver, for histories as long as a session can get.
proof fn lemma_history_entries(h: Seq<OutcomeView>)
    ensures
        forall|i: int, k: int|
            0 <= k < i <= h.len() ==> #[trigger] h.take(i)[k] == h[k],
        forall|k: int| 0 <= k < h.len() - 1 ==> #[trigger] h.drop_last()[k] == h[k],
        forall|a: int, k: int|
            0 <= a && 0 <= k && a + k < h.len() ==> #[trigger] h.subrange(a, h.len() as int)[k] == h[a
                + k],
        h.len() >= 5 ==> h.drop_last()[3] == h[3],
        h.len() >= 6 ==> h.drop_last()[4] == h[4],
        h.len() >= 5 ==> h.subrange(4, h.len() as int)[0] == h[4],
        h.len() >= 6 ==> h.subrange(4, h.len() as int)[1] == h[5],
        h.len() >= 7 ==> h.subrange(4, h.len() as int)[2] == h[6],
        h.len() >= 6 ==> h.subrange(5, h.len() as int)[0] == h[5],
        h.len() >= 7 ==> h.subrange(5, h.len() as int)[1] == h[6],
        h.len() >= 8 ==> h.subrange(5, h.len() as int)[2] == h[7],
        h.len() >= 6 ==> h.drop_last().subrange(4, h.len() - 1)[0] == h[4],
        h.len() >= 7 ==> h.drop_last().subrange(4, h.len() - 1)[1] == h[5],
        h.len() >= 7 ==> h.drop_last().subrange(5, h.len() - 1)[0] == h[5],
        h.len() >= 8 ==> h.drop_last().subrange(5, h.len() - 1)[1] == h[6],
{
}

/// Makes the handshake entries of the first `k` entries of `h` visible to
/// the solver.
proof fn lemma_prefix_entries(h: Seq<OutcomeView>, k: int)
    ensures
        3 < k <= h.len() ==> h.take(k)[3] == h[3],
        4 < k <= h.len() ==> h.take(k)[4] == h[4],
        5 <= k <= h.len() ==> h.take(k).subrange(4, k)[0] == h[4],
        6 <= k <= h.len() ==> h.take(k).subrange(4, k)[1] == h[5],
        6 <= k <= h.len() ==> h.take(k).subrange(5, k)[0] == h[5],
{
}

/// Sessions are short: no history of eight exchanges or more leaves the
/// protocol anything to ask.
pub proof fn sessions_are_bounded(op: Operation, h: Seq<OutcomeView>)
    requires
        h.len() >= 8,
    ensures
        plan(op, h) is Finish,
{
    lemma_history_entries(h);
}

/// `version` needs no device: its session is over before it begins, with
/// the version line; every other invocation begins by opening the device.
pub proof fn version_needs_no_device(op: Operation)
    ensures
        op == Operation::Run(Command::Version) ==> action_of(initial(op)) == ActionView::Done(
            Ok(ReportView::Lines(seq![version_line()])),
        ),
        op != Operation::Run(Command::Version) ==> action_of(initial(op))
            == ActionView::OpenDevice,
{
}

/// A finished session stays finished: it ignores every later event.
pub proof fn finished_sessions_stay_finished(s: SessionView, ev: EventView, now: u64)
    requires
        plan(s.op, s.history) is Finish,
    ensures
        advanced(s, ev, now) == s,
{
}

/// Each event settles at most one exchange, and a session never changes its
/// operation.
pub proof fn events_settle_one_exchange_at_most(s: SessionView, ev: EventView, now: u64)
    ensures
        advanced(s, ev, now).op == s.op,
        advanced(s, ev, now).history == s.history || exists|o: OutcomeView|
            advanced(s, ev, now).history == #[trigger] s.history.push(o),
{
    let t = advanced(s, ev, now);
    if t.history != s.history {
        let o = t.history.last();
        assert(t.history == s.history.push(o));
    }
}

/// The handshake comes first and in order: open the device, authenticate,
/// boot the DSP, read the lock state, and unlock a device found locked.
pub proof fn handshake_comes_first(op: Operation, h: Seq<OutcomeView>)
    requires
        op != Operation::Run(Command::Version),
        h.len() <= 4,
        forall|k: int| 0 <= k < h.len() ==> !failed(#[trigger] h[k]),
        h.len() == 4 ==> flag_of(h[3]),
    ensures
        h.len() == 0 ==> plan(op, h) == Plan::Issue(Request::Open),
        h.len() == 1 ==> plan(op, h) == Plan::Issue(Request::Authenticate),
        h.len() == 2 ==> plan(op, h) == Plan::Issue(Request::BootDsp),
        h.len() == 3 ==> plan(op, h) == Plan::Issue(Request::QueryLock),
        h.len() == 4 ==> plan(op, h) == Plan::Issue(Request::SetLock(false)),
{
    if h.len() > 0 {
        assert(!failed(h[0]));
    }
    if h.len() > 1 {
        assert(!failed(h[1]));
    }
    if h.len() > 2 {
        assert(!failed(h[2]));
    }
    if h.len() > 3 {
        assert(!failed(h[3]));
    }
}

/// A failed handshake ends the session at once with the failure's message;
/// nothing is sent after it, so nothing is re-locked.
pub proof fn handshake_failure_ends_session(op: Operation, h: Seq<OutcomeView>, k: int)
    requires
        op != Operation::Run(Command::Version),
        completed(op, h),
        0 <= k < h.len(),
        failed(h[k]),
        forall|j: int| 0 <= j < k ==> !failed(#[trigger] h[j]),
        k < 4 || (k == 4 && flag_of(h[3])),
    ensures
        h.len() == k + 1,
        result_of(op, h) == Err::<ReportView, Seq<char>>(error_of(h[k])),
{
    lemma_history_entries(h);
    if k > 0 {
        assert(!failed(h[0]));
    }
    if k > 1 {
        assert(!failed(h[1]));
    }
    if k > 2 {
        assert(!failed(h[2]));
    }
    if k > 3 {
        assert(!failed(h[3]));
    }
    if h.len() > k + 1 {
        assert(h.drop_last()[k] == h[k]);
        assert(false);
    }
}

/// The handshake succeeded (whatever lock state it found).
pub open spec fn handshake_succeeded(h: Seq<OutcomeView>) -> bool {
    &&& h.len() >= handshake_len(h)
    &&& forall|k: int| 0 <= k < handshake_len(h) ==> !failed(#[trigger] h[k])
}

/// `unlock` leaves the device unlocked: when it succeeds its last request is
/// `lock off`, it reports `unlocked`, and no re-lock follows it.
pub proof fn unlock_leaves_device_unlocked(h: Seq<OutcomeView>)
    requires
        completed(Operation::Run(Command::Unlock), h),
        result_of(Operation::Run(Command::Unlock), h) is Ok,
    ensures
        last_request(Operation::Run(Command::Unlock), h) == Request::SetLock(false),
        result_of(Operation::Run(Command::Unlock), h) == Ok::<ReportView, Seq<char>>(
            ReportView::Lines(seq![lock_line(false)]),
        ),
        h.len() == handshake_len(h) + 1,
{
    lemma_history_entries(h);
}

/// `lock` leaves the device locked: when it succeeds its last request is
/// `lock on`, it reports `locked`, and no second `lock on` follows it.
pub proof fn lock_leaves_device_locked(h: Seq<OutcomeView>)
    requires
        completed(Operation::Run(Command::Lock), h),
        result_of(Operation::Run(Command::Lock), h) is Ok,
    ensures
        last_request(Operation::Run(Command::Lock), h) == Request::SetLock(true),
        result_of(Operation::Run(Command::Lock), h) == Ok::<ReportView, Seq<char>>(
            ReportView::Lines(seq![lock_line(true)]),
        ),
        h.len() == handshake_len(h) + 1,
{
    lemma_history_entries(h);
}

/// Toggling flips what it read: a successful toggle first asks for the mute
/// state, then sends the opposite state, and reports that opposite state.
pub proof fn toggle_flips_mute(op: Operation, h: Seq<OutcomeView>)
    requires
        op == Operation::Run(Command::Toggle) || op == Operation::ToggleMute,
        completed(op, h),
        result_of(op, h) is Ok,
    ensures
        handshake_succeeded(h),
        h.len() >= handshake_len(h) + 2,
        request_at(op, h, handshake_len(h)) == Request::QueryMute,
        request_at(op, h, handshake_len(h) + 1) == Request::SetMute(!flag_of(h[handshake_len(h)])),
        op == Operation::Run(Command::Toggle) ==> result_of(op, h) == Ok::<ReportView, Seq<char>>(
            ReportView::Lines(seq![mute_line(!flag_of(h[handshake_len(h)]))]),
        ),
        op == Operation::ToggleMute ==> result_of(op, h) == Ok::<ReportView, Seq<char>>(
            ReportView::State(
                DeviceState { muted: !flag_of(h[handshake_len(h)]), locked: found_locked(h) },
            ),
        ),
{
    lemma_history_entries(h);
    lemma_prefix_entries(h, handshake_len(h));
    lemma_prefix_entries(h, handshake_len(h) + 1);
}

/// `status` and the tray refresh report what they read: the mute state
/// answered to their query and the lock state the handshake found.
pub proof fn status_reports_state_read(op: Operation, h: Seq<OutcomeView>)
    requires
        op == Operation::Run(Command::Status) || op == Operation::QueryState,
        completed(op, h),
        result_of(op, h) is Ok,
    ensures
        handshake_succeeded(h),
        request_at(op, h, handshake_len(h)) == Request::QueryMute,
        op == Operation::Run(Command::Status) ==> result_of(op, h) == Ok::<ReportView, Seq<char>>(
            ReportView::Lines(
                seq![mute_line(flag_of(h[handshake_len(h)])), lock_line(found_locked(h))],
            ),
        ),
        op == Operation::QueryState ==> result_of(op, h) == Ok::<ReportView, Seq<char>>(
            ReportView::State(
                DeviceState { muted: flag_of(h[handshake_len(h)]), locked: found_locked(h) },
            ),
        ),
{
    lemma_history_entries(h);
    lemma_prefix_entries(h, handshake_len(h));
}

/// The tray's lock toggle leaves the lock flipped: on success it reports the
/// opposite of the lock state the handshake found, ends without re-locking
/// a device it found locked, and ends with `lock on` for a device it found
/// unlocked. It reads the mute state first, while the device is unlocked.
pub proof fn toggle_lock_flips_lock(h: Seq<OutcomeView>)
    requires
        completed(Operation::ToggleLock, h),
        result_of(Operation::ToggleLock, h) is Ok,
    ensures
        handshake_succeeded(h),
        result_of(Operation::ToggleLock, h) == Ok::<ReportView, Seq<char>>(
            ReportView::State(
                DeviceState { muted: flag_of(h[handshake_len(h)]), locked: !found_locked(h) },
            ),
        ),
        request_at(Operation::ToggleLock, h, handshake_len(h)) == Request::QueryMute,
        found_locked(h) ==> last_request(Operation::ToggleLock, h) == Request::QueryMute,
        !found_locked(h) ==> last_request(Operation::ToggleLock, h) == Request::SetLock(true),
{
    lemma_history_entries(h);
    lemma_prefix_entries(h, handshake_len(h));
}

/// A device found unlocked is not locked behind the user's back: apart from
/// `lock` and the tray's lock toggle, no invocation that found the device
/// unlocked ever sends `lock on`.
pub proof fn no_relock_when_found_unlocked(op: Operation, h: Seq<OutcomeView>, i: int)
    requires
        op != Operation::Run(Command::Version),
        op != Operation::Run(Command::Lock),
        op != Operation::ToggleLock,
        completed(op, h),
        h.len() >= 4,
        !found_locked(h),
        0 <= i < h.len(),
    ensures
        request_at(op, h, i) != Request::SetLock(true),
{
    lemma_history_entries(h);
    lemma_prefix_entries(h, i);
}

/// A failed command is reported with its own message when re-locking
/// succeeds.
pub proof fn command_failure_is_reported(op: Operation, h: Seq<OutcomeView>)
    requires
        op != Operation::Run(Command::Version),
        completed(op, h),
        unlocked_by_handshake(h),
        h.len() >= 7,
        failed(h[h.len() - 2]),
        !failed(h.last()),
    ensures
        result_of(op, h) == Err::<ReportView, Seq<char>>(error_of(h[h.len() - 2])),
{
    lemma_history_entries(h);
}

/// A failed re-lock is never hidden: when the final `lock on` fails with
/// `re`, the invocation fails with `Failed to restore lock: re` if its
/// command succeeded, and with `e; additionally failed to restore lock: re`
/// if its command failed with `e`.
pub proof fn relock_failure_is_reported(op: Operation, h: Seq<OutcomeView>)
    requires
        op != Operation::Run(Command::Version),
        completed(op, h),
        unlocked_by_handshake(h),
        h.len() >= 6,
        last_request(op, h) == Request::SetLock(true),
        failed(h.last()),
        !sets_lock(op) || h.len() >= 7,
    ensures
        h.len() >= 7 && failed(h[h.len() - 2]) ==> result_of(op, h) == Err::<ReportView, Seq<char>>(
            error_of(h[h.len() - 2]) + "; additionally failed to restore lock: "@ + error_of(
                h.last(),
            ),
        ),
        !(h.len() >= 7 && failed(h[h.len() - 2])) ==> result_of(op, h) == Err::<
            ReportView,
            Seq<char>,
        >("Failed to restore lock: "@ + error_of(h.last())),
{
    lemma_history_entries(h);
}

/// Command-line invocations report lines to print; the tray's invocations
/// report a device state.
pub proof fn reports_match_operation(op: Operation, h: Seq<OutcomeView>)
    requires
        plan(op, h) is Finish,
        result_of(op, h) is Ok,
    ensures
        op is Run ==> result_of(op, h)->Ok_0 is Lines,
        !(op is Run) ==> result_of(op, h)->Ok_0 is State,
{
    lemma_history_entries(h);
}

/// `h` holds only outcomes of exchanges that the protocol asked for: before
/// each of them, the protocol was not over.
pub open spec fn is_run(op: Operation, h: Seq<OutcomeView>) -> bool {
    forall|i: int| 0 <= i < h.len() ==> #[trigger] plan(op, h.take(i)) is Issue
}

/// Sessions only record asked-for exchanges, each with an outcome of the
/// kind its request settles with: a session that begins empty keeps a
/// history that is a run of the protocol, whatever events it gets.
pub proof fn sessions_record_runs(s: SessionView, ev: EventView, now: u64)
    requires
        is_run(s.op, s.history),
        replies_fit(s.op, s.history),
    ensures
        is_run(initial(s.op).op, initial(s.op).history),
        replies_fit(initial(s.op).op, initial(s.op).history),
        is_run(advanced(s, ev, now).op, advanced(s, ev, now).history),
        replies_fit(advanced(s, ev, now).op, advanced(s, ev, now).history),
{
    let t = advanced(s, ev, now);
    if t.history != s.history {
        let h = s.history;
        let o = t.history.last();
        assert(t.history == h.push(o));
        assert forall|i: int| 0 <= i < t.history.len() implies #[trigger] plan(
            t.op,
            t.history.take(i),
        ) is Issue by {
            if i < h.len() {
                assert(t.history.take(i) =~= h.take(i));
            } else {
                assert(t.history.take(i) =~= h);
            }
        }
        assert forall|i: int| 0 <= i < t.history.len() implies #[trigger] reply_fits(
            request_at(t.op, t.history, i),
            t.history[i],
        ) by {
            if i < h.len() {
                assert(t.history.take(i) =~= h.take(i));
                assert(reply_fits(request_at(s.op, h, i), h[i]));
            } else {
                assert(t.history.take(i) =~= h);
            }
        }
    }
}

/// A run that the protocol has ended is a finished session's history, so
/// the properties stated of finished sessions hold of it.
pub proof fn finished_runs_are_completed(op: Operation, h: Seq<OutcomeView>)
    requires
        is_run(op, h),
        h.len() > 0,
        plan(op, h) is Finish,
    ensures
        completed(op, h),
{
    assert(h.take(h.len() - 1) =~= h.drop_last());
    assert(plan(op, h.take(h.len() - 1)) is Issue);
}

/// Replies are awaited for their window: a sent query waits until its send
/// time plus its reply window; a read that brings no answer keeps it waiting
/// before that time and ends it with the request's timeout error after it.
pub proof fn replies_are_awaited_within_their_window(s: SessionView, r: Request, now: u64)
    requires
        plan(s.op, s.history) == Plan::Issue(r),
        r != Request::Open,
    ensures
        s.deadline is None && reply_window(r) is Some ==> advanced(
            s,
            EventView::Sent(Ok(())),
            now,
        ).deadline == Some(deadline_after(now, reply_window(r)->Some_0)),
        s.deadline matches Some(d) && now < d ==> advanced(s, EventView::Received(Ok(None)), now)
            == s,
        s.deadline matches Some(d) && now >= d ==> advanced(
            s,
            EventView::Received(Ok(None)),
            now,
        ) == settle(s, OutcomeView::Failed(timeout_error(r))),
{
}

/// The state of a microphone after an exchange: a command that was sent sets
/// what it names; queries, failures and everything else leave it as it was.
pub open spec fn after_exchange(d: DeviceState, r: Request, o: OutcomeView) -> DeviceState {
    if !failed(o) {
        match r {
            Request::SetLock(b) => DeviceState { muted: d.muted, locked: b },
            Request::SetMute(b) => DeviceState { muted: b, locked: d.locked },
            _ => d,
        }
    } else {
        d
    }
}

/// The state of a microphone that was in state `d` when a session for `op`
/// began, after the first `i` exchanges of the history `h`.
pub open spec fn device_after(op: Operation, d: DeviceState, h: Seq<OutcomeView>, i: nat) -> DeviceState
    decreases i,
{
    if i == 0 {
        d
    } else {
        after_exchange(
            device_after(op, d, h, (i - 1) as nat),
            request_at(op, h, i - 1),
            h[i - 1],
        )
    }
}

/// The `i`-th exchange of `h`, if it answered a query, reported the state
/// the microphone was in.
pub open spec fn answered_truthfully(op: Operation, d: DeviceState, h: Seq<OutcomeView>, i: int) -> bool {
    match (request_at(op, h, i), h[i]) {
        (Request::QueryLock, OutcomeView::Flag(b)) => b == device_after(op, d, h, i as nat).locked,
        (Request::QueryMute, OutcomeView::Flag(b)) => b == device_after(op, d, h, i as nat).muted,
        _ => true,
    }
}

/// An outcome of the kind its request settles with: queries are answered
/// with a flag, other requests are done, and any request can fail.
pub open spec fn reply_fits(r: Request, o: OutcomeView) -> bool {
    match o {
        OutcomeView::Failed(_) => true,
        OutcomeView::Flag(_) => r == Request::QueryLock || r == Request::QueryMute,
        OutcomeView::Done => r != Request::QueryLock && r != Request::QueryMute,
    }
}

/// Every outcome of `h` is of the kind its request settles with.
pub open spec fn replies_fit(op: Operation, h: Seq<OutcomeView>) -> bool {
    forall|i: int| 0 <= i < h.len() ==> #[trigger] reply_fits(request_at(op, h, i), h[i])
}

/// `h` is a session for `op` against a microphone that began in state `d`
/// and that nothing else touched: every answer it gave was true.
pub open spec fn against_device(op: Operation, d: DeviceState, h: Seq<OutcomeView>) -> bool {
    &&& replies_fit(op, h)
    &&& forall|i: int| 0 <= i < h.len() ==> #[trigger] answered_truthfully(op, d, h, i)
}

/// Makes the requests and device states of a session's first exchanges
/// visible to the solver.
proof fn lemma_device_steps(op: Operation, d: DeviceState, h: Seq<OutcomeView>)
    requires
        op != Operation::Run(Command::Version),
        completed(op, h),
    ensures
        h.len() <= 8,
        request_at(op, h, 0) == Request::Open,
        h.len() > 1 ==> request_at(op, h, 1) == Request::Authenticate,
        h.len() > 2 ==> request_at(op, h, 2) == Request::BootDsp,
        h.len() > 3 ==> request_at(op, h, 3) == Request::QueryLock,
        h.len() > 4 && found_locked(h) ==> request_at(op, h, 4) == Request::SetLock(false),
        forall|i: nat| i <= 4 && i <= h.len() ==> #[trigger] device_after(op, d, h, i) == d,
{
    lemma_history_entries(h);
    if h.len() >= 9 {
        sessions_are_bounded(op, h.drop_last());
    }
    lemma_prefix_entries(h, 0);
    lemma_prefix_entries(h, 1);
    lemma_prefix_entries(h, 2);
    lemma_prefix_entries(h, 3);
    lemma_prefix_entries(h, 4);
    assert(h.take(0) =~= Seq::<OutcomeView>::empty());
    assert(h.len() > 1 ==> h.take(1)[0] == h[0]);
    assert(h.len() > 2 ==> h.take(2)[1] == h[1]);
    assert(h.len() > 3 ==> h.take(3)[2] == h[2]);
    assert(device_after(op, d, h, 0) == d);
    assert(h.len() >= 1 ==> device_after(op, d, h, 1) == d);
    assert(h.len() >= 2 ==> device_after(op, d, h, 2) == d);
    assert(h.len() >= 3 ==> device_after(op, d, h, 3) == d);
    assert(h.len() >= 4 ==> device_after(op, d, h, 4) == d);
}

/// Toggling mute against a microphone flips its mute state and leaves its
/// lock as it was: the toggle reports the flipped state, and the microphone
/// is in that state afterwards.
pub proof fn toggle_mute_on_a_device(d: DeviceState, h: Seq<OutcomeView>)
    requires
        completed(Operation::ToggleMute, h),
        against_device(Operation::ToggleMute, d, h),
        result_of(Operation::ToggleMute, h) is Ok,
    ensures
        result_of(Operation::ToggleMute, h) == Ok::<ReportView, Seq<char>>(
            ReportView::State(DeviceState { muted: !d.muted, locked: d.locked }),
        ),
        device_after(Operation::ToggleMute, d, h, h.len() as nat) == (DeviceState {
            muted: !d.muted,
            locked: d.locked,
        }),
{
    let op = Operation::ToggleMute;
    lemma_device_steps(op, d, h);
    lemma_history_entries(h);
    toggle_flips_mute(op, h);
    let hl = handshake_len(h);
    assert(answered_truthfully(op, d, h, 3));
    assert(reply_fits(request_at(op, h, 3), h[3]));
    assert(flag_of(h[3]) == d.locked);
    if found_locked(h) {
        relock_after_unlocking(op, h);
        assert(h.len() == 8);
        assert(!failed(h[4]));
        assert(request_at(op, h, 4) == Request::SetLock(false));
        assert(device_after(op, d, h, 4) == d);
        assert(device_after(op, d, h, 5) == DeviceState { muted: d.muted, locked: false });
        assert(request_at(op, h, 5) == Request::QueryMute);
        assert(answered_truthfully(op, d, h, 5));
        assert(reply_fits(request_at(op, h, 5), h[5]));
        assert(device_after(op, d, h, 6) == DeviceState { muted: d.muted, locked: false });
        assert(device_after(op, d, h, 7) == DeviceState { muted: !d.muted, locked: false });
        assert(request_at(op, h, 7) == Request::SetLock(true));
        assert(!failed(h[7]));
        assert(device_after(op, d, h, 8) == DeviceState { muted: !d.muted, locked: true });
    } else {
        assert(h.len() == 6);
        assert(request_at(op, h, 4) == Request::QueryMute);
        assert(answered_truthfully(op, d, h, 4));
        assert(reply_fits(request_at(op, h, 4), h[4]));
        assert(device_after(op, d, h, 5) == d);
        assert(device_after(op, d, h, 6) == DeviceState { muted: !d.muted, locked: d.locked });
    }
}

/// Reading the state of a microphone reports the state it is in and leaves
/// it so (a locked microphone is locked again afterwards).
pub proof fn query_on_a_device(d: DeviceState, h: Seq<OutcomeView>)
    requires
        completed(Operation::QueryState, h),
        against_device(Operation::QueryState, d, h),
        result_of(Operation::QueryState, h) is Ok,
    ensures
        result_of(Operation::QueryState, h) == Ok::<ReportView, Seq<char>>(ReportView::State(d)),
        device_after(Operation::QueryState, d, h, h.len() as nat) == d,
{
    let op = Operation::QueryState;
    lemma_device_steps(op, d, h);
    lemma_history_entries(h);
    status_reports_state_read(op, h);
    assert(answered_truthfully(op, d, h, 3));
    assert(reply_fits(request_at(op, h, 3), h[3]));
    assert(flag_of(h[3]) == d.locked);
    if found_locked(h) {
        relock_after_unlocking(op, h);
        assert(h.len() == 7);
        assert(!failed(h[4]));
        assert(request_at(op, h, 4) == Request::SetLock(false));
        assert(device_after(op, d, h, 4) == d);
        assert(device_after(op, d, h, 5) == DeviceState { muted: d.muted, locked: false });
        assert(request_at(op, h, 5) == Request::QueryMute);
        assert(answered_truthfully(op, d, h, 5));
        assert(reply_fits(request_at(op, h, 5), h[5]));
        assert(device_after(op, d, h, 6) == DeviceState { muted: d.muted, locked: false });
        assert(request_at(op, h, 6) == Request::SetLock(true));
        assert(!failed(h[6]));
        assert(device_after(op, d, h, 7) == d);
    } else {
        assert(h.len() == 5);
        assert(request_at(op, h, 4) == Request::QueryMute);
        assert(answered_truthfully(op, d, h, 4));
        assert(reply_fits(request_at(op, h, 4), h[4]));
        assert(device_after(op, d, h, 5) == d);
    }
}

/// The tray's lock toggle against a microphone flips its lock and keeps its
/// mute state: it reports the new state, and the microphone stays in it.
pub proof fn toggle_lock_on_a_device(d: DeviceState, h: Seq<OutcomeView>)
    requires
        completed(Operation::ToggleLock, h),
        against_device(Operation::ToggleLock, d, h),
        result_of(Operation::ToggleLock, h) is Ok,
    ensures
        result_of(Operation::ToggleLock, h) == Ok::<ReportView, Seq<char>>(
            ReportView::State(DeviceState { muted: d.muted, locked: !d.locked }),
        ),
        device_after(Operation::ToggleLock, d, h, h.len() as nat) == (DeviceState {
            muted: d.muted,
            locked: !d.locked,
        }),
{
    let op = Operation::ToggleLock;
    lemma_device_steps(op, d, h);
    lemma_history_entries(h);
    toggle_lock_flips_lock(h);
    assert(answered_truthfully(op, d, h, 3));
    assert(reply_fits(request_at(op, h, 3), h[3]));
    assert(flag_of(h[3]) == d.locked);
    if found_locked(h) {
        assert(h.len() == 6);
        assert(!failed(h[4]));
        assert(request_at(op, h, 4) == Request::SetLock(false));
        assert(device_after(op, d, h, 4) == d);
        assert(device_after(op, d, h, 5) == DeviceState { muted: d.muted, locked: false });
        assert(request_at(op, h, 5) == Request::QueryMute);
        assert(answered_truthfully(op, d, h, 5));
        assert(reply_fits(request_at(op, h, 5), h[5]));
        assert(device_after(op, d, h, 6) == DeviceState { muted: d.muted, locked: false });
    } else {
        assert(h.len() == 6);
        assert(request_at(op, h, 4) == Request::QueryMute);
        assert(answered_truthfully(op, d, h, 4));
        assert(reply_fits(request_at(op, h, 4), h[4]));
        assert(device_after(op, d, h, 5) == d);
        assert(request_at(op, h, 5) == Request::SetLock(true));
        assert(!failed(h[5]));
        assert(device_after(op, d, h, 6) == DeviceState { muted: d.muted, locked: true });
    }
}

/// Two mute toggles against a microphone that nothing else touches bring it
/// back to the state it began in, and the second reports that state.
pub proof fn two_toggles_restore_the_state(d: DeviceState, h1: Seq<OutcomeView>, h2: Seq<OutcomeView>)
    requires
        completed(Operation::ToggleMute, h1),
        against_device(Operation::ToggleMute, d, h1),
        result_of(Operation::ToggleMute, h1) is Ok,
        completed(Operation::ToggleMute, h2),
        against_device(
            Operation::ToggleMute,
            device_after(Operation::ToggleMute, d, h1, h1.len() as nat),
            h2,
        ),
        result_of(Operation::ToggleMute, h2) is Ok,
    ensures
        result_of(Operation::ToggleMute, h2) == Ok::<ReportView, Seq<char>>(ReportView::State(d)),
        device_after(
            Operation::ToggleMute,
            device_after(Operation::ToggleMute, d, h1, h1.len() as nat),
            h2,
            h2.len() as nat,
        ) == d,
{
    toggle_mute_on_a_device(d, h1);
    toggle_mute_on_a_device(device_after(Operation::ToggleMute, d, h1, h1.len() as nat), h2);
}

/// A lock toggle lasts: after the tray's lock toggle, reading the state of
/// the microphone reports the new lock state.
pub proof fn lock_toggle_lasts(d: DeviceState, h1: Seq<OutcomeView>, h2: Seq<OutcomeView>)
    requires
        completed(Operation::ToggleLock, h1),
        against_device(Operation::ToggleLock, d, h1),
        result_of(Operation::ToggleLock, h1) is Ok,
        completed(Operation::QueryState, h2),
        against_device(
            Operation::QueryState,
            device_after(Operation::ToggleLock, d, h1, h1.len() as nat),
            h2,
        ),
        result_of(Operation::QueryState, h2) is Ok,
    ensures
        result_of(Operation::QueryState, h2) == result_of(Operation::ToggleLock, h1),
{
    toggle_lock_on_a_device(d, h1);
    query_on_a_device(device_after(Operation::ToggleLock, d, h1, h1.len() as nat), h2);
}

/// Every command line of `h` that sets the lock or the mute state was
/// accepted by the device.
pub open spec fn sends_accepted(op: Operation, h: Seq<OutcomeView>) -> bool {
    forall|i: int|
        0 <= i < h.len() && (#[trigger] request_at(op, h, i) is SetLock || request_at(op, h, i) is SetMute)
            ==> !failed(h[i])
}

/// The lock of a microphone only changes through an accepted command that
/// sets it to the other state.
proof fn lemma_lock_unchanged(op: Operation, d: DeviceState, h: Seq<OutcomeView>, i: nat)
    requires
        i <= h.len(),
        forall|j: int|
            0 <= j < i ==> #[trigger] request_at(op, h, j) != Request::SetLock(!d.locked) || failed(
                h[j],
            ),
    ensures
        device_after(op, d, h, i).locked == d.locked,
    decreases i,
{
    if i > 0 {
        lemma_lock_unchanged(op, d, h, (i - 1) as nat);
        assert(request_at(op, h, i - 1) != Request::SetLock(!d.locked) || failed(h[i - 1]));
    }
}

/// The microphone keeps the lock it had: after every invocation that does
/// not set the lock itself, and after a failed one that would have, the lock
/// is where it was before, provided every lock and mute command was
/// accepted (so the unlocking and the re-locking both took effect).
pub proof fn lock_is_kept(op: Operation, d: DeviceState, h: Seq<OutcomeView>)
    requires
        op != Operation::Run(Command::Version),
        completed(op, h),
        against_device(op, d, h),
        sends_accepted(op, h),
        !sets_lock(op) || result_of(op, h) is Err,
    ensures
        device_after(op, d, h, h.len() as nat).locked == d.locked,
{
    lemma_device_steps(op, d, h);
    lemma_history_entries(h);
    if h.len() >= 5 {
        assert(!failed(h[0]) && !failed(h[1]) && !failed(h[2]) && !failed(h[3]));
        assert(answered_truthfully(op, d, h, 3));
        assert(reply_fits(request_at(op, h, 3), h[3]));
        assert(flag_of(h[3]) == d.locked);
        if d.locked {
            assert(request_at(op, h, 4) is SetLock);
            assert(!failed(h[4]));
            relock_after_unlocking(op, h);
            let n = h.len() - 1;
            assert(h.take(n) =~= h.drop_last());
            assert(request_at(op, h, n) == Request::SetLock(true));
            assert(!failed(h[n]));
        } else {
            assert forall|j: int| 0 <= j < h.len() implies #[trigger] request_at(op, h, j)
                != Request::SetLock(!d.locked) || failed(h[j]) by {
                lemma_prefix_entries(h, j);
                if op != Operation::Run(Command::Lock) && op != Operation::ToggleLock {
                    no_relock_when_found_unlocked(op, h, j);
                } else if request_at(op, h, j) == Request::SetLock(true) {
                    assert(!failed(h[j]));
                    assert(false);
                }
            }
            lemma_lock_unchanged(op, d, h, h.len() as nat);
        }
    }
}

/// Where the command's own work ends in a history whose handshake succeeded:
/// its plan once the handshake is over.
pub open spec fn command_plan(op: Operation, h: Seq<OutcomeView>) -> BodyPlan {
    body_plan(op, found_locked(h), h.subrange(handshake_len(h), h.len() as int))
}

/// Restore after the command: once the handshake has succeeded, the command
/// runs to its result; a successful lock-setting command is the end (no
/// re-lock, its result stands); otherwise a device found locked is sent
/// `lock on` exactly once, right after the command, and the invocation's
/// result merges the command's result with the re-lock's, while a device
/// found unlocked gets nothing more and the command's result stands.
pub proof fn restore_follows_command(op: Operation, h: Seq<OutcomeView>)
    requires
        op != Operation::Run(Command::Version),
        completed(op, h),
        handshake_succeeded(h),
    ensures
        command_plan(op, h) is Complete,
        ({
            let res = command_plan(op, h)->Complete_0;
            let used = command_plan(op, h)->Complete_2;
            let n = handshake_len(h) + used;
            if res is Ok && sets_lock(op) {
                h.len() == n && result_of(op, h) == res
            } else if found_locked(h) {
                &&& h.len() == n + 1
                &&& last_request(op, h) == Request::SetLock(true)
                &&& result_of(op, h) == merged(res, restore_result(h.last()))
            } else {
                h.len() == n && result_of(op, h) == merged(res, Ok(()))
            }
        }),
{
    lemma_history_entries(h);
    assert(!failed(h[0]) && !failed(h[1]) && !failed(h[2]) && !failed(h[3]));
    if found_locked(h) {
        assert(!failed(h[4]));
    }
    let hl = handshake_len(h);
    let b = h.subrange(hl, h.len() as int);
    let db = h.drop_last().subrange(hl, h.len() - 1);
    assert(db =~= b.drop_last());
}

/// `on` and `off` set the mute state they name, once: a successful one sends
/// `micMute on` (for `on`) or `micMute off` (for `off`) right after the
/// handshake, sends no other mute command, reports `muted` or `unmuted`,
/// and ends with at most the re-lock after it, whatever lock state the
/// handshake found.
pub proof fn on_and_off_set_the_mute_state(op: Operation, h: Seq<OutcomeView>)
    requires
        op == Operation::Run(Command::On) || op == Operation::Run(Command::Off),
        completed(op, h),
        result_of(op, h) is Ok,
    ensures
        handshake_succeeded(h),
        request_at(op, h, handshake_len(h)) == Request::SetMute(op == Operation::Run(Command::On)),
        forall|i: int|
            0 <= i < h.len() && i != handshake_len(h) ==> !(#[trigger] request_at(op, h, i) is SetMute),
        found_locked(h) ==> h.len() == handshake_len(h) + 2 && last_request(op, h)
            == Request::SetLock(true),
        !found_locked(h) ==> h.len() == handshake_len(h) + 1,
        op == Operation::Run(Command::On) ==> result_of(op, h) == Ok::<ReportView, Seq<char>>(
            ReportView::Lines(seq!["muted"@]),
        ),
        op == Operation::Run(Command::Off) ==> result_of(op, h) == Ok::<ReportView, Seq<char>>(
            ReportView::Lines(seq!["unmuted"@]),
        ),
{
    lemma_history_entries(h);
    let hl = handshake_len(h);
    lemma_prefix_entries(h, hl);
    assert forall|i: int|
        0 <= i < h.len() && i != handshake_len(h) implies !(#[trigger] request_at(
        op,
        h,
        i,
    ) is SetMute) by {
        lemma_prefix_entries(h, i);
        if i > hl {
            assert(h.take(i).subrange(hl, i)[0] == h[hl]);
        }
    }
}

/// `on` and `off` against a microphone leave it in the state they name: a
/// successful `on` leaves it muted and a successful `off` leaves it live,
/// with its lock as it was, whatever its mute and lock state were before.
pub proof fn on_and_off_on_a_device(op: Operation, d: DeviceState, h: Seq<OutcomeView>)
    requires
        op == Operation::Run(Command::On) || op == Operation::Run(Command::Off),
        completed(op, h),
        against_device(op, d, h),
        result_of(op, h) is Ok,
    ensures
        device_after(op, d, h, h.len() as nat) == (DeviceState {
            muted: op == Operation::Run(Command::On),
            locked: d.locked,
        }),
{
    lemma_device_steps(op, d, h);
    lemma_history_entries(h);
    on_and_off_set_the_mute_state(op, h);
    let on = op == Operation::Run(Command::On);
    assert(answered_truthfully(op, d, h, 3));
    assert(reply_fits(request_at(op, h, 3), h[3]));
    assert(flag_of(h[3]) == d.locked);
    if found_locked(h) {
        assert(!failed(h[4]));
        assert(request_at(op, h, 4) == Request::SetLock(false));
        assert(device_after(op, d, h, 4) == d);
        assert(device_after(op, d, h, 5) == DeviceState { muted: d.muted, locked: false });
        assert(!failed(h[5]));
        assert(device_after(op, d, h, 6) == DeviceState { muted: on, locked: false });
        assert(h.take(6) =~= h.drop_last());
        assert(!failed(h[6]));
        assert(device_after(op, d, h, 7) == DeviceState { muted: on, locked: true });
    } else {
        assert(!failed(h[4]));
        assert(request_at(op, h, 4) == Request::SetMute(on));
        assert(device_after(op, d, h, 4) == d);
        assert(device_after(op, d, h, 5) == DeviceState { muted: on, locked: d.locked });
    }
}

} // verus!
