//! The MV7 HID text protocol: the requests an invocation makes of the
//! microphone, the command text each one sends, and how a reply is read.
use vstd::prelude::*;
use crate::merge::err_view;
use crate::text::{seq_contains, str_contains};

verus! {

/// One exchange with the microphone. `Open` stands for opening the HID
/// device; every other request sends one command line.
#[derive(Clone, Copy, Debug, PartialEq, Eq, Structural)]
pub enum Request {
    /// Open the HID interface of the microphone.
    Open,
    /// `su adm`, answered by `su=adm`.
    Authenticate,
    /// `bootDSP C`, answered by `dspBooted`.
    BootDsp,
    /// `lock`, answered by `lock=on` or `lock=off`.
    QueryLock,
    /// `lock on` / `lock off`, not answered.
    SetLock(bool),
    /// `micMute`, answered by `micMute=on` or `micMute=off`.
    QueryMute,
    /// `micMute on` / `micMute off`, not answered.
    SetMute(bool),
}

/// How an exchange ended.
#[derive(Clone, Debug, PartialEq, Eq)]
pub enum Outcome {
    /// The command was sent (and its reply, if one was awaited, arrived).
    Done,
    /// A query was answered with this flag.
    Flag(bool),
    /// The exchange failed with this message.
    Failed(String),
}

/// The mathematical value of an [`Outcome`].
pub enum OutcomeView {
    Done,
    Flag(bool),
    Failed(Seq<char>),
}

impl View for Outcome {
    type V = OutcomeView;

    open spec fn view(&self) -> OutcomeView {
        match self {
            Outcome::Done => OutcomeView::Done,
            Outcome::Flag(b) => OutcomeView::Flag(*b),
            Outcome::Failed(e) => OutcomeView::Failed(e@),
        }
    }
}

/// Whether an exchange failed.
pub open spec fn failed(o: OutcomeView) -> bool {
    o is Failed
}

/// The message of a failed exchange (empty otherwise).
pub open spec fn error_of(o: OutcomeView) -> Seq<char> {
    match o {
        OutcomeView::Failed(e) => e,
        _ => seq![],
    }
}

/// The flag a query was answered with (`false` for other outcomes).
pub open spec fn flag_of(o: OutcomeView) -> bool {
    match o {
        OutcomeView::Flag(b) => b,
        _ => false,
    }
}

/// The outcome of re-locking the device, as a result.
pub open spec fn restore_result(o: OutcomeView) -> Result<(), Seq<char>> {
    match o {
        OutcomeView::Failed(e) => Err(e),
        _ => Ok(()),
    }
}

impl Outcome {
    /// Whether the exchange failed.
    pub fn is_failed(&self) -> (b: bool)
        ensures
            b == failed(self@),
    {
        match self {
            Outcome::Failed(_) => true,
            _ => false,
        }
    }

    /// The flag of an answered query.
    pub fn flag(&self) -> (b: bool)
        ensures
            b == flag_of(self@),
    {
        match self {
            Outcome::Flag(b) => *b,
            _ => false,
        }
    }

    /// The message of a failed exchange.
    pub fn error(&self) -> (e: String)
        ensures
            e@ == error_of(self@),
    {
        match self {
            Outcome::Failed(e) => e.clone(),
            _ => String::new(),
        }
    }

    /// This outcome, taken as the result of re-locking the device.
    pub fn as_restore(&self) -> (r: Result<(), String>)
        ensures
            err_view(r) == restore_result(self@),
    {
        match self {
            Outcome::Failed(e) => Err(e.clone()),
            _ => Ok(()),
        }
    }
}

/// The command line a request sends (empty for `Open`, which sends none).
pub open spec fn command_text(r: Request) -> Seq<char> {
    match r {
        Request::Open => seq![],
        Request::Authenticate => "su adm"@,
        Request::BootDsp => "bootDSP C"@,
        Request::QueryLock => "lock"@,
        Request::SetLock(on) => if on {
            "lock on"@
        } else {
            "lock off"@
        },
        Request::QueryMute => "micMute"@,
        Request::SetMute(on) => if on {
            "micMute on"@
        } else {
            "micMute off"@
        },
    }
}

/// How long, in milliseconds after its command was sent, a request waits for
/// its reply; `None` for requests that are not answered.
pub open spec fn reply_window(r: Request) -> Option<u64> {
    match r {
        Request::Authenticate => Some(3000),
        Request::BootDsp => Some(5000),
        Request::QueryLock => Some(2000),
        Request::QueryMute => Some(2000),
        _ => None,
    }
}

/// Timeout of one read of the HID device, in milliseconds.
pub const READ_TIMEOUT_MS: i32 = 200;

/// The outcome that a received message settles for a request awaiting its
/// reply, or `None` when the message does not answer it.
pub open spec fn reply_outcome(r: Request, msg: Seq<char>) -> Option<OutcomeView> {
    match r {
        Request::Authenticate => if seq_contains(msg, "su=adm"@) {
            Some(OutcomeView::Done)
        } else {
            None
        },
        Request::BootDsp => if seq_contains(msg, "dspBooted"@) {
            Some(OutcomeView::Done)
        } else {
            None
        },
        Request::QueryLock => if seq_contains(msg, "lock=on"@) {
            Some(OutcomeView::Flag(true))
        } else if seq_contains(msg, "lock=off"@) {
            Some(OutcomeView::Flag(false))
        } else {
            None
        },
        Request::QueryMute => if seq_contains(msg, "micMute=on"@) {
            Some(OutcomeView::Flag(true))
        } else if seq_contains(msg, "micMute=off"@) {
            Some(OutcomeView::Flag(false))
        } else {
            None
        },
        _ => None,
    }
}

/// The error a request ends with when no reply came within its window.
pub open spec fn timeout_error(r: Request) -> Seq<char> {
    match r {
        Request::Authenticate => "Timeout waiting for \"su=adm\""@,
        Request::BootDsp => "Timeout waiting for \"dspBooted\""@,
        Request::QueryLock => "Timeout waiting for lock response"@,
        Request::QueryMute => "Timeout waiting for micMute response"@,
        _ => seq![],
    }
}

impl Request {
    /// The command line this request sends.
    pub fn command(self) -> (s: String)
        ensures
            s@ == command_text(self),
    {
        match self {
            Request::Open => String::new(),
            Request::Authenticate => "su adm".to_owned(),
            Request::BootDsp => "bootDSP C".to_owned(),
            Request::QueryLock => "lock".to_owned(),
            Request::SetLock(on) => if on {
                "lock on".to_owned()
            } else {
                "lock off".to_owned()
            },
            Request::QueryMute => "micMute".to_owned(),
            Request::SetMute(on) => if on {
                "micMute on".to_owned()
            } else {
                "micMute off".to_owned()
            },
        }
    }

    /// The reply window of this request, in milliseconds.
    pub fn window_ms(self) -> (w: Option<u64>)
        ensures
            w == reply_window(self),
    {
        match self {
            Request::Authenticate => Some(3000),
            Request::BootDsp => Some(5000),
            Request::QueryLock => Some(2000),
            Request::QueryMute => Some(2000),
            _ => None,
        }
    }

    /// Reads a received message as the reply to this request.
    pub fn read_reply(self, msg: &str) -> (o: Option<Outcome>)
        ensures
            match o {
                Some(x) => reply_outcome(self, msg@) == Some(x@),
                None => reply_outcome(self, msg@) is None,
            },
    {
        match self {
            Request::Authenticate => if str_contains(msg, "su=adm") {
                Some(Outcome::Done)
            } else {
                None
            },
            Request::BootDsp => if str_contains(msg, "dspBooted") {
                Some(Outcome::Done)
            } else {
                None
            },
            Request::QueryLock => if str_contains(msg, "lock=on") {
                Some(Outcome::Flag(true))
            } else if str_contains(msg, "lock=off") {
                Some(Outcome::Flag(false))
            } else {
                None
            },
            Request::QueryMute => if str_contains(msg, "micMute=on") {
                Some(Outcome::Flag(true))
            } else if str_contains(msg, "micMute=off") {
                Some(Outcome::Flag(false))
            } else {
                None
            },
            _ => None,
        }
    }

    /// The error this request ends with when its reply window closes.
    pub fn timeout_message(self) -> (s: String)
        ensures
            s@ == timeout_error(self),
    {
        match self {
            Request::Authenticate => "Timeout waiting for \"su=adm\"".to_owned(),
            Request::BootDsp => "Timeout waiting for \"dspBooted\"".to_owned(),
            Request::QueryLock => "Timeout waiting for lock response".to_owned(),
            Request::QueryMute => "Timeout waiting for micMute response".to_owned(),
            _ => String::new(),
        }
    }
}

/// Setting commands say what they set: `lock on` / `micMute on` ends in
/// ` on` exactly when it turns the setting on, the lock commands begin with
/// `lock` and the mute commands with `micMute`, and no two different
/// device requests send the same line.
pub proof fn commands_name_their_request(r1: Request, r2: Request, on: bool)
    ensures
        r1 != Request::Open && r2 != Request::Open && r1 != r2 ==> command_text(r1) != command_text(
            r2,
        ),
        (command_text(Request::SetLock(on)).subrange(4, command_text(Request::SetLock(on)).len() as int)
            == " on"@) == on,
        (command_text(Request::SetMute(on)).subrange(7, command_text(Request::SetMute(on)).len() as int)
            == " on"@) == on,
        command_text(Request::SetLock(on)).subrange(0, 4) == "lock"@,
        command_text(Request::SetMute(on)).subrange(0, 7) == "micMute"@,
{
    reveal_strlit("su adm");
    reveal_strlit("bootDSP C");
    reveal_strlit("lock");
    reveal_strlit("lock on");
    reveal_strlit("lock off");
    reveal_strlit("micMute");
    reveal_strlit("micMute on");
    reveal_strlit("micMute off");
    reveal_strlit(" on");
    assert("lock on"@.subrange(4, 7) =~= " on"@);
    assert("micMute on"@.subrange(7, 10) =~= " on"@);
    assert("lock off"@.subrange(4, 8).len() != " on"@.len());
    assert("micMute off"@.subrange(7, 11).len() != " on"@.len());
    assert("lock on"@.subrange(0, 4) =~= "lock"@);
    assert("lock off"@.subrange(0, 4) =~= "lock"@);
    assert("micMute on"@.subrange(0, 7) =~= "micMute"@);
    assert("micMute off"@.subrange(0, 7) =~= "micMute"@);
    if r1 != Request::Open && r2 != Request::Open && r1 != r2 {
        let a = command_text(r1);
        let b = command_text(r2);
        if a.len() == b.len() {
            // Lines of equal length differ near their ends.
            assert(a[0] != b[0] || a[1] != b[1] || a[a.len() - 1] != b[b.len() - 1] || a[a.len()
                - 2] != b[b.len() - 2]);
        }
    }
}

} // verus!
