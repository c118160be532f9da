use vstd::prelude::*;

use crate::empty::Zeroed;

verus! {

/// The thread message that asks the message loop to end, carrying the exit
/// code in its first parameter word.
pub const WM_QUIT: u32 = 0x12;

/// A retrieved thread or window message: the target window's handle word (0
/// for a thread message), the message identifier, and its two parameter
/// words.
#[derive(Clone, Copy, Debug, PartialEq, Eq, Structural)]
pub struct Msg {
    pub hwnd: isize,
    pub message: u32,
    pub wparam: usize,
    pub lparam: isize,
}

impl Zeroed for Msg {
    open spec fn zeroed_spec() -> Msg {
        Msg { hwnd: 0, message: 0, wparam: 0, lparam: 0 }
    }

    fn zeroed() -> (r: Msg) {
        Msg { hwnd: 0, message: 0, wparam: 0, lparam: 0 }
    }
}

/// The loop's request to quit as soon as possible: once an exit code is
/// recorded here, the very next retrieved message is read as a quit message
/// with that code.
pub struct MsgLoopControl {
    quit_exit_code: Option<i32>,
}

impl MsgLoopControl {
    /// The recorded exit code, if quitting was requested.
    pub closed spec fn quit_exit_code_spec(self) -> Option<i32> {
        self.quit_exit_code
    }

    /// A control with no quit request recorded.
    pub fn new() -> (r: MsgLoopControl)
        ensures
            r.quit_exit_code_spec() is None,
    {
        MsgLoopControl { quit_exit_code: None }
    }

    /// The recorded exit code, if quitting was requested.
    pub fn quit_exit_code(&self) -> (r: Option<i32>)
        ensures
            r == self.quit_exit_code_spec(),
    {
        self.quit_exit_code
    }
}

/// Records that the message loop is to quit as soon as possible, with the
/// given exit code. The caller follows up by posting a quit message, so a
/// blocked retrieval wakes up.
pub fn quit_now(control: &mut MsgLoopControl, exit_code: i32)
    ensures
        final(control).quit_exit_code_spec() == Some(exit_code),
{
    control.quit_exit_code = Some(exit_code);
}

/// What the loop does with one retrieved message.
#[derive(Clone, Copy, Debug, PartialEq, Eq, Structural)]
pub enum MsgLoopStep {
    /// Retrieval itself failed; the loop ends with the error the system
    /// error code maps to.
    Fail,
    /// A quit message: the loop hands the message back without dispatching
    /// it.
    Finish(Msg),
    /// A thread message: it is dispatched, then handed back.
    DispatchThenFinish(Msg),
    /// A window message: it is dispatched, and the loop continues.
    DispatchThenContinue(Msg),
}

/// The message as the loop reads it: while a quit request is recorded, any
/// successfully retrieved message is replaced by a quit thread message
/// carrying the recorded exit code.
pub open spec fn spec_overridden_msg(msg: Msg, control_code: Option<i32>) -> Msg {
    match control_code {
        Some(exit_code) => Msg {
            hwnd: 0,
            message: WM_QUIT,
            wparam: exit_code as usize,
            lparam: 0,
        },
        Option::None => msg,
    }
}

/// The decision for one retrieved message: a retrieval result of -1 is a
/// failure; a result of 0 (or a recorded quit request) finishes the loop
/// with the (possibly overridden) message; any other message is dispatched,
/// and finishes the loop only if it is a thread message.
pub open spec fn spec_classify_retrieved_msg(
    get_msg_retval: i32,
    msg: Msg,
    control_code: Option<i32>,
) -> MsgLoopStep {
    if get_msg_retval == -1 {
        MsgLoopStep::Fail
    } else {
        let read = spec_overridden_msg(msg, control_code);
        let retval: i32 = if control_code is Some {
            0
        } else {
            get_msg_retval
        };
        if retval == 0 {
            MsgLoopStep::Finish(read)
        } else if read.hwnd == 0 {
            MsgLoopStep::DispatchThenFinish(read)
        } else {
            MsgLoopStep::DispatchThenContinue(read)
        }
    }
}

/// Decides what the loop does with one retrieved message, as
/// [`spec_classify_retrieved_msg`] describes. `get_msg_retval` is the
/// retrieval call's return value: -1 for failure, 0 for a quit message, any
/// other value for an ordinary message.
pub fn classify_retrieved_msg(get_msg_retval: i32, msg: Msg, control: &MsgLoopControl) -> (r:
    MsgLoopStep)
    ensures
        r == spec_classify_retrieved_msg(get_msg_retval, msg, control.quit_exit_code_spec()),
{
    if get_msg_retval == -1 {
        MsgLoopStep::Fail
    } else {
        let (retval, read): (i32, Msg) = match control.quit_exit_code {
            Some(exit_code) => (
                0,
                Msg {
                    hwnd: 0,
                    message: WM_QUIT,
                    wparam: #[verifier::truncate] (exit_code as usize),
                    lparam: 0,
                },
            ),
            Option::None => (get_msg_retval, msg),
        };
        if retval == 0 {
            MsgLoopStep::Finish(read)
        } else if read.hwnd == 0 {
            MsgLoopStep::DispatchThenFinish(read)
        } else {
            MsgLoopStep::DispatchThenContinue(read)
        }
    }
}

/// The exit code that a finished loop run yields for a message: the first
/// parameter word of a quit message, nothing for any other message, which
/// asks the caller to keep the loop running.
pub open spec fn spec_run_exit_code(msg: Msg) -> Option<usize> {
    if msg.message == WM_QUIT {
        Some(msg.wparam)
    } else {
        Option::None
    }
}

/// For a message that finished one loop run: the exit code to return if it
/// is the quit message, or nothing if the loop is to run again (a custom
/// thread message is ignored by a plain run).
pub fn run_exit_code(msg: &Msg) -> (r: Option<usize>)
    ensures
        r == spec_run_exit_code(*msg),
{
    if msg.message == WM_QUIT {
        Some(msg.wparam)
    } else {
        Option::None
    }
}

} // verus!
