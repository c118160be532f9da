use vstd::pervasive::unreached;
use vstd::prelude::*;

use crate::win32_app::msg_loop::quit_now;
use crate::win32_app::msg_loop::MsgLoopControl;

verus! {

/// The application error of one message loop: the first error that the
/// loop's callbacks could not hand to a caller directly, kept until the loop
/// ends. A window procedure has no caller of its own to give an error to;
/// it records the error here instead, and the code around the loop takes it
/// out afterwards.
pub struct AppErrorStore<E> {
    error: Option<E>,
}

impl<E> AppErrorStore<E> {
    /// The kept error, if one was recorded.
    pub closed spec fn error_spec(self) -> Option<E> {
        self.error
    }

    /// A store with no error recorded.
    pub fn new() -> (r: Self)
        ensures
            r.error_spec() is None,
    {
        AppErrorStore { error: None }
    }
}

/// Records the error, unless one was recorded already: the first error wins,
/// later ones are dropped.
pub fn set_app_error_if_absent<E>(store: &mut AppErrorStore<E>, error: E)
    ensures
        final(store).error_spec() == (match old(store).error_spec() {
            Some(kept) => Some(kept),
            Option::None => Some(error),
        }),
{
    if store.error.is_none() {
        store.error = Some(error);
    }
}

/// Drops any recorded error.
pub fn clear_app_error<E>(store: &mut AppErrorStore<E>)
    ensures
        final(store).error_spec() is None,
{
    store.error = None;
}

/// Clears the store and returns what it kept.
pub fn take_app_error<E>(store: &mut AppErrorStore<E>) -> (r: Option<E>)
    ensures
        r == old(store).error_spec(),
        final(store).error_spec() is None,
{
    store.error.take()
}

/// Just returns the action's result, so uses of the question-mark operator
/// can be gathered in one place.
pub fn just_try<F, T, E>(action: F) -> (r: Result<T, E>) where F: FnOnce() -> Result<T, E>
    requires
        call_requires(action, ()),
    ensures
        call_ensures(action, (), r),
{
    action()
}

/// Runs the action; its success value is handed back, while its error is
/// recorded in the store (unless one was recorded already) and swallowed.
pub fn try_or_set_app_error<F, T, E>(store: &mut AppErrorStore<E>, action: F) -> (r: Option<T>) where
    F: FnOnce() -> Result<T, E>,

    requires
        call_requires(action, ()),
    ensures
        exists|outcome: Result<T, E>|
            #[trigger] call_ensures(action, (), outcome) && (match outcome {
                Ok(t) => r == Some(t) && final(store).error_spec() == old(store).error_spec(),
                Err(e) => r is None && final(store).error_spec() == (match old(
                    store,
                ).error_spec() {
                    Some(kept) => Some(kept),
                    Option::None => Some(e),
                }),
            }),
{
    match action() {
        Ok(t) => Some(t),
        Err(error) => {
            set_app_error_if_absent(store, error);
            None
        },
    }
}

/// Like [`try_or_set_app_error`], and on failure additionally records a
/// quit request with exit code 1, so the message loop ends as soon as
/// possible. The caller follows up by posting a quit message.
pub fn try_or_quit_now<F, T, E>(
    store: &mut AppErrorStore<E>,
    control: &mut MsgLoopControl,
    action: F,
) -> (r: Option<T>) where F: FnOnce() -> Result<T, E>
    requires
        call_requires(action, ()),
    ensures
        exists|outcome: Result<T, E>|
            #[trigger] call_ensures(action, (), outcome) && (match outcome {
                Ok(t) => r == Some(t) && final(store).error_spec() == old(store).error_spec()
                    && final(control).quit_exit_code_spec() == old(
                    control,
                ).quit_exit_code_spec(),
                Err(e) => r is None && final(store).error_spec() == (match old(
                    store,
                ).error_spec() {
                    Some(kept) => Some(kept),
                    Option::None => Some(e),
                }) && final(control).quit_exit_code_spec() == Some(1i32),
            }),
{
    let option = try_or_set_app_error(store, action);
    if option.is_none() {
        quit_now(control, 1);
    }
    option
}

/// Runs an action that cannot fail and returns its success value: the
/// action's contract must rule failure out, so no panicking unwrap is ever
/// reached.
pub fn try_or_panic<F, T, E>(action: F) -> (r: T) where F: FnOnce() -> Result<T, E>
    requires
        call_requires(action, ()),
        forall|outcome: Result<T, E>| #[trigger] call_ensures(action, (), outcome) ==> outcome
            is Ok,
    ensures
        call_ensures(action, (), Ok(r)),
{
    match action() {
        Ok(t) => t,
        Err(_) => unreached(),
    }
}

/// Runs the action, then reports the store's error in preference to the
/// action's own result: even when the action succeeds, one of the loop's
/// callbacks may have recorded an error during it. The action receives the
/// store, so its callbacks can record into it; the store comes back cleared.
pub fn try_then_favor_app_error<F, T, E>(store: AppErrorStore<E>, action: F) -> (r: (
    AppErrorStore<E>,
    Result<T, E>,
)) where F: FnOnce(AppErrorStore<E>) -> (AppErrorStore<E>, Result<T, E>)
    requires
        call_requires(action, (store,)),
    ensures
        r.0.error_spec() is None,
        exists|mid: AppErrorStore<E>, outcome: Result<T, E>|
            #[trigger] call_ensures(action, (store,), (mid, outcome)) && r.1 == (match
            mid.error_spec() {
                Some(e) => Err::<T, E>(e),
                Option::None => outcome,
            }),
{
    let (mut mid, outcome) = action(store);
    let recorded = take_app_error(&mut mid);
    match recorded {
        Some(e) => (mid, Err(e)),
        Option::None => (mid, outcome),
    }
}

} // verus!
