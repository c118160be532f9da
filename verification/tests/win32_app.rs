use windows_helpers::win32_app::error::clear_app_error;
use windows_helpers::win32_app::error::just_try;
use windows_helpers::win32_app::error::set_app_error_if_absent;
use windows_helpers::win32_app::error::take_app_error;
use windows_helpers::win32_app::error::try_or_panic;
use windows_helpers::win32_app::error::try_or_quit_now;
use windows_helpers::win32_app::error::try_or_set_app_error;
use windows_helpers::win32_app::error::try_then_favor_app_error;
use windows_helpers::win32_app::error::AppErrorStore;
use windows_helpers::win32_app::msg_loop::classify_retrieved_msg;
use windows_helpers::win32_app::msg_loop::quit_now;
use windows_helpers::win32_app::msg_loop::run_exit_code;
use windows_helpers::win32_app::msg_loop::Msg;
use windows_helpers::win32_app::msg_loop::MsgLoopControl;
use windows_helpers::win32_app::msg_loop::MsgLoopStep;
use windows_helpers::win32_app::msg_loop::WM_QUIT;
use windows_helpers::Zeroed;

#[test]
fn first_app_error_wins() {
    let mut store: AppErrorStore<&str> = AppErrorStore::new();
    set_app_error_if_absent(&mut store, "first");
    set_app_error_if_absent(&mut store, "second");
    assert_eq!(take_app_error(&mut store), Some("first"));
    assert_eq!(take_app_error(&mut store), None);
}

#[test]
fn clearing_drops_the_error() {
    let mut store: AppErrorStore<&str> = AppErrorStore::new();
    set_app_error_if_absent(&mut store, "kept");
    clear_app_error(&mut store);
    assert_eq!(take_app_error(&mut store), None);
}

#[test]
fn just_try_returns_the_result() {
    assert_eq!(just_try(|| Ok::<u32, u8>(7)), Ok(7));
    assert_eq!(just_try(|| Err::<u32, u8>(3)), Err(3));
}

#[test]
fn try_or_set_app_error_records_failures() {
    let mut store: AppErrorStore<&str> = AppErrorStore::new();
    assert_eq!(try_or_set_app_error(&mut store, || Ok::<u32, &str>(3)), Some(3));
    assert_eq!(take_app_error(&mut store), None);

    assert_eq!(try_or_set_app_error(&mut store, || Err::<u32, &str>("lost")), None);
    assert_eq!(take_app_error(&mut store), Some("lost"));
}

#[test]
fn try_or_quit_now_requests_the_quit() {
    let mut store: AppErrorStore<&str> = AppErrorStore::new();
    let mut control = MsgLoopControl::new();
    assert_eq!(
        try_or_quit_now(&mut store, &mut control, || Ok::<u32, &str>(2)),
        Some(2)
    );
    assert_eq!(control.quit_exit_code(), None);

    assert_eq!(
        try_or_quit_now(&mut store, &mut control, || Err::<u32, &str>("fatal")),
        None
    );
    assert_eq!(control.quit_exit_code(), Some(1));
    assert_eq!(take_app_error(&mut store), Some("fatal"));
}

#[test]
fn try_or_panic_returns_the_success_value() {
    assert_eq!(try_or_panic(|| Ok::<u32, u8>(5)), 5);
}

#[test]
fn app_error_is_favored_over_the_action_result() {
    let store: AppErrorStore<&str> = AppErrorStore::new();
    let (store, r) = try_then_favor_app_error(store, |mut store| {
        set_app_error_if_absent(&mut store, "recorded during the action");
        (store, Ok::<u32, &str>(1))
    });
    assert_eq!(r, Err("recorded during the action"));
    assert_eq!(
        {
            let mut store = store;
            take_app_error(&mut store)
        },
        None
    );

    let store: AppErrorStore<&str> = AppErrorStore::new();
    let (_, r) = try_then_favor_app_error(store, |store| (store, Ok::<u32, &str>(1)));
    assert_eq!(r, Ok(1));
}

#[test]
fn retrieval_failure_fails_the_loop() {
    let control = MsgLoopControl::new();
    let msg = Msg::zeroed();
    assert_eq!(classify_retrieved_msg(-1, msg, &control), MsgLoopStep::Fail);
}

#[test]
fn quit_message_finishes_the_loop() {
    let control = MsgLoopControl::new();
    let msg = Msg { hwnd: 0, message: WM_QUIT, wparam: 3, lparam: 0 };
    assert_eq!(classify_retrieved_msg(0, msg, &control), MsgLoopStep::Finish(msg));
}

#[test]
fn a_quit_request_overrides_the_next_message() {
    let mut control = MsgLoopControl::new();
    quit_now(&mut control, 9);
    assert_eq!(control.quit_exit_code(), Some(9));
    let msg = Msg { hwnd: 12, message: 0x400, wparam: 1, lparam: 2 };
    assert_eq!(
        classify_retrieved_msg(1, msg, &control),
        MsgLoopStep::Finish(Msg { hwnd: 0, message: WM_QUIT, wparam: 9, lparam: 0 })
    );
}

#[test]
fn thread_and_window_messages_are_dispatched() {
    let control = MsgLoopControl::new();
    let thread_msg = Msg { hwnd: 0, message: 0x401, wparam: 0, lparam: 0 };
    assert_eq!(
        classify_retrieved_msg(1, thread_msg, &control),
        MsgLoopStep::DispatchThenFinish(thread_msg)
    );
    let window_msg = Msg { hwnd: 7, message: 0x401, wparam: 0, lparam: 0 };
    assert_eq!(
        classify_retrieved_msg(1, window_msg, &control),
        MsgLoopStep::DispatchThenContinue(window_msg)
    );
}

#[test]
fn run_returns_the_quit_exit_code() {
    let quit = Msg { hwnd: 0, message: WM_QUIT, wparam: 4, lparam: 0 };
    assert_eq!(run_exit_code(&quit), Some(4));
    let other = Msg { hwnd: 0, message: 0x400, wparam: 4, lparam: 0 };
    assert_eq!(run_exit_code(&other), None);
}
