use windows_helpers::win32_app::tray_icon::translate_window_msg;
use windows_helpers::win32_app::tray_icon::BalloonIcon;
use windows_helpers::win32_app::tray_icon::SimplifiedTrayIconMsg;
use windows_helpers::win32_app::tray_icon::TrayIcon;
use windows_helpers::win32_app::tray_icon::TrayIconMsg;
use windows_helpers::win32_app::tray_icon::INFO_LEN;
use windows_helpers::win32_app::tray_icon::INFO_TITLE_LEN;
use windows_helpers::win32_app::tray_icon::NIF_ICON;
use windows_helpers::win32_app::tray_icon::NIF_INFO;
use windows_helpers::win32_app::tray_icon::NIF_MESSAGE;
use windows_helpers::win32_app::tray_icon::NIF_REALTIME;
use windows_helpers::win32_app::tray_icon::NIF_SHOWTIP;
use windows_helpers::win32_app::tray_icon::NIF_STATE;
use windows_helpers::win32_app::tray_icon::NIF_TIP;
use windows_helpers::win32_app::tray_icon::NIIF_LARGE_ICON;
use windows_helpers::win32_app::tray_icon::NIIF_NOSOUND;
use windows_helpers::win32_app::tray_icon::NIIF_RESPECT_QUIET_TIME;
use windows_helpers::win32_app::tray_icon::NIIF_WARNING;
use windows_helpers::win32_app::tray_icon::NIN_KEYSELECT;
use windows_helpers::win32_app::tray_icon::NIN_SELECT;
use windows_helpers::win32_app::tray_icon::NIS_HIDDEN;
use windows_helpers::win32_app::tray_icon::TIP_LEN;
use windows_helpers::win32_app::tray_icon::WM_CONTEXTMENU;
use windows_helpers::win32_app::window::translate_command_msg;
use windows_helpers::win32_app::window::CommandMsg;

#[test]
fn fresh_icon_data() {
    let icon = TrayIcon::with_id(7, Some(0x8000));
    assert_eq!(icon.id, 7);
    assert!(!icon.has_guid);
    assert_eq!(icon.callback_message_id, 0x8000);
    assert_eq!(icon.flags, NIF_STATE | NIF_INFO | NIF_MESSAGE);
    assert_eq!(icon.state, NIS_HIDDEN);
    assert_eq!(icon.state_mask, NIS_HIDDEN);
    assert_eq!(icon.info_flags, 0);
    assert_eq!(icon.tip, vec![0u16; TIP_LEN]);
    assert_eq!(icon.info, vec![0u16; INFO_LEN]);
    assert_eq!(icon.info_title, vec![0u16; INFO_TITLE_LEN]);
    assert!(!icon.is_shown());

    let primary = TrayIcon::with_primary_id(None);
    assert_eq!(primary.id, 0);
    assert_eq!(primary.flags, NIF_STATE | NIF_INFO);
    assert_eq!(primary.callback_message_id, 0);

    let by_guid = TrayIcon::with_guid(Some(0x8001));
    assert!(by_guid.has_guid);
    assert_eq!(
        by_guid.flags,
        NIF_STATE
            | NIF_INFO
            | NIF_MESSAGE
            | windows_helpers::win32_app::tray_icon::NIF_GUID
    );
}

#[test]
fn show_and_hide_touch_only_the_hidden_bit() {
    let mut icon = TrayIcon::with_id(0, None);
    icon.show(true);
    assert_eq!(icon.state, 0);
    assert_eq!(icon.state_mask, NIS_HIDDEN);
    assert!(icon.is_shown());
    icon.state_mask = 0; // what the caller does after its shell call

    icon.show(false);
    assert_eq!(icon.state, NIS_HIDDEN);
    assert_eq!(icon.state_mask, NIS_HIDDEN);
    assert!(!icon.is_shown());
}

#[test]
fn icons_are_recorded() {
    let mut icon = TrayIcon::with_id(0, None);
    icon.set_icon(123);
    assert_eq!(icon.icon, 123);
    assert_eq!(icon.flags & NIF_ICON, NIF_ICON);

    icon.set_balloon_icon(Some(9));
    assert_eq!(icon.balloon_icon, 9);
    icon.set_balloon_icon(None);
    assert_eq!(icon.balloon_icon, 0);
}

#[test]
fn tooltip_is_written_and_cleared() {
    let mut icon = TrayIcon::with_id(0, None);
    let text: Vec<u16> = vec![0x48, 0x69];
    icon.set_tooltip(Some(&text));
    assert_eq!(icon.flags & (NIF_TIP | NIF_SHOWTIP), NIF_TIP | NIF_SHOWTIP);
    assert_eq!(&icon.tip[..3], &[0x48, 0x69, 0]);

    icon.set_tooltip(None);
    assert_eq!(icon.flags & (NIF_TIP | NIF_SHOWTIP), 0);
}

#[test]
fn balloon_preparation_and_reset() {
    let mut icon = TrayIcon::with_id(0, None);
    icon.set_balloon_uses_large_icon(true);
    assert_eq!(icon.info_flags, NIIF_LARGE_ICON);

    let empty: Vec<u16> = Vec::new();
    icon.show_balloon(BalloonIcon::Warning, None, &empty, true, false, false);
    assert_eq!(
        icon.info_flags,
        NIIF_LARGE_ICON | NIIF_WARNING | NIIF_RESPECT_QUIET_TIME | NIIF_NOSOUND
    );
    assert_eq!(icon.flags & NIF_REALTIME, NIF_REALTIME);
    // An empty text becomes a single space, so the balloon is not judged
    // empty and suppressed.
    assert_eq!(&icon.info[..2], &[0x20, 0]);
    assert_eq!(icon.info_title[0], 0);

    icon.reset_after_balloon();
    assert_eq!(icon.info[0], 0);
    assert_eq!(icon.flags & NIF_REALTIME, 0);
    // The large-icon choice survives the reset; the one-shot bits go.
    assert_eq!(icon.info_flags, NIIF_LARGE_ICON);
}

#[test]
fn balloon_with_title_and_text() {
    let mut icon = TrayIcon::with_id(0, None);
    let title: Vec<u16> = vec![0x54];
    let text: Vec<u16> = vec![0x68, 0x65, 0x6C, 0x6C, 0x6F];
    icon.show_balloon(BalloonIcon::Info, Some(&title), &text, false, true, true);
    assert_eq!(&icon.info_title[..2], &[0x54, 0]);
    assert_eq!(&icon.info[..6], &[0x68, 0x65, 0x6C, 0x6C, 0x6F, 0]);
    assert_eq!(icon.flags & NIF_REALTIME, 0);

    icon.hide_balloon();
    assert_eq!(icon.info[0], 0);
}

#[test]
fn window_msg_translation() {
    let lparam = ((5isize << 16) | 0x400) as isize;
    let wparam = (((20u16 as usize) << 16) | ((-10i16 as u16) as usize)) as usize;
    assert_eq!(
        translate_window_msg(wparam, lparam),
        TrayIconMsg { msg_id: NIN_SELECT, icon_id: 5, x: -10, y: 20 }
    );
}

#[test]
fn simplifying_translation() {
    let select = 0x400isize; // NIN_SELECT in the low word, icon 0
    assert_eq!(
        TrayIcon::simplifying_translate_window_msg(0, select, 600, 500),
        SimplifiedTrayIconMsg::Activated
    );
    assert_eq!(
        TrayIcon::simplifying_translate_window_msg(0, select, 400, 500),
        SimplifiedTrayIconMsg::Other(TrayIconMsg { msg_id: NIN_SELECT, icon_id: 0, x: 0, y: 0 })
    );
    let keyselect = NIN_KEYSELECT as isize;
    assert_eq!(
        TrayIcon::simplifying_translate_window_msg(0, keyselect, 501, 500),
        SimplifiedTrayIconMsg::Activated
    );

    let context_menu = WM_CONTEXTMENU as isize;
    let wparam = (((7u16 as usize) << 16) | (3u16 as usize)) as usize;
    assert_eq!(
        TrayIcon::simplifying_translate_window_msg(wparam, context_menu, 0, 500),
        SimplifiedTrayIconMsg::ContextMenuRequested { x: 3, y: 7 }
    );

    let other = 0x200isize;
    assert_eq!(
        TrayIcon::simplifying_translate_window_msg(0, other, 600, 500),
        SimplifiedTrayIconMsg::Other(TrayIconMsg { msg_id: 0x200, icon_id: 0, x: 0, y: 0 })
    );
}

#[test]
fn command_msg_translation() {
    assert_eq!(
        translate_command_msg(0x0000_0042, 0),
        CommandMsg::MenuItem { id: 0x42 }
    );
    assert_eq!(
        translate_command_msg(0x0001_0042, 0),
        CommandMsg::Accelerator { id: 0x42 }
    );
    assert_eq!(
        translate_command_msg(0x0007_0042, 99),
        CommandMsg::ControlMsg { msg_id: 7, control_id: 0x42, control_hwnd: 99 }
    );
}
