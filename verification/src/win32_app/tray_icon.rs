use vstd::pervasive::VecAdditionalExecFns;
use vstd::prelude::*;

use crate::bit_manipulation::build_bit_flag_set;
use crate::bit_manipulation::spec_bit_flag_set;
use crate::bit_manipulation::Width32BitPortion;
use crate::hstring::spec_write_fits;
use crate::hstring::spec_written_wide;
use crate::hstring::HStringExt;

verus! {

/// The icon's callback message identifier is meaningful.
pub const NIF_MESSAGE: u32 = 0x1;

/// The icon's image handle is meaningful.
pub const NIF_ICON: u32 = 0x2;

/// The tooltip text is meaningful.
pub const NIF_TIP: u32 = 0x4;

/// The state word and its mask are meaningful.
pub const NIF_STATE: u32 = 0x8;

/// The balloon notification fields are meaningful.
pub const NIF_INFO: u32 = 0x10;

/// The icon is identified by a GUID rather than by its numeric identifier.
pub const NIF_GUID: u32 = 0x20;

/// A balloon notification may be dropped instead of being shown late.
pub const NIF_REALTIME: u32 = 0x40;

/// The standard tooltip is shown.
pub const NIF_SHOWTIP: u32 = 0x80;

/// State bit: the icon is hidden.
pub const NIS_HIDDEN: u32 = 0x1;

/// No balloon icon.
pub const NIIF_NONE: u32 = 0x0;

/// The information balloon icon.
pub const NIIF_INFO: u32 = 0x1;

/// The warning balloon icon.
pub const NIIF_WARNING: u32 = 0x2;

/// The error balloon icon.
pub const NIIF_ERROR: u32 = 0x3;

/// The application-provided balloon icon.
pub const NIIF_USER: u32 = 0x4;

/// The balloon notification makes no sound.
pub const NIIF_NOSOUND: u32 = 0x10;

/// The balloon notification shows the large icon size.
pub const NIIF_LARGE_ICON: u32 = 0x20;

/// The balloon notification respects quiet time.
pub const NIIF_RESPECT_QUIET_TIME: u32 = 0x80;

/// Tray icon callback: the icon was selected with the primary mouse button.
pub const NIN_SELECT: u32 = 0x400;

/// Marks a tray icon callback as keyboard-initiated.
pub const NINF_KEY: u32 = 0x1;

/// Tray icon callback: the icon was selected with the keyboard.
pub const NIN_KEYSELECT: u32 = NIN_SELECT | NINF_KEY;

/// Window message: a context menu was requested.
pub const WM_CONTEXTMENU: u32 = 0x7b;

/// The tooltip buffer's length in wide chars.
pub const TIP_LEN: usize = 128;

/// The balloon text buffer's length in wide chars.
pub const INFO_LEN: usize = 256;

/// The balloon title buffer's length in wide chars.
pub const INFO_TITLE_LEN: usize = 64;

/// A wide-char buffer of the given length, filled with nulls.
pub fn zeroed_wide_buffer(len: usize) -> (r: Vec<u16>)
    ensures
        r@ == Seq::new(len as nat, |i: int| 0u16),
{
    let mut r: Vec<u16> = Vec::new();
    let mut i: usize = 0;
    while i < len
        invariant
            i <= len,
            r@ =~= Seq::new(i as nat, |j: int| 0u16),
        decreases len - i,
    {
        r.push(0u16);
        proof {
            assert(r@ =~= Seq::new((i + 1) as nat, |j: int| 0u16));
        }
        i = i + 1;
    }
    proof {
        assert(r@ =~= Seq::new(len as nat, |j: int| 0u16));
    }
    r
}

/// The icon shown beside a balloon notification.
#[derive(Clone, Copy, Debug, PartialEq, Eq, Structural)]
pub enum BalloonIcon {
    /// No icon.
    NoIcon,
    Info,
    Warning,
    Error,
    /// The icon set with [`TrayIcon::set_balloon_icon`].
    User,
}

/// The balloon flag word bit that a balloon icon choice stands for.
pub open spec fn spec_balloon_icon_flag(icon: BalloonIcon) -> u32 {
    match icon {
        BalloonIcon::NoIcon => NIIF_NONE,
        BalloonIcon::Info => NIIF_INFO,
        BalloonIcon::Warning => NIIF_WARNING,
        BalloonIcon::Error => NIIF_ERROR,
        BalloonIcon::User => NIIF_USER,
    }
}

/// A tray icon message, decoded from a window message's parameter words.
#[derive(Clone, Copy, Debug, PartialEq, Eq, Structural)]
pub struct TrayIconMsg {
    pub msg_id: u32,
    pub icon_id: u16,
    pub x: i16,
    pub y: i16,
}

/// A tray icon message reduced to what an application usually reacts to.
#[derive(Clone, Copy, Debug, PartialEq, Eq, Structural)]
pub enum SimplifiedTrayIconMsg {
    /// The icon was clicked or double-clicked with the primary mouse button,
    /// or selected with the keyboard. Repeating the action within the
    /// double-click time leads to an `Other` message instead, which should
    /// be ignored.
    Activated,
    /// A context menu was requested, at these virtual-screen coordinates.
    ContextMenuRequested { x: i16, y: i16 },
    Other(TrayIconMsg),
}

/// How a tray icon window message's parameter words decode: the second
/// parameter carries the callback message identifier in its low word and the
/// icon's identifier in its high word; the first carries the event's
/// coordinates.
pub open spec fn spec_translate_window_msg(wparam: usize, lparam: isize) -> TrayIconMsg {
    TrayIconMsg {
        msg_id: (lparam.portion_u32() as u16) as u32,
        icon_id: (lparam.portion_u32() >> 16) as u16,
        x: wparam.portion_u32() as u16 as i16,
        y: (wparam.portion_u32() >> 16) as u16 as i16,
    }
}

/// Decodes a tray icon window message's parameter words, as
/// [`spec_translate_window_msg`] describes.
pub fn translate_window_msg(wparam: usize, lparam: isize) -> (r: TrayIconMsg)
    ensures
        r == spec_translate_window_msg(wparam, lparam),
{
    TrayIconMsg {
        msg_id: lparam.low_u16() as u32,
        icon_id: lparam.high_u16(),
        x: wparam.low_i16(),
        y: wparam.high_i16(),
    }
}

/// The flag word that a tray icon starts with: state and balloon fields are
/// always meaningful; the GUID and callback message bits are set as needed.
pub open spec fn spec_initial_flags(has_guid: bool, has_window_msg: bool) -> u32 {
    NIF_STATE | NIF_INFO | spec_bit_flag_set(
        seq![(has_guid, NIF_GUID), (has_window_msg, NIF_MESSAGE)],
    )
}

/// The balloon flag word after a balloon notification is prepared: the
/// chosen icon's bit, and the quiet-time and no-sound bits where asked for.
pub open spec fn spec_balloon_info_flags(
    info_flags: u32,
    icon: BalloonIcon,
    override_quiet_time: bool,
    allow_sound: bool,
) -> u32 {
    let with_icon = info_flags | spec_balloon_icon_flag(icon);
    let with_quiet = if !override_quiet_time {
        with_icon | NIIF_RESPECT_QUIET_TIME
    } else {
        with_icon
    };
    if !allow_sound {
        with_quiet | NIIF_NOSOUND
    } else {
        with_quiet
    }
}

/// A tray icon's data: the fields of the notification record that the
/// application controls, held as plain values. The operations here compute
/// the record's state; handing the record to the shell (adding, modifying,
/// deleting the icon) is the caller's part.
///
/// The icon starts hidden and must be shown with [`Self::show`].
pub struct TrayIcon {
    /// The icon's numeric identifier.
    pub id: u16,
    /// Whether the icon is identified by a GUID the caller holds.
    pub has_guid: bool,
    /// The window message identifier for the icon's callbacks.
    pub callback_message_id: u32,
    /// The flag word saying which fields are meaningful.
    pub flags: u32,
    /// The state word.
    pub state: u32,
    /// The mask of state bits a modification touches.
    pub state_mask: u32,
    /// The balloon notification flag word.
    pub info_flags: u32,
    /// The icon's image handle word.
    pub icon: isize,
    /// The balloon notification's image handle word.
    pub balloon_icon: isize,
    /// The tooltip text, null-terminated, [`TIP_LEN`] wide chars.
    pub tip: Vec<u16>,
    /// The balloon text, null-terminated, [`INFO_LEN`] wide chars.
    pub info: Vec<u16>,
    /// The balloon title, null-terminated, [`INFO_TITLE_LEN`] wide chars.
    pub info_title: Vec<u16>,
}

impl TrayIcon {
    /// Well-formedness: the three text buffers have their fixed lengths.
    pub open spec fn wf(self) -> bool {
        self.tip@.len() == TIP_LEN && self.info@.len() == INFO_LEN && self.info_title@.len()
            == INFO_TITLE_LEN
    }

    /// The data of a tray icon with identifier 0. If more than one tray icon
    /// is needed, this must not be used repeatedly.
    pub fn with_primary_id(window_msg_id: Option<u32>) -> (r: TrayIcon)
        ensures
            r.wf(),
            r.spec_is_initial(0u16, false, window_msg_id),
    {
        Self::with_id(0, window_msg_id)
    }

    /// The data of a tray icon with the given numeric identifier.
    pub fn with_id(id: u16, window_msg_id: Option<u32>) -> (r: TrayIcon)
        ensures
            r.wf(),
            r.spec_is_initial(id, false, window_msg_id),
    {
        Self::with_details(Some(id), false, window_msg_id)
    }

    /// The data of a tray icon identified by a GUID, which the caller holds
    /// and pairs with this data.
    pub fn with_guid(window_msg_id: Option<u32>) -> (r: TrayIcon)
        ensures
            r.wf(),
            r.spec_is_initial(0u16, true, window_msg_id),
    {
        Self::with_details(Option::None, true, window_msg_id)
    }

    /// The data a fresh tray icon starts with: hidden, with empty texts, the
    /// flag word of [`spec_initial_flags`], and the state mask set for the
    /// first shell call. After that call the caller clears the mask.
    pub open spec fn spec_is_initial(self, id: u16, has_guid: bool, window_msg_id: Option<
        u32,
    >) -> bool {
        &&& self.id == id
        &&& self.has_guid == has_guid
        &&& self.callback_message_id == (match window_msg_id {
            Some(m) => m,
            Option::None => 0u32,
        })
        &&& self.flags == spec_initial_flags(has_guid, window_msg_id is Some)
        &&& self.state == NIS_HIDDEN
        &&& self.state_mask == NIS_HIDDEN
        &&& self.info_flags == 0u32
        &&& self.icon == 0isize
        &&& self.balloon_icon == 0isize
        &&& self.tip@ == Seq::new(TIP_LEN as nat, |i: int| 0u16)
        &&& self.info@ == Seq::new(INFO_LEN as nat, |i: int| 0u16)
        &&& self.info_title@ == Seq::new(INFO_TITLE_LEN as nat, |i: int| 0u16)
    }

    fn with_details(id: Option<u16>, has_guid: bool, window_msg_id: Option<u32>) -> (r: TrayIcon)
        ensures
            r.wf(),
            r.spec_is_initial(
                (match id {
                    Some(i) => i,
                    Option::None => 0u16,
                }),
                has_guid,
                window_msg_id,
            ),
    {
        let mut flag_translations: Vec<(bool, u32)> = Vec::new();
        flag_translations.push((has_guid, NIF_GUID));
        flag_translations.push((window_msg_id.is_some(), NIF_MESSAGE));
        proof {
            assert(flag_translations@ =~= seq![
                (has_guid, NIF_GUID),
                (window_msg_id is Some, NIF_MESSAGE),
            ]);
        }
        let flags = NIF_STATE | NIF_INFO | build_bit_flag_set(&flag_translations);
        let r = TrayIcon {
            id: (match id {
                Some(i) => i,
                Option::None => 0u16,
            }),
            has_guid,
            callback_message_id: (match window_msg_id {
                Some(m) => m,
                Option::None => 0u32,
            }),
            flags,
            state: NIS_HIDDEN,
            state_mask: NIS_HIDDEN,
            info_flags: 0,
            icon: 0,
            balloon_icon: 0,
            tip: zeroed_wide_buffer(TIP_LEN),
            info: zeroed_wide_buffer(INFO_LEN),
            info_title: zeroed_wide_buffer(INFO_TITLE_LEN),
        };
        r
    }

    /// Marks the icon's image as meaningful and records its handle word.
    /// The caller follows up with a modification call to the shell.
    pub fn set_icon(&mut self, h_icon: isize)
        ensures
            *final(self) == (TrayIcon {
                flags: old(self).flags | NIF_ICON,
                icon: h_icon,
                ..*old(self)
            }),
    {
        self.flags = self.flags | NIF_ICON;
        self.icon = h_icon;
    }

    /// Records the balloon notification's image handle word; nothing (the
    /// null word) means the tray icon's own image. The caller follows up
    /// with a modification call to the shell.
    pub fn set_balloon_icon(&mut self, h_icon: Option<isize>)
        ensures
            *final(self) == (TrayIcon {
                balloon_icon: (match h_icon {
                    Some(h) => h,
                    Option::None => 0isize,
                }),
                ..*old(self)
            }),
    {
        self.balloon_icon = match h_icon {
            Some(h) => h,
            Option::None => 0,
        };
    }

    /// Sets the tooltip text shown when hovering over the icon, or clears
    /// it. The written text must fit the tooltip buffer beside its
    /// terminator. The caller follows up with a modification call to the
    /// shell.
    pub fn set_tooltip(&mut self, tooltip: Option<&Vec<u16>>)
        requires
            old(self).wf(),
            tooltip matches Some(t) ==> spec_write_fits(t@, old(self).tip@),
        ensures
            final(self).wf(),
            final(self).tip@ == (match tooltip {
                Some(t) => spec_written_wide(t@, old(self).tip@),
                Option::None => old(self).tip@,
            }),
            *final(self) == (TrayIcon {
                flags: (match tooltip {
                    Some(t) => old(self).flags | (NIF_TIP | NIF_SHOWTIP),
                    Option::None => old(self).flags & !(NIF_TIP | NIF_SHOWTIP),
                }),
                tip: final(self).tip,
                ..*old(self)
            }),
    {
        match tooltip {
            Some(t) => {
                self.flags = self.flags | (NIF_TIP | NIF_SHOWTIP);
                t.write_truncated(&mut self.tip);
            },
            Option::None => {
                self.flags = self.flags & !(NIF_TIP | NIF_SHOWTIP);
            },
        }
    }

    /// Sets or clears the hidden state bit and arms the state mask for the
    /// modification call the caller makes next; afterwards the caller clears
    /// the mask again.
    pub fn show(&mut self, show: bool)
        ensures
            *final(self) == (TrayIcon {
                state: (if show {
                    old(self).state & !NIS_HIDDEN
                } else {
                    old(self).state | NIS_HIDDEN
                }),
                state_mask: NIS_HIDDEN,
                ..*old(self)
            }),
    {
        if show {
            self.state = self.state & !NIS_HIDDEN;
        } else {
            self.state = self.state | NIS_HIDDEN;
        }
        self.state_mask = NIS_HIDDEN;
    }

    /// Whether the hidden state bit is clear.
    pub fn is_shown(&self) -> (r: bool)
        ensures
            r == ((self.state & NIS_HIDDEN) == 0),
    {
        (self.state & NIS_HIDDEN) == 0
    }

    /// Sets or clears the large-icon bit for balloon notifications.
    pub fn set_balloon_uses_large_icon(&mut self, uses_large_icon: bool)
        ensures
            *final(self) == (TrayIcon {
                info_flags: (if uses_large_icon {
                    old(self).info_flags | NIIF_LARGE_ICON
                } else {
                    old(self).info_flags & !NIIF_LARGE_ICON
                }),
                ..*old(self)
            }),
    {
        if uses_large_icon {
            self.info_flags = self.info_flags | NIIF_LARGE_ICON;
        } else {
            self.info_flags = self.info_flags & !NIIF_LARGE_ICON;
        }
    }

    /// Prepares a balloon notification: the balloon flag word takes the
    /// chosen icon and behavior bits, the title and text are written into
    /// their buffers (an empty text becomes a single space, so the balloon
    /// is not suppressed as empty), and a realtime-only balloon marks the
    /// flag word. The caller then makes the modification call that shows the
    /// balloon, and afterwards calls [`Self::reset_after_balloon`].
    pub fn show_balloon(
        &mut self,
        icon: BalloonIcon,
        title: Option<&Vec<u16>>,
        text: &Vec<u16>,
        realtime_only: bool,
        override_quiet_time: bool,
        allow_sound: bool,
    )
        requires
            old(self).wf(),
            title matches Some(t) ==> spec_write_fits(t@, old(self).info_title@),
            text@.len() > 0 ==> spec_write_fits(text@, old(self).info@),
        ensures
            final(self).wf(),
            final(self).info_title@ == (match title {
                Some(t) => spec_written_wide(t@, old(self).info_title@),
                Option::None => old(self).info_title@.update(0, 0u16),
            }),
            final(self).info@ == (if text@.len() == 0 {
                old(self).info@.update(0, 0x20u16).update(1, 0u16)
            } else {
                spec_written_wide(text@, old(self).info@)
            }),
            *final(self) == (TrayIcon {
                info_flags: spec_balloon_info_flags(
                    old(self).info_flags,
                    icon,
                    override_quiet_time,
                    allow_sound,
                ),
                flags: (if realtime_only {
                    old(self).flags | NIF_REALTIME
                } else {
                    old(self).flags
                }),
                info_title: final(self).info_title,
                info: final(self).info,
                ..*old(self)
            }),
    {
        self.info_flags = self.info_flags | balloon_icon_flag(&icon);
        if !override_quiet_time {
            self.info_flags = self.info_flags | NIIF_RESPECT_QUIET_TIME;
        }
        if !allow_sound {
            self.info_flags = self.info_flags | NIIF_NOSOUND;
        }
        match title {
            Some(t) => {
                t.write_truncated(&mut self.info_title);
            },
            Option::None => {
                self.info_title.set(0, 0u16);
            },
        }
        if text.len() == 0 {
            // Prevent the balloon staying hidden or hiding: the shell judges
            // emptiness before trimming.
            self.info.set(0, 0x20u16);
            self.info.set(1, 0u16);
        } else {
            text.write_truncated(&mut self.info);
        }
        if realtime_only {
            self.flags = self.flags | NIF_REALTIME;
        }
    }

    /// Clears what [`Self::show_balloon`] set, after the caller's
    /// modification call: the text becomes empty (so no new notification is
    /// shown on another change), and the realtime and balloon behavior bits
    /// are cleared.
    pub fn reset_after_balloon(&mut self)
        requires
            old(self).wf(),
        ensures
            final(self).wf(),
            final(self).info@ == old(self).info@.update(0, 0u16),
            *final(self) == (TrayIcon {
                info: final(self).info,
                flags: old(self).flags & !NIF_REALTIME,
                info_flags: old(self).info_flags & !(NIIF_NONE | NIIF_INFO | NIIF_WARNING
                    | NIIF_ERROR | NIIF_USER | NIIF_RESPECT_QUIET_TIME | NIIF_NOSOUND),
                ..*old(self)
            }),
    {
        self.info.set(0, 0u16);
        self.flags = self.flags & !NIF_REALTIME;
        self.info_flags = self.info_flags & !(NIIF_NONE | NIIF_INFO | NIIF_WARNING | NIIF_ERROR
            | NIIF_USER | NIIF_RESPECT_QUIET_TIME | NIIF_NOSOUND);
    }

    /// Empties the balloon text, which hides a shown balloon once the caller
    /// makes the modification call.
    pub fn hide_balloon(&mut self)
        requires
            old(self).wf(),
        ensures
            final(self).wf(),
            final(self).info@ == old(self).info@.update(0, 0u16),
            *final(self) == (TrayIcon { info: final(self).info, ..*old(self) }),
    {
        self.info.set(0, 0u16);
    }

    /// Reduces a tray icon window message to what an application reacts to.
    /// Selection events arrive once per click and twice per Enter press, so
    /// a repetition within the double-click time is not a fresh activation:
    /// the caller passes the time since the last activation and the
    /// double-click time, and on [`SimplifiedTrayIconMsg::Activated`]
    /// records the activation's time.
    pub fn simplifying_translate_window_msg(
        wparam: usize,
        lparam: isize,
        millis_since_last_activation: u64,
        double_click_millis: u32,
    ) -> (r: SimplifiedTrayIconMsg)
        ensures
            r == spec_simplified_tray_icon_msg(
                wparam,
                lparam,
                millis_since_last_activation,
                double_click_millis,
            ),
    {
        let msg = translate_window_msg(wparam, lparam);
        if msg.msg_id == NIN_SELECT || msg.msg_id == NIN_KEYSELECT {
            if millis_since_last_activation > double_click_millis as u64 {
                SimplifiedTrayIconMsg::Activated
            } else {
                SimplifiedTrayIconMsg::Other(msg)
            }
        } else if msg.msg_id == WM_CONTEXTMENU {
            SimplifiedTrayIconMsg::ContextMenuRequested { x: msg.x, y: msg.y }
        } else {
            SimplifiedTrayIconMsg::Other(msg)
        }
    }
}

/// How a tray icon window message simplifies: a selection event counts as an
/// activation only outside the double-click time since the last one; a
/// context menu request carries its coordinates; everything else is handed
/// through decoded.
pub open spec fn spec_simplified_tray_icon_msg(
    wparam: usize,
    lparam: isize,
    millis_since_last_activation: u64,
    double_click_millis: u32,
) -> SimplifiedTrayIconMsg {
    let msg = spec_translate_window_msg(wparam, lparam);
    if msg.msg_id == NIN_SELECT || msg.msg_id == NIN_KEYSELECT {
        if millis_since_last_activation > double_click_millis as u64 {
            SimplifiedTrayIconMsg::Activated
        } else {
            SimplifiedTrayIconMsg::Other(msg)
        }
    } else if msg.msg_id == WM_CONTEXTMENU {
        SimplifiedTrayIconMsg::ContextMenuRequested { x: msg.x, y: msg.y }
    } else {
        SimplifiedTrayIconMsg::Other(msg)
    }
}

/// The balloon flag word bit that a balloon icon choice stands for, as
/// [`spec_balloon_icon_flag`] gives it.
pub fn balloon_icon_flag(icon: &BalloonIcon) -> (r: u32)
    ensures
        r == spec_balloon_icon_flag(*icon),
{
    match icon {
        BalloonIcon::NoIcon => NIIF_NONE,
        BalloonIcon::Info => NIIF_INFO,
        BalloonIcon::Warning => NIIF_WARNING,
        BalloonIcon::Error => NIIF_ERROR,
        BalloonIcon::User => NIIF_USER,
    }
}

} // verus!
