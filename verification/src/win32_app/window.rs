use vstd::prelude::*;

use crate::bit_manipulation::Width32BitPortion;

verus! {

/// A command message, decoded: menu choices and accelerator presses carry
/// only an identifier; control notifications carry the notification code,
/// the control's identifier and its window handle word.
#[derive(Clone, Copy, Debug, PartialEq, Eq, Structural)]
pub enum CommandMsg {
    MenuItem { id: u16 },
    Accelerator { id: u16 },
    ControlMsg { msg_id: u16, control_id: u16, control_hwnd: isize },
}

/// How a command message's parameter words decode: the high word of the
/// first parameter tells the source apart (0 a menu, 1 an accelerator,
/// anything else a control notification code), the low word is the
/// identifier, and the second parameter is the control's window handle word.
pub open spec fn spec_translate_command_msg(wparam: usize, lparam: isize) -> CommandMsg {
    let high = (wparam.portion_u32() >> 16) as u16;
    let low = wparam.portion_u32() as u16;
    if high == 0 {
        CommandMsg::MenuItem { id: low }
    } else if high == 1 {
        CommandMsg::Accelerator { id: low }
    } else {
        CommandMsg::ControlMsg { msg_id: high, control_id: low, control_hwnd: lparam }
    }
}

/// Decodes a command message's parameter words, as
/// [`spec_translate_command_msg`] describes.
pub fn translate_command_msg(wparam: usize, lparam: isize) -> (r: CommandMsg)
    ensures
        r == spec_translate_command_msg(wparam, lparam),
{
    let high = wparam.high_u16();
    let low = wparam.low_u16();
    if high == 0 {
        CommandMsg::MenuItem { id: low }
    } else if high == 1 {
        CommandMsg::Accelerator { id: low }
    } else {
        CommandMsg::ControlMsg { msg_id: high, control_id: low, control_hwnd: lparam }
    }
}

} // verus!
