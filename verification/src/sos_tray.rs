//! The icon in the task bar: its tip, its menu, and what clicks on it do.

use vstd::prelude::*;

use crate::text::{join, to_wide, utf16};

verus! {

/// What the user asks for.
#[derive(Debug, Clone, Copy, PartialEq, Eq, Structural)]
pub enum TrayCommand {
    /// Leave the program.
    Exit,
    /// A double click: show the device.
    ShowInfo,
}

// Windows messages and clicks.
pub const WM_COMMAND: u32 = 0x0111;
pub const WM_LBUTTONDBLCLK: u32 = 0x0203;
pub const WM_RBUTTONUP: u32 = 0x0205;
pub const WM_USER: u32 = 0x0400;

/// The message of a click on the icon.
pub const WM_TRAY_ICON: u32 = 0x0401;

/// The message that the tip is out of date.
pub const WM_TRAY_UPDATE_TIP: u32 = 0x0403;

/// The menu entries.
pub const MENU_SHOW_ID: u16 = 100;
pub const MENU_SHOW_PASSWORD: u16 = 101;
pub const MENU_EXIT: u16 = 6;

/// What the window of the icon does with a message.
#[derive(Debug, PartialEq, Eq)]
pub enum TrayAction {
    /// Leave it to the default procedure.
    Default,
    /// Nothing.
    Nothing,
    /// Bring the tip up to date.
    UpdateTip,
    /// Bring the tip up to date, and show the menu.
    ShowMenu,
    /// Pass a command on.
    Send(TrayCommand),
    /// Put a text into the clipboard.
    Copy(String),
}

/// What the window of the icon does with a message. `device_id` and
/// `password` are the present ones; the password is empty if there is none.
pub fn tray_window_proc(msg: u32, wparam: u64, lparam: u32, device_id: &str, password: &str) -> (r:
    TrayAction)
    ensures
        if msg == WM_TRAY_ICON {
            r == (if lparam == WM_RBUTTONUP {
                TrayAction::ShowMenu
            } else if lparam == WM_LBUTTONDBLCLK {
                TrayAction::Send(TrayCommand::ShowInfo)
            } else {
                TrayAction::Nothing
            })
        } else if msg == WM_TRAY_UPDATE_TIP {
            r == TrayAction::UpdateTip
        } else if msg == WM_COMMAND {
            let entry = wparam % 0x1_0000;
            if entry == MENU_SHOW_ID {
                r matches TrayAction::Copy(text) && text@ == device_id@
            } else if entry == MENU_SHOW_PASSWORD {
                if password@.len() > 0 {
                    r matches TrayAction::Copy(text) && text@ == password@
                } else {
                    r == TrayAction::Nothing
                }
            } else if entry == MENU_EXIT {
                r == TrayAction::Send(TrayCommand::Exit)
            } else {
                r == TrayAction::Nothing
            }
        } else {
            r == TrayAction::Default
        },
{
    if msg == WM_TRAY_ICON {
        if lparam == WM_RBUTTONUP {
            TrayAction::ShowMenu
        } else if lparam == WM_LBUTTONDBLCLK {
            TrayAction::Send(TrayCommand::ShowInfo)
        } else {
            TrayAction::Nothing
        }
    } else if msg == WM_TRAY_UPDATE_TIP {
        TrayAction::UpdateTip
    } else if msg == WM_COMMAND {
        let entry: u16 = (wparam % 0x1_0000) as u16;
        if entry == MENU_SHOW_ID {
            TrayAction::Copy(String::from_str(device_id))
        } else if entry == MENU_SHOW_PASSWORD {
            if !password.is_empty() {
                TrayAction::Copy(String::from_str(password))
            } else {
                TrayAction::Nothing
            }
        } else if entry == MENU_EXIT {
            TrayAction::Send(TrayCommand::Exit)
        } else {
            TrayAction::Nothing
        }
    } else {
        TrayAction::Default
    }
}

/// The text of the tip.
pub open spec fn tip_text(device_id: Seq<char>, password: Seq<char>) -> Seq<char> {
    if password.len() == 0 {
        "RustDesk SOS\nID: "@ + device_id
    } else {
        "RustDesk SOS\nID: "@ + device_id + "\n密码: "@ + password
    }
}

/// The text of the tip: the identifier, and the password if there is one.
pub fn build_tip_text(device_id: &str, password: &str) -> (r: String)
    ensures
        r@ == tip_text(device_id@, password@),
{
    let mut tip: String = join("RustDesk SOS\nID: ", device_id);
    if !password.is_empty() {
        tip.append("\n密码: ");
        tip.append(password);
    }
    tip
}

/// The size of the buffer for a tip, in UTF-16 units.
pub const TIP_UNITS: usize = 128;

/// The tip in its buffer: the text and a zero, cut off where the last unit
/// of the buffer begins, and zeros behind.
pub open spec fn tip_buffer(text: Seq<char>) -> Seq<u16> {
    let tip = utf16(text).push(0);
    Seq::new(
        TIP_UNITS as nat,
        |i: int|
            if i < tip.len() && i < TIP_UNITS - 1 {
                tip[i]
            } else {
                0u16
            },
    )
}

/// The tip as the icon takes it.
pub fn update_tip(device_id: &str, password: &str) -> (r: [u16; 128])
    ensures
        r@ == tip_buffer(tip_text(device_id@, password@)),
{
    let text: String = build_tip_text(device_id, password);
    let tip: Vec<u16> = to_wide(text.as_str());
    let mut buffer: [u16; 128] = [0u16; 128];
    let n: usize = if tip.len() < TIP_UNITS - 1 {
        tip.len()
    } else {
        TIP_UNITS - 1
    };
    let mut i: usize = 0;
    while i < n
        invariant
            i <= n,
            n <= TIP_UNITS - 1,
            n <= tip@.len(),
            buffer@.len() == TIP_UNITS,
            forall|j: int| 0 <= j < i ==> buffer@[j] == tip@[j],
            forall|j: int| i <= j < TIP_UNITS ==> buffer@[j] == 0,
        decreases n - i,
    {
        buffer[i] = tip[i];
        i = i + 1;
    }
    proof {
        assert(buffer@ =~= tip_buffer(tip_text(device_id@, password@)));
    }
    buffer
}

/// However long the text is, the tip in its buffer ends with a zero.
pub proof fn tip_is_terminated(text: Seq<char>)
    ensures
        tip_buffer(text).len() == TIP_UNITS,
        tip_buffer(text).last() == 0,
{
}

/// The entries of the menu, as Windows calls take them.
#[derive(Debug, PartialEq, Eq)]
pub struct ContextMenu {
    pub show_id: Vec<u16>,
    pub show_password: Vec<u16>,
    pub exit: Vec<u16>,
}

/// The menu.
pub fn show_context_menu(device_id: &str, password: &str) -> (r: ContextMenu)
    ensures
        r.show_id@ == utf16("ID: "@ + device_id@).push(0),
        r.show_password@ == utf16(
            if password@.len() == 0 {
                "密码: (未设置)"@
            } else {
                "密码: "@ + password@
            },
        ).push(0),
        r.exit@ == utf16("退出"@).push(0),
{
    let show_password: Vec<u16> = if password.is_empty() {
        to_wide("密码: (未设置)")
    } else {
        to_wide(join("密码: ", password).as_str())
    };
    ContextMenu {
        show_id: to_wide(join("ID: ", device_id).as_str()),
        show_password,
        exit: to_wide("退出"),
    }
}

/// A text as the clipboard takes it.
pub fn open_clipboard_and_set_text(text: &str) -> (r: Vec<u16>)
    ensures
        r@ == utf16(text@).push(0),
{
    to_wide(text)
}

/// The window that is to be told of a new password, if there is one.
pub fn notify_password_changed(window: isize) -> (r: Option<isize>)
    ensures
        r == (if window != 0 {
            Some(window)
        } else {
            None
        }),
{
    if window != 0 {
        Some(window)
    } else {
        None
    }
}

/// Whether the message loop goes on, from what asking for a message gave: it
/// ends at the end of messages, and at a failure.
pub fn message_loop_goes_on(result: i32) -> (r: bool)
    ensures
        r == (result != 0 && result != -1),
{
    result != 0 && result != -1
}

} // verus!
