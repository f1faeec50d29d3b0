//! The static table from non-printable key identifiers to fixed bracketed
//! tokens, independent of layout and of modifier state. The identifiers are
//! the raw key codes the input device reports.
use vstd::prelude::*;

verus! {

pub const KEY_ESC: u16 = 1;

pub const KEY_BACKSPACE: u16 = 14;

pub const KEY_ENTER: u16 = 28;

pub const KEY_A: u16 = 30;

pub const KEY_LEFTSHIFT: u16 = 42;

pub const KEY_F1: u16 = 59;

pub const KEY_F2: u16 = 60;

pub const KEY_F3: u16 = 61;

pub const KEY_F4: u16 = 62;

pub const KEY_F5: u16 = 63;

pub const KEY_F6: u16 = 64;

pub const KEY_F7: u16 = 65;

pub const KEY_F8: u16 = 66;

pub const KEY_F9: u16 = 67;

pub const KEY_F10: u16 = 68;

pub const KEY_SCROLLLOCK: u16 = 70;

pub const KEY_F11: u16 = 87;

pub const KEY_F12: u16 = 88;

pub const KEY_HOME: u16 = 102;

pub const KEY_UP: u16 = 103;

pub const KEY_PAGEUP: u16 = 104;

pub const KEY_LEFT: u16 = 105;

pub const KEY_RIGHT: u16 = 106;

pub const KEY_END: u16 = 107;

pub const KEY_DOWN: u16 = 108;

pub const KEY_PAGEDOWN: u16 = 109;

pub const KEY_INSERT: u16 = 110;

pub const KEY_DELETE: u16 = 111;

pub const KEY_PAUSE: u16 = 119;

pub const KEY_PRINT: u16 = 210;

/// The bracketed token a key identifier stands for, when it is one of the
/// closed set of non-printable keys that are logged symbolically.
pub open spec fn special_token(code: u16) -> Option<Seq<char>> {
    if code == KEY_BACKSPACE {
        Some("[BS]"@)
    } else if code == KEY_DELETE {
        Some("[DEL]"@)
    } else if code == KEY_ESC {
        Some("[ESC]"@)
    } else if code == KEY_UP {
        Some("[UP]"@)
    } else if code == KEY_DOWN {
        Some("[DOWN]"@)
    } else if code == KEY_LEFT {
        Some("[LEFT]"@)
    } else if code == KEY_RIGHT {
        Some("[RIGHT]"@)
    } else if code == KEY_HOME {
        Some("[HOME]"@)
    } else if code == KEY_END {
        Some("[END]"@)
    } else if code == KEY_PAGEUP {
        Some("[PGUP]"@)
    } else if code == KEY_PAGEDOWN {
        Some("[PGDN]"@)
    } else if code == KEY_F1 {
        Some("[F1]"@)
    } else if code == KEY_F2 {
        Some("[F2]"@)
    } else if code == KEY_F3 {
        Some("[F3]"@)
    } else if code == KEY_F4 {
        Some("[F4]"@)
    } else if code == KEY_F5 {
        Some("[F5]"@)
    } else if code == KEY_F6 {
        Some("[F6]"@)
    } else if code == KEY_F7 {
        Some("[F7]"@)
    } else if code == KEY_F8 {
        Some("[F8]"@)
    } else if code == KEY_F9 {
        Some("[F9]"@)
    } else if code == KEY_F10 {
        Some("[F10]"@)
    } else if code == KEY_F11 {
        Some("[F11]"@)
    } else if code == KEY_F12 {
        Some("[F12]"@)
    } else if code == KEY_INSERT {
        Some("[INS]"@)
    } else if code == KEY_PRINT {
        Some("[PRTSC]"@)
    } else if code == KEY_SCROLLLOCK {
        Some("[SCRLK]"@)
    } else if code == KEY_PAUSE {
        Some("[PAUSE]"@)
    } else {
        None
    }
}

pub fn key_to_special(code: u16) -> (r: Option<&'static str>)
    ensures
        match r {
            Some(t) => special_token(code) == Some(t@),
            None => special_token(code) is None,
        },
{
    if code == KEY_BACKSPACE {
        Some("[BS]")
    } else if code == KEY_DELETE {
        Some("[DEL]")
    } else if code == KEY_ESC {
        Some("[ESC]")
    } else if code == KEY_UP {
        Some("[UP]")
    } else if code == KEY_DOWN {
        Some("[DOWN]")
    } else if code == KEY_LEFT {
        Some("[LEFT]")
    } else if code == KEY_RIGHT {
        Some("[RIGHT]")
    } else if code == KEY_HOME {
        Some("[HOME]")
    } else if code == KEY_END {
        Some("[END]")
    } else if code == KEY_PAGEUP {
        Some("[PGUP]")
    } else if code == KEY_PAGEDOWN {
        Some("[PGDN]")
    } else if code == KEY_F1 {
        Some("[F1]")
    } else if code == KEY_F2 {
        Some("[F2]")
    } else if code == KEY_F3 {
        Some("[F3]")
    } else if code == KEY_F4 {
        Some("[F4]")
    } else if code == KEY_F5 {
        Some("[F5]")
    } else if code == KEY_F6 {
        Some("[F6]")
    } else if code == KEY_F7 {
        Some("[F7]")
    } else if code == KEY_F8 {
        Some("[F8]")
    } else if code == KEY_F9 {
        Some("[F9]")
    } else if code == KEY_F10 {
        Some("[F10]")
    } else if code == KEY_F11 {
        Some("[F11]")
    } else if code == KEY_F12 {
        Some("[F12]")
    } else if code == KEY_INSERT {
        Some("[INS]")
    } else if code == KEY_PRINT {
        Some("[PRTSC]")
    } else if code == KEY_SCROLLLOCK {
        Some("[SCRLK]")
    } else if code == KEY_PAUSE {
        Some("[PAUSE]")
    } else {
        None
    }
}

} // verus!
