//! Remote input from players: the keyboard and mouse-button events the host
//! injects, described by the Win32 `SendInput` fields they fill, and which
//! events reach the shared target.

use vstd::prelude::*;

verus! {

/// `KEYEVENTF_EXTENDEDKEY`: the key is an extended key.
pub const KEYEVENTF_EXTENDEDKEY: u32 = 0x0001;

/// `KEYEVENTF_KEYUP`: the key is being released.
pub const KEYEVENTF_KEYUP: u32 = 0x0002;

/// `KEYEVENTF_SCANCODE`: the event names the key by its scan code.
pub const KEYEVENTF_SCANCODE: u32 = 0x0008;

/// Tag in `dwExtraInfo` that marks events injected by the host, so its own
/// hooks can tell them from local input.
pub const INJECTED_EVENT_TAG: usize = 0xBEAC0D;

/// The keyboard fields of one injected input event.
#[derive(Debug, Clone, Copy, PartialEq, Eq, Structural)]
pub struct KeyInput {
    /// Virtual-key code (0 when a scan code is sent).
    pub vk: u16,
    /// Hardware scan code (0 when a virtual-key code is sent).
    pub scan: u16,
    pub flags: u32,
    pub extra_info: usize,
}

/// The event for a key press or release: by scan code when one is known,
/// else by virtual-key code; flagged as a release and as an extended key as
/// the player reported.
pub open spec fn key_input_of(vk: u16, scan: u16, pressed: bool, extended: bool) -> KeyInput {
    let flags: u32 = (if pressed { 0u32 } else { KEYEVENTF_KEYUP }) | (if extended {
        KEYEVENTF_EXTENDEDKEY
    } else {
        0u32
    }) | (if scan != 0 { KEYEVENTF_SCANCODE } else { 0u32 });
    KeyInput {
        vk: if scan != 0 { 0 } else { vk },
        scan: if scan != 0 { scan } else { 0 },
        flags,
        extra_info: INJECTED_EVENT_TAG,
    }
}

/// The event that presses or releases a key.
pub fn key_input(vk: u16, scan: u16, pressed: bool, extended: bool) -> (k: KeyInput)
    ensures
        k == key_input_of(vk, scan, pressed, extended),
{
    let up: u32 = if pressed {
        0
    } else {
        KEYEVENTF_KEYUP
    };
    let ext: u32 = if extended {
        KEYEVENTF_EXTENDEDKEY
    } else {
        0
    };
    let sc: u32 = if scan != 0 {
        KEYEVENTF_SCANCODE
    } else {
        0
    };
    let flags = up | ext | sc;
    if scan != 0 {
        KeyInput { vk: 0, scan, flags, extra_info: INJECTED_EVENT_TAG }
    } else {
        KeyInput { vk, scan: 0, flags, extra_info: INJECTED_EVENT_TAG }
    }
}

/// The `MOUSEEVENTF_*` flag for a button change: buttons 0, 1, 2 are left,
/// right and middle; other buttons inject nothing.
pub open spec fn mouse_button_flag_of(button: u8, pressed: bool) -> Option<u32> {
    if button == 0 {
        Some(if pressed { 0x0002u32 } else { 0x0004u32 })
    } else if button == 1 {
        Some(if pressed { 0x0008u32 } else { 0x0010u32 })
    } else if button == 2 {
        Some(if pressed { 0x0020u32 } else { 0x0040u32 })
    } else {
        None
    }
}

/// The mouse flag that presses or releases a button, if it is one the host
/// injects.
pub fn mouse_button_flag(button: u8, pressed: bool) -> (f: Option<u32>)
    ensures
        f == mouse_button_flag_of(button, pressed),
{
    match (button, pressed) {
        (0, true) => Some(0x0002),
        (0, false) => Some(0x0004),
        (1, true) => Some(0x0008),
        (1, false) => Some(0x0010),
        (2, true) => Some(0x0020),
        (2, false) => Some(0x0040),
        _ => None,
    }
}

/// A key release never carries the press flags: it is flagged as a release,
/// and otherwise differs from the press only in that flag.
pub proof fn lemma_release_differs_from_press_only_by_keyup(vk: u16, scan: u16, extended: bool)
    ensures
        key_input_of(vk, scan, false, extended).flags & KEYEVENTF_KEYUP == KEYEVENTF_KEYUP,
        key_input_of(vk, scan, true, extended).flags & KEYEVENTF_KEYUP == 0,
        key_input_of(vk, scan, false, extended).flags == key_input_of(
            vk,
            scan,
            true,
            extended,
        ).flags | KEYEVENTF_KEYUP,
        key_input_of(vk, scan, false, extended).vk == key_input_of(vk, scan, true, extended).vk,
        key_input_of(vk, scan, false, extended).scan == key_input_of(vk, scan, true, extended).scan,
{
    let e: u32 = if extended { KEYEVENTF_EXTENDEDKEY } else { 0u32 };
    let s: u32 = if scan != 0 { KEYEVENTF_SCANCODE } else { 0u32 };
    assert((2u32 | e | s) & 2u32 == 2u32 && (0u32 | e | s) & 2u32 == 0u32 && (2u32 | e | s) == (
    0u32 | e | s) | 2u32) by (bit_vector)
        requires
            e == 0u32 || e == 1u32,
            s == 0u32 || s == 8u32,
    ;
}

/// The kinds of input event a player sends.
#[derive(Debug, Clone, Copy, PartialEq, Eq, Structural)]
pub enum InputKind {
    MouseMove,
    MouseButton,
    MouseScroll,
    KeyPress,
}

/// Whether an event of `kind` is injected: mouse events are dropped while
/// the shared target is a minimised window, so they cannot land on the
/// host's desktop; key presses always pass.
pub fn delivers_input(kind: InputKind, target_is_minimized_window: bool) -> (r: bool)
    ensures
        r == (kind == InputKind::KeyPress || !target_is_minimized_window),
{
    match kind {
        InputKind::KeyPress => true,
        _ => !target_is_minimized_window,
    }
}

/// The button flags: for left, right and middle (0, 1, 2) the press flag
/// is 2^(2b+1) and the release flag the press flag shifted left by one, so
/// every button change has its own flag; other buttons have none.
pub proof fn lemma_mouse_button_flags(button: u8, pressed: bool, other: u8, other_pressed: bool)
    ensures
        button == 0 ==> mouse_button_flag_of(button, true) == Some(0x0002u32)
            && mouse_button_flag_of(button, false) == Some(0x0004u32),
        button == 1 ==> mouse_button_flag_of(button, true) == Some(0x0008u32)
            && mouse_button_flag_of(button, false) == Some(0x0010u32),
        button == 2 ==> mouse_button_flag_of(button, true) == Some(0x0020u32)
            && mouse_button_flag_of(button, false) == Some(0x0040u32),
        button <= 2 ==> mouse_button_flag_of(button, false)->0 == mouse_button_flag_of(button, true)->0 * 2,
        button > 2 ==> mouse_button_flag_of(button, pressed) is None,
        button <= 2 && other <= 2 && (button != other || pressed != other_pressed)
            ==> mouse_button_flag_of(button, pressed) != mouse_button_flag_of(other, other_pressed),
{
}

} // verus!
