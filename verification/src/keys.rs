//! What a key event in the overlay window does.
use vstd::prelude::*;
use crate::overlay::move_distance;

verus! {

/// The keys the overlay reacts to; every other key is `Other`.
#[derive(Debug, Clone, Copy, PartialEq, Eq, Structural)]
pub enum OverlayKey {
    Escape,
    Shift,
    Control,
    Tab,
    ArrowUp,
    ArrowDown,
    ArrowLeft,
    ArrowRight,
    /// A key that produces this one character.
    Character(char),
    Other,
}

/// The settings that the number keys switch on and off.
#[derive(Debug, Clone, Copy, PartialEq, Eq, Structural)]
pub enum SettingToggle {
    MaintainNewline,
    ReformatAndCorrect,
    BackgroundBlur,
    AddPilcrowInPreview,
}

/// What the overlay does in answer to a key event.
#[derive(Debug, Clone, Copy, PartialEq, Eq, Structural)]
pub enum KeyAction {
    Nothing,
    HideWindow,
    SetShiftHeld(bool),
    SetCtrlHeld(bool),
    TogglePolygonMode,
    Undo,
    Redo,
    /// The copy key is now held (or not); on a press, copy.
    CopyKey { held: bool, attempt: bool },
    /// The screenshot key is now held (or not); on a press, take a screenshot.
    ScreenshotKey { held: bool, attempt: bool },
    /// Move the selection by this offset, then keep it on the screen.
    MoveSelection(i32, i32),
    ToggleSetting(SettingToggle),
}

/// The action for a key event: `pressed` tells a press from a release,
/// `repeat` a held key's repetition, and `shift_held` / `ctrl_held` give the
/// modifiers.  Arrow keys move by `move_distance` on a press; the number keys
/// 1 to 4 toggle a setting on a first press; Control with Z or Y undoes or
/// redoes on a press.
pub open spec fn spec_key_action(
    key: OverlayKey,
    pressed: bool,
    repeat: bool,
    shift_held: bool,
    ctrl_held: bool,
) -> KeyAction {
    let d: i32 = if shift_held {
        1
    } else if ctrl_held {
        50
    } else {
        10
    };
    match key {
        OverlayKey::Escape => KeyAction::HideWindow,
        OverlayKey::Shift => KeyAction::SetShiftHeld(pressed),
        OverlayKey::Control => KeyAction::SetCtrlHeld(pressed),
        OverlayKey::Tab => if pressed {
            KeyAction::TogglePolygonMode
        } else {
            KeyAction::Nothing
        },
        OverlayKey::ArrowUp => if pressed {
            KeyAction::MoveSelection(0, (-d) as i32)
        } else {
            KeyAction::Nothing
        },
        OverlayKey::ArrowDown => if pressed {
            KeyAction::MoveSelection(0, d)
        } else {
            KeyAction::Nothing
        },
        OverlayKey::ArrowLeft => if pressed {
            KeyAction::MoveSelection((-d) as i32, 0)
        } else {
            KeyAction::Nothing
        },
        OverlayKey::ArrowRight => if pressed {
            KeyAction::MoveSelection(d, 0)
        } else {
            KeyAction::Nothing
        },
        OverlayKey::Character(c) => {
            if c == 'z' && ctrl_held {
                if pressed {
                    KeyAction::Undo
                } else {
                    KeyAction::Nothing
                }
            } else if c == 'y' && ctrl_held {
                if pressed {
                    KeyAction::Redo
                } else {
                    KeyAction::Nothing
                }
            } else if c == 'c' {
                KeyAction::CopyKey { held: pressed, attempt: pressed }
            } else if c == 's' {
                KeyAction::ScreenshotKey { held: pressed, attempt: pressed }
            } else if '1' <= c <= '4' {
                if pressed && !repeat {
                    KeyAction::ToggleSetting(
                        if c == '1' {
                            SettingToggle::MaintainNewline
                        } else if c == '2' {
                            SettingToggle::ReformatAndCorrect
                        } else if c == '3' {
                            SettingToggle::BackgroundBlur
                        } else {
                            SettingToggle::AddPilcrowInPreview
                        },
                    )
                } else {
                    KeyAction::Nothing
                }
            } else {
                KeyAction::Nothing
            }
        },
        OverlayKey::Other => KeyAction::Nothing,
    }
}

/// Decides what a key event does (see `spec_key_action`).
pub fn key_action(
    key: OverlayKey,
    pressed: bool,
    repeat: bool,
    shift_held: bool,
    ctrl_held: bool,
) -> (a: KeyAction)
    ensures
        a == spec_key_action(key, pressed, repeat, shift_held, ctrl_held),
{
    let d = move_distance(shift_held, ctrl_held);
    match key {
        OverlayKey::Escape => KeyAction::HideWindow,
        OverlayKey::Shift => KeyAction::SetShiftHeld(pressed),
        OverlayKey::Control => KeyAction::SetCtrlHeld(pressed),
        OverlayKey::Tab => {
            if pressed {
                KeyAction::TogglePolygonMode
            } else {
                KeyAction::Nothing
            }
        },
        OverlayKey::ArrowUp => {
            if pressed {
                KeyAction::MoveSelection(0, -d)
            } else {
                KeyAction::Nothing
            }
        },
        OverlayKey::ArrowDown => {
            if pressed {
                KeyAction::MoveSelection(0, d)
            } else {
                KeyAction::Nothing
            }
        },
        OverlayKey::ArrowLeft => {
            if pressed {
                KeyAction::MoveSelection(-d, 0)
            } else {
                KeyAction::Nothing
            }
        },
        OverlayKey::ArrowRight => {
            if pressed {
                KeyAction::MoveSelection(d, 0)
            } else {
                KeyAction::Nothing
            }
        },
        OverlayKey::Character(c) => {
            if c == 'z' && ctrl_held {
                if pressed {
                    KeyAction::Undo
                } else {
                    KeyAction::Nothing
                }
            } else if c == 'y' && ctrl_held {
                if pressed {
                    KeyAction::Redo
                } else {
                    KeyAction::Nothing
                }
            } else if c == 'c' {
                KeyAction::CopyKey { held: pressed, attempt: pressed }
            } else if c == 's' {
                KeyAction::ScreenshotKey { held: pressed, attempt: pressed }
            } else if '1' <= c && c <= '4' {
                if pressed && !repeat {
                    let t = if c == '1' {
                        SettingToggle::MaintainNewline
                    } else if c == '2' {
                        SettingToggle::ReformatAndCorrect
                    } else if c == '3' {
                        SettingToggle::BackgroundBlur
                    } else {
                        SettingToggle::AddPilcrowInPreview
                    };
                    KeyAction::ToggleSetting(t)
                } else {
                    KeyAction::Nothing
                }
            } else {
                KeyAction::Nothing
            }
        },
        OverlayKey::Other => KeyAction::Nothing,
    }
}

/// A first press of a number key toggles one setting, the same for any
/// modifiers: 1 keeps newlines, 2 reformats and corrects, 3 blurs the
/// background, 4 adds the pilcrow in the preview; a repeated press toggles
/// nothing.
pub proof fn law_number_keys(shift_held: bool, ctrl_held: bool, repeat: bool)
    ensures
        (spec_key_action(OverlayKey::Character('1'), true, false, shift_held, ctrl_held)
            == KeyAction::ToggleSetting(SettingToggle::MaintainNewline)),
        (spec_key_action(OverlayKey::Character('2'), true, false, shift_held, ctrl_held)
            == KeyAction::ToggleSetting(SettingToggle::ReformatAndCorrect)),
        (spec_key_action(OverlayKey::Character('3'), true, false, shift_held, ctrl_held)
            == KeyAction::ToggleSetting(SettingToggle::BackgroundBlur)),
        (spec_key_action(OverlayKey::Character('4'), true, false, shift_held, ctrl_held)
            == KeyAction::ToggleSetting(SettingToggle::AddPilcrowInPreview)),
        (spec_key_action(OverlayKey::Character('1'), true, true, shift_held, ctrl_held) is Nothing),
        (spec_key_action(OverlayKey::Character('4'), true, true, shift_held, ctrl_held) is Nothing),
{
}

/// The number key of each setting, in the order the settings are listed.
pub open spec fn toggle_digit(t: SettingToggle) -> char {
    match t {
        SettingToggle::MaintainNewline => '1',
        SettingToggle::ReformatAndCorrect => '2',
        SettingToggle::BackgroundBlur => '3',
        SettingToggle::AddPilcrowInPreview => '4',
    }
}

/// A setting is toggled only by a first press of its own number key.
pub proof fn law_toggle_needs_its_key(
    key: OverlayKey,
    pressed: bool,
    repeat: bool,
    shift_held: bool,
    ctrl_held: bool,
    t: SettingToggle,
)
    requires
        (spec_key_action(key, pressed, repeat, shift_held, ctrl_held) == KeyAction::ToggleSetting(t)),
    ensures
        pressed,
        !repeat,
        key == OverlayKey::Character(toggle_digit(t)),
{
}

/// A press of an arrow key moves the selection in that key's direction only,
/// by one pixel with Shift held, else fifty with Control held, else ten.
pub proof fn law_arrow_keys(shift_held: bool, ctrl_held: bool, repeat: bool)
    ensures
        ({
            let d: int = if shift_held {
                1
            } else if ctrl_held {
                50
            } else {
                10
            };
            &&& spec_key_action(OverlayKey::ArrowUp, true, repeat, shift_held, ctrl_held) matches KeyAction::MoveSelection(
                dx,
                dy,
            ) && dx == 0 && dy == -d
            &&& spec_key_action(OverlayKey::ArrowDown, true, repeat, shift_held, ctrl_held) matches KeyAction::MoveSelection(
                dx,
                dy,
            ) && dx == 0 && dy == d
            &&& spec_key_action(OverlayKey::ArrowLeft, true, repeat, shift_held, ctrl_held) matches KeyAction::MoveSelection(
                dx,
                dy,
            ) && dx == -d && dy == 0
            &&& spec_key_action(OverlayKey::ArrowRight, true, repeat, shift_held, ctrl_held) matches KeyAction::MoveSelection(
                dx,
                dy,
            ) && dx == d && dy == 0
        }),
{
}

/// With Control held, a press of Z undoes and a press of Y redoes; without
/// Control these letters do nothing.  C and S copy and take a screenshot on a
/// press, with or without modifiers.
pub proof fn law_letter_keys(shift_held: bool, repeat: bool)
    ensures
        (spec_key_action(OverlayKey::Character('z'), true, repeat, shift_held, true) is Undo),
        (spec_key_action(OverlayKey::Character('y'), true, repeat, shift_held, true) is Redo),
        (spec_key_action(OverlayKey::Character('z'), true, repeat, shift_held, false) is Nothing),
        (spec_key_action(OverlayKey::Character('y'), true, repeat, shift_held, false) is Nothing),
        (spec_key_action(OverlayKey::Character('c'), true, repeat, shift_held, true)
            == KeyAction::CopyKey { held: true, attempt: true }),
        (spec_key_action(OverlayKey::Character('s'), true, repeat, shift_held, false)
            == KeyAction::ScreenshotKey { held: true, attempt: true }),
{
}

/// A key release never triggers a one-off action (undo, redo, copy, a
/// screenshot, a move, a toggle or a mode switch): it only updates which keys
/// are held, or hides the window on Escape.
pub proof fn law_release_only_updates_held_keys(
    key: OverlayKey,
    repeat: bool,
    shift_held: bool,
    ctrl_held: bool,
)
    ensures
        ({
            let a = spec_key_action(key, false, repeat, shift_held, ctrl_held);
            ||| a is Nothing
            ||| a is HideWindow
            ||| a == KeyAction::SetShiftHeld(false)
            ||| a == KeyAction::SetCtrlHeld(false)
            ||| a == KeyAction::CopyKey { held: false, attempt: false }
            ||| a == KeyAction::ScreenshotKey { held: false, attempt: false }
        }),
{
}

} // verus!
