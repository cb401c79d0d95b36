//! Detection of a new keybind: the user asks for it, presses and releases a
//! key, and the settings pick up the keybind that was entered.
use vstd::prelude::*;
use crate::settings::Keybind;

verus! {

/// Where the detection of a new keybind stands.
#[derive(Debug, Clone, Copy, PartialEq, Eq, Structural)]
pub enum KeybindState {
    /// The user asked for a new keybind and none has been entered yet.
    WaitingForKeybind,
    /// A key was released with these modifiers held.
    KeybindEntered(Keybind),
    /// Nothing to report.
    Idle,
}

/// The state and the result after `check_for_detected_keybind`.
pub open spec fn spec_check(s: KeybindState) -> (KeybindState, Option<Keybind>) {
    match s {
        KeybindState::KeybindEntered(k) => (KeybindState::Idle, Some(k)),
        _ => (s, None),
    }
}

pub struct InputHandler {
    keybind_state: KeybindState,
}

impl View for InputHandler {
    type V = KeybindState;

    closed spec fn view(&self) -> KeybindState {
        self.keybind_state
    }
}

impl InputHandler {
    pub fn new() -> (h: Self)
        ensures
            h@ == KeybindState::Idle,
    {
        Self { keybind_state: KeybindState::Idle }
    }

    pub fn keybind_state(&self) -> (s: KeybindState)
        ensures
            s == self@,
    {
        self.keybind_state
    }

    pub fn detect_next_keybind(&mut self)
        ensures
            final(self)@ == KeybindState::WaitingForKeybind,
    {
        self.keybind_state = KeybindState::WaitingForKeybind;
    }

    pub fn stop_detecting_keybind(&mut self)
        ensures
            final(self)@ == KeybindState::Idle,
    {
        self.keybind_state = KeybindState::Idle;
    }

    /// Records that a key was released with the given modifiers held.
    pub fn key_released(&mut self, keybind: Keybind)
        ensures
            final(self)@ == KeybindState::KeybindEntered(keybind),
    {
        self.keybind_state = KeybindState::KeybindEntered(keybind);
    }

    /// Hands out an entered keybind once, and forgets it.
    pub fn check_for_detected_keybind(&mut self) -> (r: Option<Keybind>)
        ensures
            (final(self)@, r) == spec_check(old(self)@),
    {
        match self.keybind_state {
            KeybindState::KeybindEntered(keybind) => {
                self.keybind_state = KeybindState::Idle;
                Some(keybind)
            },
            _ => None,
        }
    }
}

/// An entered keybind is handed out by exactly one check: the check after it
/// finds nothing.
pub proof fn law_keybind_reported_once(s: KeybindState)
    ensures
        spec_check(spec_check(s).0).1 == None::<Keybind>,
        s matches KeybindState::KeybindEntered(k) ==> spec_check(s).1 == Some(k),
{
}

} // verus!
