//! How the toolbar icons react to the mouse.
use vstd::prelude::*;
use crate::selection::{Bounds, fits_i32, spec_contains};

verus! {

/// What clicking an icon does.
#[derive(Debug, Clone, Copy, PartialEq, Eq, Structural)]
pub enum IconBehavior {
    /// Toggles a setting as soon as the button goes down.
    SettingToggle,
    /// Acts when the button is released over it.
    Click,
    /// Only decoration; it still swallows clicks.
    Visual,
}

/// Whether a mouse button went down or up.
#[derive(Debug, Clone, Copy, PartialEq, Eq, Structural)]
pub enum ButtonState {
    Pressed,
    Released,
}

/// The atlas positions of the four looks of an icon.
#[derive(Debug, Clone, Copy)]
pub struct IconAtlasPositions {
    pub normal: (u32, u32),
    pub hovered: (u32, u32),
    pub selected: (u32, u32),
    pub selected_hovered: (u32, u32),
}

/// The interaction state of one icon.
#[derive(Debug, Clone, Copy, PartialEq, Eq, Structural)]
pub struct IconState {
    pub hovered: bool,
    pub pressed: bool,
    pub active: bool,
    pub disabled: bool,
    pub bounds: Bounds,
    pub visible: bool,
    pub behavior: IconBehavior,
}

/// The result of a mouse button event on an icon.
#[derive(Debug, Clone, Copy, PartialEq, Eq, Structural)]
pub struct MouseOutcome {
    /// The icon took the event (it will not reach the selection below).
    pub handled: bool,
    /// The icon's click action should run.
    pub fire_callback: bool,
}

/// Whether the icon's bounds can be tested for containment without overflow.
pub open spec fn icon_bounds_fit(b: Bounds) -> bool {
    fits_i32(b.x + b.width) && fits_i32(b.y + b.height)
}

/// The state and outcome after a mouse button event at `mouse_pos`.
pub open spec fn spec_mouse_event(
    icon: IconState,
    mouse_pos: (i32, i32),
    state: ButtonState,
    has_callback: bool,
) -> (IconState, MouseOutcome) {
    if spec_contains(icon.bounds, mouse_pos) && icon.visible {
        match icon.behavior {
            IconBehavior::Click => (
                IconState { pressed: state == ButtonState::Pressed, ..icon },
                MouseOutcome {
                    handled: true,
                    fire_callback: has_callback && state == ButtonState::Released,
                },
            ),
            IconBehavior::SettingToggle => (
                icon,
                MouseOutcome {
                    handled: true,
                    fire_callback: has_callback && state == ButtonState::Pressed,
                },
            ),
            IconBehavior::Visual => (icon, MouseOutcome { handled: true, fire_callback: false }),
        }
    } else {
        (icon, MouseOutcome { handled: false, fire_callback: false })
    }
}

/// The state after a frame update with the mouse at `mouse_pos`, where
/// `disabled` and `active_from_context` are what the icon's callbacks report
/// (if it has them).
pub open spec fn spec_update(
    icon: IconState,
    mouse_pos: (i32, i32),
    disabled: Option<bool>,
    active_from_context: Option<bool>,
) -> IconState {
    let d = match disabled {
        Some(d) => d,
        None => icon.disabled,
    };
    let p = if !icon.hovered && icon.pressed && icon.behavior == IconBehavior::Click {
        false
    } else {
        icon.pressed
    };
    let over = spec_contains(icon.bounds, mouse_pos);
    IconState {
        disabled: d,
        pressed: p,
        hovered: over && !d,
        active: (active_from_context == Some(true)) || p,
        ..icon
    }
}

impl IconState {
    pub fn new(bounds: Bounds, behavior: IconBehavior) -> (s: Self)
        ensures
            s == (IconState {
                hovered: false,
                pressed: false,
                active: false,
                disabled: false,
                bounds,
                visible: true,
                behavior,
            }),
    {
        IconState {
            hovered: false,
            pressed: false,
            active: false,
            disabled: false,
            bounds,
            visible: true,
            behavior,
        }
    }

    /// Reacts to a mouse button event; `has_callback` tells whether the icon
    /// has a click action.
    pub fn mouse_event(&mut self, mouse_pos: (i32, i32), state: ButtonState, has_callback: bool) -> (r:
        MouseOutcome)
        requires
            icon_bounds_fit(old(self).bounds),
        ensures
            (*final(self), r) == spec_mouse_event(*old(self), mouse_pos, state, has_callback),
    {
        if self.bounds.contains(mouse_pos) && self.visible {
            let fire = match self.behavior {
                IconBehavior::Click => {
                    let fire = has_callback && state == ButtonState::Released;
                    self.pressed = state == ButtonState::Pressed;
                    fire
                },
                IconBehavior::SettingToggle => has_callback && state == ButtonState::Pressed,
                IconBehavior::Visual => false,
            };
            MouseOutcome { handled: true, fire_callback: fire }
        } else {
            MouseOutcome { handled: false, fire_callback: false }
        }
    }

    /// Updates hover, press and active state for a frame, and tells whether the
    /// mouse is over the icon (which is when its tooltip is due).
    pub fn update(
        &mut self,
        mouse_pos: (i32, i32),
        disabled: Option<bool>,
        active_from_context: Option<bool>,
    ) -> (mouse_over: bool)
        requires
            icon_bounds_fit(old(self).bounds),
        ensures
            *final(self) == spec_update(*old(self), mouse_pos, disabled, active_from_context),
            mouse_over == spec_contains(old(self).bounds, mouse_pos),
    {
        if let Some(d) = disabled {
            self.disabled = d;
        }
        if !self.hovered && self.pressed && self.behavior == IconBehavior::Click {
            self.pressed = false;
        }
        let mouse_over = self.bounds.contains(mouse_pos);
        self.hovered = mouse_over && !self.disabled;
        self.active = match active_from_context {
            Some(a) => a,
            None => false,
        } || self.pressed;
        mouse_over
    }

    /// The atlas position of the look that fits the icon's state.
    pub fn atlas_position(&self, positions: IconAtlasPositions) -> (r: (u32, u32))
        ensures
            r == (if self.active && self.hovered {
                positions.selected_hovered
            } else if self.active {
                positions.selected
            } else if self.hovered {
                positions.hovered
            } else {
                positions.normal
            }),
    {
        match (self.active, self.hovered) {
            (true, true) => positions.selected_hovered,
            (true, false) => positions.selected,
            (false, true) => positions.hovered,
            (false, false) => positions.normal,
        }
    }
}

/// A click on a `Click` icon runs its action only on release and only after a
/// press over it: pressing marks it pressed without acting, and the release
/// acts and clears the mark.
pub proof fn law_click_fires_on_release(icon: IconState, pos: (i32, i32))
    requires
        icon.behavior == IconBehavior::Click,
        icon.visible,
        spec_contains(icon.bounds, pos),
    ensures
        ({
            let (pressed, down) = spec_mouse_event(icon, pos, ButtonState::Pressed, true);
            let (released, up) = spec_mouse_event(pressed, pos, ButtonState::Released, true);
            &&& down.handled && !down.fire_callback && pressed.pressed
            &&& up.handled && up.fire_callback && !released.pressed
        }),
{
}

/// An icon that is disabled is never shown as hovered.
pub proof fn law_disabled_not_hovered(
    icon: IconState,
    pos: (i32, i32),
    active_from_context: Option<bool>,
)
    ensures
        !spec_update(icon, pos, Some(true), active_from_context).hovered,
{
}

/// After a frame update an icon looks selected exactly when its context
/// reports it active or it is still pressed; an update never presses an
/// icon, and it keeps a press on a `Click` icon while the mouse was over it
/// (and on other icons always); the icon is hovered exactly when the mouse
/// is over it and it is not disabled; bounds, visibility and behaviour stay.
pub proof fn law_update_state(
    icon: IconState,
    pos: (i32, i32),
    disabled: Option<bool>,
    active_from_context: Option<bool>,
)
    ensures
        ({
            let u = spec_update(icon, pos, disabled, active_from_context);
            &&& u.active <==> (active_from_context == Some(true) || u.pressed)
            &&& u.pressed ==> u.active
            &&& u.pressed ==> icon.pressed
            &&& (icon.pressed && (icon.hovered || icon.behavior != IconBehavior::Click)) ==> u.pressed
            &&& (icon.pressed && !icon.hovered && icon.behavior == IconBehavior::Click) ==> !u.pressed
            &&& u.disabled == (match disabled {
                Some(d) => d,
                None => icon.disabled,
            })
            &&& u.hovered <==> (spec_contains(icon.bounds, pos) && !u.disabled)
            &&& u.bounds == icon.bounds
            &&& u.visible == icon.visible
            &&& u.behavior == icon.behavior
        }),
{
}

/// A `Click` icon pressed while hovered still shows its selected look at the
/// next update, whether or not the mouse has moved off it since.
pub proof fn law_pressed_click_looks_selected(
    icon: IconState,
    pos: (i32, i32),
    press_pos: (i32, i32),
    disabled: Option<bool>,
    active_from_context: Option<bool>,
)
    requires
        icon.behavior == IconBehavior::Click,
        icon.visible,
        icon.hovered,
        spec_contains(icon.bounds, press_pos),
    ensures
        ({
            let pressed = spec_mouse_event(icon, press_pos, ButtonState::Pressed, true).0;
            let u = spec_update(pressed, pos, disabled, active_from_context);
            u.pressed && u.active
        }),
{
}

} // verus!
