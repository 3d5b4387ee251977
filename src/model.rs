//! The canonical gamepad state: every supported controller's reports are
//! decoded into it, and every emulated peripheral's reports are encoded from it.
use vstd::prelude::*;

verus! {

/// Position of one analog stick, raw bytes as the controller sent them, and
/// whether the stick is pressed down.
#[derive(Clone, Copy, Debug, PartialEq, Eq, Structural)]
pub struct Stick {
    pub x: u8,
    pub y: u8,
    pub pressed: bool,
}

#[derive(Clone, Copy, Debug, PartialEq, Eq, Structural)]
pub struct Sticks {
    pub left: Stick,
    pub right: Stick,
}

/// Analog triggers, raw bytes in `[0, 255]`.
#[derive(Clone, Copy, Debug, PartialEq, Eq, Structural)]
pub struct Triggers {
    pub left: u8,
    pub right: u8,
}

#[derive(Clone, Copy, Debug, PartialEq, Eq, Structural)]
pub struct Bumpers {
    pub left: bool,
    pub right: bool,
}

/// Directional pad. Decoded from one 8-way hat value, so at most two
/// adjacent directions are set at once.
#[derive(Clone, Copy, Debug, PartialEq, Eq, Structural)]
pub struct DPad {
    pub up: bool,
    pub down: bool,
    pub left: bool,
    pub right: bool,
}

/// The four face buttons, named by their position.
#[derive(Clone, Copy, Debug, PartialEq, Eq, Structural)]
pub struct MainButtons {
    pub upper: bool,
    pub lower: bool,
    pub left: bool,
    pub right: bool,
}

#[derive(Clone, Copy, Debug, PartialEq, Eq, Structural)]
pub struct SpecialButtons {
    /// Menu / options button.
    pub right: bool,
    /// Share / create button.
    pub left: bool,
    /// Logo / home button.
    pub logo: bool,
}

#[derive(Clone, Copy, Debug, PartialEq, Eq, Structural)]
pub struct Buttons {
    pub bumpers: Bumpers,
    pub dpad: DPad,
    pub main: MainButtons,
    pub specials: SpecialButtons,
}

#[derive(Clone, Copy, Debug, PartialEq, Eq, Structural)]
pub struct Gyroscope {
    pub x_coord: u8,
    pub y_coord: u8,
    pub z_coord: u8,
}

#[derive(Clone, Copy, Debug, PartialEq, Eq, Structural)]
pub struct Touchpad {
    /// Finger position; `None` when the model's decoder does not read it.
    pub x_coord: Option<u8>,
    pub y_coord: Option<u8>,
    /// A finger rests on the surface; `None` when not decoded.
    pub touched: Option<bool>,
    /// The surface is clicked down.
    pub pressed: bool,
}

/// Peripherals that only some controller models have. `None` marks one that
/// the active model does not report.
#[derive(Clone, Copy, Debug, PartialEq, Eq, Structural)]
pub struct Other {
    pub touchpad: Option<Touchpad>,
    pub gyroscope: Option<Gyroscope>,
}

/// Model-independent snapshot of everything a gamepad reports.
#[derive(Clone, Copy, Debug, PartialEq, Eq, Structural)]
pub struct UniversalGamepad {
    pub sticks: Sticks,
    pub triggers: Triggers,
    pub buttons: Buttons,
    pub other: Other,
}

pub open spec fn released_stick() -> Stick {
    Stick { x: 0, y: 0, pressed: false }
}

pub open spec fn released_dpad() -> DPad {
    DPad { up: false, down: false, left: false, right: false }
}

pub open spec fn released_main() -> MainButtons {
    MainButtons { upper: false, lower: false, left: false, right: false }
}

pub open spec fn released_specials() -> SpecialButtons {
    SpecialButtons { right: false, left: false, logo: false }
}

/// The all-released baseline that every decode starts from: sticks and
/// triggers at zero, no button held, no optional peripheral present.
pub open spec fn baseline() -> UniversalGamepad {
    UniversalGamepad {
        sticks: Sticks { left: released_stick(), right: released_stick() },
        triggers: Triggers { left: 0, right: 0 },
        buttons: Buttons {
            bumpers: Bumpers { left: false, right: false },
            dpad: released_dpad(),
            main: released_main(),
            specials: released_specials(),
        },
        other: Other { touchpad: None, gyroscope: None },
    }
}

/// No digital input of the state is held: buttons, bumpers, the directional
/// pad, stick presses and a present touchpad's press.
pub open spec fn all_digital_released(g: UniversalGamepad) -> bool {
    &&& !g.sticks.left.pressed
    &&& !g.sticks.right.pressed
    &&& g.buttons.bumpers == (Bumpers { left: false, right: false })
    &&& g.buttons.dpad == released_dpad()
    &&& g.buttons.main == released_main()
    &&& g.buttons.specials == released_specials()
    &&& (g.other.touchpad matches Some(t) ==> !t.pressed && t.touched != Some(true))
}

impl UniversalGamepad {
    /// The all-released baseline.
    pub fn nothing_pressed() -> (r: Self)
        ensures
            r == baseline(),
    {
        UniversalGamepad {
            sticks: Sticks::allfalse(),
            triggers: Triggers { left: 0, right: 0 },
            buttons: Buttons {
                bumpers: Bumpers::allfalse(),
                dpad: DPad::allfalse(),
                main: MainButtons::allfalse(),
                specials: SpecialButtons::allfalse(),
            },
            other: Other { touchpad: None, gyroscope: None },
        }
    }
}

impl Sticks {
    /// Both sticks centred at zero and not pressed.
    pub fn allfalse() -> (r: Self)
        ensures
            r.left == released_stick(),
            r.right == released_stick(),
    {
        Sticks {
            left: Stick { x: 0, y: 0, pressed: false },
            right: Stick { x: 0, y: 0, pressed: false },
        }
    }
}

impl Bumpers {
    pub fn allfalse() -> (r: Self)
        ensures
            !r.left && !r.right,
    {
        Bumpers { left: false, right: false }
    }
}

impl DPad {
    pub fn allfalse() -> (r: Self)
        ensures
            r == released_dpad(),
    {
        DPad { up: false, down: false, left: false, right: false }
    }
}

impl MainButtons {
    pub fn allfalse() -> (r: Self)
        ensures
            r == released_main(),
    {
        MainButtons { upper: false, lower: false, left: false, right: false }
    }
}

impl SpecialButtons {
    pub fn allfalse() -> (r: Self)
        ensures
            r == released_specials(),
    {
        SpecialButtons { right: false, left: false, logo: false }
    }
}

} // verus!
