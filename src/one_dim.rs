//! The one-dimensional simulation: what starts it, and the decisions of its
//! plot view (how many time steps each frame advances, which curves show).
use vstd::prelude::*;
use crate::config::Window;
use crate::input::Key;

verus! {

/// The largest number of time steps one frame may advance.
pub const MAX_SPEED: usize = 200;

/// What the one-dimensional simulation opens: the plot window when
/// `visual` is set, nothing otherwise.
pub fn run(visual: bool) -> (r: Option<Window>)
    ensures
        r == (if visual {
            Some(Window::Plot)
        } else {
            None
        }),
{
    if visual {
        Some(Window::Plot)
    } else {
        None
    }
}

/// The playback speed after a key press: the up arrow adds one step per
/// frame up to `MAX_SPEED`, the down arrow takes one away down to one, and
/// any other key leaves it.
pub fn next_speed(speed: usize, key: Key) -> (r: usize)
    ensures
        r == (if key == Key::ArrowUp && speed < MAX_SPEED {
            speed + 1
        } else if key == Key::ArrowDown && speed > 1 {
            speed - 1
        } else {
            speed as int
        }),
        1 <= speed <= MAX_SPEED ==> 1 <= r <= MAX_SPEED,
{
    if key == Key::ArrowUp && speed < MAX_SPEED {
        speed + 1
    } else if key == Key::ArrowDown && speed > 1 {
        speed - 1
    } else {
        speed
    }
}

/// The part of the wave function that a toggle button shows.
#[derive(Debug, Clone, Copy, PartialEq, Eq, Structural)]
pub enum ToggleVariant {
    Real,
    Imag,
}

/// The colours of the plot view.
#[derive(Debug, Clone, Copy, PartialEq, Eq, Structural)]
pub enum ChartColor {
    Red,
    Blue,
    Green,
    Black,
}

/// A button that shows or hides one curve.
#[derive(Debug, Clone, Copy, PartialEq, Eq, Structural)]
pub struct ToggleButton {
    variant: ToggleVariant,
    active: bool,
    color: ChartColor,
}

impl ToggleButton {
    pub closed spec fn spec_variant(&self) -> ToggleVariant {
        self.variant
    }

    pub closed spec fn spec_active(&self) -> bool {
        self.active
    }

    pub closed spec fn spec_color(&self) -> ChartColor {
        self.color
    }

    /// A button for `variant` in `color`, showing its curve.
    pub fn new(variant: ToggleVariant, color: ChartColor) -> (r: ToggleButton)
        ensures
            r.spec_variant() == variant,
            r.spec_active(),
            r.spec_color() == color,
    {
        ToggleButton { variant, active: true, color }
    }

    pub fn variant(&self) -> (r: ToggleVariant)
        ensures
            r == self.spec_variant(),
    {
        self.variant
    }

    /// Whether the curve is shown.
    pub fn active(&self) -> (r: bool)
        ensures
            r == self.spec_active(),
    {
        self.active
    }

    /// Shows a hidden curve, hides a shown one.
    pub fn toggle(&mut self)
        ensures
            final(self).spec_active() == !old(self).spec_active(),
            final(self).spec_variant() == old(self).spec_variant(),
            final(self).spec_color() == old(self).spec_color(),
    {
        self.active = !self.active;
    }

    /// The colour of the curve, and of the button while it is active.
    pub fn color(&self) -> (r: ChartColor)
        ensures
            r == self.spec_color(),
    {
        self.color
    }

    /// The colour the button is painted: its own while active, black
    /// otherwise.
    pub fn background(&self) -> (r: ChartColor)
        ensures
            r == (if self.spec_active() {
                self.spec_color()
            } else {
                ChartColor::Black
            }),
    {
        if self.active {
            self.color
        } else {
            ChartColor::Black
        }
    }
}

} // verus!
