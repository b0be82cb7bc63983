//! The entries of the start menu and the way the selection moves.

use crate::geometry::Point;
use vstd::prelude::*;

verus! {

/// An entry of the start menu.
#[derive(Clone, Copy, Debug, PartialEq, Eq, Structural)]
pub enum MenuOption {
    Badge,
    AccelerometerDPad,
    Neopixel,
    HuntTheGopher,
    GopherbadgeRust,
}

/// The entries from the top of the menu to the bottom.
pub open spec fn menu_order() -> Seq<MenuOption> {
    seq![
        MenuOption::Badge,
        MenuOption::AccelerometerDPad,
        MenuOption::Neopixel,
        MenuOption::HuntTheGopher,
        MenuOption::GopherbadgeRust,
    ]
}

impl MenuOption {
    /// The place of the entry in the menu, counted from zero at the top.
    pub open spec fn rank(self) -> int {
        match self {
            MenuOption::Badge => 0,
            MenuOption::AccelerometerDPad => 1,
            MenuOption::Neopixel => 2,
            MenuOption::HuntTheGopher => 3,
            MenuOption::GopherbadgeRust => 4,
        }
    }

    /// The entry below this one; below the last comes the first.
    pub open spec fn following(self) -> MenuOption {
        menu_order()[(self.rank() + 1) % 5]
    }

    /// The entry above this one; above the first comes the last.
    pub open spec fn preceding(self) -> MenuOption {
        menu_order()[(self.rank() + 4) % 5]
    }

    /// Where the entry's text starts on the display: twenty pixels from
    /// the left, and twenty pixels further down for each entry above it.
    pub open spec fn anchor(self) -> Point {
        Point { x: 20, y: (20 + 20 * self.rank()) as i32 }
    }

    /// The text of the entry.
    pub open spec fn title(self) -> &'static str {
        match self {
            MenuOption::Badge => "Conference Badge",
            MenuOption::AccelerometerDPad => "Accelerometer + DPad",
            MenuOption::Neopixel => "Neopixel - Sight beyond sight",
            MenuOption::HuntTheGopher => "Hunt the Gopher",
            MenuOption::GopherbadgeRust => "gopherbadge-rs",
        }
    }

    /// All entries, from the top of the menu to the bottom.
    pub fn options() -> (all: [MenuOption; 5])
        ensures
            all@ == menu_order(),
    {
        let all: [MenuOption; 5] = [
            MenuOption::Badge,
            MenuOption::AccelerometerDPad,
            MenuOption::Neopixel,
            MenuOption::HuntTheGopher,
            MenuOption::GopherbadgeRust,
        ];
        assert(all@ =~= menu_order());
        all
    }

    /// The entry below this one. The entry itself stays as it is.
    pub fn next(&mut self) -> (below: Option<MenuOption>)
        ensures
            *final(self) == *old(self),
            below == Some(old(self).following()),
    {
        match *self {
            MenuOption::Badge => Some(MenuOption::AccelerometerDPad),
            MenuOption::AccelerometerDPad => Some(MenuOption::Neopixel),
            MenuOption::Neopixel => Some(MenuOption::HuntTheGopher),
            MenuOption::HuntTheGopher => Some(MenuOption::GopherbadgeRust),
            MenuOption::GopherbadgeRust => Some(MenuOption::Badge),
        }
    }

    /// The entry above this one. The entry itself stays as it is.
    pub fn next_back(&mut self) -> (above: Option<MenuOption>)
        ensures
            *final(self) == *old(self),
            above == Some(old(self).preceding()),
    {
        match *self {
            MenuOption::Badge => Some(MenuOption::GopherbadgeRust),
            MenuOption::AccelerometerDPad => Some(MenuOption::Badge),
            MenuOption::Neopixel => Some(MenuOption::AccelerometerDPad),
            MenuOption::HuntTheGopher => Some(MenuOption::Neopixel),
            MenuOption::GopherbadgeRust => Some(MenuOption::HuntTheGopher),
        }
    }

    /// Where the entry's text starts on the display.
    pub fn position(&self) -> (p: Point)
        ensures
            p == self.anchor(),
    {
        let y: i32 = match *self {
            MenuOption::Badge => 20,
            MenuOption::AccelerometerDPad => 40,
            MenuOption::Neopixel => 60,
            MenuOption::HuntTheGopher => 80,
            MenuOption::GopherbadgeRust => 100,
        };
        Point { x: 20, y }
    }

    /// The text of the entry.
    pub fn label(&self) -> (text: &'static str)
        ensures
            text == self.title(),
    {
        match *self {
            MenuOption::Badge => "Conference Badge",
            MenuOption::AccelerometerDPad => "Accelerometer + DPad",
            MenuOption::Neopixel => "Neopixel - Sight beyond sight",
            MenuOption::HuntTheGopher => "Hunt the Gopher",
            MenuOption::GopherbadgeRust => "gopherbadge-rs",
        }
    }
}

impl From<&MenuOption> for Point {
    /// Where the entry's text starts on the display.
    fn from(option: &MenuOption) -> (p: Point) {
        option.position()
    }
}

impl vstd::std_specs::convert::FromSpecImpl<&MenuOption> for Point {
    open spec fn obeys_from_spec() -> bool {
        true
    }

    open spec fn from_spec(option: &MenuOption) -> Point {
        option.anchor()
    }
}

impl From<&MenuOption> for &'static str {
    /// The text of the entry.
    fn from(option: &MenuOption) -> (text: &'static str) {
        option.label()
    }
}

impl vstd::std_specs::convert::FromSpecImpl<&MenuOption> for &'static str {
    open spec fn obeys_from_spec() -> bool {
        true
    }

    open spec fn from_spec(option: &MenuOption) -> &'static str {
        option.title()
    }
}

/// Going down one entry and up one entry, in either order, leads back to
/// where one was; going down five times goes once round the menu.
pub proof fn lemma_menu_is_a_ring(option: MenuOption)
    ensures
        option.following().preceding() == option,
        option.preceding().following() == option,
        option.following().following().following().following().following() == option,
{
}

/// What the buttons say in one round of the menu loop.
#[derive(Clone, Copy, Debug, PartialEq, Eq, Structural)]
pub struct MenuInput {
    pub down: bool,
    pub up: bool,
    pub confirm: bool,
}

/// What the menu loop holds between rounds.
#[derive(Clone, Copy, Debug, PartialEq, Eq, Structural)]
pub struct MenuState {
    /// The entry that is highlighted.
    pub selected: MenuOption,
    /// Whether the entries have to be painted again.
    pub redraw: bool,
}

/// What the menu loop has to do after a round.
#[derive(Clone, Copy, Debug, PartialEq, Eq, Structural)]
pub enum MenuStep {
    /// The highlighted entry was confirmed: leave the loop with it.
    Chosen { option: MenuOption },
    /// Paint every entry, `highlighted` in the swapped colours, then wait.
    Repaint { highlighted: MenuOption, wait_ms: u32 },
    /// Nothing changed: just wait.
    Wait { wait_ms: u32 },
}

/// How long the loop waits after it has painted the entries, in
/// milliseconds, the pause at the end of every round included.
pub const MENU_REPAINT_WAIT_MS: u32 = 210;

/// How long the loop waits at the end of a round without painting.
pub const MENU_IDLE_WAIT_MS: u32 = 10;

/// The highlighted entry after the buttons have been looked at: one down
/// if `down` is pressed, then one up if `up` is pressed.
pub open spec fn menu_selection(selected: MenuOption, input: MenuInput) -> MenuOption {
    let after_down = if input.down {
        selected.following()
    } else {
        selected
    };
    if input.up {
        after_down.preceding()
    } else {
        after_down
    }
}

impl MenuState {
    /// The menu as it is entered: the first entry highlighted, everything
    /// still to be painted.
    pub fn new() -> (state: MenuState)
        ensures
            state.selected == MenuOption::Badge,
            state.redraw,
    {
        MenuState { selected: MenuOption::Badge, redraw: true }
    }

    /// One round of the menu loop. The selection follows the buttons. If
    /// the confirm button is pressed the loop ends with the selection;
    /// else the entries are painted if a button moved the selection or a
    /// repaint was still due.
    pub fn tick(&mut self, input: MenuInput) -> (step: MenuStep)
        ensures
            final(self).selected == menu_selection(old(self).selected, input),
            input.confirm ==> step == (MenuStep::Chosen { option: final(self).selected })
                && final(self).redraw == (old(self).redraw || input.down || input.up),
            !input.confirm ==> !final(self).redraw,
            !input.confirm && (old(self).redraw || input.down || input.up) ==> step == (
            MenuStep::Repaint { highlighted: final(self).selected, wait_ms: MENU_REPAINT_WAIT_MS }),
            !input.confirm && !(old(self).redraw || input.down || input.up) ==> step == (
            MenuStep::Wait { wait_ms: MENU_IDLE_WAIT_MS }),
    {
        if input.down {
            match self.selected.next() {
                Some(below) => {
                    self.selected = below;
                },
                None => {},
            }
            self.redraw = true;
        }
        if input.up {
            match self.selected.next_back() {
                Some(above) => {
                    self.selected = above;
                },
                None => {},
            }
            self.redraw = true;
        }
        if input.confirm {
            return MenuStep::Chosen { option: self.selected };
        }
        if self.redraw {
            self.redraw = false;
            MenuStep::Repaint { highlighted: self.selected, wait_ms: MENU_REPAINT_WAIT_MS }
        } else {
            MenuStep::Wait { wait_ms: MENU_IDLE_WAIT_MS }
        }
    }
}

} // verus!
