//! What the main menu decides: which button was clicked and how a button
//! looks.

use vstd::prelude::*;
use crate::constants::Rgb;

verus! {

/// How the pointer relates to a button.
#[derive(Clone, Copy, Debug, PartialEq, Eq, Structural)]
pub enum Interaction {
    /// The button was clicked.
    Clicked,
    /// The pointer is over the button.
    Hovered,
    /// The pointer is elsewhere.
    Idle,
}

/// Colour of a button for each way the pointer relates to it.
pub open spec fn button_color(interaction: Interaction) -> Rgb {
    match interaction {
        Interaction::Clicked => Rgb { r: 250, g: 250, b: 250 },
        Interaction::Hovered => Rgb { r: 250, g: 250, b: 250 },
        Interaction::Idle => Rgb { r: 150, g: 150, b: 150 },
    }
}

/// Whether a button was clicked, given the changes to its interaction state
/// this tick.
pub fn on_btn_interact(interactions: &Vec<Interaction>) -> (clicked: bool)
    ensures
        clicked == interactions@.contains(Interaction::Clicked),
{
    let mut i: usize = 0;
    while i < interactions.len()
        invariant
            i <= interactions@.len(),
            forall|k: int| 0 <= k < i ==> interactions@[k] != Interaction::Clicked,
        decreases interactions@.len() - i,
    {
        if interactions[i] == Interaction::Clicked {
            return true;
        }
        i = i + 1;
    }
    false
}

/// The colour each button takes, given the interaction state of each.
pub fn button_system(interactions: &Vec<Interaction>) -> (colors: Vec<Rgb>)
    ensures
        colors@ == interactions@.map_values(|i: Interaction| button_color(i)),
{
    let mut colors: Vec<Rgb> = Vec::new();
    let mut i: usize = 0;
    while i < interactions.len()
        invariant
            i <= interactions@.len(),
            colors@.len() == i,
            forall|k: int| 0 <= k < i ==> colors@[k] == button_color(interactions@[k]),
        decreases interactions@.len() - i,
    {
        let color: Rgb = match interactions[i] {
            Interaction::Clicked => Rgb { r: 250, g: 250, b: 250 },
            Interaction::Hovered => Rgb { r: 250, g: 250, b: 250 },
            Interaction::Idle => Rgb { r: 150, g: 150, b: 150 },
        };
        colors.push(color);
        i = i + 1;
    }
    proof {
        assert(colors@ =~= interactions@.map_values(|i: Interaction| button_color(i)));
    }
    colors
}

} // verus!
