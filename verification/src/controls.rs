//! What the player's input means: which way the ship is steered, and how the
//! retry button answers to the pointer.

use vstd::prelude::*;

verus! {

/// The direction two opposite keys steer in: one step to the right for the
/// right key, one to the left for the left key, and their sum when both or
/// neither are held.
pub open spec fn steering(left_held: bool, right_held: bool) -> int {
    (if right_held {
        1int
    } else {
        0int
    }) - (if left_held {
        1int
    } else {
        0int
    })
}

/// The direction the ship is steered in: -1 for left, 1 for right, 0 for
/// straight on.
pub fn steer(left_held: bool, right_held: bool) -> (direction: i8)
    ensures
        direction == steering(left_held, right_held),
{
    let mut direction: i8 = 0;
    if left_held {
        direction = direction - 1;
    }
    if right_held {
        direction = direction + 1;
    }
    direction
}

/// What the pointer is doing to a button.
#[derive(Clone, Copy, Debug, PartialEq, Eq, Structural, Hash)]
pub enum Pointer {
    /// The button is being pressed.
    Pressed,
    /// The pointer rests on the button.
    Hovered,
    /// The pointer is elsewhere.
    Away,
}

/// How the inside of a button is painted.
#[derive(Clone, Copy, Debug, PartialEq, Eq, Structural, Hash)]
pub enum ButtonFill {
    Normal,
    Hovered,
    Pressed,
}

/// How the border of a button is painted.
#[derive(Clone, Copy, Debug, PartialEq, Eq, Structural, Hash)]
pub enum ButtonBorder {
    Black,
    White,
    Red,
}

/// How the retry button answers to the pointer: how it looks, and whether a
/// new run is asked for.
#[derive(Clone, Copy, Debug, PartialEq, Eq, Structural, Hash)]
pub struct ButtonReaction {
    pub fill: ButtonFill,
    pub border: ButtonBorder,
    pub restart: bool,
}

/// The retry button's answer to each thing the pointer can do. Only a press
/// asks for a new run.
pub open spec fn reaction_to(pointer: Pointer) -> ButtonReaction {
    match pointer {
        Pointer::Pressed => ButtonReaction {
            fill: ButtonFill::Pressed,
            border: ButtonBorder::Red,
            restart: true,
        },
        Pointer::Hovered => ButtonReaction {
            fill: ButtonFill::Hovered,
            border: ButtonBorder::White,
            restart: false,
        },
        Pointer::Away => ButtonReaction {
            fill: ButtonFill::Normal,
            border: ButtonBorder::Black,
            restart: false,
        },
    }
}

/// The retry button's answer to the pointer.
pub fn react(pointer: Pointer) -> (reaction: ButtonReaction)
    ensures
        reaction == reaction_to(pointer),
{
    match pointer {
        Pointer::Pressed => ButtonReaction {
            fill: ButtonFill::Pressed,
            border: ButtonBorder::Red,
            restart: true,
        },
        Pointer::Hovered => ButtonReaction {
            fill: ButtonFill::Hovered,
            border: ButtonBorder::White,
            restart: false,
        },
        Pointer::Away => ButtonReaction {
            fill: ButtonFill::Normal,
            border: ButtonBorder::Black,
            restart: false,
        },
    }
}

/// How the retry button looks before the pointer has touched it.
pub fn resting_button() -> (reaction: ButtonReaction)
    ensures
        reaction == reaction_to(Pointer::Away),
{
    react(Pointer::Away)
}

} // verus!
