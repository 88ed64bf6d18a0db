//! Where a drop-down panel opens relative to its trigger, and what that
//! means for the room it may take and the direction it slides in from.

use vstd::prelude::*;

verus! {

/// Panel placement around the trigger (the compass points of the trigger's
/// box, plus the three edge-aligned list placements).
#[derive(Debug, Clone, Copy, PartialEq, Eq, Structural)]
pub enum Alignment {
    TopStart,
    Top,
    TopEnd,
    End,
    BottomEnd,
    Bottom,
    BottomStart,
    Start,
    /// Below the trigger, overlay left edge = trigger left edge.
    BelowLeft,
    /// Below the trigger, overlay right edge = trigger right edge.
    BelowRight,
    /// Above the trigger, overlay right edge = trigger right edge.
    AboveRight,
}

/// The vertical room a placement may fill.
#[derive(Debug, Clone, Copy, PartialEq, Eq, Structural)]
pub enum HeightRoom {
    /// The space above the trigger.
    Above,
    /// The space above the trigger plus the trigger's own height (the panel
    /// sits beside the trigger, its bottom edge level with the trigger's).
    AboveAndTrigger,
    /// The space below the trigger.
    Below,
    /// The space below the trigger plus the trigger's own height.
    BelowAndTrigger,
    /// Twice the distance from the trigger's centre to the nearer viewport
    /// edge (the panel is centred on the trigger).
    Centred,
}

/// The direction the panel slides in from while it opens.
#[derive(Debug, Clone, Copy, PartialEq, Eq, Structural)]
pub enum Slide {
    /// From above, moving down into place.
    Down,
    /// From below, moving up into place.
    Up,
    /// In place from the start.
    Still,
}

pub open spec fn height_room_spec(a: Alignment) -> HeightRoom {
    match a {
        Alignment::Top | Alignment::AboveRight => HeightRoom::Above,
        Alignment::TopStart | Alignment::TopEnd => HeightRoom::AboveAndTrigger,
        Alignment::Bottom | Alignment::BelowLeft | Alignment::BelowRight => HeightRoom::Below,
        Alignment::BottomEnd | Alignment::BottomStart => HeightRoom::BelowAndTrigger,
        Alignment::Start | Alignment::End => HeightRoom::Centred,
    }
}

pub open spec fn slide_spec(a: Alignment) -> Slide {
    match a {
        Alignment::Top | Alignment::TopStart | Alignment::TopEnd | Alignment::AboveRight => Slide::Up,
        Alignment::Bottom | Alignment::BottomEnd | Alignment::BottomStart | Alignment::BelowLeft
        | Alignment::BelowRight => Slide::Down,
        Alignment::Start | Alignment::End => Slide::Still,
    }
}

impl Alignment {
    /// The vertical room the panel may fill.
    pub fn height_room(self) -> (r: HeightRoom)
        ensures
            r == height_room_spec(self),
    {
        match self {
            Alignment::Top | Alignment::AboveRight => HeightRoom::Above,
            Alignment::TopStart | Alignment::TopEnd => HeightRoom::AboveAndTrigger,
            Alignment::Bottom | Alignment::BelowLeft | Alignment::BelowRight => HeightRoom::Below,
            Alignment::BottomEnd | Alignment::BottomStart => HeightRoom::BelowAndTrigger,
            Alignment::Start | Alignment::End => HeightRoom::Centred,
        }
    }

    /// The direction the panel slides in from.
    pub fn slide(self) -> (r: Slide)
        ensures
            r == slide_spec(self),
    {
        match self {
            Alignment::Top | Alignment::TopStart | Alignment::TopEnd | Alignment::AboveRight => Slide::Up,
            Alignment::Bottom | Alignment::BottomEnd | Alignment::BottomStart | Alignment::BelowLeft
            | Alignment::BelowRight => Slide::Down,
            Alignment::Start | Alignment::End => Slide::Still,
        }
    }
}

/// A panel that takes its room above the trigger starts lower and slides up
/// into place (away from the trigger); one below starts higher and slides
/// down; one centred beside it does not slide.
pub proof fn lemma_slide_matches_room(a: Alignment)
    ensures
        (height_room_spec(a) == HeightRoom::Above || height_room_spec(a) == HeightRoom::AboveAndTrigger)
            <==> slide_spec(a) == Slide::Up,
        (height_room_spec(a) == HeightRoom::Below || height_room_spec(a) == HeightRoom::BelowAndTrigger)
            <==> slide_spec(a) == Slide::Down,
        height_room_spec(a) == HeightRoom::Centred <==> slide_spec(a) == Slide::Still,
{
}

} // verus!
