//! Enumerations with a fixed set of variants, and the text that goes with
//! each variant.

use vstd::prelude::*;

verus! {

/// A primary colour.
#[derive(Clone, Copy, Debug, PartialEq, Eq, Structural)]
pub enum Color {
    Red,
    Green,
    Blue,
}

/// The state of a traffic light.
#[derive(Clone, Copy, Debug, PartialEq, Eq, Structural)]
pub enum TrafficLight {
    Red,
    Yellow,
    Green,
}

impl Color {
    /// The name of this colour.
    pub open spec fn name_text(self) -> Seq<char> {
        match self {
            Color::Red => "Laal rang"@,
            Color::Green => "Hara rang"@,
            Color::Blue => "Neela rang"@,
        }
    }

    /// Returns the name of this colour.
    pub fn name(self) -> (text: &'static str)
        ensures
            text@ == self.name_text(),
    {
        match self {
            Color::Red => "Laal rang",
            Color::Green => "Hara rang",
            Color::Blue => "Neela rang",
        }
    }
}

impl TrafficLight {
    /// What this light tells a driver to do.
    pub open spec fn instruction_text(self) -> Seq<char> {
        match self {
            TrafficLight::Red => "Stop!"@,
            TrafficLight::Yellow => "Get Ready!"@,
            TrafficLight::Green => "Go!"@,
        }
    }

    /// Returns what this light tells a driver to do.
    pub fn instruction(self) -> (text: &'static str)
        ensures
            text@ == self.instruction_text(),
    {
        match self {
            TrafficLight::Red => "Stop!",
            TrafficLight::Yellow => "Get Ready!",
            TrafficLight::Green => "Go!",
        }
    }
}

} // verus!
