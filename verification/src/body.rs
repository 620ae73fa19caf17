use vstd::prelude::*;

verus! {

/// The kinds of medium-sized quadrupeds.
#[derive(Clone, Copy, Debug, PartialEq, Eq, Structural)]
pub enum Species {
    Grolgar,
    Saber,
    Tuskram,
    Lion,
    Tarasque,
    Tiger,
    Wolf,
    Frostfang,
    Mouflon,
    Catoblepas,
    Bonerattler,
    Deer,
    Hirdrasil,
    Roshwalr,
    Donkey,
    Camel,
    Zebra,
    Antelope,
    Kelpie,
    Horse,
}

/// The sex of a creature.
#[derive(Clone, Copy, Debug, PartialEq, Eq, Structural)]
pub enum BodyType {
    Female,
    Male,
}

/// The body of a medium-sized quadruped.
#[derive(Clone, Copy, Debug, PartialEq, Eq, Structural)]
pub struct Body {
    pub species: Species,
    pub body_type: BodyType,
}

/// A body of any kind of creature, as far as the skeleton attributes read it:
/// either a medium-sized quadruped, or something else.
#[derive(Clone, Copy, Debug, PartialEq, Eq, Structural)]
pub enum AnyBody {
    QuadrupedMedium(Body),
    Other,
}

} // verus!
