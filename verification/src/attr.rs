use vstd::prelude::*;

use crate::body::{AnyBody, Body, BodyType, Species};

verus! {

/// A length, angle or factor, counted in hundredths of a unit: the value 0.85
/// is held as 85, and -11.5 as -1150. Every attribute of the table below is a
/// whole number of hundredths, so this holds each of them exactly.
pub type Hundredths = i32;

/// The attributes that shape the skeleton of a medium-sized quadruped, each
/// in hundredths of a unit.
#[derive(Clone, Copy, Debug)]
pub struct SkeletonAttr {
    /// Placement of the head, as two coordinates.
    pub head: (Hundredths, Hundredths),
    /// Placement of the neck, as two coordinates.
    pub neck: (Hundredths, Hundredths),
    /// Placement of the jaw, as two coordinates.
    pub jaw: (Hundredths, Hundredths),
    /// Placement of the tail, as two coordinates.
    pub tail: (Hundredths, Hundredths),
    /// Placement of the front of the torso, as two coordinates.
    pub torso_front: (Hundredths, Hundredths),
    /// Placement of the back of the torso, as two coordinates.
    pub torso_back: (Hundredths, Hundredths),
    /// Placement of the ears, as two coordinates.
    pub ears: (Hundredths, Hundredths),
    /// Placement of the front legs, as three coordinates.
    pub leg_f: (Hundredths, Hundredths, Hundredths),
    /// Placement of the hind legs, as three coordinates.
    pub leg_b: (Hundredths, Hundredths, Hundredths),
    /// Placement of the front feet, as three coordinates.
    pub feet_f: (Hundredths, Hundredths, Hundredths),
    /// Placement of the hind feet, as three coordinates.
    pub feet_b: (Hundredths, Hundredths, Hundredths),
    /// Scale of the whole figure.
    pub scaler: Hundredths,
    /// Default angle of the front feet.
    pub startangle: Hundredths,
    /// Speed of the movement cycles.
    pub tempo: Hundredths,
    /// Springiness of the gait.
    pub spring: Hundredths,
    /// Whether the creature grazes, and the speed of its feeding.
    pub feed: (bool, Hundredths),
}

/// The `head` attribute of each body, in hundredths.
pub open spec fn head_of(body: Body) -> (Hundredths, Hundredths) {
    match (body.species, body.body_type) {
        (Species::Grolgar, _) => (0, -100i32),
        (Species::Saber, _) => (500, -300i32),
        (Species::Tuskram, _) => (200, 100),
        (Species::Lion, _) => (450, 200),
        (Species::Tarasque, _) => (-400i32, 350),
        (Species::Tiger, _) => (200, 100),
        (Species::Wolf, _) => (150, 300),
        (Species::Frostfang, _) => (100, -200i32),
        (Species::Mouflon, _) => (50, 150),
        (Species::Catoblepas, _) => (-100i32, -650i32),
        (Species::Bonerattler, _) => (100, 250),
        (Species::Deer, BodyType::Male) => (150, 350),
        (Species::Deer, BodyType::Female) => (150, 350),
        (Species::Hirdrasil, _) => (0, 500),
        (Species::Roshwalr, _) => (100, 50),
        (Species::Donkey, _) => (450, -300i32),
        (Species::Camel, _) => (-50i32, 500),
        (Species::Zebra, _) => (300, -200i32),
        (Species::Antelope, _) => (150, 250),
        (Species::Kelpie, _) => (400, -100i32),
        (Species::Horse, _) => (50, 150),
    }
}

/// The `neck` attribute of each body, in hundredths.
pub open spec fn neck_of(body: Body) -> (Hundredths, Hundredths) {
    match (body.species, body.body_type) {
        (Species::Grolgar, _) => (100, -100i32),
        (Species::Saber, _) => (-350i32, -200i32),
        (Species::Tuskram, _) => (-100i32, 100),
        (Species::Lion, _) => (-150i32, 100),
        (Species::Tarasque, _) => (-150i32, -400i32),
        (Species::Tiger, _) => (0, 0),
        (Species::Wolf, _) => (-450i32, 200),
        (Species::Frostfang, _) => (50, 150),
        (Species::Mouflon, _) => (-100i32, 100),
        (Species::Catoblepas, _) => (1950, -200i32),
        (Species::Bonerattler, _) => (900, -50i32),
        (Species::Deer, _) => (-250i32, 100),
        (Species::Hirdrasil, _) => (-100i32, 50),
        (Species::Roshwalr, _) => (0, 100),
        (Species::Donkey, _) => (100, 350),
        (Species::Camel, _) => (350, -150i32),
        (Species::Zebra, _) => (100, 350),
        (Species::Antelope, _) => (50, 250),
        (Species::Kelpie, _) => (200, 100),
        (Species::Horse, _) => (150, 150),
    }
}

/// The `jaw` attribute of each body, in hundredths.
pub open spec fn jaw_of(body: Body) -> (Hundredths, Hundredths) {
    match (body.species, body.body_type) {
        (Species::Grolgar, _) => (700, 200),
        (Species::Saber, _) => (250, -200i32),
        (Species::Tuskram, _) => (550, -350i32),
        (Species::Lion, _) => (350, -400i32),
        (Species::Tarasque, _) => (900, -950i32),
        (Species::Tiger, _) => (300, -350i32),
        (Species::Wolf, _) => (500, -250i32),
        (Species::Frostfang, _) => (400, -250i32),
        (Species::Mouflon, _) => (600, 100),
        (Species::Catoblepas, _) => (100, -350i32),
        (Species::Bonerattler, _) => (300, -250i32),
        (Species::Deer, _) => (350, 250),
        (Species::Hirdrasil, _) => (250, 300),
        (Species::Roshwalr, _) => (400, -100i32),
        (Species::Donkey, _) => (100, 100),
        (Species::Camel, _) => (200, 250),
        (Species::Zebra, _) => (400, 0),
        (Species::Antelope, _) => (300, 50),
        (Species::Kelpie, _) => (100, 100),
        (Species::Horse, _) => (400, 100),
    }
}

/// The `tail` attribute of each body, in hundredths.
pub open spec fn tail_of(body: Body) -> (Hundredths, Hundredths) {
    match (body.species, body.body_type) {
        (Species::Grolgar, _) => (-1150i32, -50i32),
        (Species::Saber, _) => (-1100i32, 0),
        (Species::Tuskram, _) => (-900i32, 200),
        (Species::Lion, _) => (-1100i32, 100),
        (Species::Tarasque, _) => (-1100i32, 0),
        (Species::Tiger, _) => (-1350i32, 300),
        (Species::Wolf, _) => (-1100i32, 0),
        (Species::Frostfang, _) => (-700i32, -350i32),
        (Species::Mouflon, _) => (-1050i32, 300),
        (Species::Catoblepas, _) => (-800i32, -200i32),
        (Species::Bonerattler, _) => (-1000i32, 150),
        (Species::Deer, _) => (-850i32, 50),
        (Species::Hirdrasil, _) => (-1100i32, 200),
        (Species::Roshwalr, _) => (-850i32, -100i32),
        (Species::Donkey, _) => (-1100i32, 150),
        (Species::Camel, _) => (-1400i32, -100i32),
        (Species::Zebra, _) => (-1000i32, 150),
        (Species::Antelope, _) => (-1000i32, 200),
        (Species::Kelpie, _) => (-900i32, 300),
        (Species::Horse, _) => (-900i32, 150),
    }
}

/// The `torso_front` attribute of each body, in hundredths.
pub open spec fn torso_front_of(body: Body) -> (Hundredths, Hundredths) {
    match (body.species, body.body_type) {
        (Species::Grolgar, _) => (1000, 1300),
        (Species::Saber, _) => (1400, 1300),
        (Species::Tuskram, _) => (1000, 1450),
        (Species::Lion, _) => (1000, 1250),
        (Species::Tarasque, _) => (1150, 1750),
        (Species::Tiger, _) => (1000, 1300),
        (Species::Wolf, _) => (1200, 1300),
        (Species::Frostfang, _) => (900, 1150),
        (Species::Mouflon, _) => (1100, 1400),
        (Species::Catoblepas, _) => (750, 1950),
        (Species::Bonerattler, _) => (600, 1250),
        (Species::Deer, _) => (1100, 1350),
        (Species::Hirdrasil, _) => (1100, 1450),
        (Species::Roshwalr, _) => (600, 1250),
        (Species::Donkey, _) => (1000, 1550),
        (Species::Camel, _) => (1100, 2250),
        (Species::Zebra, _) => (1000, 1650),
        (Species::Antelope, _) => (1000, 1400),
        (Species::Kelpie, _) => (1000, 1600),
        (Species::Horse, _) => (700, 1600),
    }
}

/// The `torso_back` attribute of each body, in hundredths.
pub open spec fn torso_back_of(body: Body) -> (Hundredths, Hundredths) {
    match (body.species, body.body_type) {
        (Species::Grolgar, _) => (-1000i32, 150),
        (Species::Saber, _) => (-1350i32, 0),
        (Species::Tuskram, _) => (-1250i32, -200i32),
        (Species::Lion, _) => (-1200i32, -50i32),
        (Species::Tarasque, _) => (-1400i32, -100i32),
        (Species::Tiger, _) => (-1300i32, -50i32),
        (Species::Wolf, _) => (-1250i32, 100),
        (Species::Frostfang, _) => (-1050i32, 0),
        (Species::Mouflon, _) => (-850i32, -50i32),
        (Species::Catoblepas, _) => (-850i32, -450i32),
        (Species::Bonerattler, _) => (-500i32, 0),
        (Species::Deer, _) => (-900i32, 50),
        (Species::Hirdrasil, _) => (-900i32, -50i32),
        (Species::Roshwalr, _) => (-900i32, -350i32),
        (Species::Donkey, _) => (-600i32, -100i32),
        (Species::Camel, _) => (-1200i32, -50i32),
        (Species::Zebra, _) => (-600i32, -100i32),
        (Species::Antelope, _) => (-700i32, 0),
        (Species::Kelpie, _) => (-800i32, -100i32),
        (Species::Horse, _) => (-800i32, -150i32),
    }
}

/// The `ears` attribute of each body, in hundredths.
pub open spec fn ears_of(body: Body) -> (Hundredths, Hundredths) {
    match (body.species, body.body_type) {
        (Species::Grolgar, _) => (500, 800),
        (Species::Saber, _) => (300, 550),
        (Species::Tuskram, _) => (550, 1200),
        (Species::Lion, _) => (200, 350),
        (Species::Tarasque, _) => (1200, -300i32),
        (Species::Tiger, _) => (250, 400),
        (Species::Wolf, _) => (300, 250),
        (Species::Frostfang, _) => (200, 350),
        (Species::Mouflon, _) => (250, 500),
        (Species::Catoblepas, _) => (1100, -300i32),
        (Species::Bonerattler, _) => (200, 350),
        (Species::Deer, _) => (250, 500),
        (Species::Hirdrasil, _) => (250, 500),
        (Species::Roshwalr, _) => (500, 800),
        (Species::Donkey, _) => (-100i32, 800),
        (Species::Camel, _) => (250, 500),
        (Species::Zebra, _) => (0, 700),
        (Species::Antelope, _) => (250, 500),
        (Species::Kelpie, _) => (100, 750),
        (Species::Horse, _) => (100, 700),
    }
}

/// The `leg_f` attribute of each body, in hundredths.
pub open spec fn leg_f_of(body: Body) -> (Hundredths, Hundredths, Hundredths) {
    match (body.species, body.body_type) {
        (Species::Grolgar, _) => (750, -550i32, -100i32),
        (Species::Saber, _) => (700, -400i32, -250i32),
        (Species::Tuskram, _) => (600, -650i32, -400i32),
        (Species::Lion, _) => (650, -650i32, -150i32),
        (Species::Tarasque, _) => (700, -800i32, -600i32),
        (Species::Tiger, _) => (600, -600i32, -150i32),
        (Species::Wolf, _) => (450, -650i32, -150i32),
        (Species::Frostfang, _) => (550, -550i32, -200i32),
        (Species::Mouflon, _) => (400, -500i32, -400i32),
        (Species::Catoblepas, _) => (700, 200, -500i32),
        (Species::Bonerattler, _) => (550, 500, -400i32),
        (Species::Deer, _) => (350, -450i32, -350i32),
        (Species::Hirdrasil, _) => (450, -500i32, -250i32),
        (Species::Roshwalr, _) => (800, -250i32, -250i32),
        (Species::Donkey, _) => (400, -350i32, -400i32),
        (Species::Camel, _) => (450, -350i32, -550i32),
        (Species::Zebra, _) => (400, -250i32, -450i32),
        (Species::Antelope, _) => (400, -450i32, -250i32),
        (Species::Kelpie, _) => (450, -350i32, -350i32),
        (Species::Horse, _) => (450, -250i32, -300i32),
    }
}

/// The `leg_b` attribute of each body, in hundredths.
pub open spec fn leg_b_of(body: Body) -> (Hundredths, Hundredths, Hundredths) {
    match (body.species, body.body_type) {
        (Species::Grolgar, _) => (600, -650i32, -400i32),
        (Species::Saber, _) => (600, -700i32, -350i32),
        (Species::Tuskram, _) => (500, -450i32, -250i32),
        (Species::Lion, _) => (600, -500i32, -150i32),
        (Species::Tarasque, _) => (600, -650i32, -650i32),
        (Species::Tiger, _) => (600, -700i32, -100i32),
        (Species::Wolf, _) => (500, -650i32, -300i32),
        (Species::Frostfang, _) => (350, -450i32, -200i32),
        (Species::Mouflon, _) => (350, -800i32, -350i32),
        (Species::Catoblepas, _) => (600, -250i32, -250i32),
        (Species::Bonerattler, _) => (600, -800i32, -400i32),
        (Species::Deer, _) => (300, -650i32, -350i32),
        (Species::Hirdrasil, _) => (400, -650i32, -300i32),
        (Species::Roshwalr, _) => (700, -700i32, -250i32),
        (Species::Donkey, _) => (400, -900i32, -300i32),
        (Species::Camel, _) => (450, -1050i32, -500i32),
        (Species::Zebra, _) => (350, -800i32, -350i32),
        (Species::Antelope, _) => (350, -750i32, -350i32),
        (Species::Kelpie, _) => (350, -700i32, -250i32),
        (Species::Horse, _) => (350, -700i32, -200i32),
    }
}

/// The `feet_f` attribute of each body, in hundredths.
pub open spec fn feet_f_of(body: Body) -> (Hundredths, Hundredths, Hundredths) {
    match (body.species, body.body_type) {
        (Species::Grolgar, _) => (0, 0, -400i32),
        (Species::Saber, _) => (100, -350i32, -250i32),
        (Species::Tuskram, _) => (50, 50, -300i32),
        (Species::Lion, _) => (50, 50, -350i32),
        (Species::Tarasque, _) => (100, 0, -300i32),
        (Species::Tiger, _) => (50, 0, -450i32),
        (Species::Wolf, _) => (50, 0, -200i32),
        (Species::Frostfang, _) => (50, 150, -350i32),
        (Species::Mouflon, _) => (-50i32, -50i32, -300i32),
        (Species::Catoblepas, _) => (100, 0, -600i32),
        (Species::Bonerattler, _) => (-50i32, -300i32, -250i32),
        (Species::Deer, _) => (-50i32, -50i32, -250i32),
        (Species::Hirdrasil, _) => (-50i32, -300i32, -350i32),
        (Species::Roshwalr, _) => (50, 0, -300i32),
        (Species::Donkey, _) => (50, 100, -350i32),
        (Species::Camel, _) => (0, 0, -800i32),
        (Species::Zebra, _) => (-50i32, 50, -400i32),
        (Species::Antelope, _) => (-50i32, 0, -350i32),
        (Species::Kelpie, _) => (-50i32, 50, -450i32),
        (Species::Horse, _) => (-50i32, 50, -500i32),
    }
}

/// The `feet_b` attribute of each body, in hundredths.
pub open spec fn feet_b_of(body: Body) -> (Hundredths, Hundredths, Hundredths) {
    match (body.species, body.body_type) {
        (Species::Grolgar, _) => (50, -150i32, -300i32),
        (Species::Saber, _) => (100, -100i32, -100i32),
        (Species::Tuskram, _) => (50, -100i32, -250i32),
        (Species::Lion, _) => (50, -100i32, -300i32),
        (Species::Tarasque, _) => (150, -100i32, -250i32),
        (Species::Tiger, _) => (50, -100i32, -400i32),
        (Species::Wolf, _) => (0, -100i32, -150i32),
        (Species::Frostfang, _) => (0, -150i32, -350i32),
        (Species::Mouflon, _) => (-100i32, 0, -50i32),
        (Species::Catoblepas, _) => (50, 50, -400i32),
        (Species::Bonerattler, _) => (0, 300, -250i32),
        (Species::Deer, _) => (-100i32, -50i32, -200i32),
        (Species::Hirdrasil, _) => (-100i32, -200i32, -450i32),
        (Species::Roshwalr, _) => (50, -100i32, -350i32),
        (Species::Donkey, _) => (50, -100i32, -350i32),
        (Species::Camel, _) => (0, 50, -900i32),
        (Species::Zebra, _) => (50, -100i32, -300i32),
        (Species::Antelope, _) => (-50i32, -150i32, -350i32),
        (Species::Kelpie, _) => (50, -50i32, -350i32),
        (Species::Horse, _) => (50, -150i32, -350i32),
    }
}

/// The `scaler` attribute of each body, in hundredths.
pub open spec fn scaler_of(body: Body) -> Hundredths {
    match (body.species, body.body_type) {
        (Species::Grolgar, _) => 130,
        (Species::Saber, _) => 110,
        (Species::Tuskram, _) => 120,
        (Species::Lion, _) => 130,
        (Species::Tarasque, _) => 130,
        (Species::Tiger, _) => 120,
        (Species::Catoblepas, _) => 130,
        (Species::Roshwalr, _) => 120,
        _ => 100,
    }
}

/// The `startangle` attribute of each body, in hundredths.
pub open spec fn startangle_of(body: Body) -> Hundredths {
    match (body.species, body.body_type) {
        (Species::Grolgar, _) => -30i32,
        (Species::Saber, _) => -20i32,
        (Species::Tuskram, _) => 30,
        (Species::Lion, _) => 20,
        (Species::Tarasque, _) => -50i32,
        (Species::Catoblepas, _) => -50i32,
        (Species::Bonerattler, _) => -70i32,
        (Species::Roshwalr, _) => -30i32,
        _ => 0,
    }
}

/// The `tempo` attribute of each body, in hundredths.
pub open spec fn tempo_of(body: Body) -> Hundredths {
    match (body.species, body.body_type) {
        (Species::Grolgar, _) => 85,
        (Species::Saber, _) => 110,
        (Species::Tuskram, _) => 90,
        (Species::Lion, _) => 95,
        (Species::Tarasque, _) => 95,
        (Species::Wolf, _) => 110,
        (Species::Mouflon, _) => 85,
        (Species::Catoblepas, _) => 110,
        (Species::Deer, _) => 85,
        (Species::Hirdrasil, _) => 85,
        (Species::Roshwalr, _) => 75,
        (Species::Donkey, _) => 85,
        (Species::Zebra, _) => 85,
        (Species::Kelpie, _) => 85,
        (Species::Horse, _) => 85,
        _ => 100,
    }
}

/// The `spring` attribute of each body, in hundredths.
pub open spec fn spring_of(body: Body) -> Hundredths {
    match (body.species, body.body_type) {
        (Species::Grolgar, _) => 90,
        (Species::Saber, _) => 90,
        (Species::Tuskram, _) => 90,
        (Species::Wolf, _) => 120,
        (Species::Mouflon, _) => 90,
        (Species::Catoblepas, _) => 55,
        (Species::Bonerattler, _) => 110,
        (Species::Deer, _) => 90,
        (Species::Hirdrasil, _) => 110,
        (Species::Donkey, _) => 85,
        (Species::Camel, _) => 85,
        (Species::Zebra, _) => 85,
        (Species::Antelope, _) => 120,
        (Species::Kelpie, _) => 95,
        (Species::Horse, _) => 85,
        _ => 100,
    }
}

/// The `feed` attribute of each body, in hundredths.
pub open spec fn feed_of(body: Body) -> (bool, Hundredths) {
    match (body.species, body.body_type) {
        (Species::Tuskram, _) => (true, 50),
        (Species::Mouflon, _) => (true, 100),
        (Species::Deer, _) => (true, 100),
        (Species::Hirdrasil, _) => (true, 90),
        (Species::Donkey, _) => (false, 100),
        (Species::Zebra, _) => (false, 100),
        (Species::Antelope, _) => (false, 90),
        (Species::Kelpie, _) => (false, 100),
        (Species::Horse, _) => (true, 85),
        _ => (false, 0),
    }
}

/// The `attr` attribute of each body, in hundredths.
pub open spec fn attr_of(body: Body) -> SkeletonAttr {
    SkeletonAttr {
        head: head_of(body),
        neck: neck_of(body),
        jaw: jaw_of(body),
        tail: tail_of(body),
        torso_front: torso_front_of(body),
        torso_back: torso_back_of(body),
        ears: ears_of(body),
        leg_f: leg_f_of(body),
        leg_b: leg_b_of(body),
        feet_f: feet_f_of(body),
        feet_b: feet_b_of(body),
        scaler: scaler_of(body),
        startangle: startangle_of(body),
        tempo: tempo_of(body),
        spring: spring_of(body),
        feed: feed_of(body),
    }
}

/// The attributes of no particular body: every number zero, no grazing.
pub open spec fn zero_attr() -> SkeletonAttr {
    SkeletonAttr {
        head: (0, 0),
        neck: (0, 0),
        jaw: (0, 0),
        tail: (0, 0),
        torso_front: (0, 0),
        torso_back: (0, 0),
        ears: (0, 0),
        leg_f: (0, 0, 0),
        leg_b: (0, 0, 0),
        feet_f: (0, 0, 0),
        feet_b: (0, 0, 0),
        scaler: 0,
        startangle: 0,
        tempo: 0,
        spring: 0,
        feed: (false, 0),
    }
}

/// The attributes of no particular body are all zero, field by field, and do
/// not graze.
pub proof fn lemma_zero_attr_is_zero()
    ensures
        zero_attr().head == (0i32, 0i32),
        zero_attr().neck == (0i32, 0i32),
        zero_attr().jaw == (0i32, 0i32),
        zero_attr().tail == (0i32, 0i32),
        zero_attr().torso_front == (0i32, 0i32),
        zero_attr().torso_back == (0i32, 0i32),
        zero_attr().ears == (0i32, 0i32),
        zero_attr().leg_f == (0i32, 0i32, 0i32),
        zero_attr().leg_b == (0i32, 0i32, 0i32),
        zero_attr().feet_f == (0i32, 0i32, 0i32),
        zero_attr().feet_b == (0i32, 0i32, 0i32),
        zero_attr().scaler == 0,
        zero_attr().startangle == 0,
        zero_attr().tempo == 0,
        zero_attr().spring == 0,
        zero_attr().feed == (false, 0i32),
{
}

/// What `SkeletonAttr::try_from` gives for a body of any kind.
pub open spec fn try_attr_of(body: AnyBody) -> Result<SkeletonAttr, ()> {
    match body {
        AnyBody::QuadrupedMedium(b) => Ok(attr_of(b)),
        AnyBody::Other => Err(()),
    }
}

/// The sex of a creature never changes its skeleton attributes: both body
/// types of a species look up the same row.
pub proof fn lemma_body_type_irrelevant(species: Species, t1: BodyType, t2: BodyType)
    ensures
        attr_of((Body { species, body_type: t1 })) == attr_of((Body { species, body_type: t2 })),
{
}

/// No figure is drawn smaller than its model, every creature moves with a
/// positive tempo and a positive spring, and a creature that grazes does so at
/// a positive speed.
pub proof fn lemma_factors_positive(body: Body)
    ensures
        attr_of(body).scaler >= 100,
        attr_of(body).tempo > 0,
        attr_of(body).spring > 0,
        attr_of(body).feed.0 ==> attr_of(body).feed.1 > 0,
{
}

/// Converting a body of any kind succeeds exactly for a medium-sized
/// quadruped, and then gives what converting that quadruped's body gives.
pub proof fn lemma_try_from_agrees_with_from(body: AnyBody)
    ensures
        try_attr_of(body) is Ok <==> body is QuadrupedMedium,
        body matches AnyBody::QuadrupedMedium(b) ==> try_attr_of(body) == Ok::<SkeletonAttr, ()>(attr_of(b)),
{
}

impl SkeletonAttr {
    /// Looks up the attributes of a medium-sized quadruped.
    pub fn from_body(body: &Body) -> (attr: SkeletonAttr)
        ensures
            attr == attr_of(*body),
    {
        match body.species {
            Species::Grolgar => SkeletonAttr {
                head: (0, -100),
                neck: (100, -100),
                jaw: (700, 200),
                tail: (-1150, -50),
                torso_front: (1000, 1300),
                torso_back: (-1000, 150),
                ears: (500, 800),
                leg_f: (750, -550, -100),
                leg_b: (600, -650, -400),
                feet_f: (0, 0, -400),
                feet_b: (50, -150, -300),
                scaler: 130,
                startangle: -30,
                tempo: 85,
                spring: 90,
                feed: (false, 0),
            },
            Species::Saber => SkeletonAttr {
                head: (500, -300),
                neck: (-350, -200),
                jaw: (250, -200),
                tail: (-1100, 0),
                torso_front: (1400, 1300),
                torso_back: (-1350, 0),
                ears: (300, 550),
                leg_f: (700, -400, -250),
                leg_b: (600, -700, -350),
                feet_f: (100, -350, -250),
                feet_b: (100, -100, -100),
                scaler: 110,
                startangle: -20,
                tempo: 110,
                spring: 90,
                feed: (false, 0),
            },
            Species::Tuskram => SkeletonAttr {
                head: (200, 100),
                neck: (-100, 100),
                jaw: (550, -350),
                tail: (-900, 200),
                torso_front: (1000, 1450),
                torso_back: (-1250, -200),
                ears: (550, 1200),
                leg_f: (600, -650, -400),
                leg_b: (500, -450, -250),
                feet_f: (50, 50, -300),
                feet_b: (50, -100, -250),
                scaler: 120,
                startangle: 30,
                tempo: 90,
                spring: 90,
                feed: (true, 50),
            },
            Species::Lion => SkeletonAttr {
                head: (450, 200),
                neck: (-150, 100),
                jaw: (350, -400),
                tail: (-1100, 100),
                torso_front: (1000, 1250),
                torso_back: (-1200, -50),
                ears: (200, 350),
                leg_f: (650, -650, -150),
                leg_b: (600, -500, -150),
                feet_f: (50, 50, -350),
                feet_b: (50, -100, -300),
                scaler: 130,
                startangle: 20,
                tempo: 95,
                spring: 100,
                feed: (false, 0),
            },
            Species::Tarasque => SkeletonAttr {
                head: (-400, 350),
                neck: (-150, -400),
                jaw: (900, -950),
                tail: (-1100, 0),
                torso_front: (1150, 1750),
                torso_back: (-1400, -100),
                ears: (1200, -300),
                leg_f: (700, -800, -600),
                leg_b: (600, -650, -650),
                feet_f: (100, 0, -300),
                feet_b: (150, -100, -250),
                scaler: 130,
                startangle: -50,
                tempo: 95,
                spring: 100,
                feed: (false, 0),
            },
            Species::Tiger => SkeletonAttr {
                head: (200, 100),
                neck: (0, 0),
                jaw: (300, -350),
                tail: (-1350, 300),
                torso_front: (1000, 1300),
                torso_back: (-1300, -50),
                ears: (250, 400),
                leg_f: (600, -600, -150),
                leg_b: (600, -700, -100),
                feet_f: (50, 0, -450),
                feet_b: (50, -100, -400),
                scaler: 120,
                startangle: 0,
                tempo: 100,
                spring: 100,
                feed: (false, 0),
            },
            Species::Wolf => SkeletonAttr {
                head: (150, 300),
                neck: (-450, 200),
                jaw: (500, -250),
                tail: (-1100, 0),
                torso_front: (1200, 1300),
                torso_back: (-1250, 100),
                ears: (300, 250),
                leg_f: (450, -650, -150),
                leg_b: (500, -650, -300),
                feet_f: (50, 0, -200),
                feet_b: (0, -100, -150),
                scaler: 100,
                startangle: 0,
                tempo: 110,
                spring: 120,
                feed: (false, 0),
            },
            Species::Frostfang => SkeletonAttr {
                head: (100, -200),
                neck: (50, 150),
                jaw: (400, -250),
                tail: (-700, -350),
                torso_front: (900, 1150),
                torso_back: (-1050, 0),
                ears: (200, 350),
                leg_f: (550, -550, -200),
                leg_b: (350, -450, -200),
                feet_f: (50, 150, -350),
                feet_b: (0, -150, -350),
                scaler: 100,
                startangle: 0,
                tempo: 100,
                spring: 100,
                feed: (false, 0),
            },
            Species::Mouflon => SkeletonAttr {
                head: (50, 150),
                neck: (-100, 100),
                jaw: (600, 100),
                tail: (-1050, 300),
                torso_front: (1100, 1400),
                torso_back: (-850, -50),
                ears: (250, 500),
                leg_f: (400, -500, -400),
                leg_b: (350, -800, -350),
                feet_f: (-50, -50, -300),
                feet_b: (-100, 0, -50),
                scaler: 100,
                startangle: 0,
                tempo: 85,
                spring: 90,
                feed: (true, 100),
            },
            Species::Catoblepas => SkeletonAttr {
                head: (-100, -650),
                neck: (1950, -200),
                jaw: (100, -350),
                tail: (-800, -200),
                torso_front: (750, 1950),
                torso_back: (-850, -450),
                ears: (1100, -300),
                leg_f: (700, 200, -500),
                leg_b: (600, -250, -250),
                feet_f: (100, 0, -600),
                feet_b: (50, 50, -400),
                scaler: 130,
                startangle: -50,
                tempo: 110,
                spring: 55,
                feed: (false, 0),
            },
            Species::Bonerattler => SkeletonAttr {
                head: (100, 250),
                neck: (900, -50),
                jaw: (300, -250),
                tail: (-1000, 150),
                torso_front: (600, 1250),
                torso_back: (-500, 0),
                ears: (200, 350),
                leg_f: (550, 500, -400),
                leg_b: (600, -800, -400),
                feet_f: (-50, -300, -250),
                feet_b: (0, 300, -250),
                scaler: 100,
                startangle: -70,
                tempo: 100,
                spring: 110,
                feed: (false, 0),
            },
            Species::Deer => SkeletonAttr {
                head: (150, 350),
                neck: (-250, 100),
                jaw: (350, 250),
                tail: (-850, 50),
                torso_front: (1100, 1350),
                torso_back: (-900, 50),
                ears: (250, 500),
                leg_f: (350, -450, -350),
                leg_b: (300, -650, -350),
                feet_f: (-50, -50, -250),
                feet_b: (-100, -50, -200),
                scaler: 100,
                startangle: 0,
                tempo: 85,
                spring: 90,
                feed: (true, 100),
            },
            Species::Hirdrasil => SkeletonAttr {
                head: (0, 500),
                neck: (-100, 50),
                jaw: (250, 300),
                tail: (-1100, 200),
                torso_front: (1100, 1450),
                torso_back: (-900, -50),
                ears: (250, 500),
                leg_f: (450, -500, -250),
                leg_b: (400, -650, -300),
                feet_f: (-50, -300, -350),
                feet_b: (-100, -200, -450),
                scaler: 100,
                startangle: 0,
                tempo: 85,
                spring: 110,
                feed: (true, 90),
            },
            Species::Roshwalr => SkeletonAttr {
                head: (100, 50),
                neck: (0, 100),
                jaw: (400, -100),
                tail: (-850, -100),
                torso_front: (600, 1250),
                torso_back: (-900, -350),
                ears: (500, 800),
                leg_f: (800, -250, -250),
                leg_b: (700, -700, -250),
                feet_f: (50, 0, -300),
                feet_b: (50, -100, -350),
                scaler: 120,
                startangle: -30,
                tempo: 75,
                spring: 100,
                feed: (false, 0),
            },
            Species::Donkey => SkeletonAttr {
                head: (450, -300),
                neck: (100, 350),
                jaw: (100, 100),
                tail: (-1100, 150),
                torso_front: (1000, 1550),
                torso_back: (-600, -100),
                ears: (-100, 800),
                leg_f: (400, -350, -400),
                leg_b: (400, -900, -300),
                feet_f: (50, 100, -350),
                feet_b: (50, -100, -350),
                scaler: 100,
                startangle: 0,
                tempo: 85,
                spring: 85,
                feed: (false, 100),
            },
            Species::Camel => SkeletonAttr {
                head: (-50, 500),
                neck: (350, -150),
                jaw: (200, 250),
                tail: (-1400, -100),
                torso_front: (1100, 2250),
                torso_back: (-1200, -50),
                ears: (250, 500),
                leg_f: (450, -350, -550),
                leg_b: (450, -1050, -500),
                feet_f: (0, 0, -800),
                feet_b: (0, 50, -900),
                scaler: 100,
                startangle: 0,
                tempo: 100,
                spring: 85,
                feed: (false, 0),
            },
            Species::Zebra => SkeletonAttr {
                head: (300, -200),
                neck: (100, 350),
                jaw: (400, 0),
                tail: (-1000, 150),
                torso_front: (1000, 1650),
                torso_back: (-600, -100),
                ears: (0, 700),
                leg_f: (400, -250, -450),
                leg_b: (350, -800, -350),
                feet_f: (-50, 50, -400),
                feet_b: (50, -100, -300),
                scaler: 100,
                startangle: 0,
                tempo: 85,
                spring: 85,
                feed: (false, 100),
            },
            Species::Antelope => SkeletonAttr {
                head: (150, 250),
                neck: (50, 250),
                jaw: (300, 50),
                tail: (-1000, 200),
                torso_front: (1000, 1400),
                torso_back: (-700, 0),
                ears: (250, 500),
                leg_f: (400, -450, -250),
                leg_b: (350, -750, -350),
                feet_f: (-50, 0, -350),
                feet_b: (-50, -150, -350),
                scaler: 100,
                startangle: 0,
                tempo: 100,
                spring: 120,
                feed: (false, 90),
            },
            Species::Kelpie => SkeletonAttr {
                head: (400, -100),
                neck: (200, 100),
                jaw: (100, 100),
                tail: (-900, 300),
                torso_front: (1000, 1600),
                torso_back: (-800, -100),
                ears: (100, 750),
                leg_f: (450, -350, -350),
                leg_b: (350, -700, -250),
                feet_f: (-50, 50, -450),
                feet_b: (50, -50, -350),
                scaler: 100,
                startangle: 0,
                tempo: 85,
                spring: 95,
                feed: (false, 100),
            },
            Species::Horse => SkeletonAttr {
                head: (50, 150),
                neck: (150, 150),
                jaw: (400, 100),
                tail: (-900, 150),
                torso_front: (700, 1600),
                torso_back: (-800, -150),
                ears: (100, 700),
                leg_f: (450, -250, -300),
                leg_b: (350, -700, -200),
                feet_f: (-50, 50, -500),
                feet_b: (50, -150, -350),
                scaler: 100,
                startangle: 0,
                tempo: 85,
                spring: 85,
                feed: (true, 85),
            },
        }
    }
}

impl<'a> From<&'a Body> for SkeletonAttr {
    fn from(body: &'a Body) -> (attr: SkeletonAttr) {
        SkeletonAttr::from_body(body)
    }
}

impl<'a> vstd::std_specs::convert::FromSpecImpl<&'a Body> for SkeletonAttr {
    open spec fn obeys_from_spec() -> bool {
        true
    }

    open spec fn from_spec(body: &'a Body) -> SkeletonAttr {
        attr_of(*body)
    }
}

impl Default for SkeletonAttr {
    fn default() -> (attr: SkeletonAttr)
        ensures
            attr == zero_attr(),
            attr.head == (0i32, 0i32),
            attr.neck == (0i32, 0i32),
            attr.jaw == (0i32, 0i32),
            attr.tail == (0i32, 0i32),
            attr.torso_front == (0i32, 0i32),
            attr.torso_back == (0i32, 0i32),
            attr.ears == (0i32, 0i32),
            attr.leg_f == (0i32, 0i32, 0i32),
            attr.leg_b == (0i32, 0i32, 0i32),
            attr.feet_f == (0i32, 0i32, 0i32),
            attr.feet_b == (0i32, 0i32, 0i32),
            attr.scaler == 0,
            attr.startangle == 0,
            attr.tempo == 0,
            attr.spring == 0,
            attr.feed == (false, 0i32),
    {
        SkeletonAttr {
            head: (0, 0),
            neck: (0, 0),
            jaw: (0, 0),
            tail: (0, 0),
            torso_front: (0, 0),
            torso_back: (0, 0),
            ears: (0, 0),
            leg_f: (0, 0, 0),
            leg_b: (0, 0, 0),
            feet_f: (0, 0, 0),
            feet_b: (0, 0, 0),
            scaler: 0,
            startangle: 0,
            tempo: 0,
            spring: 0,
            feed: (false, 0),
        }
    }
}

impl<'a> TryFrom<&'a AnyBody> for SkeletonAttr {
    type Error = ();

    fn try_from(body: &'a AnyBody) -> (attr: Result<SkeletonAttr, ()>) {
        match body {
            AnyBody::QuadrupedMedium(b) => Ok(SkeletonAttr::from_body(b)),
            AnyBody::Other => Err(()),
        }
    }
}

impl<'a> vstd::std_specs::convert::TryFromSpecImpl<&'a AnyBody> for SkeletonAttr {
    open spec fn obeys_try_from_spec() -> bool {
        true
    }

    open spec fn try_from_spec(body: &'a AnyBody) -> Result<SkeletonAttr, ()> {
        try_attr_of(*body)
    }
}

} // verus!
