use vstd::prelude::*;

verus! {

/// The number of bones in the skeleton of a medium-sized quadruped.
pub const BONE_COUNT: usize = 15;

/// The bones of a medium-sized quadruped, in the order in which their
/// matrices fill the bone buffer.
#[derive(Clone, Copy, Debug, PartialEq, Eq, Structural)]
pub enum Bone {
    Head,
    Neck,
    Jaw,
    Tail,
    TorsoFront,
    TorsoBack,
    Ears,
    LegFl,
    LegFr,
    LegBl,
    LegBr,
    FootFl,
    FootFr,
    FootBl,
    FootBr,
}

/// The bones in the order of the bone buffer: slot `i` holds the matrix of
/// `slot_order()[i]`.
pub open spec fn slot_order() -> Seq<Bone> {
    seq![
        Bone::Head,
        Bone::Neck,
        Bone::Jaw,
        Bone::Tail,
        Bone::TorsoFront,
        Bone::TorsoBack,
        Bone::Ears,
        Bone::LegFl,
        Bone::LegFr,
        Bone::LegBl,
        Bone::LegBr,
        Bone::FootFl,
        Bone::FootFr,
        Bone::FootBl,
        Bone::FootBr,
    ]
}

impl Bone {
    /// The slot of the bone buffer that holds this bone's matrix.
    pub open spec fn slot_of(self) -> nat {
        match self {
            Bone::Head => 0,
            Bone::Neck => 1,
            Bone::Jaw => 2,
            Bone::Tail => 3,
            Bone::TorsoFront => 4,
            Bone::TorsoBack => 5,
            Bone::Ears => 6,
            Bone::LegFl => 7,
            Bone::LegFr => 8,
            Bone::LegBl => 9,
            Bone::LegBr => 10,
            Bone::FootFl => 11,
            Bone::FootFr => 12,
            Bone::FootBl => 13,
            Bone::FootBr => 14,
        }
    }

    /// The bone that this bone hangs from; the front of the torso hangs from
    /// the body's own placement and has no parent bone.
    pub open spec fn parent_of(self) -> Option<Bone> {
        match self {
            Bone::TorsoFront => None,
            Bone::TorsoBack => Some(Bone::TorsoFront),
            Bone::Neck => Some(Bone::TorsoFront),
            Bone::LegFl => Some(Bone::TorsoFront),
            Bone::LegFr => Some(Bone::TorsoFront),
            Bone::LegBl => Some(Bone::TorsoBack),
            Bone::LegBr => Some(Bone::TorsoBack),
            Bone::Tail => Some(Bone::TorsoBack),
            Bone::Head => Some(Bone::Neck),
            Bone::Jaw => Some(Bone::Head),
            Bone::Ears => Some(Bone::Head),
            Bone::FootFl => Some(Bone::LegFl),
            Bone::FootFr => Some(Bone::LegFr),
            Bone::FootBl => Some(Bone::LegBl),
            Bone::FootBr => Some(Bone::LegBr),
        }
    }

    /// How many bones lie between this bone and the root of the skeleton.
    pub open spec fn depth_of(self) -> nat {
        match self {
            Bone::TorsoFront => 0,
            Bone::TorsoBack | Bone::Neck | Bone::LegFl | Bone::LegFr => 1,
            Bone::Head | Bone::Tail | Bone::LegBl | Bone::LegBr | Bone::FootFl | Bone::FootFr => 2,
            Bone::Jaw | Bone::Ears | Bone::FootBl | Bone::FootBr => 3,
        }
    }

    /// The slot of the bone buffer that holds this bone's matrix.
    pub fn slot(&self) -> (i: usize)
        ensures
            i == self.slot_of(),
    {
        match self {
            Bone::Head => 0,
            Bone::Neck => 1,
            Bone::Jaw => 2,
            Bone::Tail => 3,
            Bone::TorsoFront => 4,
            Bone::TorsoBack => 5,
            Bone::Ears => 6,
            Bone::LegFl => 7,
            Bone::LegFr => 8,
            Bone::LegBl => 9,
            Bone::LegBr => 10,
            Bone::FootFl => 11,
            Bone::FootFr => 12,
            Bone::FootBl => 13,
            Bone::FootBr => 14,
        }
    }

    /// The bone that this bone hangs from, if any.
    pub fn parent(&self) -> (p: Option<Bone>)
        ensures
            p == self.parent_of(),
    {
        match self {
            Bone::TorsoFront => None,
            Bone::TorsoBack | Bone::Neck | Bone::LegFl | Bone::LegFr => Some(Bone::TorsoFront),
            Bone::LegBl | Bone::LegBr | Bone::Tail => Some(Bone::TorsoBack),
            Bone::Head => Some(Bone::Neck),
            Bone::Jaw | Bone::Ears => Some(Bone::Head),
            Bone::FootFl => Some(Bone::LegFl),
            Bone::FootFr => Some(Bone::LegFr),
            Bone::FootBl => Some(Bone::LegBl),
            Bone::FootBr => Some(Bone::LegBr),
        }
    }
}

/// The path from the root of the skeleton down to `bone`, both ends included.
/// A bone's matrix is the body's matrix multiplied, left to right, by the
/// transforms of the bones of this path.
pub open spec fn chain_of(bone: Bone) -> Seq<Bone>
    decreases bone.depth_of(),
{
    match bone.parent_of() {
        None => seq![bone],
        Some(p) => chain_of(p).push(bone),
    }
}

/// Every bone's path starts at the front of the torso, the only bone without a
/// parent, ends at the bone itself, and each step goes from a bone to a child
/// of it.
pub proof fn lemma_chain_is_path(bone: Bone)
    ensures
        chain_of(bone).len() == bone.depth_of() + 1,
        chain_of(bone)[0] == Bone::TorsoFront,
        chain_of(bone).last() == bone,
        bone.parent_of() is None <==> bone == Bone::TorsoFront,
        forall|i: int|
            0 <= i < chain_of(bone).len() - 1 ==> (#[trigger] chain_of(bone)[i + 1]).parent_of()
                == Some(chain_of(bone)[i]),
    decreases bone.depth_of(),
{
    match bone.parent_of() {
        None => {},
        Some(p) => {
            lemma_chain_is_path(p);
            assert forall|i: int| 0 <= i < chain_of(bone).len() - 1 implies (#[trigger] chain_of(
                bone,
            )[i + 1]).parent_of() == Some(chain_of(bone)[i]) by {
                if i + 1 < chain_of(p).len() {
                    assert(chain_of(bone)[i + 1] == chain_of(p)[i + 1]);
                }
            }
        },
    }
}

/// Every bone fills exactly one slot of the bone buffer, and every slot holds
/// exactly one bone.
pub proof fn lemma_slots_are_a_bijection()
    ensures
        slot_order().len() == BONE_COUNT,
        forall|b: Bone| #[trigger] b.slot_of() < BONE_COUNT && slot_order()[b.slot_of() as int] == b,
        forall|i: int| 0 <= i < BONE_COUNT ==> (#[trigger] slot_order()[i]).slot_of() == i,
{
}

/// The hierarchy of the skeleton: the torso's back, the neck and the front
/// legs hang from the torso's front; the hind legs and the tail from the
/// torso's back; the head from the neck; the jaw and the ears from the head;
/// and each foot from the leg of its own corner.
pub proof fn lemma_parent_table()
    ensures
        Bone::TorsoFront.parent_of() == None::<Bone>,
        Bone::TorsoBack.parent_of() == Some(Bone::TorsoFront),
        Bone::Neck.parent_of() == Some(Bone::TorsoFront),
        Bone::LegFl.parent_of() == Some(Bone::TorsoFront),
        Bone::LegFr.parent_of() == Some(Bone::TorsoFront),
        Bone::LegBl.parent_of() == Some(Bone::TorsoBack),
        Bone::LegBr.parent_of() == Some(Bone::TorsoBack),
        Bone::Tail.parent_of() == Some(Bone::TorsoBack),
        Bone::Head.parent_of() == Some(Bone::Neck),
        Bone::Jaw.parent_of() == Some(Bone::Head),
        Bone::Ears.parent_of() == Some(Bone::Head),
        Bone::FootFl.parent_of() == Some(Bone::LegFl),
        Bone::FootFr.parent_of() == Some(Bone::LegFr),
        Bone::FootBl.parent_of() == Some(Bone::LegBl),
        Bone::FootBr.parent_of() == Some(Bone::LegBr),
{
}

/// The path from the root to each bone, which `chain` returns and which
/// `bone_chains` gives for the bone's slot: the matrix of a bone is the
/// body's matrix times the transforms of these bones, in this order.
pub proof fn lemma_chain_table()
    ensures
        chain_of(Bone::TorsoFront) == seq![Bone::TorsoFront],
        chain_of(Bone::TorsoBack) == seq![Bone::TorsoFront, Bone::TorsoBack],
        chain_of(Bone::Neck) == seq![Bone::TorsoFront, Bone::Neck],
        chain_of(Bone::LegFl) == seq![Bone::TorsoFront, Bone::LegFl],
        chain_of(Bone::LegFr) == seq![Bone::TorsoFront, Bone::LegFr],
        chain_of(Bone::LegBl) == seq![Bone::TorsoFront, Bone::TorsoBack, Bone::LegBl],
        chain_of(Bone::LegBr) == seq![Bone::TorsoFront, Bone::TorsoBack, Bone::LegBr],
        chain_of(Bone::Tail) == seq![Bone::TorsoFront, Bone::TorsoBack, Bone::Tail],
        chain_of(Bone::Head) == seq![Bone::TorsoFront, Bone::Neck, Bone::Head],
        chain_of(Bone::Jaw) == seq![Bone::TorsoFront, Bone::Neck, Bone::Head, Bone::Jaw],
        chain_of(Bone::Ears) == seq![Bone::TorsoFront, Bone::Neck, Bone::Head, Bone::Ears],
        chain_of(Bone::FootFl) == seq![Bone::TorsoFront, Bone::LegFl, Bone::FootFl],
        chain_of(Bone::FootFr) == seq![Bone::TorsoFront, Bone::LegFr, Bone::FootFr],
        chain_of(Bone::FootBl) == seq![Bone::TorsoFront, Bone::TorsoBack, Bone::LegBl, Bone::FootBl],
        chain_of(Bone::FootBr) == seq![Bone::TorsoFront, Bone::TorsoBack, Bone::LegBr, Bone::FootBr],
{
    reveal_with_fuel(chain_of, 4);
}

/// Each foot hangs from the leg of its own corner, and each leg from the end
/// of the torso at its own end: whatever a foot's path, the bone before the
/// foot is the leg of the same side and end, and the bone before that leg is
/// the front of the torso for a front leg and the back for a hind leg.
pub proof fn lemma_feet_follow_their_legs(foot: Bone, leg: Bone, torso: Bone)
    requires
        (foot == Bone::FootFl && leg == Bone::LegFl && torso == Bone::TorsoFront)
            || (foot == Bone::FootFr && leg == Bone::LegFr && torso == Bone::TorsoFront)
            || (foot == Bone::FootBl && leg == Bone::LegBl && torso == Bone::TorsoBack)
            || (foot == Bone::FootBr && leg == Bone::LegBr && torso == Bone::TorsoBack),
    ensures
        chain_of(foot).len() >= 3,
        chain_of(foot)[chain_of(foot).len() - 2] == leg,
        chain_of(foot)[chain_of(foot).len() - 3] == torso,
        chain_of(leg) == chain_of(torso).push(leg),
{
    lemma_chain_table();
}

/// The bones in the order of the bone buffer.
pub fn bone_order() -> (order: Vec<Bone>)
    ensures
        order@ == slot_order(),
{
    vec![
        Bone::Head,
        Bone::Neck,
        Bone::Jaw,
        Bone::Tail,
        Bone::TorsoFront,
        Bone::TorsoBack,
        Bone::Ears,
        Bone::LegFl,
        Bone::LegFr,
        Bone::LegBl,
        Bone::LegBr,
        Bone::FootFl,
        Bone::FootFr,
        Bone::FootBl,
        Bone::FootBr,
    ]
}

/// The path from the root of the skeleton down to `bone`.
pub fn chain(bone: Bone) -> (path: Vec<Bone>)
    ensures
        path@ == chain_of(bone),
    decreases bone.depth_of(),
{
    match bone.parent() {
        None => vec![bone],
        Some(p) => {
            let mut path = chain(p);
            path.push(bone);
            path
        },
    }
}

/// For each slot of the bone buffer, in order, the path from the root of the
/// skeleton down to the bone of that slot.
pub fn bone_chains() -> (chains: Vec<Vec<Bone>>)
    ensures
        chains.len() == BONE_COUNT,
        forall|i: int| 0 <= i < BONE_COUNT ==> (#[trigger] chains[i])@ == chain_of(slot_order()[i]),
{
    let order = bone_order();
    let mut chains: Vec<Vec<Bone>> = Vec::new();
    let mut i: usize = 0;
    while i < order.len()
        invariant
            order@ == slot_order(),
            i <= order.len(),
            chains.len() == i,
            forall|j: int| 0 <= j < i ==> (#[trigger] chains[j])@ == chain_of(slot_order()[j]),
        decreases order.len() - i,
    {
        chains.push(chain(order[i]));
        i = i + 1;
    }
    chains
}

} // verus!
