//! Hit groups reported by a trace.

use vstd::prelude::*;

verus! {

/// The hit group a trace hits.
#[derive(Clone, Copy, Debug, PartialEq, Eq, Structural)]
pub enum HitGroup {
    Generic,
    Head,
    Chest,
    Stomach,
    LeftArm,
    RightArm,
    LeftLeg,
    RightLeg,
    Gear,
}

impl HitGroup {
    /// The number the host uses for this hit group.
    pub open spec fn raw(self) -> int {
        match self {
            HitGroup::Generic => 0,
            HitGroup::Head => 1,
            HitGroup::Chest => 2,
            HitGroup::Stomach => 3,
            HitGroup::LeftArm => 4,
            HitGroup::RightArm => 5,
            HitGroup::LeftLeg => 6,
            HitGroup::RightLeg => 7,
            HitGroup::Gear => 10,
        }
    }

    /// Whether the group is part of a body: every group but `Generic` and `Gear`.
    pub open spec fn hits_body(self) -> bool {
        !(self is Generic) && !(self is Gear)
    }

    /// The damage multiplier of the group, in hundredths.
    pub open spec fn multiplier_hundredths(self) -> int {
        if self is Head {
            400
        } else if self is Stomach {
            125
        } else if self is LeftLeg || self is RightLeg {
            75
        } else {
            100
        }
    }

    /// The hit group with the host's number `raw`, if there is one.
    pub fn from_raw(raw: i32) -> (group: Option<HitGroup>)
        ensures
            match group {
                Some(g) => g.raw() == raw,
                None => forall|g: HitGroup| g.raw() != raw,
            },
    {
        match raw {
            0 => Some(HitGroup::Generic),
            1 => Some(HitGroup::Head),
            2 => Some(HitGroup::Chest),
            3 => Some(HitGroup::Stomach),
            4 => Some(HitGroup::LeftArm),
            5 => Some(HitGroup::RightArm),
            6 => Some(HitGroup::LeftLeg),
            7 => Some(HitGroup::RightLeg),
            10 => Some(HitGroup::Gear),
            _ => None,
        }
    }

    /// The host's number for this hit group.
    pub fn into_raw(&self) -> (raw: i32)
        ensures
            raw == self.raw(),
    {
        match self {
            HitGroup::Generic => 0,
            HitGroup::Head => 1,
            HitGroup::Chest => 2,
            HitGroup::Stomach => 3,
            HitGroup::LeftArm => 4,
            HitGroup::RightArm => 5,
            HitGroup::LeftLeg => 6,
            HitGroup::RightLeg => 7,
            HitGroup::Gear => 10,
        }
    }

    /// Damage multiplier for this hit group, in hundredths: 400 stands for 4.0.
    pub fn damage_multiplier(&self) -> (hundredths: u32)
        ensures
            hundredths == self.multiplier_hundredths(),
    {
        match self {
            HitGroup::Head => 400,
            HitGroup::Stomach => 125,
            HitGroup::LeftLeg | HitGroup::RightLeg => 75,
            _ => 100,
        }
    }

    /// Actually hits?
    pub fn is_hit(&self) -> (hit: bool)
        ensures
            hit == self.hits_body(),
    {
        matches!(
            *self,
            HitGroup::Head | HitGroup::Chest | HitGroup::Stomach | HitGroup::LeftArm
                | HitGroup::RightArm | HitGroup::LeftLeg | HitGroup::RightLeg
        )
    }
}

/// Reading a group's number back gives the group: the numbering is one to one.
pub proof fn raw_is_injective(a: HitGroup, b: HitGroup)
    requires
        a.raw() == b.raw(),
    ensures
        a == b,
{
}

} // verus!
