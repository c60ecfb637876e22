//! Factions: the players of the domain model, their treasuries and their
//! pairwise diplomatic relationships.

use std::collections::HashMap;
use vstd::prelude::*;

verus! {

broadcast use vstd::std_specs::hash::group_hash_axioms;

/// Kind of a faction.
#[derive(Clone, Copy, Debug, PartialEq, Eq, Structural)]
pub enum FactionType {
    Player,
    Ally,
    Neutral,
    Rival,
    Independent,
}

/// Diplomatic stance between two factions.
#[derive(Clone, Copy, Debug, PartialEq, Eq, Structural)]
pub enum Relationship {
    Friendly,
    Neutral,
    Hostile,
    Allied,
    AtWar,
}

/// Whether units may pass through territory of a faction in this stance.
pub open spec fn spec_allows_passage(r: Relationship) -> bool {
    !(r == Relationship::Hostile || r == Relationship::AtWar)
}

/// Whether this stance permits attacking.
pub open spec fn spec_allows_attack(r: Relationship) -> bool {
    r == Relationship::Hostile || r == Relationship::AtWar
}

/// A base cost scaled by the stance: allies pay half, friends four fifths,
/// hostile parties half as much again, war doubles it; fractions are
/// truncated and the result saturates at `u32::MAX`.
pub open spec fn spec_scaled_cost(r: Relationship, base: u32) -> u32 {
    let raw = match r {
        Relationship::Friendly => base * 4 / 5,
        Relationship::Neutral => base as int,
        Relationship::Hostile => base * 3 / 2,
        Relationship::Allied => base as int / 2,
        Relationship::AtWar => base * 2,
    };
    if raw > u32::MAX {
        u32::MAX
    } else {
        raw as u32
    }
}

impl Relationship {
    /// Whether units may pass through territory held in this stance.
    pub fn allows_passage(&self) -> (r: bool)
        ensures
            r == spec_allows_passage(*self),
    {
        !matches!(self, Relationship::Hostile | Relationship::AtWar)
    }

    /// Whether this stance permits attacking.
    pub fn allows_attack(&self) -> (r: bool)
        ensures
            r == spec_allows_attack(*self),
    {
        matches!(self, Relationship::Hostile | Relationship::AtWar)
    }

    /// Scales a base cost by this stance (negotiation, passage and the
    /// like); see [`spec_scaled_cost`].
    pub fn scaled_cost(&self, base: u32) -> (r: u32)
        ensures
            r == spec_scaled_cost(*self, base),
    {
        match self {
            Relationship::Friendly => ((base as u64) * 4 / 5) as u32,
            Relationship::Neutral => base,
            Relationship::Hostile => {
                let raw: u64 = (base as u64) * 3 / 2;
                if raw > u32::MAX as u64 {
                    u32::MAX
                } else {
                    raw as u32
                }
            },
            Relationship::Allied => base / 2,
            Relationship::AtWar => {
                let raw: u64 = (base as u64) * 2;
                if raw > u32::MAX as u64 {
                    u32::MAX
                } else {
                    raw as u32
                }
            },
        }
    }
}

/// A faction: identity, treasury, diplomatic points and its recorded stance
/// towards other factions (unrecorded factions count as neutral).
#[derive(Debug)]
pub struct Faction {
    pub id: u32,
    pub name: String,
    pub faction_type: FactionType,
    pub color: (u8, u8, u8),
    pub gold: u32,
    pub diplomatic_points: u32,
    pub relationships: HashMap<u32, Relationship>,
}

impl Clone for Faction {
    fn clone(&self) -> (r: Self) {
        Faction {
            id: self.id,
            name: self.name.clone(),
            faction_type: self.faction_type,
            color: self.color,
            gold: self.gold,
            diplomatic_points: self.diplomatic_points,
            relationships: self.relationships.clone(),
        }
    }
}

impl Faction {
    /// The recorded stance towards `other_id`, neutral when none is
    /// recorded.
    pub open spec fn spec_relationship(self, other_id: u32) -> Relationship {
        if self.relationships@.contains_key(other_id) {
            self.relationships@[other_id]
        } else {
            Relationship::Neutral
        }
    }

    /// A fresh faction with 100 gold, no diplomatic points and no recorded
    /// relationships.
    pub fn new(id: u32, name: String, faction_type: FactionType, color: (u8, u8, u8)) -> (r: Self)
        ensures
            r.id == id,
            r.name == name,
            r.faction_type == faction_type,
            r.color == color,
            r.gold == 100,
            r.diplomatic_points == 0,
            r.relationships@ == Map::<u32, Relationship>::empty(),
    {
        Self {
            id,
            name,
            faction_type,
            color,
            gold: 100,
            diplomatic_points: 0,
            relationships: HashMap::new(),
        }
    }

    /// Records the stance towards `other_id`, replacing any earlier one.
    pub fn set_relationship(&mut self, other_id: u32, relationship: Relationship)
        ensures
            *final(self) == (Faction {
                relationships: final(self).relationships,
                ..*old(self)
            }),
            final(self).relationships@ == old(self).relationships@.insert(other_id, relationship),
    {
        self.relationships.insert(other_id, relationship);
    }

    /// The stance towards `other_id`; factions never met are neutral.
    pub fn get_relationship(&self, other_id: u32) -> (r: Relationship)
        ensures
            r == self.spec_relationship(other_id),
    {
        match self.relationships.get(&other_id) {
            Some(rel) => *rel,
            None => Relationship::Neutral,
        }
    }

    /// Whether this faction's units may pass through `other_id`'s
    /// territory.
    pub fn can_pass_through(&self, other_id: u32) -> (r: bool)
        ensures
            r == spec_allows_passage(self.spec_relationship(other_id)),
    {
        self.get_relationship(other_id).allows_passage()
    }

    /// Whether this faction may attack `other_id`.
    pub fn can_attack(&self, other_id: u32) -> (r: bool)
        ensures
            r == spec_allows_attack(self.spec_relationship(other_id)),
    {
        self.get_relationship(other_id).allows_attack()
    }

    /// Adds gold to the treasury.
    pub fn add_gold(&mut self, amount: u32)
        requires
            old(self).gold + amount <= u32::MAX,
        ensures
            *final(self) == (Faction { gold: (old(self).gold + amount) as u32, ..*old(self) }),
    {
        self.gold = self.gold + amount;
    }

    /// Spends gold when the treasury covers it; returns whether it did.
    pub fn spend_gold(&mut self, amount: u32) -> (r: bool)
        ensures
            r == (old(self).gold >= amount),
            r ==> *final(self) == (Faction { gold: (old(self).gold - amount) as u32, ..*old(self) }),
            !r ==> *final(self) == *old(self),
    {
        if self.gold >= amount {
            self.gold = self.gold - amount;
            true
        } else {
            false
        }
    }

    /// Adds diplomatic points.
    pub fn add_diplomatic_points(&mut self, amount: u32)
        requires
            old(self).diplomatic_points + amount <= u32::MAX,
        ensures
            *final(self) == (Faction {
                diplomatic_points: (old(self).diplomatic_points + amount) as u32,
                ..*old(self)
            }),
    {
        self.diplomatic_points = self.diplomatic_points + amount;
    }

    /// The cost of a diplomatic action towards `other_id`: the base cost
    /// scaled by the current stance.
    pub fn diplomatic_action_cost(&self, other_id: u32, base_cost: u32) -> (r: u32)
        ensures
            r == spec_scaled_cost(self.spec_relationship(other_id), base_cost),
    {
        let relationship = self.get_relationship(other_id);
        relationship.scaled_cost(base_cost)
    }
}

} // verus!
