//! Units: the mobile pieces of the domain model, with movement points,
//! health, experience and derived combat strength.

use crate::map::MapPosition;
use vstd::prelude::*;

verus! {

/// Kind of a unit.
#[derive(Clone, Copy, Debug, PartialEq, Eq, Structural)]
pub enum UnitType {
    Infantry,
    Cavalry,
    Ranged,
    Siege,
    Support,
}

/// Movement points a unit of this kind starts each turn with.
pub open spec fn spec_base_movement(t: UnitType) -> u32 {
    match t {
        UnitType::Infantry => 3,
        UnitType::Cavalry => 5,
        UnitType::Ranged => 2,
        UnitType::Siege => 1,
        UnitType::Support => 2,
    }
}

/// Base attack strength of a unit of this kind.
pub open spec fn spec_base_attack(t: UnitType) -> u32 {
    match t {
        UnitType::Infantry => 10,
        UnitType::Cavalry => 12,
        UnitType::Ranged => 8,
        UnitType::Siege => 15,
        UnitType::Support => 4,
    }
}

/// Base defense strength of a unit of this kind.
pub open spec fn spec_base_defense(t: UnitType) -> u32 {
    match t {
        UnitType::Infantry => 10,
        UnitType::Cavalry => 8,
        UnitType::Ranged => 6,
        UnitType::Siege => 5,
        UnitType::Support => 7,
    }
}

impl UnitType {
    /// Movement points a unit of this kind starts each turn with.
    pub fn base_movement(&self) -> (r: u32)
        ensures
            r == spec_base_movement(*self),
    {
        match self {
            UnitType::Infantry => 3,
            UnitType::Cavalry => 5,
            UnitType::Ranged => 2,
            UnitType::Siege => 1,
            UnitType::Support => 2,
        }
    }

    /// Base attack strength of a unit of this kind.
    pub fn base_attack(&self) -> (r: u32)
        ensures
            r == spec_base_attack(*self),
    {
        match self {
            UnitType::Infantry => 10,
            UnitType::Cavalry => 12,
            UnitType::Ranged => 8,
            UnitType::Siege => 15,
            UnitType::Support => 4,
        }
    }

    /// Base defense strength of a unit of this kind.
    pub fn base_defense(&self) -> (r: u32)
        ensures
            r == spec_base_defense(*self),
    {
        match self {
            UnitType::Infantry => 10,
            UnitType::Cavalry => 8,
            UnitType::Ranged => 6,
            UnitType::Siege => 5,
            UnitType::Support => 7,
        }
    }
}

/// Activity state of a unit.
#[derive(Clone, Copy, Debug, PartialEq, Eq, Structural)]
pub enum UnitStatus {
    Idle,
    Moving,
    Attacking,
    Defending,
    Exhausted,
    Wounded,
}

/// Combat strength derived from a base value, a flat bonus, an experience
/// bonus and the unit's health: the bonused base is scaled by `health`
/// percent, truncated, and kept at least 1 (a unit always fights back).
pub open spec fn spec_power(base: u32, bonus: i32, exp_bonus: u32, health: u32) -> u32 {
    let t = base + bonus + exp_bonus;
    let scaled = if t <= 0 {
        0
    } else {
        t * health / 100
    };
    if scaled < 1 {
        1
    } else if scaled > u32::MAX {
        u32::MAX
    } else {
        scaled as u32
    }
}

/// A unit on the map.
#[derive(Clone, Debug)]
pub struct Unit {
    pub id: u32,
    pub name: String,
    pub unit_type: UnitType,
    pub faction_id: u32,
    pub position: MapPosition,
    pub health: u32,
    pub experience: u32,
    pub status: UnitStatus,
    pub movement_points: u32,
    pub attack_bonus: i32,
    pub defense_bonus: i32,
}

impl Unit {
    /// A fresh, idle unit at full health with its kind's movement points.
    pub fn new(id: u32, name: String, unit_type: UnitType, faction_id: u32, position: MapPosition)
        -> (r: Self)
        ensures
            r.id == id,
            r.name == name,
            r.unit_type == unit_type,
            r.faction_id == faction_id,
            r.position == position,
            r.health == 100,
            r.experience == 0,
            r.status == UnitStatus::Idle,
            r.movement_points == spec_base_movement(unit_type),
            r.attack_bonus == 0,
            r.defense_bonus == 0,
    {
        let movement_points = unit_type.base_movement();
        Self {
            id,
            name,
            unit_type,
            faction_id,
            position,
            health: 100,
            experience: 0,
            status: UnitStatus::Idle,
            movement_points,
            attack_bonus: 0,
            defense_bonus: 0,
        }
    }

    /// Current attack strength: the kind's base attack plus the flat bonus
    /// plus one point per 100 experience, scaled by health percent.
    pub fn attack_power(&self) -> (r: u32)
        ensures
            r == spec_power(
                spec_base_attack(self.unit_type),
                self.attack_bonus,
                self.experience / 100,
                self.health,
            ),
    {
        let base = self.unit_type.base_attack();
        let exp_bonus = self.experience / 100;
        Self::scaled_power(base, self.attack_bonus, exp_bonus, self.health)
    }

    /// Current defense strength: the kind's base defense plus the flat
    /// bonus plus one point per 150 experience, scaled by health percent.
    pub fn defense_power(&self) -> (r: u32)
        ensures
            r == spec_power(
                spec_base_defense(self.unit_type),
                self.defense_bonus,
                self.experience / 150,
                self.health,
            ),
    {
        let base = self.unit_type.base_defense();
        let exp_bonus = self.experience / 150;
        Self::scaled_power(base, self.defense_bonus, exp_bonus, self.health)
    }

    fn scaled_power(base: u32, bonus: i32, exp_bonus: u32, health: u32) -> (r: u32)
        ensures
            r == spec_power(base, bonus, exp_bonus, health),
    {
        let t: i64 = base as i64 + bonus as i64 + exp_bonus as i64;
        if t <= 0 {
            return 1;
        }
        assert((t as u128) * (health as u128) <= u128::MAX) by (nonlinear_arith)
            requires
                0 < t <= i64::MAX,
                health <= u32::MAX,
        ;
        let scaled: u128 = (t as u128) * (health as u128) / 100;
        if scaled < 1 {
            1
        } else if scaled > u32::MAX as u128 {
            u32::MAX
        } else {
            scaled as u32
        }
    }

    /// Moves the unit to `new_position` when it has `cost` movement points
    /// left, spending them; a unit whose points run out is exhausted.
    /// Returns whether the move happened.
    pub fn move_to(&mut self, new_position: MapPosition, cost: u32) -> (r: bool)
        ensures
            r == (old(self).movement_points >= cost),
            r ==> *final(self) == (Unit {
                position: new_position,
                movement_points: (old(self).movement_points - cost) as u32,
                status: if old(self).movement_points == cost {
                    UnitStatus::Exhausted
                } else {
                    UnitStatus::Moving
                },
                ..*old(self)
            }),
            !r ==> *final(self) == *old(self),
    {
        if self.movement_points >= cost {
            self.position = new_position;
            self.movement_points = self.movement_points - cost;
            self.status = if self.movement_points == 0 {
                UnitStatus::Exhausted
            } else {
                UnitStatus::Moving
            };
            true
        } else {
            false
        }
    }

    /// Restores the kind's movement points at the start of a turn; an
    /// exhausted unit becomes idle again.
    pub fn reset_for_new_turn(&mut self)
        ensures
            *final(self) == (Unit {
                movement_points: spec_base_movement(old(self).unit_type),
                status: if old(self).status == UnitStatus::Exhausted {
                    UnitStatus::Idle
                } else {
                    old(self).status
                },
                ..*old(self)
            }),
    {
        self.movement_points = self.unit_type.base_movement();
        if self.status == UnitStatus::Exhausted {
            self.status = UnitStatus::Idle;
        }
    }

    /// Applies `amount` damage, never below zero health. Returns whether
    /// the unit survives; a survivor below 30 health is wounded.
    pub fn take_damage(&mut self, amount: u32) -> (r: bool)
        ensures
            *final(self) == (Unit {
                health: if amount >= old(self).health {
                    0
                } else {
                    (old(self).health - amount) as u32
                },
                status: if amount < old(self).health && old(self).health - amount < 30 {
                    UnitStatus::Wounded
                } else {
                    old(self).status
                },
                ..*old(self)
            }),
            r == (old(self).health > amount),
    {
        let actual_damage = if amount < self.health {
            amount
        } else {
            self.health
        };
        self.health = self.health - actual_damage;
        if self.health == 0 {
            false
        } else if self.health < 30 {
            self.status = UnitStatus::Wounded;
            true
        } else {
            true
        }
    }

    /// Adds experience points.
    pub fn gain_experience(&mut self, amount: u32)
        requires
            old(self).experience + amount <= u32::MAX,
        ensures
            *final(self) == (Unit { experience: (old(self).experience + amount) as u32, ..*old(self) }),
    {
        self.experience = self.experience + amount;
    }
}

} // verus!
