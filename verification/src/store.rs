//! The entity/component store: opaque integer handles mapped to typed
//! attribute bundles (faction, health, attack damage, seek speed, health
//! bar state), with constant-time lookup by handle.

use vstd::prelude::*;

verus! {

/// Classification tag used to decide which collisions produce attack events.
#[derive(Clone, Copy, Debug, PartialEq, Eq)]
pub enum Faction {
    Player,
    Enemy,
}

/// Hit points of an entity. `current` never exceeds `max`; it may go
/// negative transiently after damage, before defeat handling removes the
/// entity.
#[derive(Clone, Copy, Debug, PartialEq, Eq)]
pub struct Health {
    pub current: i32,
    pub max: i32,
}

/// Exact health-bar geometry as rational numbers over a common denominator:
/// the rendered fill width is `width_num / denom` and the horizontal offset
/// of the fill's centre is `offset_num / denom`. Keeping numerator and
/// denominator separate keeps the core free of inexact arithmetic; the
/// renderer performs the one division.
#[derive(Clone, Copy, Debug, PartialEq, Eq)]
pub struct LifebarGeometry {
    pub width_num: i64,
    pub offset_num: i64,
    pub denom: i64,
}

/// One entity's attribute bundle. Every attribute is optional: a camera or
/// a bar sprite carries none of them, the player carries faction and
/// health, an enemy additionally carries attack damage and seek speed.
#[derive(Clone, Copy, Debug, PartialEq, Eq)]
pub struct Record {
    pub faction: Option<Faction>,
    pub health: Option<Health>,
    /// Damage dealt per attack event; present only on attackers.
    pub attack_damage: Option<i32>,
    /// Steering speed in world units per second; present only on seekers.
    pub seek_speed: Option<u32>,
    /// Set by combat resolution when this entity's health was written this
    /// step; cleared by derived-state propagation at the end of the step.
    pub health_changed: bool,
    /// Back-reference from a health-bar fill entity to the entity whose
    /// health it displays.
    pub lifebar_owner: Option<usize>,
    /// Current fill geometry of a health-bar entity, once propagated.
    pub lifebar_fill: Option<LifebarGeometry>,
}

/// Handles are indices into the store, so lookup is a bounds check plus an
/// index. The unique player, if any, is held as an explicit optional index
/// rather than found by scanning.
pub struct Store {
    pub entities: Vec<Record>,
    pub player: Option<usize>,
}

/// Well-formedness of one record: health respects its bound and a positive
/// maximum, and damage is never negative.
pub open spec fn record_wf(r: Record) -> bool {
    &&& (r.health matches Some(h) ==> h.current <= h.max && h.max >= 1)
    &&& (r.attack_damage matches Some(d) ==> d >= 0)
}

/// Well-formedness of the entity sequence alone: every record is
/// well-formed and every health-bar back-reference resolves.
pub open spec fn entities_wf(s: Seq<Record>) -> bool {
    forall|i: int|
        0 <= i < s.len() ==> #[trigger] record_wf(s[i]) && (s[i].lifebar_owner matches Some(o)
            ==> o < s.len())
}

impl Store {
    /// The store invariant: well-formed records, and the player index is
    /// kept exactly in sync with the unique record tagged `Player`.
    pub open spec fn wf(self) -> bool {
        &&& entities_wf(self.entities@)
        &&& (self.player matches Some(p)
            ==> p < self.entities@.len() && self.entities@[p as int].faction == Some(
                Faction::Player,
            ) && self.entities@[p as int].health is Some)
        &&& (forall|i: int|
            0 <= i < self.entities@.len() && #[trigger] self.entities@[i].faction == Some(
                Faction::Player,
            ) ==> self.player == Some(i as usize))
    }

    /// The record a freshly spawned player carries.
    pub open spec fn player_record(current: i32, max: i32) -> Record {
        Record {
            faction: Some(Faction::Player),
            health: Some(Health { current, max }),
            attack_damage: None,
            seek_speed: None,
            health_changed: false,
            lifebar_owner: None,
            lifebar_fill: None,
        }
    }

    /// The record a freshly spawned enemy carries.
    pub open spec fn enemy_record(current: i32, max: i32, damage: i32, seek_speed: u32) -> Record {
        Record {
            faction: Some(Faction::Enemy),
            health: Some(Health { current, max }),
            attack_damage: Some(damage),
            seek_speed: Some(seek_speed),
            health_changed: false,
            lifebar_owner: None,
            lifebar_fill: None,
        }
    }

    /// The record a freshly spawned health-bar fill entity carries.
    pub open spec fn lifebar_record(owner: usize) -> Record {
        Record {
            faction: None,
            health: None,
            attack_damage: None,
            seek_speed: None,
            health_changed: false,
            lifebar_owner: Some(owner),
            lifebar_fill: None,
        }
    }

    /// An empty simulation: no entities, no player.
    pub fn new() -> (s: Store)
        ensures
            s.wf(),
            s.entities@.len() == 0,
            s.player is None,
    {
        Store { entities: Vec::new(), player: None }
    }

    /// Spawns the unique player with the given health. At most one player
    /// exists at any time, so spawning requires that none exists yet.
    pub fn spawn_player(&mut self, current: i32, max: i32) -> (id: usize)
        requires
            old(self).wf(),
            old(self).player is None,
            0 <= current <= max,
            max >= 1,
        ensures
            final(self).wf(),
            id == old(self).entities@.len(),
            final(self).entities@ == old(self).entities@.push(Self::player_record(current, max)),
            final(self).player == Some(id),
    {
        let id = self.entities.len();
        self.entities.push(
            Record {
                faction: Some(Faction::Player),
                health: Some(Health { current, max }),
                attack_damage: None,
                seek_speed: None,
                health_changed: false,
                lifebar_owner: None,
                lifebar_fill: None,
            },
        );
        self.player = Some(id);
        id
    }

    /// Spawns an enemy with the given health, per-hit attack damage and
    /// seek speed.
    pub fn spawn_enemy(&mut self, current: i32, max: i32, damage: i32, seek_speed: u32) -> (id:
        usize)
        requires
            old(self).wf(),
            0 <= current <= max,
            max >= 1,
            damage >= 0,
        ensures
            final(self).wf(),
            id == old(self).entities@.len(),
            final(self).entities@ == old(self).entities@.push(
                Self::enemy_record(current, max, damage, seek_speed),
            ),
            final(self).player == old(self).player,
    {
        let id = self.entities.len();
        self.entities.push(
            Record {
                faction: Some(Faction::Enemy),
                health: Some(Health { current, max }),
                attack_damage: Some(damage),
                seek_speed: Some(seek_speed),
                health_changed: false,
                lifebar_owner: None,
                lifebar_fill: None,
            },
        );
        id
    }

    /// Spawns a health-bar fill entity that displays `owner`'s health. The
    /// bar holds only a weak back-reference; the owner does not know about
    /// its dependents.
    pub fn spawn_lifebar(&mut self, owner: usize) -> (id: usize)
        requires
            old(self).wf(),
            owner < old(self).entities@.len(),
        ensures
            final(self).wf(),
            id == old(self).entities@.len(),
            final(self).entities@ == old(self).entities@.push(Self::lifebar_record(owner)),
            final(self).player == old(self).player,
    {
        let id = self.entities.len();
        self.entities.push(
            Record {
                faction: None,
                health: None,
                attack_damage: None,
                seek_speed: None,
                health_changed: false,
                lifebar_owner: Some(owner),
                lifebar_fill: None,
            },
        );
        id
    }

    /// Number of entities ever spawned; handles are `0 .. entity_count()`.
    pub fn entity_count(&self) -> (n: usize)
        ensures
            n == self.entities@.len(),
    {
        self.entities.len()
    }

    /// The read-only overlay query: current and max health of the player,
    /// if a player exists. Absence of a player is a valid, handled state,
    /// answered with `None`, never a failure.
    pub fn player_health(&self) -> (r: Option<Health>)
        requires
            self.wf(),
        ensures
            r is Some <==> self.player is Some,
            self.player matches Some(p) ==> r == self.entities@[p as int].health,
    {
        match self.player {
            Some(p) => self.entities[p].health,
            None => None,
        }
    }

    /// The health attribute of an entity, `None` for an unknown handle or
    /// one that carries no health.
    pub fn health_of(&self, id: usize) -> (r: Option<Health>)
        ensures
            r == (if id < self.entities@.len() {
                self.entities@[id as int].health
            } else {
                None
            }),
    {
        if id < self.entities.len() {
            self.entities[id].health
        } else {
            None
        }
    }

    /// The attack-damage attribute of an entity, `None` for an unknown
    /// handle or one that cannot attack.
    pub fn attack_of(&self, id: usize) -> (r: Option<i32>)
        ensures
            r == (if id < self.entities@.len() {
                self.entities@[id as int].attack_damage
            } else {
                None
            }),
    {
        if id < self.entities.len() {
            self.entities[id].attack_damage
        } else {
            None
        }
    }

    /// The seek-speed attribute of an entity, `None` for an unknown handle
    /// or one that does not seek.
    pub fn seek_speed_of(&self, id: usize) -> (r: Option<u32>)
        ensures
            r == (if id < self.entities@.len() {
                self.entities@[id as int].seek_speed
            } else {
                None
            }),
    {
        if id < self.entities.len() {
            self.entities[id].seek_speed
        } else {
            None
        }
    }

    /// The current fill geometry of a health-bar entity, `None` for an
    /// unknown handle or a bar that was never propagated.
    pub fn lifebar_fill_of(&self, id: usize) -> (r: Option<LifebarGeometry>)
        ensures
            r == (if id < self.entities@.len() {
                self.entities@[id as int].lifebar_fill
            } else {
                None
            }),
    {
        if id < self.entities.len() {
            self.entities[id].lifebar_fill
        } else {
            None
        }
    }
}

} // verus!
