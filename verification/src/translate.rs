//! Collision-to-event translation: each overlap-start pair reported by the
//! physics black box is classified by faction, and exactly the pairs made
//! of one enemy and one player become directed attack events, attacker =
//! enemy side, target = player side, whatever order the pair came in.

use vstd::prelude::*;

use crate::store::{Faction, Record, Store};

verus! {

/// A directed attack generated from one overlap-start pair and consumed
/// exactly once by combat resolution within the same step.
#[derive(Clone, Copy, Debug, PartialEq, Eq)]
pub struct AttackEvent {
    pub attacker: usize,
    pub target: usize,
}

/// The event one reported pair produces, if any: exactly one side must be
/// an enemy and the other the player, and then the enemy side attacks.
pub open spec fn pair_event(s: Seq<Record>, a: usize, b: usize) -> Option<AttackEvent> {
    if a < s.len() && b < s.len() && s[a as int].faction == Some(Faction::Enemy) && s[
        b as int
    ].faction == Some(Faction::Player) {
        Some(AttackEvent { attacker: a, target: b })
    } else if a < s.len() && b < s.len() && s[b as int].faction == Some(Faction::Enemy) && s[
        a as int
    ].faction == Some(Faction::Player) {
        Some(AttackEvent { attacker: b, target: a })
    } else {
        None
    }
}

/// The events a whole batch of reported pairs produces, in report order,
/// pairs that match no faction pattern contributing nothing.
pub open spec fn events_of(s: Seq<Record>, pairs: Seq<(usize, usize)>) -> Seq<AttackEvent>
    decreases pairs.len(),
{
    if pairs.len() == 0 {
        Seq::empty()
    } else {
        events_of(s, pairs.drop_last()) + match pair_event(
            s,
            pairs.last().0,
            pairs.last().1,
        ) {
            Some(e) => seq![e],
            None => Seq::empty(),
        }
    }
}

/// Attacker/target assignment is deterministic and independent of which
/// slot of the reported pair held which faction: an (enemy, player)
/// overlap yields the same event under both orderings.
pub proof fn lemma_translation_symmetric(s: Seq<Record>, e: usize, p: usize)
    requires
        e < s.len(),
        p < s.len(),
        s[e as int].faction == Some(Faction::Enemy),
        s[p as int].faction == Some(Faction::Player),
    ensures
        pair_event(s, e, p) == Some(AttackEvent { attacker: e, target: p }),
        pair_event(s, p, e) == Some(AttackEvent { attacker: e, target: p }),
{
}

/// Every generated event is directed from an enemy to the player; in
/// particular attacker and target are distinct entities.
pub proof fn lemma_events_directed(s: Seq<Record>, pairs: Seq<(usize, usize)>)
    ensures
        forall|k: int|
            0 <= k < events_of(s, pairs).len() ==> {
                let ev = #[trigger] events_of(s, pairs)[k];
                &&& ev.attacker < s.len()
                &&& ev.target < s.len()
                &&& s[ev.attacker as int].faction == Some(Faction::Enemy)
                &&& s[ev.target as int].faction == Some(Faction::Player)
                &&& ev.attacker != ev.target
            },
    decreases pairs.len(),
{
    if pairs.len() > 0 {
        lemma_events_directed(s, pairs.drop_last());
    }
}

impl Store {
    /// Does this handle resolve to an entity tagged `Player`?
    pub fn is_player(&self, id: usize) -> (r: bool)
        ensures
            r == (id < self.entities@.len() && self.entities@[id as int].faction == Some(
                Faction::Player,
            )),
    {
        if id < self.entities.len() {
            match self.entities[id].faction {
                Some(Faction::Player) => true,
                _ => false,
            }
        } else {
            false
        }
    }

    /// Does this handle resolve to an entity tagged `Enemy`?
    pub fn is_enemy(&self, id: usize) -> (r: bool)
        ensures
            r == (id < self.entities@.len() && self.entities@[id as int].faction == Some(
                Faction::Enemy,
            )),
    {
        if id < self.entities.len() {
            match self.entities[id].faction {
                Some(Faction::Enemy) => true,
                _ => false,
            }
        } else {
            false
        }
    }

    /// Translates this step's overlap-start pairs into attack events.
    /// Enemy-enemy, player-player and unclassified pairs emit nothing.
    pub fn translate_collisions(&self, pairs: &Vec<(usize, usize)>) -> (events: Vec<AttackEvent>)
        ensures
            events@ == events_of(self.entities@, pairs@),
    {
        let mut events: Vec<AttackEvent> = Vec::new();
        let n = pairs.len();
        for k in 0..n
            invariant
                n == pairs@.len(),
                events@ == events_of(self.entities@, pairs@.take(k as int)),
        {
            let (a, b) = pairs[k];
            if self.is_enemy(a) && self.is_player(b) {
                events.push(AttackEvent { attacker: a, target: b });
            } else if self.is_enemy(b) && self.is_player(a) {
                events.push(AttackEvent { attacker: b, target: a });
            }
            proof {
                assert(pairs@.take(k + 1).drop_last() =~= pairs@.take(k as int));
                assert(pairs@.take(k + 1).last() == pairs@[k as int]);
            }
        }
        proof {
            assert(pairs@.take(n as int) =~= pairs@);
        }
        events
    }
}

} // verus!
