//! Combat resolution: the sole writer of health. The step's batch of
//! attack events is drained exactly once, each event subtracting the
//! attacker's damage from the target's health and marking the target
//! changed; an event whose target lacks health or whose attacker lacks an
//! attack-damage attribute is silently dropped. Defeat (health at or below
//! zero after the subtraction, before any clamp) is detected and reported
//! per event; removal of defeated entities is the surrounding system's
//! hook.

use vstd::prelude::*;

use crate::store::{entities_wf, record_wf, Health, Record, Store};
use crate::translate::AttackEvent;

verus! {

/// Health after one hit: exact subtraction, saturated at the lowest
/// representable value. Saturation never changes whether the defeat
/// threshold (zero) was crossed.
pub open spec fn damaged(current: int, damage: int) -> int {
    if current - damage >= i32::MIN {
        current - damage
    } else {
        i32::MIN as int
    }
}

/// Does this event find both a target with health and an attacker with an
/// attack-damage attribute? Only then does it have any effect.
pub open spec fn event_applies(s: Seq<Record>, e: AttackEvent) -> bool {
    &&& e.target < s.len()
    &&& s[e.target as int].health is Some
    &&& e.attacker < s.len()
    &&& s[e.attacker as int].attack_damage is Some
}

/// The target's record after one applying event: damage subtracted and the
/// changed marker set, every other attribute untouched.
pub open spec fn hit_record(r: Record, damage: int) -> Record {
    Record {
        faction: r.faction,
        health: Some(
            Health {
                current: damaged(r.health.unwrap().current as int, damage) as i32,
                max: r.health.unwrap().max,
            },
        ),
        attack_damage: r.attack_damage,
        seek_speed: r.seek_speed,
        health_changed: true,
        lifebar_owner: r.lifebar_owner,
        lifebar_fill: r.lifebar_fill,
    }
}

/// The entity state after one event: the target hit if the event applies,
/// everything unchanged if it does not.
pub open spec fn apply_event(s: Seq<Record>, e: AttackEvent) -> Seq<Record> {
    if event_applies(s, e) {
        s.update(
            e.target as int,
            hit_record(s[e.target as int], s[e.attacker as int].attack_damage.unwrap() as int),
        )
    } else {
        s
    }
}

/// The entity state after a whole batch of events, applied front to back,
/// each exactly once.
pub open spec fn apply_events(s: Seq<Record>, evs: Seq<AttackEvent>) -> Seq<Record>
    decreases evs.len(),
{
    if evs.len() == 0 {
        s
    } else {
        apply_events(apply_event(s, evs[0]), evs.drop_first())
    }
}

/// Did this event, applied to this state, leave its target at or below
/// zero health? The check uses the value right after subtraction, before
/// any clamp by the surrounding system.
pub open spec fn event_defeats(s: Seq<Record>, e: AttackEvent) -> bool {
    event_applies(s, e) && damaged(
        s[e.target as int].health.unwrap().current as int,
        s[e.attacker as int].attack_damage.unwrap() as int,
    ) <= 0
}

/// The defeat reports a batch produces, in processing order: one entry per
/// event that left its target at or below zero.
pub open spec fn defeats(s: Seq<Record>, evs: Seq<AttackEvent>) -> Seq<usize>
    decreases evs.len(),
{
    if evs.len() == 0 {
        Seq::empty()
    } else {
        (if event_defeats(s, evs[0]) {
            seq![evs[0].target]
        } else {
            Seq::empty()
        }) + defeats(apply_event(s, evs[0]), evs.drop_first())
    }
}

/// One event changes nothing but its target's health and changed marker.
pub proof fn lemma_apply_event_frame(s: Seq<Record>, e: AttackEvent)
    ensures
        apply_event(s, e).len() == s.len(),
        forall|i: int|
            0 <= i < s.len() ==> {
                let r1 = #[trigger] apply_event(s, e)[i];
                &&& r1.faction == s[i].faction
                &&& r1.attack_damage == s[i].attack_damage
                &&& r1.seek_speed == s[i].seek_speed
                &&& r1.lifebar_owner == s[i].lifebar_owner
                &&& r1.lifebar_fill == s[i].lifebar_fill
                &&& (r1.health is Some <==> s[i].health is Some)
                &&& (s[i].health matches Some(h) ==> r1.health.unwrap().max == h.max)
            },
{
}

/// A batch changes nothing but health values and changed markers.
pub proof fn lemma_apply_events_frame(s: Seq<Record>, evs: Seq<AttackEvent>)
    ensures
        apply_events(s, evs).len() == s.len(),
        forall|i: int|
            0 <= i < s.len() ==> {
                let r1 = #[trigger] apply_events(s, evs)[i];
                &&& r1.faction == s[i].faction
                &&& r1.attack_damage == s[i].attack_damage
                &&& r1.seek_speed == s[i].seek_speed
                &&& r1.lifebar_owner == s[i].lifebar_owner
                &&& r1.lifebar_fill == s[i].lifebar_fill
                &&& (r1.health is Some <==> s[i].health is Some)
                &&& (s[i].health matches Some(h) ==> r1.health.unwrap().max == h.max)
            },
    decreases evs.len(),
{
    if evs.len() > 0 {
        lemma_apply_event_frame(s, evs[0]);
        lemma_apply_events_frame(apply_event(s, evs[0]), evs.drop_first());
    }
}

/// Damage is never negative in a well-formed store, so a combat pass can
/// only lower health: `current <= max` holds of every entity after every
/// batch, and the store stays well-formed.
pub proof fn lemma_resolution_preserves_wf(s: Seq<Record>, evs: Seq<AttackEvent>)
    requires
        entities_wf(s),
    ensures
        entities_wf(apply_events(s, evs)),
        forall|i: int|
            0 <= i < s.len() && #[trigger] apply_events(s, evs)[i].health is Some
                ==> apply_events(s, evs)[i].health.unwrap().current <= apply_events(
                s,
                evs,
            )[i].health.unwrap().max,
    decreases evs.len(),
{
    if evs.len() > 0 {
        let s1 = apply_event(s, evs[0]);
        assert(entities_wf(s1)) by {
            if event_applies(s, evs[0]) {
                let t = evs[0].target as int;
                assert(record_wf(s[t]));
                assert(record_wf(s[evs[0].attacker as int]));
                assert(forall|i: int|
                    0 <= i < s1.len() && i != t ==> s1[i] == s[i] && #[trigger] record_wf(s1[i]));
                assert(record_wf(s1[t]));
            }
        }
        lemma_resolution_preserves_wf(s1, evs.drop_first());
    }
    lemma_apply_events_frame(s, evs);
    assert forall|i: int|
        0 <= i < s.len() && #[trigger] apply_events(s, evs)[i].health is Some implies apply_events(
        s,
        evs,
    )[i].health.unwrap().current <= apply_events(s, evs)[i].health.unwrap().max by {
        assert(record_wf(apply_events(s, evs)[i]));
    }
}

/// Appending one event to a batch is the same as applying the batch and
/// then the event; its defeat reports extend the batch's accordingly.
pub proof fn lemma_batch_snoc(s: Seq<Record>, evs: Seq<AttackEvent>, e: AttackEvent)
    ensures
        apply_events(s, evs.push(e)) == apply_event(apply_events(s, evs), e),
        defeats(s, evs.push(e)) == defeats(s, evs) + (if event_defeats(apply_events(s, evs), e) {
            seq![e.target]
        } else {
            Seq::<usize>::empty()
        }),
    decreases evs.len(),
{
    if evs.len() == 0 {
        assert(evs.push(e)[0] == e);
        assert(evs.push(e).drop_first() =~= Seq::<AttackEvent>::empty());
        assert(apply_events(s, evs) == s);
        assert(defeats(s, evs) == Seq::<usize>::empty());
        assert(apply_events(s, evs.push(e)) == apply_events(
            apply_event(s, e),
            Seq::<AttackEvent>::empty(),
        ));
        assert(apply_events(apply_event(s, e), Seq::<AttackEvent>::empty()) == apply_event(s, e));
        assert(defeats(s, evs.push(e)) == (if event_defeats(s, e) {
            seq![e.target]
        } else {
            Seq::<usize>::empty()
        }) + defeats(apply_event(s, e), Seq::<AttackEvent>::empty()));
        assert(defeats(apply_event(s, e), Seq::<AttackEvent>::empty()) == Seq::<usize>::empty());
        assert(defeats(s, evs) + (if event_defeats(apply_events(s, evs), e) {
            seq![e.target]
        } else {
            Seq::<usize>::empty()
        }) =~= defeats(s, evs.push(e)));
    } else {
        let s1 = apply_event(s, evs[0]);
        let rest = evs.drop_first();
        assert(evs.push(e)[0] == evs[0]);
        assert(evs.push(e).drop_first() =~= rest.push(e));
        lemma_batch_snoc(s1, rest, e);
        assert(apply_events(s, evs.push(e)) == apply_events(s1, rest.push(e)));
        assert(apply_events(s, evs) == apply_events(s1, rest));
        assert(defeats(s, evs.push(e)) == (if event_defeats(s, evs[0]) {
            seq![evs[0].target]
        } else {
            Seq::<usize>::empty()
        }) + defeats(s1, rest.push(e)));
        assert(defeats(s, evs) == (if event_defeats(s, evs[0]) {
            seq![evs[0].target]
        } else {
            Seq::<usize>::empty()
        }) + defeats(s1, rest));
        assert(defeats(s, evs) + (if event_defeats(apply_events(s, evs), e) {
            seq![e.target]
        } else {
            Seq::<usize>::empty()
        }) =~= defeats(s, evs.push(e)));
    }
}

/// Two events against the same target within one batch accumulate: the
/// target ends the batch down by exactly the sum of the two damages
/// (whenever that sum stays representable), processed once each, in one
/// pass.
pub proof fn lemma_batch_damage_accumulates(s: Seq<Record>, e1: AttackEvent, e2: AttackEvent)
    requires
        event_applies(s, e1),
        e2.attacker < s.len(),
        s[e2.attacker as int].attack_damage is Some,
        e1.target == e2.target,
        s[e1.attacker as int].attack_damage.unwrap() >= 0,
        s[e2.attacker as int].attack_damage.unwrap() >= 0,
        s[e1.target as int].health.unwrap().current - s[e1.attacker as int].attack_damage.unwrap()
            - s[e2.attacker as int].attack_damage.unwrap() >= i32::MIN,
    ensures
        apply_events(s, seq![e1, e2])[e1.target as int].health matches Some(h)
            && h.current == s[e1.target as int].health.unwrap().current - s[
            e1.attacker as int
        ].attack_damage.unwrap() - s[e2.attacker as int].attack_damage.unwrap() && h.max == s[
            e1.target as int
        ].health.unwrap().max,
{
    let evs = seq![e1, e2];
    assert(evs[0] == e1);
    assert(evs.drop_first() =~= seq![e2]);
    let s1 = apply_event(s, e1);
    lemma_apply_event_frame(s, e1);
    assert(event_applies(s1, e2));
    assert(seq![e2].drop_first() =~= Seq::<AttackEvent>::empty());
    assert(apply_events(s, evs) == apply_events(s1, seq![e2]));
    assert(apply_events(s1, seq![e2]) == apply_events(apply_event(s1, e2), seq![e2].drop_first()));
    assert(apply_events(apply_event(s1, e2), Seq::<AttackEvent>::empty()) == apply_event(s1, e2));
}

/// An event whose attacker lacks an attack-damage attribute, or whose
/// target lacks health, changes nothing: it is dropped, not an error.
pub proof fn lemma_inapplicable_event_dropped(s: Seq<Record>, e: AttackEvent)
    requires
        !event_applies(s, e),
    ensures
        apply_event(s, e) == s,
        !event_defeats(s, e),
{
}

impl Store {
    /// Resolves this step's whole batch of attack events, reading each
    /// exactly once, and returns the defeat reports in processing order.
    /// Health is written here and nowhere else; targets hit get their
    /// changed marker set for derived-state propagation.
    pub fn resolve_attacks(&mut self, events: &Vec<AttackEvent>) -> (defeated: Vec<usize>)
        requires
            old(self).wf(),
        ensures
            final(self).wf(),
            final(self).entities@ == apply_events(old(self).entities@, events@),
            defeated@ == defeats(old(self).entities@, events@),
            final(self).player == old(self).player,
    {
        let ghost s0 = self.entities@;
        let mut defeated: Vec<usize> = Vec::new();
        let n = events.len();
        for k in 0..n
            invariant
                n == events@.len(),
                entities_wf(s0),
                self.entities@ == apply_events(s0, events@.take(k as int)),
                defeated@ == defeats(s0, events@.take(k as int)),
                self.entities@.len() == s0.len(),
                entities_wf(self.entities@),
                self.player == old(self).player,
        {
            let ghost prev = self.entities@;
            let e = events[k];
            let mut damage_opt: Option<i32> = None;
            if e.attacker < self.entities.len() {
                damage_opt = self.entities[e.attacker].attack_damage;
            }
            let mut health_opt: Option<Health> = None;
            if e.target < self.entities.len() {
                health_opt = self.entities[e.target].health;
            }
            match (health_opt, damage_opt) {
                (Some(h), Some(d)) => {
                    proof {
                        assert(record_wf(prev[e.target as int]));
                        assert(record_wf(prev[e.attacker as int]));
                    }
                    let wide = h.current as i64 - d as i64;
                    let new_current: i32 = if wide >= i32::MIN as i64 {
                        wide as i32
                    } else {
                        i32::MIN
                    };
                    assert(new_current == damaged(h.current as int, d as int));
                    let mut hit = self.entities[e.target];
                    hit.health = Some(Health { current: new_current, max: h.max });
                    hit.health_changed = true;
                    self.entities[e.target] = hit;
                    if new_current <= 0 {
                        defeated.push(e.target);
                    }
                    proof {
                        assert(event_applies(prev, e));
                        assert(hit == hit_record(prev[e.target as int], d as int));
                        assert(self.entities@ == apply_event(prev, e));
                        assert(event_defeats(prev, e) <==> new_current <= 0);
                    }
                },
                _ => {
                    proof {
                        assert(!event_applies(prev, e));
                        assert(self.entities@ == apply_event(prev, e));
                    }
                },
            }
            proof {
                assert(events@.take(k + 1) =~= events@.take(k as int).push(e));
                lemma_batch_snoc(s0, events@.take(k as int), e);
                assert(self.entities@ == apply_events(s0, events@.take(k + 1)));
                assert(defeated@ =~= defeats(s0, events@.take(k + 1)));
                lemma_resolution_preserves_wf(s0, events@.take(k + 1));
            }
        }
        proof {
            assert(events@.take(n as int) =~= events@);
            lemma_resolution_preserves_wf(s0, events@);
            lemma_apply_events_frame(s0, events@);
        }
        defeated
    }
}

} // verus!
