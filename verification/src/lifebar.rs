//! Derived-state propagation: health-bar fill geometry is recomputed for
//! exactly the entities whose health changed this step, located through
//! the bar's back-reference to its owner, and the changed markers are
//! cleared afterwards. Bars of untouched entities are left alone.
//!
//! The geometry is kept exact: `fill_width = bar_width * current / max`
//! and `fill_x_offset = -(bar_width / 2) * (1 - current / max)` are stored
//! as integer numerators over the common denominator `2 * max`, so the bar
//! stays anchored to its left edge while it shrinks from the right. The
//! renderer divides once, outside the core.

use vstd::prelude::*;

use crate::combat::{apply_events, defeats};
use crate::store::{entities_wf, record_wf, Faction, Health, LifebarGeometry, Record, Store};
use crate::translate::events_of;

verus! {

/// Numerator of the fill width over denominator `2 * max`:
/// `bar_width * current / max == (2 * bar_width * current) / (2 * max)`.
pub open spec fn fill_width_num(bar_width: int, current: int) -> int {
    2 * bar_width * current
}

/// Numerator of the fill offset over denominator `2 * max`:
/// `-(bar_width / 2) * ((max - current) / max)
///   == -(bar_width * (max - current)) / (2 * max)`.
pub open spec fn fill_offset_num(bar_width: int, current: int, max: int) -> int {
    -(bar_width * (max - current))
}

/// The exact fill geometry for one health value and bar width.
pub open spec fn geometry_of(h: Health, bar_width: int) -> LifebarGeometry {
    LifebarGeometry {
        width_num: fill_width_num(bar_width, h.current as int) as i64,
        offset_num: fill_offset_num(bar_width, h.current as int, h.max as int) as i64,
        denom: (2 * h.max) as i64,
    }
}

/// The fill a bar entity shows after propagation: recomputed from its
/// owner's health exactly when that owner's health changed this step,
/// otherwise whatever it showed before.
pub open spec fn propagated_fill(s: Seq<Record>, i: int, bar_width: int) -> Option<
    LifebarGeometry,
> {
    match s[i].lifebar_owner {
        Some(o) => if o < s.len() && s[o as int].health_changed {
            match s[o as int].health {
                Some(h) => Some(geometry_of(h, bar_width)),
                None => s[i].lifebar_fill,
            }
        } else {
            s[i].lifebar_fill
        },
        None => s[i].lifebar_fill,
    }
}

/// One record after propagation: fill updated as above, changed marker
/// cleared, everything else untouched.
pub open spec fn propagated_record(s: Seq<Record>, i: int, bar_width: int) -> Record {
    Record {
        faction: s[i].faction,
        health: s[i].health,
        attack_damage: s[i].attack_damage,
        seek_speed: s[i].seek_speed,
        health_changed: false,
        lifebar_owner: s[i].lifebar_owner,
        lifebar_fill: propagated_fill(s, i, bar_width),
    }
}

/// The whole entity state after derived-state propagation.
pub open spec fn propagate_spec(s: Seq<Record>, bar_width: int) -> Seq<Record> {
    Seq::new(s.len(), |i: int| propagated_record(s, i, bar_width))
}

impl Store {
    /// The exact fill geometry for a health value on a bar of the given
    /// width. A health ratio of one fills the whole bar at offset zero; a
    /// lower ratio shrinks the width and shifts the fill left by half the
    /// lost width, keeping the visible portion left-anchored.
    pub fn lifebar_geometry(current: i32, max: i32, bar_width: i32) -> (g: LifebarGeometry)
        requires
            max >= 1,
            current <= max,
            bar_width >= 0,
        ensures
            g == geometry_of(Health { current, max }, bar_width as int),
            g.width_num == fill_width_num(bar_width as int, current as int),
            g.offset_num == fill_offset_num(bar_width as int, current as int, max as int),
            g.denom == 2 * (max as int),
    {
        let bw = bar_width as i64;
        let cur = current as i64;
        let mx = max as i64;
        assert(-0x8000_0000_0000_0000 <= 2 * bw * cur < 0x8000_0000_0000_0000) by (nonlinear_arith)
            requires
                0 <= bw < 0x8000_0000,
                -0x8000_0000 <= cur < 0x8000_0000,
        ;
        assert(-0x8000_0000_0000_0000 < bw * (mx - cur) < 0x8000_0000_0000_0000)
            by (nonlinear_arith)
            requires
                0 <= bw < 0x8000_0000,
                -0x8000_0000 <= cur <= mx < 0x8000_0000,
        ;
        let width_num = 2 * bw * cur;
        let offset_num = -(bw * (mx - cur));
        let denom = 2 * mx;
        LifebarGeometry { width_num, offset_num, denom }
    }

    /// Recomputes the fill of every health bar whose owner's health
    /// changed this step, leaves every other bar untouched, and clears
    /// all changed markers. Health itself is only read here. An entity
    /// with changed health but no bar is a silent no-op.
    pub fn propagate_lifebars(&mut self, bar_width: i32)
        requires
            old(self).wf(),
            bar_width >= 0,
        ensures
            final(self).wf(),
            final(self).entities@ == propagate_spec(old(self).entities@, bar_width as int),
            final(self).player == old(self).player,
            final(self).entities@.len() == old(self).entities@.len(),
            forall|i: int|
                0 <= i < old(self).entities@.len() ==> (#[trigger] final(self).entities@[i]).health
                    == old(self).entities@[i].health && final(self).entities@[i].faction == old(
                    self,
                ).entities@[i].faction && !final(self).entities@[i].health_changed,
            forall|i: int|
                0 <= i < old(self).entities@.len() && (old(self).entities@[i].lifebar_owner
                    matches Some(o) ==> !(o < old(self).entities@.len() && old(
                    self,
                ).entities@[o as int].health_changed)) ==> (
                #[trigger] final(self).entities@[i]).lifebar_fill == old(
                    self,
                ).entities@[i].lifebar_fill,
    {
        let ghost s0 = self.entities@;
        let n = self.entities.len();
        let mut out: Vec<Record> = Vec::new();
        for i in 0..n
            invariant
                n == s0.len(),
                self.entities@ == s0,
                entities_wf(s0),
                bar_width >= 0,
                out@.len() == i,
                forall|j: int|
                    0 <= j < i ==> out@[j] == propagated_record(s0, j, bar_width as int),
        {
            let r = self.entities[i];
            let mut updated = r;
            updated.health_changed = false;
            match r.lifebar_owner {
                Some(o) => {
                    proof {
                        assert(record_wf(s0[i as int]));
                        assert(o < n);
                        assert(record_wf(s0[o as int]));
                    }
                    let owner = self.entities[o];
                    if owner.health_changed {
                        match owner.health {
                            Some(h) => {
                                let g = Self::lifebar_geometry(h.current, h.max, bar_width);
                                updated.lifebar_fill = Some(g);
                            },
                            None => {},
                        }
                    }
                },
                None => {},
            }
            out.push(updated);
            proof {
                assert(out@[i as int] == propagated_record(s0, i as int, bar_width as int));
            }
        }
        self.entities = out;
        proof {
            assert(self.entities@ =~= propagate_spec(s0, bar_width as int));
            assert forall|i: int| 0 <= i < self.entities@.len() implies #[trigger] record_wf(
                self.entities@[i],
            ) && (self.entities@[i].lifebar_owner matches Some(o)
                ==> o < self.entities@.len()) by {
                assert(record_wf(s0[i]));
                assert(self.entities@[i] == propagated_record(s0, i, bar_width as int));
            }
            assert forall|i: int|
                0 <= i < self.entities@.len() && #[trigger] self.entities@[i].faction == Some(
                    Faction::Player,
                ) implies self.player == Some(i as usize) by {
                assert(s0[i].faction == Some(Faction::Player));
            }
        }
    }

    /// One full combat pass of a step, in the fixed pipeline order:
    /// overlap-start pairs become attack events, the events are resolved
    /// against health exactly once, and only then is health-bar geometry
    /// propagated from the fully resolved values. Returns the defeat
    /// reports in processing order.
    pub fn combat_step(&mut self, pairs: &Vec<(usize, usize)>, bar_width: i32) -> (defeated: Vec<
        usize,
    >)
        requires
            old(self).wf(),
            bar_width >= 0,
        ensures
            final(self).wf(),
            final(self).player == old(self).player,
            final(self).entities@ == propagate_spec(
                apply_events(old(self).entities@, events_of(old(self).entities@, pairs@)),
                bar_width as int,
            ),
            defeated@ == defeats(old(self).entities@, events_of(old(self).entities@, pairs@)),
    {
        let events = self.translate_collisions(pairs);
        let defeated = self.resolve_attacks(&events);
        self.propagate_lifebars(bar_width);
        defeated
    }
}

} // verus!
