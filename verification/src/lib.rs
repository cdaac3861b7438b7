//! A small step-based entity simulation core: a player and enemy actors
//! that collide, exchange attacks, and display health.
//!
//! The library owns the event-driven combat pipeline of one simulation
//! step: collision pairs are classified by faction into directed attack
//! events, the events are drained exactly once against entity health, and
//! dependent health-bar geometry is recomputed only for entities whose
//! health changed. The surrounding engine (input polling, floating-point
//! steering, physics overlap detection, rendering) stays outside and talks
//! to the core through plain values.

pub mod store;
pub mod translate;
pub mod combat;
pub mod lifebar;
pub mod movement;
