//! Core of a CPU-load tray monitor: the sampler's tick, the animation clock,
//! theme resolution, the presentation state and the event loop's state machine.
//! Platform work (windows, registry, CPU counters, channels, sleeping) is done
//! by the caller, which hands plain values in and performs the returned actions.

pub mod resources;
pub mod clock;
pub mod theme;
pub mod text;
pub mod sampler;
pub mod presentation;
pub mod startup;
pub mod event_loop;
