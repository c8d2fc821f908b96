//! A fixed-timestep game loop over a minimal drawing-surface capability.
//!
//! The crate decouples the simulation update rate from the rendering rate:
//! a `PixelLoop` advances an application in fixed time increments, clamps
//! runaway frame times, and renders once per tick with the leftover time as
//! an interpolation delta.  Drawing goes through the `DrawingSurface`
//! capability, whose composite operations (`clear_screen`, `filled_rect`)
//! are derived from a single batched range-write primitive.

mod color;
mod host;
mod surface;
mod tick;

pub use color::Color;
pub use host::{dispatch_host_event, HostAction, HostEvent};
pub use surface::{color_byte, lemma_set_get_roundtrip, pixel_index, BufferSurface, DrawingSurface};
pub use tick::{
    clamp_frame_nanos, clamped_nanos, drained, lemma_drained_update_count, lemma_timestep_bounds,
    lemma_timestep_round, timestep_nanos, update_count, updates_in_tick, Application, PixelLoop,
    TickCounter, MAX_FRAME_NANOS,
};
