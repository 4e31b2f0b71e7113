//! Interactive viewport engine for rendering tabular numeric data as a point
//! cloud.
//!
//! The engine owns the affine projection from data space to normalized device
//! coordinates, the cyclic axis-to-column selection, the clamped visual
//! parameters, the dual-resolution (adaptive quality) render pipeline and the
//! event-to-mutation routing.  All engine arithmetic is carried out on exact
//! bounded rationals ([`frac::Frac`]) with a precisely specified rounding rule,
//! so every state change is pinned down by its contract.
//!
//! Window management, GPU submission, the clock and file ingestion live
//! outside the engine; they exchange plain values (integers, strings, engine
//! scalars) with it.

pub mod rat;
pub mod frac;
pub mod cfg;
pub mod selector;
pub mod viewstate;
pub mod projection;
pub mod column;
pub mod parse;
pub mod pipeline;
pub mod scheduler;
pub mod engine;
