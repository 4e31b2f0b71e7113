//! Tunable engine constants.
//!
//! Rational constants are given as numerator/denominator pairs of engine
//! scalars ([`crate::frac::Frac`]).

use vstd::prelude::*;

verus! {

/// Frame budget: the main loop is paced to at most one frame per this many
/// milliseconds.
pub const FRAME_MILLIS: u64 = 50;

/// Debounce delay before the full-resolution target is re-rendered.
pub const LOWRES_MILLIS: u64 = 500;

/// The low-resolution target's linear dimensions are the viewport's divided
/// by this (a factor of 0.2), as is the point size used when drawing into it.
pub const LOWRES_DIVISOR: u32 = 5;

/// Multiplicative step of the gamma keys: 11/10.
pub const GAMMA_CHANGE_NUM: i64 = 11;

pub const GAMMA_CHANGE_DEN: i64 = 10;

pub const GAMMA_DEFAULT: i64 = 10;

pub const GAMMA_MIN: i64 = 1;

pub const GAMMA_MAX: i64 = 100;

/// Multiplicative step of the point-size keys: 11/10.
pub const POINTSIZE_CHANGE_NUM: i64 = 11;

pub const POINTSIZE_CHANGE_DEN: i64 = 10;

pub const POINTSIZE_DEFAULT: i64 = 10;

pub const POINTSIZE_MIN: i64 = 2;

pub const POINTSIZE_MAX: i64 = 100;

/// Lower floor of the zoom scale: 1 / 100000000.
pub const SCALE_MIN_NUM: i64 = 1;

pub const SCALE_MIN_DEN: i64 = 100000000;

/// Base of the exponential zoom step: 11/10 per scroll unit.
pub const SCROLL_BASE_NUM: i64 = 11;

pub const SCROLL_BASE_DEN: i64 = 10;

pub const SHOWBORDER_DEFAULT: bool = true;

} // verus!
