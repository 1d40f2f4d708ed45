//! Geometry engine for an analog clock face.
//!
//! The library maps a time sample and the current window dimensions to the
//! sequence of shape commands that draw one frame: the elliptical dial, its
//! boundary arcs, hour labels, minute ticks, the three hands, the center pin
//! and a pair of pointer-tracking eyes. All geometry is computed in exact
//! fixed-point arithmetic: lengths and coordinates in hundredths of a pixel,
//! angles in units of pi/360 radians, colors in per-mille channels. An
//! unverified front end interprets the commands on a real drawing surface.

pub mod angle;
pub mod eyes;
pub mod layout;
pub mod scene;
pub mod timing;
