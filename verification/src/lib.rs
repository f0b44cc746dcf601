//! Curves of two sinusoidal signals, I and Q, and of their sum.
//!
//! The library owns everything about the display that is not arithmetic on
//! real numbers: the record of the two signals' parameters and the controls
//! that edit it, the fixed sampling grid and the loop that walks it, the
//! pointwise sum of the two signals on that one grid, and the name, colour
//! and stroke of each curve.
//!
//! It is generic in the number type `R`. The arithmetic comes in from the
//! caller as four functions: the abscissa of a grid index, the two waveforms
//! (each taking amplitude, frequency, abscissa and phase, in that order) and
//! the sum of two values. Contracts speak of those functions' own
//! postconditions, so whatever the caller proves of its arithmetic carries
//! over to the sampled curves.

pub mod model;
pub mod controls;
pub mod grid;
pub mod curve;
pub mod frame;
