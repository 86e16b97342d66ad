//! The logic of a live terminal chart: a sliding window of samples, the
//! loop that displays it, and the terminal session around the loop.
//!
//! Nothing here touches a terminal, a clock or a random number generator.
//! The window takes the samples it is given; the loop and the session are
//! state machines that are told what happened and say what to do next.
//!
//! - `sample`: a sample is a number from `0.0` up to, not including, `10.0`,
//!   held by the bit pattern of its double-precision encoding.
//! - `window`: ten samples over the x-axis 0 to 9, and the points to plot.
//! - `display`: when to draw, how long to wait for a key, when to tick, and
//!   when to quit.
//! - `session`: the order of setting up and restoring the terminal, and
//!   which failure to report.

pub mod display;
pub mod sample;
pub mod session;
pub mod window;
