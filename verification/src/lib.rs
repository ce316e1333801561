//! Verified logic behind two facades over an embedded operating system's
//! runtime services: the seeding and word handling of its pseudo-random
//! number generator, and the conversion of durations into timer ticks.

pub mod random;
pub mod ztimer;
