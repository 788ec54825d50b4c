//! Audio-to-PWM pipeline of a parametric ultrasonic speaker driver.
//!
//! A USB audio sink fills a bounded sample ring; once per carrier period a
//! sample pump takes one sample from it, rescales it to a duty value for two
//! bridge channels and gates the output off after prolonged silence.

pub mod duty;
pub mod queue;
pub mod ring;
pub mod gate;
pub mod pwm;
pub mod pump;
pub mod sink;
