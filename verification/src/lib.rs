//! Analog stick emulation from keyboard or analog key input, in fixed-point
//! arithmetic: direction tracking, diagonal shaping, axis encoding and the
//! session that drives a virtual controller.

pub mod axis;
pub mod config;
pub mod controller;
pub mod model;
pub mod protocol;
pub mod roots;
pub mod service;
pub mod shaping;
