//! Movement and camera control for a third-person character.
//!
//! Two controllers advance once per simulation tick:
//! - [`camera_controller::CameraController`], an orbit camera that follows a
//!   target with a smoothed focus point, a clamped zoom and a pan offset that
//!   depends on the zoom level;
//! - [`player_controller::PlayerController`], a kinematic locomotion model that
//!   turns held keys into a discrete state, integrates gravity and composes the
//!   translation handed to the physics engine;
//! - [`animation`], which picks the character's animation clip from the keys.
//!
//! All quantities are fixed-point integers, so that every step is exact and
//! reproducible:
//! - lengths in micrometres (µm);
//! - speeds in micrometres per second (µm/s);
//! - tick durations in milliseconds;
//! - angles in micro-turns (one full turn is 1_000_000);
//! - fractions in parts per million (1.0 is 1_000_000).
//!
//! Trigonometry, vector normalisation and the engine itself live with the
//! caller, which converts at the boundary.
use vstd::prelude::*;

pub mod animation;
pub mod camera_controller;
pub mod player_controller;
