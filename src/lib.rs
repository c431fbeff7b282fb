//! A player character for a 2D action game: its runtime record, the tuning
//! copied from its character description, the spawn pipeline that builds the
//! composite entity, and the per-frame camera-box tracker.
//!
//! All lengths, offsets and times are fixed-point integers counting
//! thousandths of a world unit (or of a second).
pub mod camera;
pub mod character;
pub mod components;
pub mod ecs;
pub mod geometry;
pub mod player;
pub mod spawn;
