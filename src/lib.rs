//! Interactive board controller for a two-player chess board view.
//!
//! The controller turns pointer events into selection, highlight, promotion
//! and clock state, and tells its host which moves to hand to the rules
//! engine. The rules engine itself stays with the host: the controller sees
//! the engine's position only as the plain values of a [`position::EngineView`].
pub mod square;
pub mod viewport;
pub mod clock;
pub mod promotion;
pub mod position;
pub mod selection;
pub mod controller;
