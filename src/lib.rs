//! Core rules of a timed gift-delivery game played on a city map: movement
//! from held keys, delivery and refuelling at buildings, boost and energy
//! accounting, scheduled visual effects, and the cross-run score ledger.

pub mod cached;
pub mod controls;
pub mod level;
pub mod buildings;
pub mod animation;
pub mod game;
pub mod session;
pub mod selection;
