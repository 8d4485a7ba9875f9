//! A dual n-back trial engine.
//!
//! The engine generates the stimulus sequence of a session, advances it one
//! trial per clock tick, classifies the player's responses against the
//! stimulus shown `level` trials earlier, aggregates a score and adapts the
//! difficulty level. Rendering, audio playback, input capture and storage are
//! left to the host program.

pub mod clock;
pub mod generator;
pub mod history;
pub mod level;
pub mod menu;
pub mod random;
pub mod score;
pub mod session;
pub mod settings;
pub mod stimulus;
