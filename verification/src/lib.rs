//! Game rules of a one-button flapping-bird game: the state machine of the
//! game and its menus, scoring, the audio toggle and volume menu, and the
//! scheduling of the two-tone scoring chime.
pub mod audio;
pub mod menu;
pub mod player;
pub mod synth;
pub mod text;
pub mod world;
