//! The decision logic of a music player with a live waveform display:
//! choosing analysis windows and frames, keeping the recent samples on
//! screen, stepping through playback speeds, the colour themes, reading the
//! command line, and the player's reaction to each button and dropped file.
pub mod args;
pub mod history;
pub mod muzik;
pub mod speed;
pub mod theme;
pub mod window;
