//! Per-frame reconciliation of directional key input with a character's
//! locomotion animation and facing direction.
//!
//! The input stage folds the frame's key edge events into a movement intent;
//! the animation stage resolves that intent against a registry of loaded
//! clips, issues a looping play command to the playback sink, and updates the
//! actor's facing. The engine around it (windowing, asset loading, entity
//! spawning) is an external collaborator and lives outside this crate.

pub mod input;
pub mod playback;
pub mod registry;
pub mod scene;
