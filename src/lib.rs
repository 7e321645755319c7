//! A personal audio-library player core: the track index, the play queue and
//! history, the player-process supervisor and the command dispatch that ties
//! them together.

pub mod text;
pub mod track;
pub mod query;
pub mod player;
pub mod songs;
pub mod mpv;
pub mod app;
pub mod input;
