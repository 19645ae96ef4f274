//! Player core of a terminal music player: track lists, queue navigation,
//! playback decisions and the pure parts of the streaming-service client.
use vstd::prelude::*;

pub mod catalog;
pub mod client;
pub mod convert;
pub mod cursive_ui;
pub mod display;
pub mod laws;
pub mod listing;
pub mod mpris;
pub mod ordering_facts;
pub mod ordered;
pub mod playback;
pub mod player_panel;
pub mod player_state;
pub mod queue;
pub mod screen_keys;
pub mod secrets;
pub mod screens;
pub mod service;
pub mod sorting;
pub mod state;
pub mod sync;
pub mod text;

verus! {

} // verus!
