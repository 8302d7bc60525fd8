//! Verified core of an input-event remapping library.
//!
//! The library tracks per-key state for streams of hardware input events,
//! suppresses redundant events (duplicate key-downs, repeats of released
//! keys, empty synchronization markers), synthesizes release sequences when
//! a device disappears, and implements a modifier snapshot/restore protocol
//! for injecting key presses with an exact modifier combination.
//!
//! All decision logic lives here and is verified; reading devices and
//! writing to a virtual output device are left to the embedding program,
//! which performs the writes that these functions plan.

pub mod config;
pub mod devices;
pub mod devmatch;
pub mod ec;
pub mod event;
pub mod hotplug;
pub mod input_state;
pub mod laws;
pub mod lifecycle;
pub mod output;
pub mod strutil;
pub mod tracker;
pub mod window;
