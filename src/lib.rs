//! Playback engine of an audio library player, and the rules of its
//! catalogue.
//!
//! - `tap`: the pass-through observer that cuts the decoded sample stream
//!   into analysis windows.
//! - `spectrum`: reduction of an analysed window to the bars drawn.
//! - `progress`: the throttled playback-position feed.
//! - `session`: one session's outbound events, in order.
//! - `controller`: the command surface (load, pause, resume, seek, volume)
//!   as a state machine.
//! - `dlsite`: reading a work's metadata off its catalogue product page.
//! - `scan`: which directories are works, which files tracks and covers.
//! - `catalog`, `favorites`: the catalogue's rows and small rules.
//! - `text`: the std text operations the rules rely on.

pub mod catalog;
pub mod controller;
pub mod dlsite;
pub mod favorites;
pub mod progress;
pub mod scan;
pub mod session;
pub mod spectrum;
pub mod tap;
pub mod text;
