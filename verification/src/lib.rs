//! A verified core for an embedded media-player surface.
//!
//! Each open media source is one [`player::VideoPlayer`]: a small lifecycle
//! state machine wrapping one window, at most one engine pipeline and at most
//! one overlay binding. Players live in a [`registry::VideoPlayerCollection`]
//! keyed by an identifier derived from the source URL. Transitions are driven
//! by named events; their side effects on the windowing toolkit and on the
//! media engine are returned as [`events::Action`] values for the embedding
//! shell to perform, and messages for the front end come back as
//! [`events::OutwardEvent`] values.

pub mod events;
pub mod ident;
pub mod player;
pub mod registry;
