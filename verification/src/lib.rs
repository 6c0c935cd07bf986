//! Track publications of a media room.
//!
//! A publication is what a participant has announced to the server: what the server says of it
//! ([`proto`], [`info`]) and, while there is one, its track. Handles on publications and tracks
//! ([`handle`]) share what they are on; a [`registry`] owns it and releases it with the last
//! holder. [`publication`] is what can be done with a publication.
//!
//! [`state`] says what every call does to the shared state, and [`laws`] what follows from it. Most
//! of all: a publication hears from its track of a mute, yet the track does not keep it alive.

pub mod handle;
pub mod id;
pub mod info;
pub mod laws;
pub mod media;
mod preservation;
pub mod proto;
pub mod publication;
pub mod registry;
pub mod state;
