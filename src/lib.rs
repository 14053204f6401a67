//! Backend logic of a desktop streaming client: the `streamking:` deep-link
//! parser, the playback command surface, and the request/reply logic of the
//! Real-Debrid client.

pub mod text;
pub mod uri;
pub mod protocol;
pub mod player;
pub mod reply;
pub mod debrid;
