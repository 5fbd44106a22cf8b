//! Relays tagged timeline posts to a note-taking service: resolves the content
//! behind reblogs and status links, normalizes markup, assembles the note and
//! decides, post by post, what the relay loop does next.

pub mod text;
pub mod normalize;
pub mod model;
pub mod resolve;
pub mod assemble;
pub mod dispatch;
