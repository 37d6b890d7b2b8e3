//! Rendering of a guild member's profile: who the command is about, what the
//! member is doing right now, which roles they hold, and the reply text that
//! puts all of it together. Two smaller renderers stand beside it: the
//! latency figures, and the card of a television series with the search
//! answer that leads to it.

pub mod guild;
pub mod latency;
pub mod presence;
pub mod reply;
pub mod roles;
pub mod search;
pub mod show;
pub mod text;
