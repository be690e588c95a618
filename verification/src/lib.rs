//! Process-scoped drag-and-drop identity for a desktop-shell compositor
//! client: process-unique MIME tags for drag negotiation, a zero-byte drag
//! payload codec keyed on those tags, and a packed 64-bit key for drop
//! targets.

pub mod digits;
pub mod dnd;
pub mod mime;
