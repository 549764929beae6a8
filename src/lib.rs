//! Verified core of a turn-based grid combat game: the board rules, the
//! authoritative game state machine, the command pipeline, the turn timer's
//! decisions, the watcher's step classification and the bot worker's command
//! selection.

pub mod types;
pub mod rules;
pub mod text;
pub mod authority;
pub mod maps;
pub mod pipeline;
pub mod watcher;
pub mod timer;
pub mod ingress;
pub mod bot;
pub mod manager;
pub mod topics;
pub mod laws;
pub mod template;
pub mod profiles;
pub mod records;
pub mod bindings;
