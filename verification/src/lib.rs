//! Verified core of the AEFR scenario editor: console command parsing,
//! scenario and scene bookkeeping, the typewriter state machine, character
//! slot bookkeeping, animation lookup and the worker-pool sizing rule.

pub mod animation;
pub mod command;
pub mod command_laws;
pub mod editor;
pub mod editor_laws;
pub mod laws;
pub mod scenario;
pub mod scheduler;
pub mod text;
pub mod text_laws;
