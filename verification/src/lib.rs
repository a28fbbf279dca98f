//! Control core of a voice-assistant front end: a message-driven state machine
//! over a listening mode, a context of attributes and a message log.

pub mod app;
pub mod attributes;
pub mod audio;
pub mod context;
pub mod driver;
pub mod log;
pub mod msg;
pub mod nodebug;
pub mod render;
pub mod update;
