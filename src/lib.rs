//! A small application harness: a stack of application states driven one tick
//! at a time, a bracket around the immediate-mode UI frame of each tick, a fixed
//! render pipeline, and a frame-rate limiter.

pub mod transition;
pub mod event;
pub mod ui;
pub mod pipeline;
pub mod limiter;
pub mod application;
pub mod editor;
pub mod laws;
