//! Core of an image viewer: the input/mode state machine that turns raw
//! input events into semantic actions, and the texture cache with its
//! chunked pixel-upload plan.

pub mod event;
pub mod screen;
pub mod ui;
