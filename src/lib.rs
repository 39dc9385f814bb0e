//! Capture sessions over several displays and clamped region extraction.
pub mod encode;
pub mod frame;
pub mod monitor;
pub mod pointer;
pub mod region;
pub mod session;
pub mod support;
pub mod text;
