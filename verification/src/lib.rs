//! Decision logic of a tool that makes the privacy screens of remote-desktop
//! clients semi-transparent: the choices that the core process makes for each
//! window, and those that the Windows service makes while it keeps the core
//! alive.

pub mod process_state;
pub mod text;
pub mod win32;
pub mod opacity;
pub mod window;
pub mod supervisor;
pub mod service;
pub mod logging;
