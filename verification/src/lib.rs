//! Screenshot post-processing: cropping a captured frame, compositing a
//! timestamp banner or overlay, and re-encoding the result.

pub mod annotate;
pub mod autostart;
pub mod backend;
pub mod banner;
pub mod clock;
pub mod font;
pub mod frame;
pub mod layout;
pub mod session;
pub mod settings;
pub mod style;
