//! Console logging policy: severity levels, record filtering and rendering.

pub mod level;
pub mod text;
pub mod render;
pub mod setup;

pub use level::{LoggingLevel, Severity};
pub use render::{Channel, Logger, Record};
pub use setup::{enable_ascii_colors, init, try_init};
