//! Driver for the SSD1677 e-paper display controller.
//!
//! The driver is layered, lowest first:
//!
//! * [`interface`]: the transport boundary ([`interface::DisplayInterface`])
//!   and the wiring rules of a 4-wire serial connection,
//! * [`command`]: one method per controller register write,
//! * [`basic_display`]: reset, initialization and refresh sequences,
//! * [`display`]: a packed one-bit-per-pixel framebuffer with rotation.
//!
//! Every sequence of register writes is specified as a ghost sequence of
//! [`interface::Request`]s, and every executable function is proved to hand
//! exactly those requests to the transport, once each and in order, and to
//! stop at the first one that fails.
pub mod basic_display;
pub mod command;
pub mod config;
pub mod display;
pub mod error;
pub mod interface;

pub use basic_display::{Dimensions, Rotation};
pub use config::{Builder as ConfigBuilder, Config};
pub use display::Display;
