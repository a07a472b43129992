//! Driver core for a bichromatic e-paper display controller.
//!
//! The controller is reached over a byte-oriented command bus. This crate
//! holds the command codec, the configuration builder, the controller
//! lifecycle sequencing, the two-plane pixel buffer with its rotation-aware
//! address mapping, and the protocol for an optional external memory chip
//! that can hold the planes off the host. The concrete bus, pins and delay
//! primitives are consumed as capabilities declared in [`interface`]; a
//! platform supplies them from outside.

mod color;

pub mod command;

pub mod config;

pub mod display;

pub mod graphics;

pub mod interface;

pub use color::Color;
pub use command::BufCommand;
pub use command::Command;
pub use command::DataInterval;
pub use command::DataPolarity;
pub use command::DisplayResolution;
pub use config::Builder;
pub use config::BuilderError;
pub use config::Config;
pub use display::Dimensions;
pub use display::Display;
pub use display::LifecycleState;
pub use display::Rotation;
pub use graphics::rotation;
pub use graphics::GraphicDisplay;
pub use graphics::SramGraphicDisplay;
pub use interface::Delay;
pub use interface::DisplayInterface;
pub use interface::Interface;
pub use interface::NoDelay;
pub use interface::SpiBus;
pub use interface::SramDisplayInterface;
pub use interface::TrackedOutPin;
pub use interface::TrackedSpiDuplex;
pub use interface::TrackedSpiWrite;
pub use interface::SimInterface;
