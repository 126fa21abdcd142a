//! Control core of a touchscreen signing device: the seed-phrase dictionary
//! codec, the touch input pipeline, the display refresh sequencer and the
//! cooperative controller that ties them together.

pub mod checksum;
pub mod console;
pub mod display;
pub mod english;
pub mod platform;
pub mod text;
pub mod touch;
pub mod ui;
pub mod update;
pub mod wordlist;
