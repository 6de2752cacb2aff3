//! Environmental monitor core: severity classification of gas-concentration
//! readings, display-frame construction, and the supervisory control loop
//! that keeps a hardware watchdog fed while polling a sensor and driving a
//! small framebuffer display.

pub mod color;
pub mod controller;
pub mod frame;
pub mod heap;
pub mod reading;
pub mod render;
pub mod severity;
pub mod textfmt;

pub use color::Color;
pub use frame::DisplayFrame;
pub use reading::Reading;
pub use severity::SeverityLevel;
