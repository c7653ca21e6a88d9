pub mod input;
pub mod mouse;
pub mod error;
pub mod keyboard;
pub mod frame;
