//! Backlight control for a laptop keyboard with a four-zone LED controller.
//!
//! The library holds the decisions of the backlight daemon and proves them:
//! the packets that program the LED controller, the detector that recognises
//! the two-step hotkey in the stream of input events, the choice of the
//! control device among the raw-HID nodes, the rules for the persisted on/off
//! flag, and the daemon's loop as a function from state and event to next
//! state and action. It performs no input or output itself: whoever drives it
//! carries out each action and hands back what happened.

pub mod daemon;
pub mod error;
pub mod hotkey;
pub mod led;
pub mod led_config;
pub mod locator;

pub use error::Error;
pub use led::{turn_backlight_off, turn_backlight_on};
pub use locator::find_hidraw_device_name;
