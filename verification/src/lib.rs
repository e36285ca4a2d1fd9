//! Firmware core of a split mechanical keyboard: key codes and layouts, the
//! matrix scanner's edge detection, the bounded key-event channel, the report
//! transmitter, the USB lifecycle state machine and the bridge between the
//! two halves.

pub mod channel;
pub mod event;
pub mod keycodes;
pub mod layout;
pub mod link;
pub mod matrix;
pub mod report;
pub mod supervisor;
pub mod usb;
pub mod wakeup;

pub use keycodes::KeyCode;
pub use layout::{get_left_layout, get_right_layout, Layout};
pub use matrix::Matrix;
pub use usb::UsbKeyboard;
