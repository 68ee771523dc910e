//! Usage pages and usage IDs from the HID Usage Tables.
pub mod button;
pub mod generic_desktop;
pub mod keyboard_keypad;
pub mod led;
pub mod page;
