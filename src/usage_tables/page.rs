//! Usage pages of the HID Usage Tables.
use vstd::prelude::*;
use crate::usage::UsagePage;

verus! {

pub const GENERIC_DESKTOP: UsagePage = 0x0001;

pub const SIMULATION_CONTROLS: UsagePage = 0x0002;

pub const VR_CONTROLS: UsagePage = 0x0003;

pub const SPORTS_CONTROL: UsagePage = 0x0004;

pub const GAME_CONTROLS: UsagePage = 0x0005;

pub const GENERIC_DEVICE_CONTROLS: UsagePage = 0x0006;

pub const KEYBOARD_KEYPAD: UsagePage = 0x0007;

pub const LED: UsagePage = 0x0008;

pub const BUTTON: UsagePage = 0x0009;

pub const ORDINAL: UsagePage = 0x000A;

pub const TELEPHONY_DEVICE: UsagePage = 0x000B;

pub const CONSUMER: UsagePage = 0x000C;

pub const DIGITIZERS: UsagePage = 0x000D;

pub const HAPTICS: UsagePage = 0x000E;

pub const PHYSICAL_INPUT_DEVICE: UsagePage = 0x000F;

pub const UNICODE: UsagePage = 0x0010;

pub const SOC: UsagePage = 0x0011;

pub const EYE_AND_HEAD_TRACKERS: UsagePage = 0x0012;

pub const AUXILIARY_DISPLAY: UsagePage = 0x0014;

pub const SENSORS: UsagePage = 0x0020;

pub const MEDICAL_INSTRUMENT: UsagePage = 0x0040;

pub const BRAILLE_DISPLAY: UsagePage = 0x0041;

pub const LIGHTING_AND_ILLUMINATION: UsagePage = 0x0059;

pub const MONITOR: UsagePage = 0x0080;

pub const MONITOR_ENUMERATED: UsagePage = 0x0081;

pub const VESA_VIRTUAL_CONTROLS: UsagePage = 0x0082;

pub const POWER: UsagePage = 0x0084;

pub const BATTERY_SYSTEM: UsagePage = 0x0085;

pub const BARCODE_SCANNER: UsagePage = 0x008C;

pub const SCALES: UsagePage = 0x008D;

pub const MAGNETIC_STRIPE_READER: UsagePage = 0x008E;

pub const CAMERA_CONTROL: UsagePage = 0x0090;

pub const ARCADE: UsagePage = 0x0091;

pub const GAMING_DEVICE: UsagePage = 0x0092;

pub const FIDO_ALLIANCE: UsagePage = 0xF1D0;

} // verus!
