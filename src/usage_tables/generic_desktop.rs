//! Usage IDs of the Generic Desktop page.
use vstd::prelude::*;
use crate::usage::{UsageId, UsagePage};
use super::page;

verus! {

pub const PAGE: UsagePage = page::GENERIC_DESKTOP;

pub const POINTER: UsageId = 0x0001;

pub const MOUSE: UsageId = 0x0002;

pub const JOYSTICK: UsageId = 0x0004;

pub const GAMEPAD: UsageId = 0x0005;

pub const KEYBOARD: UsageId = 0x0006;

pub const KEYPAD: UsageId = 0x0007;

pub const MULTI_AXIS_CONTROLLER: UsageId = 0x0008;

pub const TABLET_PC_SYSTEM_CONTROLS: UsageId = 0x0009;

pub const WATER_COOLING_DEVICE: UsageId = 0x000A;

pub const COMPUTER_CHASSIS_DEVICE: UsageId = 0x000B;

pub const WIRELESS_RADIO_CONTROLS: UsageId = 0x000C;

pub const PORTABLE_DEVICE_CONTROL: UsageId = 0x000D;

pub const SYSTEM_MULTI_AXIS_CONTROLLER: UsageId = 0x000E;

pub const SPATIAL_CONTROLLER: UsageId = 0x000F;

pub const ASSISTIVE_CONTROL: UsageId = 0x0010;

pub const DEVICE_DOCK: UsageId = 0x0011;

pub const DOCKABLE_DEVICE: UsageId = 0x0012;

pub const CALL_STATE_MANAGEMENT_CONTROL: UsageId = 0x0013;

pub const X: UsageId = 0x0030;

pub const Y: UsageId = 0x0031;

pub const Z: UsageId = 0x0032;

pub const RX: UsageId = 0x0033;

pub const RY: UsageId = 0x0034;

pub const RZ: UsageId = 0x0035;

pub const SLIDER: UsageId = 0x0036;

pub const DIAL: UsageId = 0x0037;

pub const WHEEL: UsageId = 0x0038;

pub const HAT_SWITCH: UsageId = 0x0039;

pub const COUNTED_BUFFER: UsageId = 0x003A;

pub const BYTE_COUNT: UsageId = 0x003B;

pub const MOTION_WAKEUP: UsageId = 0x003C;

pub const START: UsageId = 0x003D;

pub const SELECT: UsageId = 0x003E;

pub const VX: UsageId = 0x0040;

pub const VY: UsageId = 0x0041;

pub const VZ: UsageId = 0x0042;

pub const VBRX: UsageId = 0x0043;

pub const VBRY: UsageId = 0x0044;

pub const VBRZ: UsageId = 0x0045;

pub const VNO: UsageId = 0x0046;

pub const FEATURE_NOTIFICATION: UsageId = 0x0047;

pub const RESOLUTION_MULTIPLIER: UsageId = 0x0048;

pub const QX: UsageId = 0x0049;

pub const QY: UsageId = 0x004A;

pub const QZ: UsageId = 0x004B;

pub const QW: UsageId = 0x004C;

pub const SYSTEM_CONTROL: UsageId = 0x0080;

pub const SYSTEM_POWER_DOWN: UsageId = 0x0081;

pub const SYSTEM_SLEEP: UsageId = 0x0082;

pub const SYSTEM_WAKE_UP: UsageId = 0x0083;

pub const SYSTEM_CONTEXT_MENU: UsageId = 0x0084;

pub const SYSTEM_MAIN_MENU: UsageId = 0x0085;

pub const SYSTEM_APP_MENU: UsageId = 0x0086;

pub const SYSTEM_MENU_HELP: UsageId = 0x0087;

pub const SYSTEM_MENU_EXIT: UsageId = 0x0088;

pub const SYSTEM_MENU_SELECT: UsageId = 0x0089;

pub const SYSTEM_MENU_RIGHT: UsageId = 0x008A;

pub const SYSTEM_MENU_LEFT: UsageId = 0x008B;

pub const SYSTEM_MENU_UP: UsageId = 0x008C;

pub const SYSTEM_MENU_DOWN: UsageId = 0x008D;

pub const SYSTEM_COLD_RESTART: UsageId = 0x008E;

pub const SYSTEM_WARM_RESTART: UsageId = 0x008F;

pub const D_PAD_UP: UsageId = 0x0090;

pub const D_PAD_DOWN: UsageId = 0x0091;

pub const D_PAD_RIGHT: UsageId = 0x0092;

pub const D_PAD_LEFT: UsageId = 0x0093;

pub const INDEX_TRIGGER: UsageId = 0x0094;

pub const PALM_TRIGGER: UsageId = 0x0095;

pub const THUMBSTICK: UsageId = 0x0096;

pub const SYSTEM_FUNCTION_SHIFT: UsageId = 0x0097;

pub const SYSTEM_FUNCTION_SHIFT_LOCK: UsageId = 0x0098;

pub const SYSTEM_FUNCTION_SHIFT_LOCK_INDICATOR: UsageId = 0x0099;

pub const SYSTEM_DISMISS_NOTIFICATION: UsageId = 0x009A;

pub const SYSTEM_DO_NOT_DISTURB: UsageId = 0x009B;

pub const SYSTEM_DOCK: UsageId = 0x00A0;

pub const SYSTEM_UNDOCK: UsageId = 0x00A1;

pub const SYSTEM_SETUP: UsageId = 0x00A2;

pub const SYSTEM_BREAK: UsageId = 0x00A3;

pub const SYSTEM_DEBUGGER_BREAK: UsageId = 0x00A4;

pub const APPLICATION_BREAK: UsageId = 0x00A5;

pub const APPLICATION_DEBUGGER_BREAK: UsageId = 0x00A6;

pub const SYSTEM_SPEAKER_MUTE: UsageId = 0x00A7;

pub const SYSTEM_HIBERNATE: UsageId = 0x00A8;

pub const SYSTEM_MICROPHONE_MUTE: UsageId = 0x00A9;

pub const SYSTEM_DISPLAY_INVERT: UsageId = 0x00B0;

pub const SYSTEM_DISPLAY_INTERNAL: UsageId = 0x00B1;

pub const SYSTEM_DISPLAY_EXTERNAL: UsageId = 0x00B2;

pub const SYSTEM_DISPLAY_BOTH: UsageId = 0x00B3;

pub const SYSTEM_DISPLAY_DUAL: UsageId = 0x00B4;

pub const SYSTEM_DISPLAY_TOGGLE_INT_EXT_MODE: UsageId = 0x00B5;

pub const SYSTEM_DISPLAY_SWAP_PRIMARY_SECONDARY: UsageId = 0x00B6;

pub const SYSTEM_DISPLAY_TOGGLE_LCD_AUTOSCALE: UsageId = 0x00B7;

pub const SENSOR_ZONE: UsageId = 0x00C0;

pub const RPM: UsageId = 0x00C1;

pub const COOLANT_LEVEL: UsageId = 0x00C2;

pub const COOLANT_CRITICAL_LEVEL: UsageId = 0x00C3;

pub const COOLANT_PUMP: UsageId = 0x00C4;

pub const CHASSIS_ENCLOSURE: UsageId = 0x00C5;

pub const WIRELESS_RADIO_BUTTON: UsageId = 0x00C6;

pub const WIRELESS_RATIO_LED: UsageId = 0x00C7;

pub const WIRELESS_RADIO_SLIDER_SWITCH: UsageId = 0x00C8;

pub const SYSTEM_DISPLAY_ROTATION_LOCK_BUTTON: UsageId = 0x00C9;

pub const SYSTEM_DISPLAY_ROTATION_LOCK_SLIDER_SWITCH: UsageId = 0x00CA;

pub const CONTROL_ENABLE: UsageId = 0x00CB;

pub const DOCKABLE_DEVICE_UNIQUE_ID: UsageId = 0x00D0;

pub const DOCKABLE_DEVICE_VENDOR_ID: UsageId = 0x00D1;

pub const DOCKABLE_DEVICE_PRIMARY_USAGE_PAGE: UsageId = 0x00D2;

pub const DOCKABLE_DEVICE_PRIMARY_USAGE_ID: UsageId = 0x00D3;

pub const DOCKABLE_DEVICE_DOCKING_STATE: UsageId = 0x00D4;

pub const DOCKABLE_DEVICE_DISPLAY_OCCLUSION: UsageId = 0x00D5;

pub const DOCKABE_DEVICE_OBJECT_TYPE: UsageId = 0x00D6;

pub const CALL_ACTIVE_LED: UsageId = 0x00E0;

pub const CALL_MUTE_TOGGLE: UsageId = 0x00E1;

pub const CALL_MUTE_LED: UsageId = 0x00E2;

} // verus!
