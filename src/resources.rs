//! Resource and menu-command identifiers.
use vstd::prelude::*;

verus! {

/// Application icon.
pub const IDI_APP_ICON: u16 = 100;

/// First frame of the light icon family.
pub const IDI_LIGHTCAT_0: u16 = 101;

/// First frame of the dark icon family.
pub const IDI_DARKCAT_0: u16 = 106;

/// Number of frames in the animation cycle.
pub const FRAME_COUNT: usize = 5;

/// Menu command: exit.
pub const IDM_EXIT: u32 = 1001;

/// Menu command: toggle start with system.
pub const IDM_START_SYSTEM: u32 = 1002;

/// Menu command: show or hide the clock overlay.
pub const IDM_SHOW_TIME: u32 = 1003;

/// Menu command: skin follows the system theme.
pub const IDM_SKIN_AUTO: u32 = 1005;

/// Menu command: dark skin.
pub const IDM_SKIN_DARK: u32 = 1006;

/// Menu command: light skin.
pub const IDM_SKIN_LIGHT: u32 = 1007;

} // verus!
