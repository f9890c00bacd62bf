//! Theme resolution: persisted skin settings and the OS theme signal decide
//! which icon family is active.
use vstd::prelude::*;

use crate::resources::{FRAME_COUNT, IDI_DARKCAT_0, IDI_LIGHTCAT_0};

verus! {

/// The user's skin choice.  Persisted; the default is `FollowSystem`.
#[derive(Clone, Copy, Debug, PartialEq, Eq, Structural)]
pub enum SkinMode {
    FollowSystem,
    ForceDark,
    ForceLight,
}

/// The theme in effect; derived, never stored.
#[derive(Clone, Copy, Debug, PartialEq, Eq, Structural)]
pub enum Theme {
    Light,
    Dark,
}

/// What theme resolution reads at the moment it runs: the persisted skin
/// mode, the OS "prefers dark" signal and the persisted force-dark flag.
#[derive(Clone, Copy, Debug, PartialEq, Eq, Structural)]
pub struct ThemeSignal {
    pub skin: SkinMode,
    pub os_is_dark: bool,
    pub forced_dark: bool,
}

pub open spec fn effective_dark(follow_system: bool, os_is_dark: bool, force_dark: bool) -> bool {
    if follow_system {
        os_is_dark
    } else {
        force_dark
    }
}

pub open spec fn resolve_spec(skin: SkinMode, os_is_dark: bool, forced_dark: bool) -> Theme {
    if effective_dark(skin == SkinMode::FollowSystem, os_is_dark, forced_dark) {
        Theme::Dark
    } else {
        Theme::Light
    }
}

pub open spec fn signal_theme(sig: ThemeSignal) -> Theme {
    resolve_spec(sig.skin, sig.os_is_dark, sig.forced_dark)
}

pub open spec fn theme_base(theme: Theme) -> u16 {
    match theme {
        Theme::Light => IDI_LIGHTCAT_0,
        Theme::Dark => IDI_DARKCAT_0,
    }
}

/// Icon resource of `frame` in the family of `theme`.
pub open spec fn icon_id_spec(theme: Theme, frame: nat) -> nat {
    theme_base(theme) as nat + frame
}

pub open spec fn skin_mode_spec(follow_system: bool, force_dark: bool) -> SkinMode {
    if follow_system {
        SkinMode::FollowSystem
    } else if force_dark {
        SkinMode::ForceDark
    } else {
        SkinMode::ForceLight
    }
}

/// Whether the dark family is in effect: the OS signal when following the
/// system, the force-dark flag otherwise.
pub fn is_effective_dark_mode(follow_system: bool, os_is_dark: bool, force_dark: bool) -> (r: bool)
    ensures
        r == effective_dark(follow_system, os_is_dark, force_dark),
{
    if follow_system {
        os_is_dark
    } else {
        force_dark
    }
}

/// Theme in effect: when following the system, dark iff the OS prefers dark;
/// otherwise dark iff dark is forced.
pub fn resolve(skin: SkinMode, os_is_dark: bool, forced_dark: bool) -> (t: Theme)
    ensures
        t == resolve_spec(skin, os_is_dark, forced_dark),
        skin == SkinMode::FollowSystem ==> (t == Theme::Dark <==> os_is_dark),
        skin != SkinMode::FollowSystem ==> (t == Theme::Dark <==> forced_dark),
{
    let follow = match skin {
        SkinMode::FollowSystem => true,
        _ => false,
    };
    if is_effective_dark_mode(follow, os_is_dark, forced_dark) {
        Theme::Dark
    } else {
        Theme::Light
    }
}

impl ThemeSignal {
    /// Theme in effect for this reading.
    pub fn theme(&self) -> (t: Theme)
        ensures
            t == signal_theme(*self),
    {
        resolve(self.skin, self.os_is_dark, self.forced_dark)
    }
}

/// Skin mode from the two persisted flags.
pub fn skin_mode_of(follow_system: bool, force_dark: bool) -> (m: SkinMode)
    ensures
        m == skin_mode_spec(follow_system, force_dark),
{
    if follow_system {
        SkinMode::FollowSystem
    } else if force_dark {
        SkinMode::ForceDark
    } else {
        SkinMode::ForceLight
    }
}

/// Icon resource for `frame` in the family of `theme`.
pub fn icon_id(theme: Theme, frame: usize) -> (id: u16)
    requires
        frame < FRAME_COUNT,
    ensures
        id == icon_id_spec(theme, frame as nat),
{
    match theme {
        Theme::Light => IDI_LIGHTCAT_0 + frame as u16,
        Theme::Dark => IDI_DARKCAT_0 + frame as u16,
    }
}

/// Persisted "follow system theme" value: `1` means yes; a missing value
/// means the default, yes.
pub fn is_skin_follow_system(stored: Option<u32>) -> (r: bool)
    ensures
        r == match stored {
            Some(v) => v == 1,
            None => true,
        },
{
    match stored {
        Some(v) => v == 1,
        None => true,
    }
}

/// Persisted "force dark" value: `1` means yes; a missing value means the
/// default, no.
pub fn is_app_force_dark(stored: Option<u32>) -> (r: bool)
    ensures
        r == match stored {
            Some(v) => v == 1,
            None => false,
        },
{
    match stored {
        Some(v) => v == 1,
        None => false,
    }
}

/// The OS prefers dark when its "apps use light theme" value is `0`; a
/// missing value means light.
pub fn is_time_window_in_dark_mode(apps_use_light_theme: Option<u32>) -> (r: bool)
    ensures
        r == match apps_use_light_theme {
            Some(v) => v == 0,
            None => false,
        },
{
    match apps_use_light_theme {
        Some(v) => v == 0,
        None => false,
    }
}

/// Value stored for a boolean setting: `1` for yes, `0` for no.
pub fn flag_value(enable: bool) -> (v: u32)
    ensures
        v == (if enable { 1u32 } else { 0u32 }),
{
    if enable {
        1
    } else {
        0
    }
}

/// Theme resolution depends on its three inputs alone; when following the
/// system, an OS that prefers dark gives the dark theme whatever the
/// force-dark flag says.
pub proof fn lemma_follow_system_dark(forced_dark: bool)
    ensures
        resolve_spec(SkinMode::FollowSystem, true, forced_dark) == Theme::Dark,
        resolve_spec(SkinMode::FollowSystem, true, forced_dark) == resolve_spec(
            SkinMode::FollowSystem,
            true,
            !forced_dark,
        ),
{
}

} // verus!
