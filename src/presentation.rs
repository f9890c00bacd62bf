//! Presentation state: the tray icon's identity and tooltip, and the clock
//! overlay's lifecycle (created once, then only shown and hidden).
use vstd::prelude::*;

use crate::clock::MAX_UTILIZATION;
use crate::resources::IDI_LIGHTCAT_0;
use crate::sampler::SamplerEvent;
use crate::text::{cpu_tooltip, tip_buffer, tooltip_buffer, tooltip_text, wide_null};
use crate::theme::{icon_id, icon_id_spec, signal_theme, ThemeSignal};
use vstd::string::StringExecFns;

verus! {

/// What the platform has to do to the overlay window.
#[derive(Clone, Copy, Debug, PartialEq, Eq, Structural)]
pub enum OverlayAction {
    /// Create the window (once) and show it; report the outcome back.
    Create,
    /// Show the window that already exists.
    Show,
    /// Hide the window; it stays allocated.
    Hide,
}

/// Tray icon and overlay state, written by the event loop alone.
#[derive(Clone, Copy, Debug, PartialEq, Eq, Structural)]
pub struct Presentation {
    /// Icon resource currently shown in the tray.
    pub icon_id: u16,
    /// Utilization shown in the tooltip (tenths of a percent); `None` before
    /// the first sample, when the tooltip names the program.
    pub utilization: Option<u32>,
    /// The overlay window exists.
    pub overlay_created: bool,
    /// The overlay window is shown.
    pub overlay_visible: bool,
}

/// The tooltip before any sample arrived.
pub open spec fn initial_tooltip() -> Seq<char> {
    seq![
        'R', 'u', 'n', 'C', 'a', 't', ' ', 'R', 'u', 's', 't', ' ', '-', ' ',
        'C', 'P', 'U', ' ', 'M', 'o', 'n', 'i', 't', 'o', 'r',
    ]
}

/// The start-up state: first light frame, no sample, no overlay.
pub open spec fn initial_presentation() -> Presentation {
    Presentation {
        icon_id: IDI_LIGHTCAT_0,
        utilization: None,
        overlay_created: false,
        overlay_visible: false,
    }
}

pub open spec fn tooltip_spec(p: Presentation) -> Seq<char> {
    match p.utilization {
        Some(t) => cpu_tooltip(t as nat),
        None => initial_tooltip(),
    }
}

/// The state after applying a sampler event under the theme reading `sig`.
pub open spec fn apply_spec(p: Presentation, ev: SamplerEvent, sig: ThemeSignal) -> Presentation {
    Presentation {
        icon_id: icon_id_spec(signal_theme(sig), ev.frame as nat) as u16,
        utilization: Some(ev.utilization),
        ..p
    }
}

/// Show or hide the overlay: hide a visible one, show an existing hidden one,
/// ask for a new one when none exists (the state changes only once its
/// creation is reported).
pub open spec fn toggle_spec(p: Presentation) -> (Presentation, OverlayAction) {
    if p.overlay_visible {
        (Presentation { overlay_visible: false, ..p }, OverlayAction::Hide)
    } else {
        show_spec(p)
    }
}

/// Show the overlay: the existing window if there is one, else ask for one.
pub open spec fn show_spec(p: Presentation) -> (Presentation, OverlayAction) {
    if p.overlay_created {
        (Presentation { overlay_visible: true, ..p }, OverlayAction::Show)
    } else {
        (p, OverlayAction::Create)
    }
}

/// The state once the platform reports whether creating the overlay worked.
/// A failure leaves the state as it was.
pub open spec fn creation_spec(p: Presentation, ok: bool) -> Presentation {
    if ok {
        Presentation { overlay_created: true, overlay_visible: true, ..p }
    } else {
        p
    }
}

impl Presentation {
    pub open spec fn wf(self) -> bool {
        &&& self.overlay_visible ==> self.overlay_created
        &&& match self.utilization {
            Some(t) => t <= MAX_UTILIZATION,
            None => true,
        }
    }

    /// The state at start-up: first light frame, no sample, no overlay.
    pub fn new() -> (p: Presentation)
        ensures
            p.wf(),
            p == initial_presentation(),
    {
        Presentation {
            icon_id: IDI_LIGHTCAT_0,
            utilization: None,
            overlay_created: false,
            overlay_visible: false,
        }
    }

    /// Applies a sampler event: the icon becomes the event's frame in the
    /// family of the theme resolved now, the tooltip its utilization.  The
    /// caller issues exactly one tray-icon modification afterwards.
    pub fn apply_icon_update(&mut self, ev: SamplerEvent, sig: ThemeSignal)
        requires
            old(self).wf(),
            ev.wf(),
        ensures
            *final(self) == apply_spec(*old(self), ev, sig),
            final(self).wf(),
    {
        let theme = sig.theme();
        self.icon_id = icon_id(theme, ev.frame);
        self.utilization = Some(ev.utilization);
    }

    /// Tooltip text: `CPU: 12.3%` once a sample arrived, the program's name before.
    pub fn tooltip(&self) -> (r: String)
        ensures
            r@ == tooltip_spec(*self),
    {
        match self.utilization {
            Some(t) => tooltip_text(t),
            None => {
                proof {
                    reveal_strlit("RunCat Rust - CPU Monitor");
                }
                let r = String::from_str("RunCat Rust - CPU Monitor");
                assert(r@ =~= initial_tooltip());
                r
            },
        }
    }

    /// The tooltip as the tray's fixed 128-unit buffer.
    pub fn tip_buffer(&self) -> (r: Vec<u16>)
        ensures
            r@ == tip_buffer(wide_null(tooltip_spec(*self))),
    {
        let text = self.tooltip();
        tooltip_buffer(text.as_str())
    }

    /// Whether the overlay is shown.
    pub fn is_time_window_visible(&self) -> (r: bool)
        ensures
            r == self.overlay_visible,
    {
        self.overlay_visible
    }

    /// Show the overlay, creating it only if it never was.
    pub fn create_time_window(&mut self) -> (a: OverlayAction)
        requires
            old(self).wf(),
        ensures
            (*final(self), a) == show_spec(*old(self)),
            final(self).wf(),
    {
        if self.overlay_created {
            self.overlay_visible = true;
            OverlayAction::Show
        } else {
            OverlayAction::Create
        }
    }

    /// Hide the overlay if it exists; returns whether a hide is to be issued.
    pub fn close_time_window(&mut self) -> (hide: bool)
        requires
            old(self).wf(),
        ensures
            hide == old(self).overlay_created,
            *final(self) == (Presentation { overlay_visible: false, ..*old(self) }),
            final(self).wf(),
    {
        self.overlay_visible = false;
        self.overlay_created
    }

    /// Toggle the overlay's visibility.
    pub fn toggle_overlay(&mut self) -> (a: OverlayAction)
        requires
            old(self).wf(),
        ensures
            (*final(self), a) == toggle_spec(*old(self)),
            final(self).wf(),
    {
        if self.overlay_visible {
            self.overlay_visible = false;
            OverlayAction::Hide
        } else {
            self.create_time_window()
        }
    }

    /// Records the outcome of an overlay creation.
    pub fn overlay_created(&mut self, ok: bool)
        requires
            old(self).wf(),
        ensures
            *final(self) == creation_spec(*old(self), ok),
            final(self).wf(),
    {
        if ok {
            self.overlay_created = true;
            self.overlay_visible = true;
        }
    }
}

/// Toggling the overlay twice from hidden leaves it hidden, and a window is
/// asked for at most once: only when none existed, never on the second toggle,
/// nor on a third that shows it again.
pub proof fn lemma_toggle_twice_creates_once(p: Presentation, ok: bool)
    requires
        p.wf(),
        !p.overlay_visible,
        p.overlay_created || ok,
    ensures
        ({
            let (p1, a1) = toggle_spec(p);
            let p1r = if a1 == OverlayAction::Create {
                creation_spec(p1, ok)
            } else {
                p1
            };
            let (p2, a2) = toggle_spec(p1r);
            let (p3, a3) = toggle_spec(p2);
            &&& (a1 == OverlayAction::Create <==> !p.overlay_created)
            &&& a2 == OverlayAction::Hide
            &&& !p2.overlay_visible
            &&& p2.overlay_created
            &&& a3 == OverlayAction::Show
            &&& p3.overlay_visible
        }),
{
}

} // verus!
