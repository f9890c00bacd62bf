//! The event loop's state machine.  The platform side drains UI events, then
//! queued sampler events, then waits on the channel with a bounded timeout;
//! it hands each outcome to [`EventLoop::step`] and performs the actions that
//! come back, in order.
use vstd::prelude::*;

use crate::presentation::{apply_spec, creation_spec, initial_presentation, toggle_spec, OverlayAction, Presentation};
use crate::resources::{IDM_EXIT, IDM_SHOW_TIME, IDM_SKIN_AUTO, IDM_SKIN_DARK, IDM_SKIN_LIGHT, IDM_START_SYSTEM};
use crate::sampler::SamplerEvent;
use crate::theme::{icon_id_spec, signal_theme, SkinMode, ThemeSignal};

verus! {

/// Bounded wait on the sampler channel, in milliseconds.
pub const RECEIVE_TIMEOUT_MS: u64 = 250;

/// Where the loop stands.
#[derive(Clone, Copy, Debug, PartialEq, Eq, Structural)]
pub enum LoopPhase {
    /// Handling platform UI events.
    Running,
    /// Draining queued sampler events, then waiting for the next one.
    Draining,
    /// Done: the tray icon is removed and the process exits.
    Terminated,
}

/// A tray-menu command.
#[derive(Clone, Copy, Debug, PartialEq, Eq, Structural)]
pub enum MenuCommand {
    ToggleOverlay,
    ToggleStartup,
    SetSkin(SkinMode),
    Exit,
}

/// Label of the overlay menu item.
#[derive(Clone, Copy, Debug, PartialEq, Eq, Structural)]
pub enum OverlayLabel {
    ShowTime,
    HideTime,
}

/// The tray menu as it is to be drawn.
#[derive(Clone, Copy, Debug, PartialEq, Eq, Structural)]
pub struct MenuModel {
    pub skin_auto_checked: bool,
    pub skin_dark_checked: bool,
    pub skin_light_checked: bool,
    pub overlay_checked: bool,
    pub overlay_label: OverlayLabel,
    pub startup_checked: bool,
}

/// What the platform side reports to the loop.
#[derive(Clone, Copy, Debug, PartialEq, Eq, Structural)]
pub enum LoopInput {
    /// The platform's quit signal.
    Quit,
    /// The tray icon was right-clicked; carries the settings read now.
    MenuRequested { skin: SkinMode, startup_registered: bool },
    /// A menu item was chosen.
    Command(MenuCommand),
    /// No platform UI event is pending.
    UiIdle,
    /// A sampler event taken from the queue without waiting, with the theme
    /// reading made at delivery.
    Queued(SamplerEvent, ThemeSignal),
    /// A sampler event that arrived during the bounded wait.
    Received(SamplerEvent, ThemeSignal),
    /// The bounded wait ended without an event.
    Timeout,
    /// The sampler's end of the channel is gone.
    Disconnected,
    /// Outcome of an overlay creation that the loop asked for.
    OverlayCreated(bool),
    /// The overlay window was closed by the platform; it stays allocated.
    OverlayClosed,
}

/// A side effect for the platform side to perform.
#[derive(Clone, Copy, Debug, PartialEq, Eq, Structural)]
pub enum Action {
    /// Modify the tray icon to show the presentation's icon and tooltip.
    RefreshTrayIcon,
    /// Show the tray menu.
    ShowMenu(MenuModel),
    /// Act on the overlay window.
    Overlay(OverlayAction),
    /// Toggle start-with-system registration.
    ToggleStartup,
    /// Persist the "follow system theme" flag.
    PersistFollowSystem(bool),
    /// Persist the "force dark" flag.
    PersistForceDark(bool),
    /// Remove the tray icon (best effort) before exiting.
    RemoveTrayIcon,
}

/// The loop: its phase and the presentation state it alone writes.
#[derive(Clone, Copy, Debug, PartialEq, Eq, Structural)]
pub struct EventLoop {
    pub phase: LoopPhase,
    pub presentation: Presentation,
}

pub open spec fn command_spec(id: u32) -> Option<MenuCommand> {
    if id == IDM_SHOW_TIME {
        Some(MenuCommand::ToggleOverlay)
    } else if id == IDM_START_SYSTEM {
        Some(MenuCommand::ToggleStartup)
    } else if id == IDM_SKIN_DARK {
        Some(MenuCommand::SetSkin(SkinMode::ForceDark))
    } else if id == IDM_SKIN_LIGHT {
        Some(MenuCommand::SetSkin(SkinMode::ForceLight))
    } else if id == IDM_SKIN_AUTO {
        Some(MenuCommand::SetSkin(SkinMode::FollowSystem))
    } else if id == IDM_EXIT {
        Some(MenuCommand::Exit)
    } else {
        None
    }
}

pub open spec fn menu_spec(skin: SkinMode, overlay_visible: bool, startup_registered: bool) -> MenuModel {
    MenuModel {
        skin_auto_checked: skin == SkinMode::FollowSystem,
        skin_dark_checked: skin == SkinMode::ForceDark,
        skin_light_checked: skin == SkinMode::ForceLight,
        overlay_checked: overlay_visible,
        overlay_label: if overlay_visible {
            OverlayLabel::HideTime
        } else {
            OverlayLabel::ShowTime
        },
        startup_checked: startup_registered,
    }
}

/// What choosing a skin persists.
pub open spec fn persist_spec(skin: SkinMode) -> Seq<Action> {
    match skin {
        SkinMode::FollowSystem => seq![Action::PersistFollowSystem(true)],
        SkinMode::ForceDark => seq![
            Action::PersistFollowSystem(false),
            Action::PersistForceDark(true),
        ],
        SkinMode::ForceLight => seq![
            Action::PersistFollowSystem(false),
            Action::PersistForceDark(false),
        ],
    }
}

/// Choosing a skin persists it, then cycles a visible overlay (hide, then
/// show again) so that it repaints under the new setting at once.
pub open spec fn skin_actions(skin: SkinMode, overlay_visible: bool) -> Seq<Action> {
    if overlay_visible {
        persist_spec(skin) + seq![
            Action::Overlay(OverlayAction::Hide),
            Action::Overlay(OverlayAction::Show),
        ]
    } else {
        persist_spec(skin)
    }
}

pub open spec fn with_phase(s: EventLoop, phase: LoopPhase) -> EventLoop {
    EventLoop { phase, ..s }
}

pub open spec fn with_presentation(s: EventLoop, p: Presentation) -> EventLoop {
    EventLoop { presentation: p, ..s }
}

/// The loop's state after `input`.  Nothing moves it out of `Terminated`.
pub open spec fn next_state(s: EventLoop, input: LoopInput) -> EventLoop {
    if s.phase == LoopPhase::Terminated {
        s
    } else {
        match input {
            LoopInput::Quit => with_phase(s, LoopPhase::Terminated),
            LoopInput::Disconnected => with_phase(s, LoopPhase::Terminated),
            LoopInput::Command(MenuCommand::Exit) => with_phase(s, LoopPhase::Terminated),
            LoopInput::UiIdle => if s.phase == LoopPhase::Running {
                with_phase(s, LoopPhase::Draining)
            } else {
                s
            },
            LoopInput::Timeout => with_phase(s, LoopPhase::Running),
            LoopInput::Queued(ev, sig) => with_presentation(s, apply_spec(s.presentation, ev, sig)),
            LoopInput::Received(ev, sig) => EventLoop {
                phase: LoopPhase::Running,
                presentation: apply_spec(s.presentation, ev, sig),
            },
            LoopInput::Command(MenuCommand::ToggleOverlay) => with_presentation(
                s,
                toggle_spec(s.presentation).0,
            ),
            LoopInput::OverlayCreated(ok) => with_presentation(s, creation_spec(s.presentation, ok)),
            LoopInput::OverlayClosed => with_presentation(
                s,
                Presentation { overlay_visible: false, ..s.presentation },
            ),
            _ => s,
        }
    }
}

/// The actions that `input` asks of the platform, in order.
pub open spec fn actions(s: EventLoop, input: LoopInput) -> Seq<Action> {
    if s.phase == LoopPhase::Terminated {
        Seq::empty()
    } else {
        match input {
            LoopInput::Quit => seq![Action::RemoveTrayIcon],
            LoopInput::Disconnected => seq![Action::RemoveTrayIcon],
            LoopInput::Command(MenuCommand::Exit) => seq![Action::RemoveTrayIcon],
            LoopInput::Queued(_, _) => seq![Action::RefreshTrayIcon],
            LoopInput::Received(_, _) => seq![Action::RefreshTrayIcon],
            LoopInput::MenuRequested { skin, startup_registered } => seq![
                Action::ShowMenu(
                    menu_spec(skin, s.presentation.overlay_visible, startup_registered),
                ),
            ],
            LoopInput::Command(MenuCommand::ToggleOverlay) => seq![
                Action::Overlay(toggle_spec(s.presentation).1),
            ],
            LoopInput::Command(MenuCommand::ToggleStartup) => seq![Action::ToggleStartup],
            LoopInput::Command(MenuCommand::SetSkin(skin)) => skin_actions(
                skin,
                s.presentation.overlay_visible,
            ),
            _ => Seq::empty(),
        }
    }
}

impl LoopInput {
    /// Sampler events in an input are well formed.
    pub open spec fn wf(self) -> bool {
        match self {
            LoopInput::Queued(ev, _) => ev.wf(),
            LoopInput::Received(ev, _) => ev.wf(),
            _ => true,
        }
    }
}

/// The menu command with identifier `id`, if any.
pub fn command_from_id(id: u32) -> (r: Option<MenuCommand>)
    ensures
        r == command_spec(id),
{
    if id == IDM_SHOW_TIME {
        Some(MenuCommand::ToggleOverlay)
    } else if id == IDM_START_SYSTEM {
        Some(MenuCommand::ToggleStartup)
    } else if id == IDM_SKIN_DARK {
        Some(MenuCommand::SetSkin(SkinMode::ForceDark))
    } else if id == IDM_SKIN_LIGHT {
        Some(MenuCommand::SetSkin(SkinMode::ForceLight))
    } else if id == IDM_SKIN_AUTO {
        Some(MenuCommand::SetSkin(SkinMode::FollowSystem))
    } else if id == IDM_EXIT {
        Some(MenuCommand::Exit)
    } else {
        None
    }
}

/// The tray menu: the skin item of the current mode checked, the overlay item
/// checked and labelled "hide" while the overlay shows, the startup item
/// checked while registered.
pub fn menu_model(skin: SkinMode, overlay_visible: bool, startup_registered: bool) -> (m: MenuModel)
    ensures
        m == menu_spec(skin, overlay_visible, startup_registered),
{
    MenuModel {
        skin_auto_checked: match skin {
            SkinMode::FollowSystem => true,
            _ => false,
        },
        skin_dark_checked: match skin {
            SkinMode::ForceDark => true,
            _ => false,
        },
        skin_light_checked: match skin {
            SkinMode::ForceLight => true,
            _ => false,
        },
        overlay_checked: overlay_visible,
        overlay_label: if overlay_visible {
            OverlayLabel::HideTime
        } else {
            OverlayLabel::ShowTime
        },
        startup_checked: startup_registered,
    }
}

fn skin_actions_exec(skin: SkinMode, overlay_visible: bool) -> (r: Vec<Action>)
    ensures
        r@ == skin_actions(skin, overlay_visible),
{
    let mut out: Vec<Action> = Vec::new();
    match skin {
        SkinMode::FollowSystem => {
            out.push(Action::PersistFollowSystem(true));
        },
        SkinMode::ForceDark => {
            out.push(Action::PersistFollowSystem(false));
            out.push(Action::PersistForceDark(true));
        },
        SkinMode::ForceLight => {
            out.push(Action::PersistFollowSystem(false));
            out.push(Action::PersistForceDark(false));
        },
    }
    if overlay_visible {
        out.push(Action::Overlay(OverlayAction::Hide));
        out.push(Action::Overlay(OverlayAction::Show));
    }
    assert(out@ =~= skin_actions(skin, overlay_visible));
    out
}

impl EventLoop {
    pub open spec fn wf(self) -> bool {
        self.presentation.wf()
    }

    /// A running loop over the start-up presentation.
    pub fn new() -> (s: EventLoop)
        ensures
            s.wf(),
            s.phase == LoopPhase::Running,
            s.presentation == initial_presentation(),
    {
        EventLoop { phase: LoopPhase::Running, presentation: Presentation::new() }
    }

    /// Whether the loop has terminated.
    pub fn is_terminated(&self) -> (r: bool)
        ensures
            r == (self.phase == LoopPhase::Terminated),
    {
        match self.phase {
            LoopPhase::Terminated => true,
            _ => false,
        }
    }

    /// Handles one input and returns the actions to perform, in order.
    pub fn step(&mut self, input: LoopInput) -> (r: Vec<Action>)
        requires
            old(self).wf(),
            input.wf(),
        ensures
            final(self).wf(),
            *final(self) == next_state(*old(self), input),
            r@ == actions(*old(self), input),
    {
        let mut out: Vec<Action> = Vec::new();
        if self.is_terminated() {
            return out;
        }
        match input {
            LoopInput::Quit | LoopInput::Disconnected | LoopInput::Command(MenuCommand::Exit) => {
                self.phase = LoopPhase::Terminated;
                out.push(Action::RemoveTrayIcon);
            },
            LoopInput::UiIdle => {
                if let LoopPhase::Running = self.phase {
                    self.phase = LoopPhase::Draining;
                }
            },
            LoopInput::Timeout => {
                self.phase = LoopPhase::Running;
            },
            LoopInput::Queued(ev, sig) => {
                self.presentation.apply_icon_update(ev, sig);
                out.push(Action::RefreshTrayIcon);
            },
            LoopInput::Received(ev, sig) => {
                self.presentation.apply_icon_update(ev, sig);
                self.phase = LoopPhase::Running;
                out.push(Action::RefreshTrayIcon);
            },
            LoopInput::MenuRequested { skin, startup_registered } => {
                let m = menu_model(skin, self.presentation.overlay_visible, startup_registered);
                out.push(Action::ShowMenu(m));
            },
            LoopInput::Command(MenuCommand::ToggleOverlay) => {
                let a = self.presentation.toggle_overlay();
                out.push(Action::Overlay(a));
            },
            LoopInput::Command(MenuCommand::ToggleStartup) => {
                out.push(Action::ToggleStartup);
            },
            LoopInput::Command(MenuCommand::SetSkin(skin)) => {
                out = skin_actions_exec(skin, self.presentation.overlay_visible);
            },
            LoopInput::OverlayCreated(ok) => {
                self.presentation.overlay_created(ok);
            },
            LoopInput::OverlayClosed => {
                self.presentation.close_time_window();
            },
        }
        assert(out@ =~= actions(*old(self), input));
        out
    }
}

/// The loop after applying queued sampler events, in arrival order.
pub open spec fn apply_queued(s: EventLoop, evs: Seq<(SamplerEvent, ThemeSignal)>) -> EventLoop
    decreases evs.len(),
{
    if evs.len() == 0 {
        s
    } else {
        let last = evs.last();
        next_state(apply_queued(s, evs.drop_last()), LoopInput::Queued(last.0, last.1))
    }
}

/// Applying queued sampler events keeps the phase and the overlay, and each
/// event asks for exactly one tray-icon modification.
pub proof fn lemma_apply_queued_frame(s: EventLoop, evs: Seq<(SamplerEvent, ThemeSignal)>)
    requires
        s.phase != LoopPhase::Terminated,
    ensures
        apply_queued(s, evs).phase == s.phase,
        apply_queued(s, evs).presentation.overlay_created == s.presentation.overlay_created,
        apply_queued(s, evs).presentation.overlay_visible == s.presentation.overlay_visible,
        forall|i: int|
            0 <= i < evs.len() ==> #[trigger] actions(
                apply_queued(s, evs.take(i)),
                LoopInput::Queued(evs[i].0, evs[i].1),
            ) == seq![Action::RefreshTrayIcon],
    decreases evs.len(),
{
    if evs.len() > 0 {
        let init = evs.drop_last();
        lemma_apply_queued_frame(s, init);
        assert forall|i: int| 0 <= i < evs.len() implies #[trigger] actions(
            apply_queued(s, evs.take(i)),
            LoopInput::Queued(evs[i].0, evs[i].1),
        ) == seq![Action::RefreshTrayIcon] by {
            if i < init.len() {
                assert(evs.take(i) =~= init.take(i));
                assert(evs[i] == init[i]);
            } else {
                assert(evs.take(i) =~= init);
            }
        }
    }
}

/// After any non-empty run of queued sampler events, the tray shows exactly
/// the last event's icon (its frame in the theme resolved at its delivery)
/// and the last event's utilization, whatever came before.
pub proof fn lemma_last_event_shown(s: EventLoop, evs: Seq<(SamplerEvent, ThemeSignal)>)
    requires
        s.wf(),
        s.phase != LoopPhase::Terminated,
        evs.len() > 0,
    ensures
        ({
            let r = apply_queued(s, evs);
            let last = evs.last();
            &&& r.presentation == apply_spec(
                apply_queued(s, evs.drop_last()).presentation,
                last.0,
                last.1,
            )
            &&& r.presentation.icon_id == icon_id_spec(signal_theme(last.1), last.0.frame as nat) as u16
            &&& r.presentation.utilization == Some(last.0.utilization)
            &&& r.phase == s.phase
        }),
{
    lemma_apply_queued_frame(s, evs.drop_last());
}

/// Losing the sampler's channel ends a live loop at once, with the tray icon
/// removed; a terminated loop stays terminated and does nothing more.
pub proof fn lemma_disconnect_terminates(s: EventLoop, input: LoopInput)
    requires
        s.phase != LoopPhase::Terminated,
    ensures
        next_state(s, LoopInput::Disconnected).phase == LoopPhase::Terminated,
        actions(s, LoopInput::Disconnected) == seq![Action::RemoveTrayIcon],
        next_state(next_state(s, LoopInput::Disconnected), input) == next_state(s, LoopInput::Disconnected),
        actions(next_state(s, LoopInput::Disconnected), input).len() == 0,
{
}

} // verus!
