//! The session router: one composed state object owning the bar state and
//! the launcher, and one transition function dispatching every inbound
//! event. Each transition returns the follow-up requests for the host to
//! execute; the router itself performs no I/O.

use vstd::prelude::*;
use vstd::string::StringExecFns;

use crate::bar::WorkspaceEvent;
use crate::effect::Effect;
use crate::entry::ApplicationEntry;
use crate::launcher::ArrowDirection;
use crate::launcher::Launcher;
use crate::launcher::arrow_post;
use crate::launcher::close_post;
use crate::launcher::focus_post;
use crate::launcher::input_post;
use crate::launcher::launcher_cleared;
use crate::launcher::launcher_wf;
use crate::launcher::submit_post;
use crate::launcher::toggle_post;

pub use crate::bar::WorkspaceIdentifier;

verus! {

/// An event addressed to the launcher widgets, as the host's text field and
/// submit action deliver it.
#[derive(Debug, Clone)]
pub enum LauncherMessage {
    LauncherInput(String),
    LauncherSubmit,
}

/// Every event the session router dispatches: timer ticks, bar button
/// presses, compositor and workspace-manager events, global-shortcut
/// activations, and the keyboard and focus events of the overlay.
#[derive(Debug, Clone)]
pub enum ShellMessage {
    TimeTick,
    ButtonPressed,
    OpenBlueman,
    HyprlandEvent(WorkspaceEvent),
    HyprlandError,
    SetWorkspace(WorkspaceIdentifier),
    ShortcutError(String),
    ShortcutActivated(String),
    ShortcutsSetup,
    ToggleLauncher,
    Escape,
    ArrowKey(ArrowDirection),
    LayerFocused(u64),
    LauncherMessage(LauncherMessage),
}

/// A raw input event from the host's event stream, reduced to the tags the
/// router reads: the named keys it handles, pointer presses with their
/// accepted/ignored disposition, and surface-focus signals.
#[derive(Clone, Copy, Debug)]
pub enum InputEvent {
    KeyEscape,
    KeyArrowUp,
    KeyArrowDown,
    OtherKey,
    /// A left pointer press that no widget claimed: a click outside the
    /// overlay bounds.
    PointerPressIgnored,
    /// A left pointer press some widget already handled.
    PointerPressClaimed,
    /// A surface gained input focus.
    SurfaceFocused(u64),
    Other,
}

/// Which router event a raw input event becomes: escape and unclaimed
/// clicks cancel, arrows navigate, focus signals are forwarded, everything
/// else is dropped.
pub fn route_input(event: InputEvent) -> (m: Option<ShellMessage>)
    ensures
        event matches InputEvent::KeyEscape ==> m == Some(ShellMessage::Escape),
        event matches InputEvent::KeyArrowUp ==> m == Some(
            ShellMessage::ArrowKey(ArrowDirection::Up),
        ),
        event matches InputEvent::KeyArrowDown ==> m == Some(
            ShellMessage::ArrowKey(ArrowDirection::Down),
        ),
        event matches InputEvent::OtherKey ==> m is None,
        event matches InputEvent::PointerPressIgnored ==> m == Some(ShellMessage::Escape),
        event matches InputEvent::PointerPressClaimed ==> m is None,
        event matches InputEvent::SurfaceFocused(id) ==> m == Some(
            ShellMessage::LayerFocused(id),
        ),
        event matches InputEvent::Other ==> m is None,
{
    match event {
        InputEvent::KeyEscape => Some(ShellMessage::Escape),
        InputEvent::KeyArrowUp => Some(ShellMessage::ArrowKey(ArrowDirection::Up)),
        InputEvent::KeyArrowDown => Some(ShellMessage::ArrowKey(ArrowDirection::Down)),
        InputEvent::OtherKey => None,
        InputEvent::PointerPressIgnored => Some(ShellMessage::Escape),
        InputEvent::PointerPressClaimed => None,
        InputEvent::SurfaceFocused(id) => Some(ShellMessage::LayerFocused(id)),
        InputEvent::Other => None,
    }
}

/// The shell-wide state: the bar's counter and workspace highlight, the
/// bar surface's permanent handle, and the launcher.
#[derive(Debug)]
pub struct State {
    pub count: u32,
    pub active_workspace: i32,
    pub bar_id: u64,
    pub launcher: Launcher,
}

/// The session: the composed state the router owns.
#[derive(Debug)]
pub struct Shell {
    pub state: State,
}

/// The router's invariant: the launcher's own invariant.
pub open spec fn shell_wf(s: Shell) -> bool {
    launcher_wf(s.state.launcher)
}

/// The bar fields of two states agree.
pub open spec fn bar_unchanged(pre: State, post: State) -> bool {
    &&& post.count == pre.count
    &&& post.active_workspace == pre.active_workspace
    &&& post.bar_id == pre.bar_id
}

impl Shell {
    /// A fresh session. The host has already created the permanent bar
    /// surface and read the active workspace from the workspace manager;
    /// failing to read it is a startup-fatal error the host reports.
    pub fn new(active_workspace: i32, bar_id: u64) -> (s: Shell)
        ensures
            shell_wf(s),
            s.state.count == 0,
            s.state.active_workspace == active_workspace,
            s.state.bar_id == bar_id,
            s.state.launcher.window is None,
            launcher_cleared(s.state.launcher),
    {
        Shell {
            state: State { count: 0, active_workspace, bar_id, launcher: Launcher::new() },
        }
    }

    /// One router step: dispatch an inbound event to the bar state or the
    /// launcher and hand back the follow-up requests. `fresh_id` and `apps`
    /// are read only when the event opens the overlay: the host passes a
    /// fresh surface id and the entry index it rebuilt for this session.
    ///
    /// A workspace switch while the launcher is open dismisses the
    /// launcher, whatever requested the switch.
    pub fn update(
        &mut self,
        message: ShellMessage,
        fresh_id: u64,
        apps: Vec<ApplicationEntry>,
    ) -> (effects: Vec<Effect>)
        requires
            shell_wf(*old(self)),
        ensures
            shell_wf(*final(self)),
            final(self).state.bar_id == old(self).state.bar_id,
            message matches ShellMessage::TimeTick ==> *final(self) == *old(self) && effects@
                == Seq::<Effect>::empty(),
            message matches ShellMessage::HyprlandError ==> *final(self) == *old(self)
                && effects@ == Seq::<Effect>::empty(),
            message matches ShellMessage::ShortcutError(_) ==> *final(self) == *old(self)
                && effects@ == Seq::<Effect>::empty(),
            message matches ShellMessage::ShortcutsSetup ==> *final(self) == *old(self)
                && effects@ == Seq::<Effect>::empty(),
            message matches ShellMessage::ButtonPressed ==> final(self).state.count
                == crate::bar::bump(old(self).state.count) && final(self).state.active_workspace
                == old(self).state.active_workspace && final(self).state.launcher
                == old(self).state.launcher && effects@ == Seq::<Effect>::empty(),
            message matches ShellMessage::OpenBlueman ==> bar_unchanged(
                old(self).state,
                final(self).state,
            ) && effects@.len() >= 1 && (effects@[0] matches Effect::Spawn(c) && c@
                == "blueman-manager"@) && close_post(
                old(self).state.launcher,
                final(self).state.launcher,
                effects@.skip(1),
            ),
            message matches ShellMessage::HyprlandEvent(e) ==> (match e {
                WorkspaceEvent::Changed(w) => final(self).state.active_workspace == w
                    && final(self).state.count == old(self).state.count && close_post(
                    old(self).state.launcher,
                    final(self).state.launcher,
                    effects@,
                ),
                WorkspaceEvent::Other => *final(self) == *old(self) && effects@
                    == Seq::<Effect>::empty(),
            }),
            message matches ShellMessage::SetWorkspace(wi) ==> bar_unchanged(
                old(self).state,
                final(self).state,
            ) && effects@.len() >= 1 && effects@[0] == Effect::SetWorkspace(wi) && close_post(
                old(self).state.launcher,
                final(self).state.launcher,
                effects@.skip(1),
            ),
            message matches ShellMessage::ShortcutActivated(name) ==> (if name@
                == "ToggleLauncher"@ {
                final(self).state.count == crate::bar::bump(old(self).state.count)
                    && final(self).state.active_workspace
                    == old(self).state.active_workspace && toggle_post(
                    old(self).state.launcher,
                    final(self).state.launcher,
                    effects@,
                    fresh_id,
                    apps@,
                )
            } else {
                *final(self) == *old(self) && effects@ == Seq::<Effect>::empty()
            }),
            message matches ShellMessage::ToggleLauncher ==> bar_unchanged(
                old(self).state,
                final(self).state,
            ) && toggle_post(
                old(self).state.launcher,
                final(self).state.launcher,
                effects@,
                fresh_id,
                apps@,
            ),
            message matches ShellMessage::Escape ==> bar_unchanged(
                old(self).state,
                final(self).state,
            ) && close_post(old(self).state.launcher, final(self).state.launcher, effects@),
            message matches ShellMessage::LayerFocused(layer_id) ==> *final(self) == *old(self)
                && focus_post(old(self).state.launcher, layer_id, effects@),
            message matches ShellMessage::ArrowKey(dir) ==> bar_unchanged(
                old(self).state,
                final(self).state,
            ) && arrow_post(old(self).state.launcher, final(self).state.launcher, dir)
                && effects@ == Seq::<Effect>::empty(),
            message matches ShellMessage::LauncherMessage(m) ==> bar_unchanged(
                old(self).state,
                final(self).state,
            ) && (match m {
                LauncherMessage::LauncherInput(text) => input_post(
                    old(self).state.launcher,
                    final(self).state.launcher,
                    text@,
                ) && effects@ == Seq::<Effect>::empty(),
                LauncherMessage::LauncherSubmit => submit_post(
                    old(self).state.launcher,
                    final(self).state.launcher,
                    effects@,
                ),
            }),
    {
        match message {
            ShellMessage::TimeTick => Vec::new(),
            ShellMessage::ButtonPressed => {
                if self.state.count == u32::MAX {
                    self.state.count = 0;
                } else {
                    self.state.count = self.state.count + 1;
                }
                Vec::new()
            },
            ShellMessage::OpenBlueman => {
                let mut effects: Vec<Effect> = Vec::new();
                effects.push(Effect::Spawn(String::from_str("blueman-manager")));
                let mut rest = self.state.launcher.close();
                let ghost closing = rest@;
                effects.append(&mut rest);
                proof {
                    assert(effects@.skip(1) =~= closing);
                }
                effects
            },
            ShellMessage::HyprlandError => Vec::new(),
            ShellMessage::HyprlandEvent(e) => {
                match e {
                    WorkspaceEvent::Changed(w) => {
                        self.state.active_workspace = w;
                        self.state.launcher.close()
                    },
                    WorkspaceEvent::Other => Vec::new(),
                }
            },
            ShellMessage::SetWorkspace(wi) => {
                let mut effects: Vec<Effect> = Vec::new();
                effects.push(Effect::SetWorkspace(wi));
                let mut rest = self.state.launcher.close();
                let ghost closing = rest@;
                effects.append(&mut rest);
                proof {
                    assert(effects@.skip(1) =~= closing);
                }
                effects
            },
            ShellMessage::ShortcutActivated(name) => {
                let toggle_name = String::from_str("ToggleLauncher");
                if name == toggle_name {
                    if self.state.count == u32::MAX {
                        self.state.count = 0;
                    } else {
                        self.state.count = self.state.count + 1;
                    }
                    self.state.launcher.toggle(fresh_id, apps)
                } else {
                    Vec::new()
                }
            },
            ShellMessage::ShortcutError(_) => Vec::new(),
            ShellMessage::ShortcutsSetup => Vec::new(),
            ShellMessage::ToggleLauncher => self.state.launcher.toggle(fresh_id, apps),
            ShellMessage::Escape => self.state.launcher.on_cancel(),
            ShellMessage::LayerFocused(layer_id) => self.state.launcher.on_focus(layer_id),
            ShellMessage::ArrowKey(dir) => {
                self.state.launcher.on_arrow(dir);
                Vec::new()
            },
            ShellMessage::LauncherMessage(m) => {
                match m {
                    LauncherMessage::LauncherInput(text) => {
                        self.state.launcher.on_input(text);
                        Vec::new()
                    },
                    LauncherMessage::LauncherSubmit => self.state.launcher.on_submit(),
                }
            },
        }
    }
}

} // verus!
