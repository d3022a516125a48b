//! The status bar: a permanent surface showing a counter, the workspace
//! list and a clock. Only its state transitions live here; rendering and
//! the clock are presentation work of the host.

use vstd::prelude::*;
use vstd::string::StringExecFns;

use crate::effect::Effect;
use crate::shell::ShellMessage;

verus! {

/// A way of naming a workspace when asking the workspace manager to switch,
/// the special workspace included.
#[derive(Debug, Clone)]
pub enum WorkspaceIdentifier {
    /// The workspace id.
    Id(i32),
    /// The workspace relative to the current workspace.
    Relative(i32),
    /// The workspace on the monitor relative to the current workspace.
    RelativeMonitor(i32),
    /// The workspace on the monitor relative to the current workspace,
    /// empty workspaces included.
    RelativeMonitorIncludingEmpty(i32),
    /// The open workspace relative to the current workspace.
    RelativeOpen(i32),
    /// The previous workspace.
    Previous,
    /// The first available empty workspace.
    Empty,
    /// The name of the workspace.
    Name(String),
    /// The special workspace.
    Special(Option<String>),
}

/// An event from the workspace manager, reduced to what the core reads.
#[derive(Debug, Clone)]
pub enum WorkspaceEvent {
    /// The active workspace changed to this id.
    Changed(i32),
    /// Any other compositor event; the core ignores it.
    Other,
}

/// The status bar's state: a demonstration counter, the active workspace
/// for highlighting, and the bar surface's permanent handle.
#[derive(Debug)]
pub struct Bar {
    pub count: u32,
    pub active_workspace: i32,
    pub id: u64,
}

/// An event addressed to the bar.
#[derive(Debug, Clone)]
pub enum Message {
    ShellMessage(Box<ShellMessage>),
    TimeTick,
    ButtonPressed,
    OpenBlueman,
    HyprlandEvent(WorkspaceEvent),
    HyprlandError,
    SetWorkspace(WorkspaceIdentifier),
}

/// A counter incremented by one, wrapping at the top of its range.
pub open spec fn bump(c: u32) -> u32 {
    if c == u32::MAX {
        0
    } else {
        (c + 1) as u32
    }
}

impl Bar {
    /// A fresh bar. The host has already created the permanent bar surface
    /// (`id`) and read the active workspace; failing to read it is a
    /// startup-fatal error the host reports.
    pub fn new(active_workspace: i32, id: u64) -> (b: Bar)
        ensures
            b.count == 0,
            b.active_workspace == active_workspace,
            b.id == id,
    {
        Bar { count: 0, active_workspace, id }
    }

    /// One bar transition. Timer ticks only refresh presentation and are
    /// ignored here; workspace-changed events update the highlight; the
    /// buttons request a spawn or a workspace switch.
    pub fn update(&mut self, message: Message) -> (effects: Vec<Effect>)
        ensures
            final(self).id == old(self).id,
            message matches Message::TimeTick ==> *final(self) == *old(self) && effects@
                == Seq::<Effect>::empty(),
            message matches Message::HyprlandError ==> *final(self) == *old(self) && effects@
                == Seq::<Effect>::empty(),
            message matches Message::ShellMessage(_) ==> *final(self) == *old(self) && effects@
                == Seq::<Effect>::empty(),
            message matches Message::ButtonPressed ==> final(self).count == bump(old(self).count)
                && final(self).active_workspace == old(self).active_workspace && effects@
                == Seq::<Effect>::empty(),
            message matches Message::OpenBlueman ==> *final(self) == *old(self) && effects@.len()
                == 1 && (effects@[0] matches Effect::Spawn(c) && c@ == "blueman-manager"@),
            message matches Message::SetWorkspace(wi) ==> *final(self) == *old(self) && effects@
                == seq![Effect::SetWorkspace(wi)],
            message matches Message::HyprlandEvent(e) ==> effects@ == Seq::<Effect>::empty()
                && final(self).count == old(self).count && (match e {
                WorkspaceEvent::Changed(w) => final(self).active_workspace == w,
                WorkspaceEvent::Other => *final(self) == *old(self),
            }),
    {
        match message {
            Message::TimeTick => Vec::new(),
            Message::ButtonPressed => {
                if self.count == u32::MAX {
                    self.count = 0;
                } else {
                    self.count = self.count + 1;
                }
                Vec::new()
            },
            Message::OpenBlueman => {
                let mut effects: Vec<Effect> = Vec::new();
                effects.push(Effect::Spawn(String::from_str("blueman-manager")));
                effects
            },
            Message::SetWorkspace(wi) => {
                let mut effects: Vec<Effect> = Vec::new();
                effects.push(Effect::SetWorkspace(wi));
                proof {
                    assert(effects@ =~= seq![Effect::SetWorkspace(wi)]);
                }
                effects
            },
            Message::HyprlandError => Vec::new(),
            Message::HyprlandEvent(e) => {
                match e {
                    WorkspaceEvent::Changed(w) => {
                        self.active_workspace = w;
                    },
                    WorkspaceEvent::Other => {},
                }
                Vec::new()
            },
            Message::ShellMessage(_) => Vec::new(),
        }
    }
}

} // verus!
