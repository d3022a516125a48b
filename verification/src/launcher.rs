//! The launcher overlay: its open/closed lifecycle and the selection state
//! machine over query, ranked results and selected index.
//!
//! The transient state (query, results, index) never outlives one open
//! session: opening resets it, closing discards it. Each transition's
//! meaning is a postcondition predicate (`open_post`, `close_post`, ...)
//! shared by the method itself, the message dispatcher and the session
//! router.

use vstd::prelude::*;

use crate::effect::Effect;
use crate::entry::ApplicationEntry;
use crate::launch::expand_spec;
use crate::launch::launch_command;
use crate::ranker::RankedCandidate;
use crate::ranker::rank;
use crate::ranker::rank_spec;
use crate::shell::ShellMessage;

verus! {

/// An arrow-navigation direction.
#[derive(Clone, Copy, Debug, PartialEq, Eq, Structural)]
pub enum ArrowDirection {
    Up,
    Down,
}

/// The launcher overlay's state. `window` holds the overlay surface's
/// handle while the overlay is open; `apps` is the entry index rebuilt on
/// every open; `results` the ranked candidates for `input`, at most five;
/// `selected_item` the highlighted result.
#[derive(Debug)]
pub struct Launcher {
    pub window: Option<u64>,
    pub input: String,
    pub results: Vec<RankedCandidate>,
    pub apps: Vec<ApplicationEntry>,
    pub selected_item: usize,
}

/// An event addressed to the launcher.
#[derive(Debug, Clone)]
pub enum Message {
    Input(String),
    Submit,
    Open,
    Close,
    SelectionUp,
    SelectionDown,
    ShellMessage(Box<ShellMessage>),
}

/// No transient state is held: the launcher looks as it does right after a
/// close.
pub open spec fn launcher_cleared(l: Launcher) -> bool {
    &&& l.input@.len() == 0
    &&& l.results@.len() == 0
    &&& l.apps@.len() == 0
    &&& l.selected_item == 0
}

/// The launcher's invariant: at most five results; the selected index in
/// bounds whenever there are results; a closed launcher holds no transient
/// state.
pub open spec fn launcher_wf(l: Launcher) -> bool {
    &&& l.results@.len() <= 5
    &&& l.results@.len() > 0 ==> (l.selected_item as int) < l.results@.len()
    &&& l.window is None ==> launcher_cleared(l)
}

/// What opening does: nothing when already open; otherwise the transient
/// state is reset, the freshly built index adopted, and creation of the
/// overlay surface requested.
pub open spec fn open_post(
    pre: Launcher,
    post: Launcher,
    eff: Seq<Effect>,
    fresh_id: u64,
    apps: Seq<ApplicationEntry>,
) -> bool {
    if pre.window is Some {
        post == pre && eff == Seq::<Effect>::empty()
    } else {
        &&& post.window == Some(fresh_id)
        &&& post.input@.len() == 0
        &&& post.results@.len() == 0
        &&& post.apps@ == apps
        &&& post.selected_item == 0
        &&& eff == seq![Effect::CreateOverlay(fresh_id)]
    }
}

/// What closing does: nothing when already closed; otherwise all transient
/// state is discarded and destruction of the surface requested.
pub open spec fn close_post(pre: Launcher, post: Launcher, eff: Seq<Effect>) -> bool {
    if pre.window is None {
        post == pre && eff == Seq::<Effect>::empty()
    } else {
        &&& pre.window matches Some(id) && eff == seq![Effect::DestroyOverlay(id)]
        &&& post.window is None
        &&& launcher_cleared(post)
    }
}

/// What toggling does: close when open, open when closed.
pub open spec fn toggle_post(
    pre: Launcher,
    post: Launcher,
    eff: Seq<Effect>,
    fresh_id: u64,
    apps: Seq<ApplicationEntry>,
) -> bool {
    if pre.window is Some {
        close_post(pre, post, eff)
    } else {
        open_post(pre, post, eff, fresh_id, apps)
    }
}

/// A selected index re-clamped into the bounds of a result list.
pub open spec fn clamp_sel(sel: int, len: int) -> int {
    if len <= 0 {
        0
    } else if sel < len {
        sel
    } else {
        len - 1
    }
}

/// What typing does when the overlay is open: the query is replaced, the
/// results recomputed by the ranker, and the selected index re-clamped.
/// Input not addressed to an open overlay is rejected.
pub open spec fn input_post(pre: Launcher, post: Launcher, text: Seq<char>) -> bool {
    if pre.window is None {
        post == pre
    } else {
        &&& post.window == pre.window
        &&& post.apps == pre.apps
        &&& post.input@ == text
        &&& post.results@ == rank_spec(text, pre.apps@)
        &&& post.selected_item == clamp_sel(pre.selected_item as int, post.results@.len() as int)
    }
}

/// One arrow step over a result list of length `len`: the selected index
/// moves by one and is clamped into `[0, len - 1]`.
pub open spec fn arrow_step(sel: int, len: int, dir: ArrowDirection) -> int {
    if len <= 0 {
        sel
    } else {
        let moved = if dir is Up {
            sel - 1
        } else {
            sel + 1
        };
        if moved < 0 {
            0
        } else if moved > len - 1 {
            len - 1
        } else {
            moved
        }
    }
}

/// What an arrow event does: nothing when the overlay is closed or no
/// results are shown; otherwise one clamped step of the selected index.
pub open spec fn arrow_post(pre: Launcher, post: Launcher, dir: ArrowDirection) -> bool {
    if pre.window is None || pre.results@.len() == 0 {
        post == pre
    } else {
        &&& post.window == pre.window
        &&& post.input == pre.input
        &&& post.results == pre.results
        &&& post.apps == pre.apps
        &&& post.selected_item == arrow_step(
            pre.selected_item as int,
            pre.results@.len() as int,
            dir,
        )
    }
}

/// What submitting does: nothing when the overlay is closed or no result is
/// shown; otherwise the selected entry is yielded to the command launcher —
/// a spawn request when the entry has a launch command, none otherwise —
/// and the overlay closes.
pub open spec fn submit_post(pre: Launcher, post: Launcher, eff: Seq<Effect>) -> bool {
    if pre.window is None || pre.results@.len() == 0 {
        post == pre && eff == Seq::<Effect>::empty()
    } else {
        let chosen = pre.results@[pre.selected_item as int].entry;
        &&& pre.window matches Some(id) && (match chosen.exec_template {
            Some(t) => eff.len() == 2 && (eff[0] matches Effect::Spawn(c) && c@ == expand_spec(
                t@,
            )) && eff[1] == Effect::DestroyOverlay(id),
            None => eff == seq![Effect::DestroyOverlay(id)],
        })
        &&& post.window is None
        &&& launcher_cleared(post)
    }
}

/// What a surface-focus signal does: when the focused surface is the open
/// overlay's, logical focus for the text-input field is requested.
pub open spec fn focus_post(l: Launcher, surface: u64, eff: Seq<Effect>) -> bool {
    if l.window matches Some(id) && id == surface {
        eff == seq![Effect::FocusInput]
    } else {
        eff == Seq::<Effect>::empty()
    }
}

impl Launcher {
    /// A fresh, closed launcher holding no state.
    pub fn new() -> (l: Launcher)
        ensures
            l.window is None,
            launcher_cleared(l),
            launcher_wf(l),
    {
        Launcher {
            window: None,
            input: String::new(),
            results: Vec::new(),
            apps: Vec::new(),
            selected_item: 0,
        }
    }

    /// Open the overlay: a no-op when already open (opening twice in a row
    /// equals opening once); otherwise reset the transient state, adopt the
    /// freshly built index, and request the surface. The host supplies a
    /// fresh surface id and the index it rebuilt for this session.
    pub fn open(&mut self, fresh_id: u64, apps: Vec<ApplicationEntry>) -> (effects: Vec<Effect>)
        requires
            launcher_wf(*old(self)),
        ensures
            launcher_wf(*final(self)),
            open_post(*old(self), *final(self), effects@, fresh_id, apps@),
    {
        if self.window.is_some() {
            return Vec::new();
        }
        self.window = Some(fresh_id);
        self.input = String::new();
        self.results = Vec::new();
        self.apps = apps;
        self.selected_item = 0;
        let mut effects: Vec<Effect> = Vec::new();
        effects.push(Effect::CreateOverlay(fresh_id));
        proof {
            assert(effects@ =~= seq![Effect::CreateOverlay(fresh_id)]);
        }
        effects
    }

    /// Close the overlay: a no-op when already closed; otherwise discard
    /// all transient state and request destruction of the surface.
    pub fn close(&mut self) -> (effects: Vec<Effect>)
        requires
            launcher_wf(*old(self)),
        ensures
            launcher_wf(*final(self)),
            close_post(*old(self), *final(self), effects@),
    {
        match self.window {
            None => Vec::new(),
            Some(id) => {
                self.window = None;
                self.input = String::new();
                self.results = Vec::new();
                self.apps = Vec::new();
                self.selected_item = 0;
                let mut effects: Vec<Effect> = Vec::new();
                effects.push(Effect::DestroyOverlay(id));
                proof {
                    assert(effects@ =~= seq![Effect::DestroyOverlay(id)]);
                }
                effects
            },
        }
    }

    /// Toggle the overlay: close when open, open when closed.
    pub fn toggle(&mut self, fresh_id: u64, apps: Vec<ApplicationEntry>) -> (effects: Vec<Effect>)
        requires
            launcher_wf(*old(self)),
        ensures
            launcher_wf(*final(self)),
            toggle_post(*old(self), *final(self), effects@, fresh_id, apps@),
    {
        if self.window.is_some() {
            self.close()
        } else {
            self.open(fresh_id, apps)
        }
    }

    /// Replace the query and recompute the results; the selected index is
    /// re-clamped into the new bounds. Rejected when the overlay is closed.
    pub fn on_input(&mut self, text: String)
        requires
            launcher_wf(*old(self)),
        ensures
            launcher_wf(*final(self)),
            input_post(*old(self), *final(self), text@),
    {
        if self.window.is_none() {
            return ;
        }
        self.input = text;
        self.results = rank(self.input.as_str(), &self.apps);
        if self.results.len() > 0 {
            if self.selected_item >= self.results.len() {
                self.selected_item = self.results.len() - 1;
            }
        } else {
            self.selected_item = 0;
        }
    }

    /// One arrow step of the selection; a no-op when the overlay is closed
    /// or no results are shown.
    pub fn on_arrow(&mut self, dir: ArrowDirection)
        requires
            launcher_wf(*old(self)),
        ensures
            launcher_wf(*final(self)),
            arrow_post(*old(self), *final(self), dir),
    {
        if self.window.is_none() || self.results.len() == 0 {
            return ;
        }
        match dir {
            ArrowDirection::Up => {
                if self.selected_item > 0 {
                    self.selected_item = self.selected_item - 1;
                }
            },
            ArrowDirection::Down => {
                if self.selected_item + 1 < self.results.len() {
                    self.selected_item = self.selected_item + 1;
                }
            },
        }
    }

    /// Commit to the selected result: yield its entry to the command
    /// launcher and close the overlay. A no-op when the overlay is closed
    /// or the result list is empty.
    pub fn on_submit(&mut self) -> (effects: Vec<Effect>)
        requires
            launcher_wf(*old(self)),
        ensures
            launcher_wf(*final(self)),
            submit_post(*old(self), *final(self), effects@),
    {
        if self.results.len() == 0 {
            return Vec::new();
        }
        match self.window {
            None => Vec::new(),
            Some(_) => {
                let mut effects: Vec<Effect> = Vec::new();
                match launch_command(&self.results[self.selected_item].entry) {
                    Some(c) => effects.push(Effect::Spawn(c)),
                    None => {},
                }
                let mut rest = self.close();
                effects.append(&mut rest);
                proof {
                    if old(self).results@[old(self).selected_item as int].entry.exec_template
                        is None {
                        assert(effects@ =~= seq![
                            Effect::DestroyOverlay(old(self).window->Some_0),
                        ]);
                    }
                }
                effects
            },
        }
    }

    /// Escape or a click outside the overlay: request close unconditionally
    /// when open.
    pub fn on_cancel(&mut self) -> (effects: Vec<Effect>)
        requires
            launcher_wf(*old(self)),
        ensures
            launcher_wf(*final(self)),
            close_post(*old(self), *final(self), effects@),
    {
        self.close()
    }

    /// A surface gained input focus: when it is the open overlay's surface,
    /// request logical focus for the text-input field.
    pub fn on_focus(&self, surface: u64) -> (effects: Vec<Effect>)
        ensures
            focus_post(*self, surface, effects@),
    {
        match self.window {
            Some(id) if id == surface => {
                let mut effects: Vec<Effect> = Vec::new();
                effects.push(Effect::FocusInput);
                proof {
                    assert(effects@ =~= seq![Effect::FocusInput]);
                }
                effects
            },
            _ => Vec::new(),
        }
    }

    /// One launcher transition, dispatched by event tag. `fresh_id` and
    /// `apps` are read only when the event opens the overlay.
    pub fn update(
        &mut self,
        message: Message,
        fresh_id: u64,
        apps: Vec<ApplicationEntry>,
    ) -> (effects: Vec<Effect>)
        requires
            launcher_wf(*old(self)),
        ensures
            launcher_wf(*final(self)),
            message matches Message::Input(text) ==> input_post(
                *old(self),
                *final(self),
                text@,
            ) && effects@ == Seq::<Effect>::empty(),
            message matches Message::Submit ==> submit_post(*old(self), *final(self), effects@),
            message matches Message::Open ==> open_post(
                *old(self),
                *final(self),
                effects@,
                fresh_id,
                apps@,
            ),
            message matches Message::Close ==> close_post(*old(self), *final(self), effects@),
            message matches Message::SelectionUp ==> arrow_post(
                *old(self),
                *final(self),
                ArrowDirection::Up,
            ) && effects@ == Seq::<Effect>::empty(),
            message matches Message::SelectionDown ==> arrow_post(
                *old(self),
                *final(self),
                ArrowDirection::Down,
            ) && effects@ == Seq::<Effect>::empty(),
            message matches Message::ShellMessage(_) ==> *final(self) == *old(self) && effects@
                == Seq::<Effect>::empty(),
    {
        match message {
            Message::Input(text) => {
                self.on_input(text);
                Vec::new()
            },
            Message::Submit => self.on_submit(),
            Message::Open => self.open(fresh_id, apps),
            Message::Close => self.close(),
            Message::SelectionUp => {
                self.on_arrow(ArrowDirection::Up);
                Vec::new()
            },
            Message::SelectionDown => {
                self.on_arrow(ArrowDirection::Down);
                Vec::new()
            },
            Message::ShellMessage(_) => Vec::new(),
        }
    }
}

/// The selected index after a whole sequence of arrow events.
pub open spec fn arrow_trace(sel: int, len: int, dirs: Seq<ArrowDirection>) -> int
    decreases dirs.len(),
{
    if dirs.len() == 0 {
        sel
    } else {
        arrow_trace(arrow_step(sel, len, dirs.first()), len, dirs.drop_first())
    }
}

/// For any result list and any sequence of arrow-navigation events, the
/// selected index stays within `[0, len - 1]`.
pub proof fn lemma_arrows_stay_in_bounds(sel: int, len: int, dirs: Seq<ArrowDirection>)
    requires
        len > 0,
        0 <= sel < len,
    ensures
        0 <= arrow_trace(sel, len, dirs) < len,
    decreases dirs.len(),
{
    if dirs.len() > 0 {
        lemma_arrows_stay_in_bounds(arrow_step(sel, len, dirs.first()), len, dirs.drop_first());
    }
}

/// Opening the overlay twice in a row without an intervening close is
/// equivalent to opening it once: the second open changes nothing and
/// requests nothing.
pub proof fn lemma_open_idempotent(
    pre: Launcher,
    mid: Launcher,
    post: Launcher,
    eff1: Seq<Effect>,
    eff2: Seq<Effect>,
    id1: u64,
    id2: u64,
    apps1: Seq<ApplicationEntry>,
    apps2: Seq<ApplicationEntry>,
)
    requires
        open_post(pre, mid, eff1, id1, apps1),
        open_post(mid, post, eff2, id2, apps2),
    ensures
        post == mid,
        eff2 == Seq::<Effect>::empty(),
{
}

} // verus!
