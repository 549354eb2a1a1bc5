use vstd::prelude::*;
use vstd::string::StrSliceExecFns;

verus! {

/// Whether the single application window is shown or hidden.
#[derive(Clone, Copy, Debug, PartialEq, Eq, Structural)]
pub enum WindowVisibility {
    Hidden,
    Visible,
}

/// The two selectable tray menu entries.
#[derive(Clone, Copy, Debug, PartialEq, Eq, Structural)]
pub enum TrayMenuItem {
    Quit,
    Hide,
}

/// A tray interaction, as the dispatcher hands it to the state machine.
#[derive(Clone, Copy, Debug, PartialEq, Eq, Structural)]
pub enum TrayMenuAction {
    LeftClick,
    RightClick,
    DoubleClick,
    MenuItemSelected(TrayMenuItem),
}

/// What a second launch forwards to the running instance before it exits.
#[derive(Debug)]
pub struct SingleInstanceSignal {
    /// The invocation arguments of the second launch, in order.
    pub args: Vec<String>,
    /// The working directory of the second launch.
    pub cwd: String,
}

/// An event the desktop lifecycle coordinator consumes.
#[derive(Debug)]
pub enum LifecycleEvent {
    Tray(TrayMenuAction),
    InstanceSignal(SingleInstanceSignal),
}

/// What the driver must do to the OS window after a transition.
#[derive(Clone, Copy, Debug, PartialEq, Eq, Structural)]
pub enum WindowCommand {
    NoCommand,
    /// Hide the window; do not destroy it, so in-memory state is preserved.
    HideWindow,
    /// Show the window and request OS focus on it. On a platform whose window
    /// manager keeps every window implicitly visible, the driver may carry out
    /// the show half as a no-op by policy.
    ShowAndFocusWindow,
    /// Terminate the process immediately.
    TerminateProcess,
}

/// The desktop lifecycle coordinator: the owner of the process-wide visibility
/// state. It is mutated only through `handle_event`.
#[derive(Clone, Copy, Debug, PartialEq, Eq, Structural)]
pub struct DesktopLifecycleController {
    pub visibility: WindowVisibility,
    /// Set once `quit` has been selected; no later event is processed.
    pub terminated: bool,
}

/// The state at process start: the window is constructed invisible, so that it
/// can be revealed atomically by the first tray interaction or signal.
pub open spec fn initial_controller() -> DesktopLifecycleController {
    DesktopLifecycleController { visibility: WindowVisibility::Hidden, terminated: false }
}

/// The transition table of the visibility state machine: from a controller
/// state and an event to the next state and the window command owed to the OS.
pub open spec fn spec_handle_event(c: DesktopLifecycleController, e: LifecycleEvent) -> (
    DesktopLifecycleController,
    WindowCommand,
) {
    if c.terminated {
        (c, WindowCommand::NoCommand)
    } else {
        match e {
            LifecycleEvent::Tray(TrayMenuAction::LeftClick) => {
                if c.visibility is Visible {
                    (
                        DesktopLifecycleController {
                            visibility: WindowVisibility::Hidden,
                            terminated: false,
                        },
                        WindowCommand::HideWindow,
                    )
                } else {
                    (
                        DesktopLifecycleController {
                            visibility: WindowVisibility::Visible,
                            terminated: false,
                        },
                        WindowCommand::ShowAndFocusWindow,
                    )
                }
            },
            LifecycleEvent::Tray(TrayMenuAction::RightClick) => (c, WindowCommand::NoCommand),
            LifecycleEvent::Tray(TrayMenuAction::DoubleClick) => (c, WindowCommand::NoCommand),
            LifecycleEvent::Tray(TrayMenuAction::MenuItemSelected(TrayMenuItem::Hide)) => (
                DesktopLifecycleController {
                    visibility: WindowVisibility::Hidden,
                    terminated: false,
                },
                WindowCommand::HideWindow,
            ),
            LifecycleEvent::Tray(TrayMenuAction::MenuItemSelected(TrayMenuItem::Quit)) => (
                DesktopLifecycleController { visibility: c.visibility, terminated: true },
                WindowCommand::TerminateProcess,
            ),
            LifecycleEvent::InstanceSignal(_) => (
                DesktopLifecycleController {
                    visibility: WindowVisibility::Visible,
                    terminated: false,
                },
                WindowCommand::ShowAndFocusWindow,
            ),
        }
    }
}

/// The controller state after a whole sequence of events.
pub open spec fn spec_run(c: DesktopLifecycleController, events: Seq<LifecycleEvent>)
    -> DesktopLifecycleController
    decreases events.len(),
{
    if events.len() == 0 {
        c
    } else {
        spec_run(spec_handle_event(c, events[0]).0, events.drop_first())
    }
}

impl DesktopLifecycleController {
    /// A fresh controller in the process-start state.
    pub fn new() -> (c: Self)
        ensures
            c == initial_controller(),
    {
        DesktopLifecycleController { visibility: WindowVisibility::Hidden, terminated: false }
    }

    /// Applies one event to the visibility state machine and returns the
    /// window command the driver must carry out.
    pub fn handle_event(&mut self, event: &LifecycleEvent) -> (cmd: WindowCommand)
        ensures
            *final(self) == spec_handle_event(*old(self), *event).0,
            cmd == spec_handle_event(*old(self), *event).1,
    {
        if self.terminated {
            return WindowCommand::NoCommand;
        }
        match event {
            LifecycleEvent::Tray(TrayMenuAction::LeftClick) => {
                if self.visibility == WindowVisibility::Visible {
                    self.visibility = WindowVisibility::Hidden;
                    WindowCommand::HideWindow
                } else {
                    self.visibility = WindowVisibility::Visible;
                    WindowCommand::ShowAndFocusWindow
                }
            },
            LifecycleEvent::Tray(TrayMenuAction::RightClick) => WindowCommand::NoCommand,
            LifecycleEvent::Tray(TrayMenuAction::DoubleClick) => WindowCommand::NoCommand,
            LifecycleEvent::Tray(TrayMenuAction::MenuItemSelected(TrayMenuItem::Hide)) => {
                self.visibility = WindowVisibility::Hidden;
                WindowCommand::HideWindow
            },
            LifecycleEvent::Tray(TrayMenuAction::MenuItemSelected(TrayMenuItem::Quit)) => {
                self.terminated = true;
                WindowCommand::TerminateProcess
            },
            LifecycleEvent::InstanceSignal(_) => {
                self.visibility = WindowVisibility::Visible;
                WindowCommand::ShowAndFocusWindow
            },
        }
    }
}

/// The menu identifiers the tray surface exposes, mapped to menu items.
pub open spec fn spec_menu_item(id: Seq<char>) -> Option<TrayMenuItem> {
    if id == "quit"@ {
        Some(TrayMenuItem::Quit)
    } else if id == "hide"@ {
        Some(TrayMenuItem::Hide)
    } else {
        None
    }
}

/// Compares two text slices character by character.
fn str_eq(a: &str, b: &str) -> (r: bool)
    ensures
        r == (a@ == b@),
{
    let alen = a.unicode_len();
    let blen = b.unicode_len();
    if alen != blen {
        return false;
    }
    let mut i: usize = 0;
    while i < alen
        invariant
            alen == a@.len(),
            blen == b@.len(),
            alen == blen,
            0 <= i <= alen,
            forall|j: int| 0 <= j < i ==> a@[j] == b@[j],
        decreases alen - i,
    {
        if a.get_char(i) != b.get_char(i) {
            return false;
        }
        i += 1;
    }
    proof {
        assert(a@ =~= b@);
    }
    true
}

/// The tray menu dispatcher's identifier mapping: turns a raw menu item
/// identifier from the OS tray into the menu item it names, or `None` for an
/// identifier the tray surface does not expose.
pub fn parse_menu_item(id: &str) -> (r: Option<TrayMenuItem>)
    ensures
        r == spec_menu_item(id@),
{
    if str_eq(id, "quit") {
        Some(TrayMenuItem::Quit)
    } else if str_eq(id, "hide") {
        Some(TrayMenuItem::Hide)
    } else {
        None
    }
}

/// Law: starting hidden, a tray left click shows and focuses the window, and a
/// second left click hides it again — a two-cycle back to the start.
pub proof fn lemma_left_click_two_cycle(c: DesktopLifecycleController)
    requires
        !c.terminated,
        c.visibility is Hidden,
    ensures
        ({
            let e = LifecycleEvent::Tray(TrayMenuAction::LeftClick);
            let (c1, cmd1) = spec_handle_event(c, e);
            let (c2, cmd2) = spec_handle_event(c1, e);
            &&& c1.visibility is Visible
            &&& cmd1 == WindowCommand::ShowAndFocusWindow
            &&& c2.visibility is Hidden
            &&& cmd2 == WindowCommand::HideWindow
            &&& c2 == c
        }),
{
}

/// Law: selecting the `hide` menu item hides the window from either state.
pub proof fn lemma_hide_always_hides(c: DesktopLifecycleController)
    requires
        !c.terminated,
    ensures
        spec_handle_event(
            c,
            LifecycleEvent::Tray(TrayMenuAction::MenuItemSelected(TrayMenuItem::Hide)),
        ).0.visibility is Hidden,
{
}

/// Law: a single-instance signal shows and focuses the window whatever the
/// current visibility — in particular from `Hidden`.
pub proof fn lemma_signal_reveals_window(c: DesktopLifecycleController, e: LifecycleEvent)
    requires
        !c.terminated,
        e matches LifecycleEvent::InstanceSignal(_),
    ensures
        spec_handle_event(c, e).0.visibility is Visible,
        spec_handle_event(c, e).1 == WindowCommand::ShowAndFocusWindow,
{
}

/// Law: a terminated controller absorbs every event sequence — nothing is
/// processed after termination.
pub proof fn lemma_terminated_absorbs(c: DesktopLifecycleController, events: Seq<LifecycleEvent>)
    requires
        c.terminated,
    ensures
        spec_run(c, events) == c,
    decreases events.len(),
{
    if events.len() > 0 {
        lemma_terminated_absorbs(c, events.drop_first());
    }
}

/// Law: selecting the `quit` menu item is terminal. It commands process
/// termination, and from the resulting state no later event changes anything
/// or commands anything.
pub proof fn lemma_quit_is_terminal(c: DesktopLifecycleController, events: Seq<LifecycleEvent>)
    requires
        !c.terminated,
    ensures
        ({
            let e = LifecycleEvent::Tray(TrayMenuAction::MenuItemSelected(TrayMenuItem::Quit));
            let (after, cmd) = spec_handle_event(c, e);
            &&& cmd == WindowCommand::TerminateProcess
            &&& after.terminated
            &&& spec_run(after, events) == after
            &&& forall|later: LifecycleEvent|
                #[trigger] spec_handle_event(after, later) == (
                    after,
                    WindowCommand::NoCommand,
                )
        }),
{
    let e = LifecycleEvent::Tray(TrayMenuAction::MenuItemSelected(TrayMenuItem::Quit));
    let after = spec_handle_event(c, e).0;
    lemma_terminated_absorbs(after, events);
}

} // verus!
