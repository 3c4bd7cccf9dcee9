use std::collections::HashMap;
use vstd::prelude::*;

use crate::events::HotkeyAction;

verus! {

broadcast use vstd::std_specs::hash::group_hash_axioms;

/// A window that had the focus on some desktop: its handle, as an integer, and
/// the id of the process that owned it then.
#[derive(Debug, Clone, Copy, PartialEq, Eq, Structural)]
pub struct FocusedWindow {
    pub hwnd: isize,
    pub process_id: u32,
}

/// For each desktop (by 0-based index), the window that had the focus when the
/// user last left that desktop or last moved a window onto it.
pub struct FocusMemory {
    windows: HashMap<u32, FocusedWindow>,
}

impl View for FocusMemory {
    type V = Map<u32, FocusedWindow>;

    closed spec fn view(&self) -> Map<u32, FocusedWindow> {
        self.windows@
    }
}

/// The memory lookup as an `Option`.
pub open spec fn recalled(m: Map<u32, FocusedWindow>, desktop_index: u32) -> Option<FocusedWindow> {
    if m.contains_key(desktop_index) {
        Some(m[desktop_index])
    } else {
        None
    }
}

impl FocusMemory {
    /// A memory that holds no window.
    pub fn new() -> (r: FocusMemory)
        ensures
            r@ == Map::<u32, FocusedWindow>::empty(),
    {
        FocusMemory { windows: HashMap::new() }
    }

    /// Remembers `window` as the focused window of the desktop, replacing any
    /// earlier one.
    pub fn remember_focus_for_desktop(&mut self, desktop_index: u32, window: FocusedWindow)
        ensures
            final(self)@ == old(self)@.insert(desktop_index, window),
    {
        self.windows.insert(desktop_index, window);
    }

    /// The window remembered for the desktop, if any.
    pub fn remembered_focus_for_desktop(&self, desktop_index: u32) -> (r: Option<FocusedWindow>)
        ensures
            r == recalled(self@, desktop_index),
    {
        match self.windows.get(&desktop_index) {
            Some(window) => Some(*window),
            None => None,
        }
    }

    /// Drops the window remembered for the desktop.
    pub fn forget_focus_for_desktop(&mut self, desktop_index: u32)
        ensures
            final(self)@ == old(self)@.remove(desktop_index),
    {
        self.windows.remove(&desktop_index);
    }
}

/// Whether a remembered window can still be brought back: `current` is what
/// the system reports now for the remembered handle, the id of its process if
/// the handle names a live, visible window that belongs to some process, and
/// `None` otherwise. The window is alive when that process is still the one
/// remembered (a reused handle of another process does not count).
pub fn is_remembered_window_alive(window: FocusedWindow, current: Option<u32>) -> (r: bool)
    ensures
        r == (current == Some(window.process_id)),
{
    match current {
        Some(process_id) => process_id == window.process_id,
        None => false,
    }
}

/// The process that owns a window, from what the system reports for its
/// handle: the id of the thread that created the window (0 when the query
/// failed) and the id of that thread's process (0 when none was written).
pub fn owning_process(thread_id: u32, process_id: u32) -> (r: Option<u32>)
    ensures
        r == (if thread_id == 0 || process_id == 0 {
            None
        } else {
            Some(process_id)
        }),
{
    if thread_id == 0 || process_id == 0 {
        None
    } else {
        Some(process_id)
    }
}

/// Why a desktop action failed; the numbers are the 1-based desktop numbers of
/// the action.
#[derive(Debug, Clone, Copy, PartialEq, Eq, Structural)]
pub enum DesktopError {
    ReadDesktopCount,
    CreateDesktop,
    ReadCurrentDesktop,
    SwitchDesktop(u32),
    MoveWindow(u32),
}

/// The outside work that a running desktop action asks for next.
#[derive(Debug, Clone, Copy, PartialEq, Eq)]
pub enum DesktopCommand {
    /// Read how many virtual desktops exist; answer `DesktopCount`.
    ReadDesktopCount,
    /// Create one more virtual desktop; answer `DesktopCreated`.
    CreateDesktop,
    /// Read the index of the current desktop; answer `CurrentDesktop`.
    ReadCurrentDesktop,
    /// Read the foreground window; answer `ForegroundWindow`.
    ReadForegroundWindow,
    /// Move the window to the desktop; answer `WindowMoved`.
    MoveWindow { hwnd: isize, desktop_index: u32 },
    /// Read the id of the process that owns the window; answer `WindowProcess`.
    ReadWindowProcess { hwnd: isize },
    /// Switch to the desktop; answer `DesktopSwitched`.
    SwitchDesktop { desktop_index: u32 },
    /// Wait briefly for the switch to settle, then look the window up again;
    /// answer `WindowProbed`.
    ProbeWindow { hwnd: isize },
    /// Ask whether the window lies on the desktop; answer `WindowOnDesktop`.
    CheckWindowOnDesktop { hwnd: isize, desktop_index: u32 },
    /// Bring the window to the foreground; answer `WindowFocused`.
    FocusWindow { hwnd: isize, desktop_index: u32 },
    /// The action is over, with this outcome.
    Finish(Result<(), DesktopError>),
}

/// The outcome of the outside work that a `DesktopCommand` asked for.
#[derive(Debug, Clone, Copy, PartialEq, Eq)]
pub enum DesktopEvent {
    /// The number of desktops, or `None` when it could not be read.
    DesktopCount(Option<u32>),
    /// Whether a desktop was created.
    DesktopCreated(bool),
    /// The index of the current desktop, or `None` when it could not be read.
    CurrentDesktop(Option<u32>),
    /// The foreground window with the id of its process, when there is one
    /// that is a live, visible window belonging to some process. That id is
    /// the one remembered with it for the desktop being left.
    ForegroundWindow(Option<FocusedWindow>),
    /// Whether the window was moved.
    WindowMoved(bool),
    /// The id of the process that owns the window, or `None` when the handle
    /// names no window or its process cannot be read.
    WindowProcess(Option<u32>),
    /// Whether the switch succeeded.
    DesktopSwitched(bool),
    /// What the system now reports for the handle (see `is_remembered_window_alive`).
    WindowProbed(Option<u32>),
    /// Whether the window lies on the desktop, or `None` when that could not be read.
    WindowOnDesktop(Option<bool>),
    /// Whether the window came to the foreground.
    WindowFocused(bool),
}

/// Where a running desktop action stands.
#[derive(Debug, Clone, Copy, PartialEq, Eq)]
pub enum DesktopPhase {
    /// Making sure the target desktop exists: waiting for the desktop count.
    CountingDesktops { action: HotkeyAction },
    /// Making sure the target desktop exists: waiting for a new desktop.
    CreatingDesktop { action: HotkeyAction },
    /// Waiting for the window that is to be moved.
    ReadingFocused { action: HotkeyAction },
    /// Remembering the focus of the desktop being left: waiting for its index.
    ReadingCurrentDesktop { action: HotkeyAction, moving: Option<FocusedWindow> },
    /// Remembering the focus of the desktop being left: waiting for its window.
    ReadingCurrentFocus { action: HotkeyAction, moving: Option<FocusedWindow>, current: u32 },
    /// Waiting for the window to be moved to the target desktop.
    MovingWindow { action: HotkeyAction, window: FocusedWindow },
    /// The window was moved: waiting for the id of its process, with which it
    /// is remembered for the target (when there is one).
    RememberingMoved { action: HotkeyAction, hwnd: isize },
    /// Waiting for the switch to the target desktop.
    Switching { action: HotkeyAction },
    /// Refocusing: waiting to learn whether the remembered window is alive.
    Probing { target: u32, window: FocusedWindow },
    /// Refocusing: waiting to learn whether the window lies on the target.
    CheckingDesktop { target: u32, window: FocusedWindow },
    /// Refocusing: waiting for the window to come to the foreground.
    Focusing,
    /// The action is over.
    Done,
}

/// The 1-based desktop number that an action names.
pub open spec fn action_number(action: HotkeyAction) -> u32 {
    match action {
        HotkeyAction::SwitchToDesktop(n) => n,
        HotkeyAction::MoveFocusedAndSwitch(n) => n,
    }
}

/// The 0-based index of the desktop that an action names.
pub open spec fn action_target(action: HotkeyAction) -> u32 {
    (action_number(action) - 1) as u32
}

pub open spec fn finished_ok() -> DesktopCommand {
    DesktopCommand::Finish(Ok(()))
}

pub open spec fn failed(e: DesktopError) -> DesktopCommand {
    DesktopCommand::Finish(Err(e))
}

/// How an action begins: the desktop number 0 names no desktop and the action
/// is over at once; otherwise it first makes sure the target desktop exists.
pub open spec fn start_spec(action: HotkeyAction) -> (DesktopPhase, DesktopCommand) {
    if action_number(action) == 0 {
        (DesktopPhase::Done, finished_ok())
    } else {
        (DesktopPhase::CountingDesktops { action }, DesktopCommand::ReadDesktopCount)
    }
}

/// Once the target desktop exists: a move first reads the window to move; a
/// switch goes on to remember the focus of the desktop being left.
pub open spec fn after_ensure(action: HotkeyAction) -> (DesktopPhase, DesktopCommand) {
    match action {
        HotkeyAction::MoveFocusedAndSwitch(_) => (
            DesktopPhase::ReadingFocused { action },
            DesktopCommand::ReadForegroundWindow,
        ),
        HotkeyAction::SwitchToDesktop(_) => (
            DesktopPhase::ReadingCurrentDesktop { action, moving: None },
            DesktopCommand::ReadCurrentDesktop,
        ),
    }
}

/// After the switch: bring back the window remembered for the target, if any.
pub open spec fn refocus_spec(target: u32, mem: Map<u32, FocusedWindow>) -> (DesktopPhase, DesktopCommand) {
    if mem.contains_key(target) {
        (
            DesktopPhase::Probing { target, window: mem[target] },
            DesktopCommand::ProbeWindow { hwnd: mem[target].hwnd },
        )
    } else {
        (DesktopPhase::Done, finished_ok())
    }
}

/// Whether the phase waits for an event of this kind.
pub open spec fn accepts_event(phase: DesktopPhase, e: DesktopEvent) -> bool {
    match phase {
        DesktopPhase::CountingDesktops { .. } => e is DesktopCount,
        DesktopPhase::CreatingDesktop { .. } => e is DesktopCreated,
        DesktopPhase::ReadingFocused { .. } => e is ForegroundWindow,
        DesktopPhase::ReadingCurrentDesktop { .. } => e is CurrentDesktop,
        DesktopPhase::ReadingCurrentFocus { .. } => e is ForegroundWindow,
        DesktopPhase::MovingWindow { .. } => e is WindowMoved,
        DesktopPhase::RememberingMoved { .. } => e is WindowProcess,
        DesktopPhase::Switching { .. } => e is DesktopSwitched,
        DesktopPhase::Probing { .. } => e is WindowProbed,
        DesktopPhase::CheckingDesktop { .. } => e is WindowOnDesktop,
        DesktopPhase::Focusing => e is WindowFocused,
        DesktopPhase::Done => false,
    }
}

/// One transition of a desktop action: the next phase, the focus memory after
/// it, and the next command. (On an event that the phase does not wait for,
/// the value is of no meaning; `DesktopTask::step` is never called so.)
pub open spec fn desktop_step(
    phase: DesktopPhase,
    mem: Map<u32, FocusedWindow>,
    e: DesktopEvent,
) -> (DesktopPhase, Map<u32, FocusedWindow>, DesktopCommand) {
    match phase {
        DesktopPhase::CountingDesktops { action } => match e {
            DesktopEvent::DesktopCount(Some(count)) => if action_target(action) < count {
                (after_ensure(action).0, mem, after_ensure(action).1)
            } else {
                (DesktopPhase::CreatingDesktop { action }, mem, DesktopCommand::CreateDesktop)
            },
            _ => (DesktopPhase::Done, mem, failed(DesktopError::ReadDesktopCount)),
        },
        DesktopPhase::CreatingDesktop { action } => match e {
            DesktopEvent::DesktopCreated(true) => (
                DesktopPhase::CountingDesktops { action },
                mem,
                DesktopCommand::ReadDesktopCount,
            ),
            _ => (DesktopPhase::Done, mem, failed(DesktopError::CreateDesktop)),
        },
        DesktopPhase::ReadingFocused { action } => match e {
            DesktopEvent::ForegroundWindow(Some(w)) => (
                DesktopPhase::ReadingCurrentDesktop { action, moving: Some(w) },
                mem,
                DesktopCommand::ReadCurrentDesktop,
            ),
            _ => (DesktopPhase::Done, mem, finished_ok()),
        },
        DesktopPhase::ReadingCurrentDesktop { action, moving } => match e {
            DesktopEvent::CurrentDesktop(Some(current)) => (
                DesktopPhase::ReadingCurrentFocus { action, moving, current },
                mem,
                DesktopCommand::ReadForegroundWindow,
            ),
            _ => (DesktopPhase::Done, mem, failed(DesktopError::ReadCurrentDesktop)),
        },
        DesktopPhase::ReadingCurrentFocus { action, moving, current } => {
            let mem2 = match e {
                DesktopEvent::ForegroundWindow(Some(w)) => mem.insert(current, w),
                _ => mem,
            };
            match moving {
                Some(w) => (
                    DesktopPhase::MovingWindow { action, window: w },
                    mem2,
                    DesktopCommand::MoveWindow { hwnd: w.hwnd, desktop_index: action_target(action) },
                ),
                None => (
                    DesktopPhase::Switching { action },
                    mem2,
                    DesktopCommand::SwitchDesktop { desktop_index: action_target(action) },
                ),
            }
        },
        DesktopPhase::MovingWindow { action, window } => match e {
            DesktopEvent::WindowMoved(true) => (
                DesktopPhase::RememberingMoved { action, hwnd: window.hwnd },
                mem,
                DesktopCommand::ReadWindowProcess { hwnd: window.hwnd },
            ),
            _ => (DesktopPhase::Done, mem, failed(DesktopError::MoveWindow(action_number(action)))),
        },
        DesktopPhase::RememberingMoved { action, hwnd } => (
            DesktopPhase::Switching { action },
            match e {
                DesktopEvent::WindowProcess(Some(process_id)) => mem.insert(
                    action_target(action),
                    FocusedWindow { hwnd, process_id },
                ),
                _ => mem,
            },
            DesktopCommand::SwitchDesktop { desktop_index: action_target(action) },
        ),
        DesktopPhase::Switching { action } => match e {
            DesktopEvent::DesktopSwitched(true) => (
                refocus_spec(action_target(action), mem).0,
                mem,
                refocus_spec(action_target(action), mem).1,
            ),
            _ => (DesktopPhase::Done, mem, failed(DesktopError::SwitchDesktop(action_number(action)))),
        },
        DesktopPhase::Probing { target, window } => match e {
            DesktopEvent::WindowProbed(current) => if current == Some(window.process_id) {
                (
                    DesktopPhase::CheckingDesktop { target, window },
                    mem,
                    DesktopCommand::CheckWindowOnDesktop { hwnd: window.hwnd, desktop_index: target },
                )
            } else {
                (DesktopPhase::Done, mem.remove(target), finished_ok())
            },
            _ => (DesktopPhase::Done, mem, finished_ok()),
        },
        DesktopPhase::CheckingDesktop { target, window } => match e {
            DesktopEvent::WindowOnDesktop(Some(true)) => (
                DesktopPhase::Focusing,
                mem,
                DesktopCommand::FocusWindow { hwnd: window.hwnd, desktop_index: target },
            ),
            _ => (DesktopPhase::Done, mem.remove(target), finished_ok()),
        },
        DesktopPhase::Focusing => (DesktopPhase::Done, mem, finished_ok()),
        DesktopPhase::Done => (DesktopPhase::Done, mem, finished_ok()),
    }
}

/// A desktop action in progress.
pub struct DesktopTask {
    phase: DesktopPhase,
}

impl View for DesktopTask {
    type V = DesktopPhase;

    closed spec fn view(&self) -> DesktopPhase {
        self.phase
    }
}

/// Starts carrying out a hotkey action on the virtual desktops: returns the
/// running action and its first command. Answer each command with the event
/// it names, through `DesktopTask::step`, until the command is `Finish`.
pub fn execute(action: HotkeyAction) -> (r: (DesktopTask, DesktopCommand))
    ensures
        (r.0@, r.1) == start_spec(action),
{
    let number = match action {
        HotkeyAction::SwitchToDesktop(n) => n,
        HotkeyAction::MoveFocusedAndSwitch(n) => n,
    };
    if number == 0 {
        (DesktopTask { phase: DesktopPhase::Done }, DesktopCommand::Finish(Ok(())))
    } else {
        (DesktopTask { phase: DesktopPhase::CountingDesktops { action } }, DesktopCommand::ReadDesktopCount)
    }
}

fn target_of(action: HotkeyAction) -> (r: u32)
    requires
        action_number(action) >= 1,
    ensures
        r == action_target(action),
{
    match action {
        HotkeyAction::SwitchToDesktop(n) => n - 1,
        HotkeyAction::MoveFocusedAndSwitch(n) => n - 1,
    }
}

fn number_of(action: HotkeyAction) -> (r: u32)
    ensures
        r == action_number(action),
{
    match action {
        HotkeyAction::SwitchToDesktop(n) => n,
        HotkeyAction::MoveFocusedAndSwitch(n) => n,
    }
}

/// The phases that carry an action all carry one with a desktop number of at
/// least 1.
pub open spec fn phase_wf(phase: DesktopPhase) -> bool {
    match phase {
        DesktopPhase::CountingDesktops { action } => action_number(action) >= 1,
        DesktopPhase::CreatingDesktop { action } => action_number(action) >= 1,
        DesktopPhase::ReadingFocused { action } => action_number(action) >= 1,
        DesktopPhase::ReadingCurrentDesktop { action, .. } => action_number(action) >= 1,
        DesktopPhase::ReadingCurrentFocus { action, .. } => action_number(action) >= 1,
        DesktopPhase::MovingWindow { action, .. } => action_number(action) >= 1,
        DesktopPhase::RememberingMoved { action, .. } => action_number(action) >= 1,
        DesktopPhase::Switching { action } => action_number(action) >= 1,
        _ => true,
    }
}

impl DesktopTask {
    #[verifier::type_invariant]
    spec fn inv(self) -> bool {
        phase_wf(self.phase)
    }

    /// Whether the action is over.
    pub fn is_done(&self) -> (r: bool)
        ensures
            r == (self@ is Done),
    {
        match self.phase {
            DesktopPhase::Done => true,
            _ => false,
        }
    }

    /// Whether the action waits for an event of this kind (the one that its
    /// last command names).
    pub fn accepts(&self, event: &DesktopEvent) -> (r: bool)
        ensures
            r == accepts_event(self@, *event),
    {
        match self.phase {
            DesktopPhase::CountingDesktops { .. } => matches!(event, DesktopEvent::DesktopCount(_)),
            DesktopPhase::CreatingDesktop { .. } => matches!(event, DesktopEvent::DesktopCreated(_)),
            DesktopPhase::ReadingFocused { .. } => matches!(event, DesktopEvent::ForegroundWindow(_)),
            DesktopPhase::ReadingCurrentDesktop { .. } => matches!(event, DesktopEvent::CurrentDesktop(_)),
            DesktopPhase::ReadingCurrentFocus { .. } => matches!(event, DesktopEvent::ForegroundWindow(_)),
            DesktopPhase::MovingWindow { .. } => matches!(event, DesktopEvent::WindowMoved(_)),
            DesktopPhase::RememberingMoved { .. } => matches!(event, DesktopEvent::WindowProcess(_)),
            DesktopPhase::Switching { .. } => matches!(event, DesktopEvent::DesktopSwitched(_)),
            DesktopPhase::Probing { .. } => matches!(event, DesktopEvent::WindowProbed(_)),
            DesktopPhase::CheckingDesktop { .. } => matches!(event, DesktopEvent::WindowOnDesktop(_)),
            DesktopPhase::Focusing => matches!(event, DesktopEvent::WindowFocused(_)),
            DesktopPhase::Done => false,
        }
    }

    /// Answers the last command with its outcome: updates the focus memory as
    /// the action requires and returns the next command.
    pub fn step(&mut self, memory: &mut FocusMemory, event: DesktopEvent) -> (r: DesktopCommand)
        requires
            accepts_event(old(self)@, event),
        ensures
            (final(self)@, final(memory)@, r) == desktop_step(old(self)@, old(memory)@, event),
    {
        proof {
            use_type_invariant(&*self);
        }
        let (next, command) = match self.phase {
            DesktopPhase::CountingDesktops { action } => match event {
                DesktopEvent::DesktopCount(Some(count)) => {
                    if target_of(action) < count {
                        match action {
                            HotkeyAction::MoveFocusedAndSwitch(_) => (
                                DesktopPhase::ReadingFocused { action },
                                DesktopCommand::ReadForegroundWindow,
                            ),
                            HotkeyAction::SwitchToDesktop(_) => (
                                DesktopPhase::ReadingCurrentDesktop { action, moving: None },
                                DesktopCommand::ReadCurrentDesktop,
                            ),
                        }
                    } else {
                        (DesktopPhase::CreatingDesktop { action }, DesktopCommand::CreateDesktop)
                    }
                },
                _ => (DesktopPhase::Done, DesktopCommand::Finish(Err(DesktopError::ReadDesktopCount))),
            },
            DesktopPhase::CreatingDesktop { action } => match event {
                DesktopEvent::DesktopCreated(true) => (
                    DesktopPhase::CountingDesktops { action },
                    DesktopCommand::ReadDesktopCount,
                ),
                _ => (DesktopPhase::Done, DesktopCommand::Finish(Err(DesktopError::CreateDesktop))),
            },
            DesktopPhase::ReadingFocused { action } => match event {
                DesktopEvent::ForegroundWindow(Some(w)) => (
                    DesktopPhase::ReadingCurrentDesktop { action, moving: Some(w) },
                    DesktopCommand::ReadCurrentDesktop,
                ),
                _ => (DesktopPhase::Done, DesktopCommand::Finish(Ok(()))),
            },
            DesktopPhase::ReadingCurrentDesktop { action, moving } => match event {
                DesktopEvent::CurrentDesktop(Some(current)) => (
                    DesktopPhase::ReadingCurrentFocus { action, moving, current },
                    DesktopCommand::ReadForegroundWindow,
                ),
                _ => (DesktopPhase::Done, DesktopCommand::Finish(Err(DesktopError::ReadCurrentDesktop))),
            },
            DesktopPhase::ReadingCurrentFocus { action, moving, current } => {
                if let DesktopEvent::ForegroundWindow(Some(w)) = event {
                    memory.remember_focus_for_desktop(current, w);
                }
                let target = target_of(action);
                match moving {
                    Some(w) => (
                        DesktopPhase::MovingWindow { action, window: w },
                        DesktopCommand::MoveWindow { hwnd: w.hwnd, desktop_index: target },
                    ),
                    None => (
                        DesktopPhase::Switching { action },
                        DesktopCommand::SwitchDesktop { desktop_index: target },
                    ),
                }
            },
            DesktopPhase::MovingWindow { action, window } => match event {
                DesktopEvent::WindowMoved(true) => (
                    DesktopPhase::RememberingMoved { action, hwnd: window.hwnd },
                    DesktopCommand::ReadWindowProcess { hwnd: window.hwnd },
                ),
                _ => (
                    DesktopPhase::Done,
                    DesktopCommand::Finish(Err(DesktopError::MoveWindow(number_of(action)))),
                ),
            },
            DesktopPhase::RememberingMoved { action, hwnd } => {
                let target = target_of(action);
                if let DesktopEvent::WindowProcess(Some(process_id)) = event {
                    memory.remember_focus_for_desktop(target, FocusedWindow { hwnd, process_id });
                }
                (DesktopPhase::Switching { action }, DesktopCommand::SwitchDesktop { desktop_index: target })
            },
            DesktopPhase::Switching { action } => match event {
                DesktopEvent::DesktopSwitched(true) => {
                    let target = target_of(action);
                    match memory.remembered_focus_for_desktop(target) {
                        Some(window) => (
                            DesktopPhase::Probing { target, window },
                            DesktopCommand::ProbeWindow { hwnd: window.hwnd },
                        ),
                        None => (DesktopPhase::Done, DesktopCommand::Finish(Ok(()))),
                    }
                },
                _ => (
                    DesktopPhase::Done,
                    DesktopCommand::Finish(Err(DesktopError::SwitchDesktop(number_of(action)))),
                ),
            },
            DesktopPhase::Probing { target, window } => match event {
                DesktopEvent::WindowProbed(current) => {
                    if is_remembered_window_alive(window, current) {
                        (
                            DesktopPhase::CheckingDesktop { target, window },
                            DesktopCommand::CheckWindowOnDesktop { hwnd: window.hwnd, desktop_index: target },
                        )
                    } else {
                        memory.forget_focus_for_desktop(target);
                        (DesktopPhase::Done, DesktopCommand::Finish(Ok(())))
                    }
                },
                _ => (DesktopPhase::Done, DesktopCommand::Finish(Ok(()))),
            },
            DesktopPhase::CheckingDesktop { target, window } => match event {
                DesktopEvent::WindowOnDesktop(Some(true)) => (
                    DesktopPhase::Focusing,
                    DesktopCommand::FocusWindow { hwnd: window.hwnd, desktop_index: target },
                ),
                _ => {
                    memory.forget_focus_for_desktop(target);
                    (DesktopPhase::Done, DesktopCommand::Finish(Ok(())))
                },
            },
            DesktopPhase::Focusing => (DesktopPhase::Done, DesktopCommand::Finish(Ok(()))),
            DesktopPhase::Done => (DesktopPhase::Done, DesktopCommand::Finish(Ok(()))),
        };
        self.phase = next;
        command
    }
}


/// A run of a desktop action: the phase and focus memory after answering the
/// events in order, and the commands that the answers produced.
pub open spec fn run_task(
    phase: DesktopPhase,
    mem: Map<u32, FocusedWindow>,
    events: Seq<DesktopEvent>,
) -> (DesktopPhase, Map<u32, FocusedWindow>, Seq<DesktopCommand>)
    decreases events.len(),
{
    if events.len() == 0 {
        (phase, mem, Seq::<DesktopCommand>::empty())
    } else {
        let next = desktop_step(phase, mem, events[0]);
        let rest = run_task(next.0, next.1, events.drop_first());
        (rest.0, rest.1, seq![next.2] + rest.2)
    }
}

/// The commands that switch to a desktop or move a window onto one.
pub open spec fn command_desktop(c: DesktopCommand) -> Option<u32> {
    match c {
        DesktopCommand::SwitchDesktop { desktop_index } => Some(desktop_index),
        DesktopCommand::MoveWindow { desktop_index, .. } => Some(desktop_index),
        _ => None,
    }
}

/// The event reports more desktops than `target`, so that the desktop with
/// that index exists.
pub open spec fn counts_beyond(e: DesktopEvent, target: u32) -> bool {
    match e {
        DesktopEvent::DesktopCount(Some(c)) => target < c,
        _ => false,
    }
}

/// Among the first `n` events there is a desktop count above `target`.
pub open spec fn count_seen(events: Seq<DesktopEvent>, n: int, target: u32) -> bool {
    exists|i: int|
        0 <= i < n && counts_beyond(#[trigger] events[i], target)
}

/// The phases that come after the target desktop was found to exist.
pub open spec fn past_ensure(phase: DesktopPhase) -> bool {
    match phase {
        DesktopPhase::ReadingFocused { .. } => true,
        DesktopPhase::ReadingCurrentDesktop { .. } => true,
        DesktopPhase::ReadingCurrentFocus { .. } => true,
        DesktopPhase::MovingWindow { .. } => true,
        DesktopPhase::RememberingMoved { .. } => true,
        DesktopPhase::Switching { .. } => true,
        _ => false,
    }
}

/// The action that a phase carries, if it carries one.
pub open spec fn phase_action(phase: DesktopPhase) -> Option<HotkeyAction> {
    match phase {
        DesktopPhase::CountingDesktops { action } => Some(action),
        DesktopPhase::CreatingDesktop { action } => Some(action),
        DesktopPhase::ReadingFocused { action } => Some(action),
        DesktopPhase::ReadingCurrentDesktop { action, .. } => Some(action),
        DesktopPhase::ReadingCurrentFocus { action, .. } => Some(action),
        DesktopPhase::MovingWindow { action, .. } => Some(action),
        DesktopPhase::RememberingMoved { action, .. } => Some(action),
        DesktopPhase::Switching { action } => Some(action),
        _ => None,
    }
}

proof fn lemma_run_ensures_target(
    phase: DesktopPhase,
    mem: Map<u32, FocusedWindow>,
    events: Seq<DesktopEvent>,
    action: HotkeyAction,
    seen: bool,
)
    requires
        phase_action(phase) is None || phase_action(phase) == Some(action),
        past_ensure(phase) ==> seen,
    ensures
        run_task(phase, mem, events).2.len() == events.len(),
        forall|j: int|
            0 <= j < run_task(phase, mem, events).2.len() && (#[trigger] command_desktop(
                run_task(phase, mem, events).2[j],
            )) is Some ==> {
                &&& command_desktop(run_task(phase, mem, events).2[j]) == Some(action_target(action))
                &&& seen || count_seen(events, j + 1, action_target(action))
            },
    decreases events.len(),
{
    if events.len() > 0 {
        let next = desktop_step(phase, mem, events[0]);
        let rest_events = events.drop_first();
        let seen2 = seen || count_seen(events, 1, action_target(action));
        assert(past_ensure(next.0) ==> seen2) by {
            if past_ensure(next.0) && !past_ensure(phase) {
                assert(counts_beyond(events[0], action_target(action)));
            }
        }
        lemma_run_ensures_target(next.0, next.1, rest_events, action, seen2);
        let cmds = run_task(phase, mem, events).2;
        let rest = run_task(next.0, next.1, rest_events).2;
        assert forall|j: int|
            0 <= j < cmds.len() && (#[trigger] command_desktop(cmds[j])) is Some implies {
                &&& command_desktop(cmds[j]) == Some(action_target(action))
                &&& seen || count_seen(events, j + 1, action_target(action))
            } by {
            if j == 0 {
                assert(cmds[0] == next.2);
            } else {
                assert(cmds[j] == rest[j - 1]);
                assert(command_desktop(rest[j - 1]) is Some);
                if !seen && !count_seen(events, 1, action_target(action)) {
                    assert(count_seen(rest_events, j, action_target(action)));
                    let i = choose|i: int|
                        0 <= i < j && counts_beyond(#[trigger] rest_events[i], action_target(action));
                    assert(events[i + 1] == rest_events[i]);
                } else if !seen {
                    let i = choose|i: int|
                        0 <= i < 1 && counts_beyond(#[trigger] events[i], action_target(action));
                    assert(counts_beyond(events[i], action_target(action)));
                }
            }
        }
    }
}

/// A desktop action only acts on the desktop it names, and only once that
/// desktop is known to exist: in every run started by `execute`, each command
/// that switches to a desktop or moves a window onto one names the action's
/// target, and comes after an answer that counted more desktops than its index.
pub proof fn law_target_exists_before_use(
    action: HotkeyAction,
    mem: Map<u32, FocusedWindow>,
    events: Seq<DesktopEvent>,
)
    ensures
        forall|j: int|
            0 <= j < run_task(start_spec(action).0, mem, events).2.len() && (#[trigger] command_desktop(
                run_task(start_spec(action).0, mem, events).2[j],
            )) is Some ==> {
                &&& command_desktop(run_task(start_spec(action).0, mem, events).2[j]) == Some(
                    action_target(action),
                )
                &&& count_seen(events, j + 1, action_target(action))
            },
{
    lemma_run_ensures_target(start_spec(action).0, mem, events, action, false);
}

/// The desktop number 0 names no desktop: the action is over at once, with
/// success, before any outside work.
pub proof fn law_number_zero_does_nothing(action: HotkeyAction)
    requires
        action_number(action) == 0,
    ensures
        start_spec(action) == (DesktopPhase::Done, finished_ok()),
{
}

/// An action is over exactly when its command is `Finish`.
pub proof fn law_finish_ends(phase: DesktopPhase, mem: Map<u32, FocusedWindow>, e: DesktopEvent)
    ensures
        (desktop_step(phase, mem, e).2 is Finish) <==> (desktop_step(phase, mem, e).0 is Done),
{
}

/// The desktop whose entry in the focus memory a phase may change.
pub open spec fn touched_desktop(phase: DesktopPhase) -> Option<u32> {
    match phase {
        DesktopPhase::ReadingCurrentFocus { current, .. } => Some(current),
        DesktopPhase::RememberingMoved { action, .. } => Some(action_target(action)),
        DesktopPhase::Probing { target, .. } => Some(target),
        DesktopPhase::CheckingDesktop { target, .. } => Some(target),
        _ => None,
    }
}

/// Each step changes the focus memory in at most one entry: that of the
/// desktop being left (when its focus is remembered) or that of the target.
pub proof fn law_memory_changes_locally(phase: DesktopPhase, mem: Map<u32, FocusedWindow>, e: DesktopEvent)
    ensures
        forall|k: u32|
            touched_desktop(phase) != Some(k) ==> recalled(#[trigger] desktop_step(phase, mem, e).1, k)
                == recalled(mem, k),
{
}

proof fn lemma_run_one(phase: DesktopPhase, mem: Map<u32, FocusedWindow>, e: DesktopEvent)
    ensures
        run_task(phase, mem, seq![e]) == (
            desktop_step(phase, mem, e).0,
            desktop_step(phase, mem, e).1,
            seq![desktop_step(phase, mem, e).2],
        ),
{
    let next = desktop_step(phase, mem, e);
    assert(seq![e].drop_first() =~= Seq::<DesktopEvent>::empty());
    assert(run_task(next.0, next.1, Seq::<DesktopEvent>::empty()).2 =~= Seq::<DesktopCommand>::empty());
    assert(seq![next.2] + Seq::<DesktopCommand>::empty() =~= seq![next.2]);
}

proof fn lemma_run_prepend(
    phase: DesktopPhase,
    mem: Map<u32, FocusedWindow>,
    e: DesktopEvent,
    rest: Seq<DesktopEvent>,
)
    ensures
        ({
            let next = desktop_step(phase, mem, e);
            let tail = run_task(next.0, next.1, rest);
            run_task(phase, mem, seq![e] + rest) == (tail.0, tail.1, seq![next.2] + tail.2)
        }),
{
    assert((seq![e] + rest).drop_first() =~= rest);
    assert((seq![e] + rest)[0] == e);
}

/// Switching to a desktop remembers the focused window of the desktop being
/// left and then turns to the window remembered for the target.
pub proof fn law_switch_remembers_and_refocuses(
    number: u32,
    count: u32,
    current: u32,
    focus: Option<FocusedWindow>,
    mem: Map<u32, FocusedWindow>,
)
    requires
        number >= 1,
        number - 1 < count,
    ensures
        ({
            let run = run_task(
                start_spec(HotkeyAction::SwitchToDesktop(number)).0,
                mem,
                seq![
                    DesktopEvent::DesktopCount(Some(count)),
                    DesktopEvent::CurrentDesktop(Some(current)),
                    DesktopEvent::ForegroundWindow(focus),
                    DesktopEvent::DesktopSwitched(true),
                ],
            );
            let left = match focus {
                Some(w) => mem.insert(current, w),
                None => mem,
            };
            &&& run.1 == left
            &&& run.2 == seq![
                DesktopCommand::ReadCurrentDesktop,
                DesktopCommand::ReadForegroundWindow,
                DesktopCommand::SwitchDesktop { desktop_index: (number - 1) as u32 },
                refocus_spec((number - 1) as u32, left).1,
            ]
            &&& run.0 == refocus_spec((number - 1) as u32, left).0
        }),
{
    let ev0 = DesktopEvent::DesktopCount(Some(count));
    let ev1 = DesktopEvent::CurrentDesktop(Some(current));
    let ev2 = DesktopEvent::ForegroundWindow(focus);
    let ev3 = DesktopEvent::DesktopSwitched(true);
    let p0 = start_spec(HotkeyAction::SwitchToDesktop(number)).0;
    let s1 = desktop_step(p0, mem, ev0);
    let s2 = desktop_step(s1.0, s1.1, ev1);
    let s3 = desktop_step(s2.0, s2.1, ev2);
    lemma_run_one(s3.0, s3.1, ev3);
    lemma_run_prepend(s2.0, s2.1, ev2, seq![ev3]);
    lemma_run_prepend(s1.0, s1.1, ev1, seq![ev2] + seq![ev3]);
    lemma_run_prepend(p0, mem, ev0, seq![ev1] + (seq![ev2] + seq![ev3]));
    assert(seq![ev0, ev1, ev2, ev3] =~= seq![ev0] + (seq![ev1] + (seq![ev2] + seq![ev3])));
    let s4 = desktop_step(s3.0, s3.1, ev3);
    assert(run_task(p0, mem, seq![ev0, ev1, ev2, ev3]).2 =~= seq![s1.2, s2.2, s3.2, s4.2]);
}

/// Moving the focused window to a desktop and following it: the desktop being
/// left keeps its focused window; after the move the window is remembered for
/// the target with the process that owns it then, so that it is the window
/// brought back there (even when it was taken from that very desktop); when no
/// process owns it any more, the memory is left as it was.
pub proof fn law_moved_window_follows(
    number: u32,
    count: u32,
    window: FocusedWindow,
    current: u32,
    focus: Option<FocusedWindow>,
    owner: Option<u32>,
    mem: Map<u32, FocusedWindow>,
)
    requires
        number >= 1,
        number - 1 < count,
    ensures
        ({
            let target = (number - 1) as u32;
            let run = run_task(
                start_spec(HotkeyAction::MoveFocusedAndSwitch(number)).0,
                mem,
                seq![
                    DesktopEvent::DesktopCount(Some(count)),
                    DesktopEvent::ForegroundWindow(Some(window)),
                    DesktopEvent::CurrentDesktop(Some(current)),
                    DesktopEvent::ForegroundWindow(focus),
                    DesktopEvent::WindowMoved(true),
                    DesktopEvent::WindowProcess(owner),
                    DesktopEvent::DesktopSwitched(true),
                ],
            );
            let left = match focus {
                Some(w) => mem.insert(current, w),
                None => mem,
            };
            let after = match owner {
                Some(process_id) => left.insert(target, FocusedWindow { hwnd: window.hwnd, process_id }),
                None => left,
            };
            &&& run.1 == after
            &&& run.2 == seq![
                DesktopCommand::ReadForegroundWindow,
                DesktopCommand::ReadCurrentDesktop,
                DesktopCommand::ReadForegroundWindow,
                DesktopCommand::MoveWindow { hwnd: window.hwnd, desktop_index: target },
                DesktopCommand::ReadWindowProcess { hwnd: window.hwnd },
                DesktopCommand::SwitchDesktop { desktop_index: target },
                refocus_spec(target, after).1,
            ]
            &&& run.0 == refocus_spec(target, after).0
            &&& (owner matches Some(process_id) ==> run.2.last() == (DesktopCommand::ProbeWindow {
                hwnd: window.hwnd,
            }) && recalled(run.1, target) == Some(FocusedWindow { hwnd: window.hwnd, process_id }))
        }),
{
    let ev0 = DesktopEvent::DesktopCount(Some(count));
    let ev1 = DesktopEvent::ForegroundWindow(Some(window));
    let ev2 = DesktopEvent::CurrentDesktop(Some(current));
    let ev3 = DesktopEvent::ForegroundWindow(focus);
    let ev4 = DesktopEvent::WindowMoved(true);
    let ev5 = DesktopEvent::WindowProcess(owner);
    let ev6 = DesktopEvent::DesktopSwitched(true);
    let p0 = start_spec(HotkeyAction::MoveFocusedAndSwitch(number)).0;
    let s1 = desktop_step(p0, mem, ev0);
    let s2 = desktop_step(s1.0, s1.1, ev1);
    let s3 = desktop_step(s2.0, s2.1, ev2);
    let s4 = desktop_step(s3.0, s3.1, ev3);
    let s5 = desktop_step(s4.0, s4.1, ev4);
    let s6 = desktop_step(s5.0, s5.1, ev5);
    let s7 = desktop_step(s6.0, s6.1, ev6);
    let t6 = seq![ev6];
    let t5 = seq![ev5] + t6;
    let t4 = seq![ev4] + t5;
    let t3 = seq![ev3] + t4;
    let t2 = seq![ev2] + t3;
    let t1 = seq![ev1] + t2;
    let t0 = seq![ev0] + t1;
    lemma_run_one(s6.0, s6.1, ev6);
    lemma_run_prepend(s5.0, s5.1, ev5, t6);
    lemma_run_prepend(s4.0, s4.1, ev4, t5);
    lemma_run_prepend(s3.0, s3.1, ev3, t4);
    lemma_run_prepend(s2.0, s2.1, ev2, t3);
    lemma_run_prepend(s1.0, s1.1, ev1, t2);
    lemma_run_prepend(p0, mem, ev0, t1);
    assert(seq![ev0, ev1, ev2, ev3, ev4, ev5, ev6] =~= t0);
    assert(run_task(p0, mem, t0).2 =~= seq![s1.2, s2.2, s3.2, s4.2, s5.2, s6.2, s7.2]);
}

/// Bringing back a remembered window: it keeps its place in the memory exactly
/// when it is still alive and still lies on the target desktop, and only then
/// is it focused; otherwise it is forgotten and the action ends.
pub proof fn law_refocus_keeps_only_live_windows(
    target: u32,
    window: FocusedWindow,
    current: Option<u32>,
    on_desktop: Option<bool>,
    focused: bool,
    mem: Map<u32, FocusedWindow>,
)
    ensures
        ({
            let alive = current == Some(window.process_id);
            let events = if alive {
                seq![
                    DesktopEvent::WindowProbed(current),
                    DesktopEvent::WindowOnDesktop(on_desktop),
                    DesktopEvent::WindowFocused(focused),
                ]
            } else {
                seq![DesktopEvent::WindowProbed(current)]
            };
            let run = run_task(DesktopPhase::Probing { target, window }, mem, events);
            let keep = alive && on_desktop == Some(true);
            &&& run.0 is Done
            &&& run.1 == if keep { mem } else { mem.remove(target) }
            &&& run.2.last() == finished_ok()
            &&& (keep <==> run.2.contains(DesktopCommand::FocusWindow { hwnd: window.hwnd, desktop_index: target }))
        }),
{
    let alive = current == Some(window.process_id);
    let p0 = DesktopPhase::Probing { target, window };
    let focus_cmd = DesktopCommand::FocusWindow { hwnd: window.hwnd, desktop_index: target };
    let ev0 = DesktopEvent::WindowProbed(current);
    let s1 = desktop_step(p0, mem, ev0);
    if alive {
        let ev1 = DesktopEvent::WindowOnDesktop(on_desktop);
        let ev2 = DesktopEvent::WindowFocused(focused);
        let s2 = desktop_step(s1.0, s1.1, ev1);
        let s3 = desktop_step(s2.0, s2.1, ev2);
        lemma_run_one(s2.0, s2.1, ev2);
        lemma_run_prepend(s1.0, s1.1, ev1, seq![ev2]);
        lemma_run_prepend(p0, mem, ev0, seq![ev1] + seq![ev2]);
        assert(seq![ev0, ev1, ev2] =~= seq![ev0] + (seq![ev1] + seq![ev2]));
        let cmds = run_task(p0, mem, seq![ev0, ev1, ev2]).2;
        assert(cmds =~= seq![s1.2, s2.2, s3.2]);
        if on_desktop == Some(true) {
            assert(cmds[1] == focus_cmd);
        } else {
            assert(!cmds.contains(focus_cmd)) by {
                if cmds.contains(focus_cmd) {
                    let i = choose|i: int| 0 <= i < cmds.len() && cmds[i] == focus_cmd;
                    assert(i == 0 || i == 1 || i == 2);
                }
            }
        }
    } else {
        lemma_run_one(p0, mem, ev0);
        let cmds = run_task(p0, mem, seq![ev0]).2;
        assert(!cmds.contains(focus_cmd)) by {
            if cmds.contains(focus_cmd) {
                let i = choose|i: int| 0 <= i < cmds.len() && cmds[i] == focus_cmd;
                assert(i == 0);
            }
        }
    }
}

/// A phase of a run that began as a switch: it carries a switch action, and
/// no window is being moved.
pub open spec fn switch_only(phase: DesktopPhase) -> bool {
    match phase {
        DesktopPhase::CountingDesktops { action } => action is SwitchToDesktop,
        DesktopPhase::CreatingDesktop { action } => action is SwitchToDesktop,
        DesktopPhase::ReadingFocused { .. } => false,
        DesktopPhase::ReadingCurrentDesktop { action, moving } => action is SwitchToDesktop && moving is None,
        DesktopPhase::ReadingCurrentFocus { action, moving, .. } => action is SwitchToDesktop && moving is None,
        DesktopPhase::MovingWindow { .. } => false,
        DesktopPhase::RememberingMoved { .. } => false,
        DesktopPhase::Switching { action } => action is SwitchToDesktop,
        _ => true,
    }
}

/// The commands that belong to moving a window.
pub open spec fn moves_window(c: DesktopCommand) -> bool {
    c is MoveWindow || c is ReadWindowProcess
}

proof fn lemma_switch_run_never_moves(phase: DesktopPhase, mem: Map<u32, FocusedWindow>, events: Seq<DesktopEvent>)
    requires
        switch_only(phase),
    ensures
        run_task(phase, mem, events).2.len() == events.len(),
        forall|j: int|
            0 <= j < run_task(phase, mem, events).2.len() ==> !moves_window(
                #[trigger] run_task(phase, mem, events).2[j],
            ),
    decreases events.len(),
{
    if events.len() > 0 {
        let next = desktop_step(phase, mem, events[0]);
        lemma_switch_run_never_moves(next.0, next.1, events.drop_first());
        let cmds = run_task(phase, mem, events).2;
        let rest = run_task(next.0, next.1, events.drop_first()).2;
        assert forall|j: int| 0 <= j < cmds.len() implies !moves_window(#[trigger] cmds[j]) by {
            if j > 0 {
                assert(cmds[j] == rest[j - 1]);
            }
        }
    }
}

/// A switch never moves a window: no run started by `execute` for a
/// `SwitchToDesktop` action ever asks to move a window or to read a moved
/// window's process. (A `MoveFocusedAndSwitch` action does both; see
/// `law_moved_window_follows`.)
pub proof fn law_switch_never_moves(number: u32, mem: Map<u32, FocusedWindow>, events: Seq<DesktopEvent>)
    ensures
        forall|j: int|
            0 <= j < run_task(start_spec(HotkeyAction::SwitchToDesktop(number)).0, mem, events).2.len()
                ==> !moves_window(
                #[trigger] run_task(start_spec(HotkeyAction::SwitchToDesktop(number)).0, mem, events).2[j],
            ),
{
    lemma_switch_run_never_moves(start_spec(HotkeyAction::SwitchToDesktop(number)).0, mem, events);
}

/// An operation on the focus memory, as `FocusMemory`'s methods perform it.
pub enum MemoryOp {
    Remember(u32, FocusedWindow),
    Forget(u32),
}

pub open spec fn op_desktop(op: MemoryOp) -> u32 {
    match op {
        MemoryOp::Remember(desktop_index, _) => desktop_index,
        MemoryOp::Forget(desktop_index) => desktop_index,
    }
}

/// The focus memory after the operations in order (the views that
/// `remember_focus_for_desktop` and `forget_focus_for_desktop` ensure).
pub open spec fn apply_memory_ops(mem: Map<u32, FocusedWindow>, ops: Seq<MemoryOp>) -> Map<u32, FocusedWindow>
    decreases ops.len(),
{
    if ops.len() == 0 {
        mem
    } else {
        let next = match ops[0] {
            MemoryOp::Remember(desktop_index, window) => mem.insert(desktop_index, window),
            MemoryOp::Forget(desktop_index) => mem.remove(desktop_index),
        };
        apply_memory_ops(next, ops.drop_first())
    }
}

proof fn lemma_ops_keep_other_entries(mem: Map<u32, FocusedWindow>, desktop_index: u32, ops: Seq<MemoryOp>)
    requires
        forall|j: int| 0 <= j < ops.len() ==> op_desktop(#[trigger] ops[j]) != desktop_index,
    ensures
        recalled(apply_memory_ops(mem, ops), desktop_index) == recalled(mem, desktop_index),
    decreases ops.len(),
{
    if ops.len() > 0 {
        let next = match ops[0] {
            MemoryOp::Remember(d, w) => mem.insert(d, w),
            MemoryOp::Forget(d) => mem.remove(d),
        };
        assert(op_desktop(ops[0]) != desktop_index);
        assert forall|j: int| 0 <= j < ops.drop_first().len() implies op_desktop(
            #[trigger] ops.drop_first()[j],
        ) != desktop_index by {
            assert(ops.drop_first()[j] == ops[j + 1]);
        }
        lemma_ops_keep_other_entries(next, desktop_index, ops.drop_first());
    }
}

/// A window remembered for a desktop is what a later lookup for that desktop
/// gives, whatever is remembered or forgotten for other desktops in between;
/// after the desktop's entry is forgotten, a lookup gives nothing.
pub proof fn law_recall_gives_last_remembered(
    mem: Map<u32, FocusedWindow>,
    desktop_index: u32,
    window: FocusedWindow,
    ops: Seq<MemoryOp>,
)
    requires
        forall|j: int| 0 <= j < ops.len() ==> op_desktop(#[trigger] ops[j]) != desktop_index,
    ensures
        recalled(
            apply_memory_ops(mem, seq![MemoryOp::Remember(desktop_index, window)] + ops),
            desktop_index,
        ) == Some(window),
        recalled(apply_memory_ops(mem, seq![MemoryOp::Forget(desktop_index)] + ops), desktop_index)
            is None,
{
    let r = seq![MemoryOp::Remember(desktop_index, window)] + ops;
    let f = seq![MemoryOp::Forget(desktop_index)] + ops;
    assert(r.drop_first() =~= ops);
    assert(f.drop_first() =~= ops);
    lemma_ops_keep_other_entries(mem.insert(desktop_index, window), desktop_index, ops);
    lemma_ops_keep_other_entries(mem.remove(desktop_index), desktop_index, ops);
}

/// Every action for a desktop number `n >= 1` first makes sure desktop `n`
/// exists, a move as well as a switch: while fewer than `n` desktops are
/// counted it asks to create one, after each created desktop it counts
/// again, and only once more than `n - 1` are counted does it go on (a move
/// by reading the window to move, a switch by reading the desktop it leaves).
/// The focus memory is not touched meanwhile.
pub proof fn law_missing_desktops_are_created(
    action: HotkeyAction,
    count: u32,
    mem: Map<u32, FocusedWindow>,
)
    requires
        action_number(action) >= 1,
    ensures
        count < action_number(action) ==> desktop_step(
            DesktopPhase::CountingDesktops { action },
            mem,
            DesktopEvent::DesktopCount(Some(count)),
        ) == (DesktopPhase::CreatingDesktop { action }, mem, DesktopCommand::CreateDesktop),
        count >= action_number(action) ==> desktop_step(
            DesktopPhase::CountingDesktops { action },
            mem,
            DesktopEvent::DesktopCount(Some(count)),
        ).2 == (if action is MoveFocusedAndSwitch {
            DesktopCommand::ReadForegroundWindow
        } else {
            DesktopCommand::ReadCurrentDesktop
        }),
        count >= action_number(action) ==> desktop_step(
            DesktopPhase::CountingDesktops { action },
            mem,
            DesktopEvent::DesktopCount(Some(count)),
        ).1 == mem,
        desktop_step(DesktopPhase::CreatingDesktop { action }, mem, DesktopEvent::DesktopCreated(true))
            == (DesktopPhase::CountingDesktops { action }, mem, DesktopCommand::ReadDesktopCount),
{
}

/// Moving the focused window to desktop `n` when only `c < n` desktops exist:
/// the missing desktops are created one by one, and the window is then moved
/// to desktop `n` and followed there.
pub proof fn law_move_to_missing_desktop(
    number: u32,
    count: u32,
    window: FocusedWindow,
    current: u32,
    mem: Map<u32, FocusedWindow>,
)
    requires
        number >= 2,
        count == number - 1,
    ensures
        ({
            let target = (number - 1) as u32;
            let run = run_task(
                start_spec(HotkeyAction::MoveFocusedAndSwitch(number)).0,
                mem,
                seq![
                    DesktopEvent::DesktopCount(Some(count)),
                    DesktopEvent::DesktopCreated(true),
                    DesktopEvent::DesktopCount(Some(number)),
                    DesktopEvent::ForegroundWindow(Some(window)),
                    DesktopEvent::CurrentDesktop(Some(current)),
                    DesktopEvent::ForegroundWindow(Some(window)),
                    DesktopEvent::WindowMoved(true),
                    DesktopEvent::WindowProcess(Some(window.process_id)),
                ],
            );
            &&& run.2[0] == DesktopCommand::CreateDesktop
            &&& run.2[1] == DesktopCommand::ReadDesktopCount
            &&& run.2[5] == (DesktopCommand::MoveWindow { hwnd: window.hwnd, desktop_index: target })
            &&& run.2[7] == (DesktopCommand::SwitchDesktop { desktop_index: target })
            &&& recalled(run.1, target) == Some(window)
        }),
{
    let a = HotkeyAction::MoveFocusedAndSwitch(number);
    let evs = seq![
        DesktopEvent::DesktopCount(Some(count)),
        DesktopEvent::DesktopCreated(true),
        DesktopEvent::DesktopCount(Some(number)),
        DesktopEvent::ForegroundWindow(Some(window)),
        DesktopEvent::CurrentDesktop(Some(current)),
        DesktopEvent::ForegroundWindow(Some(window)),
        DesktopEvent::WindowMoved(true),
        DesktopEvent::WindowProcess(Some(window.process_id)),
    ];
    let p0 = start_spec(a).0;
    let s1 = desktop_step(p0, mem, evs[0]);
    let s2 = desktop_step(s1.0, s1.1, evs[1]);
    let s3 = desktop_step(s2.0, s2.1, evs[2]);
    let s4 = desktop_step(s3.0, s3.1, evs[3]);
    let s5 = desktop_step(s4.0, s4.1, evs[4]);
    let s6 = desktop_step(s5.0, s5.1, evs[5]);
    let s7 = desktop_step(s6.0, s6.1, evs[6]);
    let s8 = desktop_step(s7.0, s7.1, evs[7]);
    let t7 = seq![evs[7]];
    let t6 = seq![evs[6]] + t7;
    let t5 = seq![evs[5]] + t6;
    let t4 = seq![evs[4]] + t5;
    let t3 = seq![evs[3]] + t4;
    let t2 = seq![evs[2]] + t3;
    let t1 = seq![evs[1]] + t2;
    let t0 = seq![evs[0]] + t1;
    lemma_run_one(s7.0, s7.1, evs[7]);
    lemma_run_prepend(s6.0, s6.1, evs[6], t7);
    lemma_run_prepend(s5.0, s5.1, evs[5], t6);
    lemma_run_prepend(s4.0, s4.1, evs[4], t5);
    lemma_run_prepend(s3.0, s3.1, evs[3], t4);
    lemma_run_prepend(s2.0, s2.1, evs[2], t3);
    lemma_run_prepend(s1.0, s1.1, evs[1], t2);
    lemma_run_prepend(p0, mem, evs[0], t1);
    assert(evs =~= t0);
    assert(run_task(p0, mem, t0).2 =~= seq![s1.2, s2.2, s3.2, s4.2, s5.2, s6.2, s7.2, s8.2]);
}

/// Each failure of the outside work ends the action at once with its error,
/// and leaves the focus memory as it was: a count or current desktop that
/// cannot be read, a desktop that cannot be created, a window that cannot be
/// moved (naming the desktop number), a switch that fails (naming it too).
pub proof fn law_failures_end_with_their_error(action: HotkeyAction, window: FocusedWindow, mem: Map<u32, FocusedWindow>)
    ensures
        desktop_step(DesktopPhase::CountingDesktops { action }, mem, DesktopEvent::DesktopCount(None))
            == (DesktopPhase::Done, mem, DesktopCommand::Finish(Err(DesktopError::ReadDesktopCount))),
        desktop_step(DesktopPhase::CreatingDesktop { action }, mem, DesktopEvent::DesktopCreated(false))
            == (DesktopPhase::Done, mem, DesktopCommand::Finish(Err(DesktopError::CreateDesktop))),
        forall|moving: Option<FocusedWindow>|
            #[trigger] desktop_step(
                DesktopPhase::ReadingCurrentDesktop { action, moving },
                mem,
                DesktopEvent::CurrentDesktop(None),
            ) == (DesktopPhase::Done, mem, DesktopCommand::Finish(Err(DesktopError::ReadCurrentDesktop))),
        desktop_step(DesktopPhase::MovingWindow { action, window }, mem, DesktopEvent::WindowMoved(false))
            == (DesktopPhase::Done, mem, DesktopCommand::Finish(
            Err(DesktopError::MoveWindow(action_number(action))),
        )),
        desktop_step(DesktopPhase::Switching { action }, mem, DesktopEvent::DesktopSwitched(false)) == (
            DesktopPhase::Done,
            mem,
            DesktopCommand::Finish(Err(DesktopError::SwitchDesktop(action_number(action)))),
        ),
{
}

} // verus!
