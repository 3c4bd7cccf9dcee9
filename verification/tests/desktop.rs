use vdesk::desktop::{
    execute, is_remembered_window_alive, owning_process, DesktopCommand, DesktopError, DesktopEvent, DesktopTask,
    FocusMemory, FocusedWindow,
};
use vdesk::events::HotkeyAction;

fn win(hwnd: isize, process_id: u32) -> FocusedWindow {
    FocusedWindow { hwnd, process_id }
}

fn answer(task: &mut DesktopTask, mem: &mut FocusMemory, event: DesktopEvent) -> DesktopCommand {
    assert!(task.accepts(&event));
    task.step(mem, event)
}

#[test]
fn focus_memory_remembers_and_forgets() {
    let mut mem = FocusMemory::new();
    assert_eq!(mem.remembered_focus_for_desktop(0), None);
    mem.remember_focus_for_desktop(0, win(10, 100));
    mem.remember_focus_for_desktop(0, win(11, 101));
    assert_eq!(mem.remembered_focus_for_desktop(0), Some(win(11, 101)));
    assert_eq!(mem.remembered_focus_for_desktop(1), None);
    mem.forget_focus_for_desktop(0);
    assert_eq!(mem.remembered_focus_for_desktop(0), None);
    mem.forget_focus_for_desktop(5);
}

#[test]
fn alive_only_with_the_same_process() {
    assert!(is_remembered_window_alive(win(1, 7), Some(7)));
    assert!(!is_remembered_window_alive(win(1, 7), Some(8)));
    assert!(!is_remembered_window_alive(win(1, 7), None));
}

#[test]
fn number_zero_does_nothing() {
    let (task, cmd) = execute(HotkeyAction::SwitchToDesktop(0));
    assert_eq!(cmd, DesktopCommand::Finish(Ok(())));
    assert!(task.is_done());
    let (task, cmd) = execute(HotkeyAction::MoveFocusedAndSwitch(0));
    assert_eq!(cmd, DesktopCommand::Finish(Ok(())));
    assert!(task.is_done());
    assert!(!task.accepts(&DesktopEvent::DesktopCount(Some(3))));
}

#[test]
fn switch_remembers_and_refocuses() {
    let mut mem = FocusMemory::new();
    mem.remember_focus_for_desktop(1, win(20, 200));
    let (mut task, cmd) = execute(HotkeyAction::SwitchToDesktop(2));
    assert_eq!(cmd, DesktopCommand::ReadDesktopCount);
    assert!(!task.accepts(&DesktopEvent::DesktopCreated(true)));
    assert_eq!(answer(&mut task, &mut mem, DesktopEvent::DesktopCount(Some(4))), DesktopCommand::ReadCurrentDesktop);
    assert_eq!(answer(&mut task, &mut mem, DesktopEvent::CurrentDesktop(Some(0))), DesktopCommand::ReadForegroundWindow);
    assert_eq!(
        answer(&mut task, &mut mem, DesktopEvent::ForegroundWindow(Some(win(10, 100)))),
        DesktopCommand::SwitchDesktop { desktop_index: 1 }
    );
    assert_eq!(mem.remembered_focus_for_desktop(0), Some(win(10, 100)));
    assert_eq!(answer(&mut task, &mut mem, DesktopEvent::DesktopSwitched(true)), DesktopCommand::ProbeWindow { hwnd: 20 });
    assert_eq!(
        answer(&mut task, &mut mem, DesktopEvent::WindowProbed(Some(200))),
        DesktopCommand::CheckWindowOnDesktop { hwnd: 20, desktop_index: 1 }
    );
    assert_eq!(
        answer(&mut task, &mut mem, DesktopEvent::WindowOnDesktop(Some(true))),
        DesktopCommand::FocusWindow { hwnd: 20, desktop_index: 1 }
    );
    assert_eq!(answer(&mut task, &mut mem, DesktopEvent::WindowFocused(false)), DesktopCommand::Finish(Ok(())));
    assert!(task.is_done());
    assert_eq!(mem.remembered_focus_for_desktop(1), Some(win(20, 200)));
}

#[test]
fn switch_without_focus_or_memory() {
    let mut mem = FocusMemory::new();
    let (mut task, _) = execute(HotkeyAction::SwitchToDesktop(1));
    answer(&mut task, &mut mem, DesktopEvent::DesktopCount(Some(1)));
    answer(&mut task, &mut mem, DesktopEvent::CurrentDesktop(Some(2)));
    assert_eq!(
        answer(&mut task, &mut mem, DesktopEvent::ForegroundWindow(None)),
        DesktopCommand::SwitchDesktop { desktop_index: 0 }
    );
    assert_eq!(mem.remembered_focus_for_desktop(2), None);
    assert_eq!(answer(&mut task, &mut mem, DesktopEvent::DesktopSwitched(true)), DesktopCommand::Finish(Ok(())));
    assert!(task.is_done());
}

#[test]
fn missing_desktops_are_created() {
    let mut mem = FocusMemory::new();
    let (mut task, _) = execute(HotkeyAction::SwitchToDesktop(3));
    assert_eq!(answer(&mut task, &mut mem, DesktopEvent::DesktopCount(Some(1))), DesktopCommand::CreateDesktop);
    assert_eq!(answer(&mut task, &mut mem, DesktopEvent::DesktopCreated(true)), DesktopCommand::ReadDesktopCount);
    assert_eq!(answer(&mut task, &mut mem, DesktopEvent::DesktopCount(Some(2))), DesktopCommand::CreateDesktop);
    assert_eq!(answer(&mut task, &mut mem, DesktopEvent::DesktopCreated(true)), DesktopCommand::ReadDesktopCount);
    assert_eq!(answer(&mut task, &mut mem, DesktopEvent::DesktopCount(Some(3))), DesktopCommand::ReadCurrentDesktop);
}

#[test]
fn each_failure_ends_with_its_error() {
    let mut mem = FocusMemory::new();
    let (mut task, _) = execute(HotkeyAction::SwitchToDesktop(4));
    assert_eq!(
        answer(&mut task, &mut mem, DesktopEvent::DesktopCount(None)),
        DesktopCommand::Finish(Err(DesktopError::ReadDesktopCount))
    );
    assert!(task.is_done());

    let (mut task, _) = execute(HotkeyAction::SwitchToDesktop(4));
    answer(&mut task, &mut mem, DesktopEvent::DesktopCount(Some(1)));
    assert_eq!(
        answer(&mut task, &mut mem, DesktopEvent::DesktopCreated(false)),
        DesktopCommand::Finish(Err(DesktopError::CreateDesktop))
    );

    let (mut task, _) = execute(HotkeyAction::SwitchToDesktop(4));
    answer(&mut task, &mut mem, DesktopEvent::DesktopCount(Some(4)));
    assert_eq!(
        answer(&mut task, &mut mem, DesktopEvent::CurrentDesktop(None)),
        DesktopCommand::Finish(Err(DesktopError::ReadCurrentDesktop))
    );

    let (mut task, _) = execute(HotkeyAction::SwitchToDesktop(4));
    answer(&mut task, &mut mem, DesktopEvent::DesktopCount(Some(4)));
    answer(&mut task, &mut mem, DesktopEvent::CurrentDesktop(Some(0)));
    answer(&mut task, &mut mem, DesktopEvent::ForegroundWindow(None));
    assert_eq!(
        answer(&mut task, &mut mem, DesktopEvent::DesktopSwitched(false)),
        DesktopCommand::Finish(Err(DesktopError::SwitchDesktop(4)))
    );

    let (mut task, _) = execute(HotkeyAction::MoveFocusedAndSwitch(4));
    answer(&mut task, &mut mem, DesktopEvent::DesktopCount(Some(4)));
    answer(&mut task, &mut mem, DesktopEvent::ForegroundWindow(Some(win(5, 50))));
    answer(&mut task, &mut mem, DesktopEvent::CurrentDesktop(Some(0)));
    answer(&mut task, &mut mem, DesktopEvent::ForegroundWindow(Some(win(5, 50))));
    assert_eq!(
        answer(&mut task, &mut mem, DesktopEvent::WindowMoved(false)),
        DesktopCommand::Finish(Err(DesktopError::MoveWindow(4)))
    );
    assert!(task.is_done());
}

#[test]
fn move_without_focused_window_does_nothing() {
    let mut mem = FocusMemory::new();
    let (mut task, _) = execute(HotkeyAction::MoveFocusedAndSwitch(2));
    assert_eq!(answer(&mut task, &mut mem, DesktopEvent::DesktopCount(Some(2))), DesktopCommand::ReadForegroundWindow);
    assert_eq!(answer(&mut task, &mut mem, DesktopEvent::ForegroundWindow(None)), DesktopCommand::Finish(Ok(())));
    assert!(task.is_done());
    assert_eq!(mem.remembered_focus_for_desktop(1), None);
}

#[test]
fn moved_window_follows() {
    let mut mem = FocusMemory::new();
    mem.remember_focus_for_desktop(2, win(30, 300));
    let (mut task, _) = execute(HotkeyAction::MoveFocusedAndSwitch(3));
    answer(&mut task, &mut mem, DesktopEvent::DesktopCount(Some(3)));
    assert_eq!(
        answer(&mut task, &mut mem, DesktopEvent::ForegroundWindow(Some(win(40, 400)))),
        DesktopCommand::ReadCurrentDesktop
    );
    answer(&mut task, &mut mem, DesktopEvent::CurrentDesktop(Some(0)));
    assert_eq!(
        answer(&mut task, &mut mem, DesktopEvent::ForegroundWindow(Some(win(40, 400)))),
        DesktopCommand::MoveWindow { hwnd: 40, desktop_index: 2 }
    );
    assert_eq!(answer(&mut task, &mut mem, DesktopEvent::WindowMoved(true)), DesktopCommand::ReadWindowProcess { hwnd: 40 });
    assert_eq!(mem.remembered_focus_for_desktop(2), Some(win(30, 300)));
    assert_eq!(
        answer(&mut task, &mut mem, DesktopEvent::WindowProcess(Some(401))),
        DesktopCommand::SwitchDesktop { desktop_index: 2 }
    );
    assert_eq!(mem.remembered_focus_for_desktop(2), Some(win(40, 401)));
    assert_eq!(mem.remembered_focus_for_desktop(0), Some(win(40, 400)));
    assert_eq!(answer(&mut task, &mut mem, DesktopEvent::DesktopSwitched(true)), DesktopCommand::ProbeWindow { hwnd: 40 });
}

#[test]
fn moved_window_without_process_is_not_remembered() {
    let mut mem = FocusMemory::new();
    mem.remember_focus_for_desktop(1, win(30, 300));
    let (mut task, _) = execute(HotkeyAction::MoveFocusedAndSwitch(2));
    answer(&mut task, &mut mem, DesktopEvent::DesktopCount(Some(2)));
    answer(&mut task, &mut mem, DesktopEvent::ForegroundWindow(Some(win(40, 400))));
    answer(&mut task, &mut mem, DesktopEvent::CurrentDesktop(Some(0)));
    answer(&mut task, &mut mem, DesktopEvent::ForegroundWindow(Some(win(40, 400))));
    answer(&mut task, &mut mem, DesktopEvent::WindowMoved(true));
    assert_eq!(
        answer(&mut task, &mut mem, DesktopEvent::WindowProcess(None)),
        DesktopCommand::SwitchDesktop { desktop_index: 1 }
    );
    assert_eq!(mem.remembered_focus_for_desktop(1), Some(win(30, 300)));
    assert_eq!(answer(&mut task, &mut mem, DesktopEvent::DesktopSwitched(true)), DesktopCommand::ProbeWindow { hwnd: 30 });
}

#[test]
fn dead_or_misplaced_windows_are_forgotten() {
    let mut mem = FocusMemory::new();
    mem.remember_focus_for_desktop(0, win(20, 200));
    mem.remember_focus_for_desktop(3, win(21, 201));
    let (mut task, _) = execute(HotkeyAction::SwitchToDesktop(1));
    answer(&mut task, &mut mem, DesktopEvent::DesktopCount(Some(2)));
    answer(&mut task, &mut mem, DesktopEvent::CurrentDesktop(Some(3)));
    answer(&mut task, &mut mem, DesktopEvent::ForegroundWindow(None));
    answer(&mut task, &mut mem, DesktopEvent::DesktopSwitched(true));
    assert_eq!(answer(&mut task, &mut mem, DesktopEvent::WindowProbed(Some(999))), DesktopCommand::Finish(Ok(())));
    assert_eq!(mem.remembered_focus_for_desktop(0), None);
    assert_eq!(mem.remembered_focus_for_desktop(3), Some(win(21, 201)));

    mem.remember_focus_for_desktop(0, win(20, 200));
    let (mut task, _) = execute(HotkeyAction::SwitchToDesktop(1));
    answer(&mut task, &mut mem, DesktopEvent::DesktopCount(Some(2)));
    answer(&mut task, &mut mem, DesktopEvent::CurrentDesktop(Some(3)));
    answer(&mut task, &mut mem, DesktopEvent::ForegroundWindow(None));
    answer(&mut task, &mut mem, DesktopEvent::DesktopSwitched(true));
    answer(&mut task, &mut mem, DesktopEvent::WindowProbed(Some(200)));
    assert_eq!(answer(&mut task, &mut mem, DesktopEvent::WindowOnDesktop(None)), DesktopCommand::Finish(Ok(())));
    assert_eq!(mem.remembered_focus_for_desktop(0), None);
}

#[test]
fn owning_process_needs_thread_and_process() {
    assert_eq!(owning_process(12, 34), Some(34));
    assert_eq!(owning_process(0, 34), None);
    assert_eq!(owning_process(12, 0), None);
    assert_eq!(owning_process(0, 0), None);
}

#[test]
fn recall_gives_last_remembered_despite_other_desktops() {
    let mut mem = FocusMemory::new();
    mem.remember_focus_for_desktop(4, win(1, 10));
    mem.remember_focus_for_desktop(5, win(2, 20));
    mem.forget_focus_for_desktop(6);
    mem.remember_focus_for_desktop(3, win(3, 30));
    mem.forget_focus_for_desktop(5);
    assert_eq!(mem.remembered_focus_for_desktop(4), Some(win(1, 10)));
    mem.forget_focus_for_desktop(4);
    mem.remember_focus_for_desktop(7, win(4, 40));
    assert_eq!(mem.remembered_focus_for_desktop(4), None);
}

#[test]
fn switch_never_moves_a_window() {
    let mut mem = FocusMemory::new();
    mem.remember_focus_for_desktop(1, win(20, 200));
    let (mut task, mut cmd) = execute(HotkeyAction::SwitchToDesktop(2));
    let answers = [
        DesktopEvent::DesktopCount(Some(1)),
        DesktopEvent::DesktopCreated(true),
        DesktopEvent::DesktopCount(Some(2)),
        DesktopEvent::CurrentDesktop(Some(0)),
        DesktopEvent::ForegroundWindow(Some(win(10, 100))),
        DesktopEvent::DesktopSwitched(true),
        DesktopEvent::WindowProbed(Some(200)),
        DesktopEvent::WindowOnDesktop(Some(true)),
        DesktopEvent::WindowFocused(true),
    ];
    for event in answers {
        assert!(!matches!(cmd, DesktopCommand::MoveWindow { .. } | DesktopCommand::ReadWindowProcess { .. }));
        cmd = answer(&mut task, &mut mem, event);
    }
    assert_eq!(cmd, DesktopCommand::Finish(Ok(())));
}
