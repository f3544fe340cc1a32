use std::sync::mpsc::TryRecvError;
use autossh::tray::{
    command_from_poll, menu_command, tray_event_command, MouseButton, MouseButtonState, TrayCommand, TrayEvent,
    WindowsTray, MENU_EXIT, MENU_SHOW,
};

#[test]
fn menu_ids_map_to_commands() {
    assert!(matches!(menu_command(MENU_SHOW), Some(TrayCommand::Show)));
    assert!(matches!(menu_command(MENU_EXIT), Some(TrayCommand::Exit)));
    assert!(matches!(menu_command("autossh-show"), Some(TrayCommand::Show)));
    assert!(matches!(menu_command("autossh-exit"), Some(TrayCommand::Exit)));
}

#[test]
fn unknown_menu_ids_are_ignored() {
    assert!(menu_command("").is_none());
    assert!(menu_command("autossh-show ").is_none());
    assert!(menu_command("AUTOSSH-EXIT").is_none());
    assert!(menu_command("autossh").is_none());
}

#[test]
fn left_button_release_shows_window() {
    let event = TrayEvent::Click {
        button: MouseButton::Left,
        button_state: MouseButtonState::Up,
    };
    assert!(matches!(tray_event_command(&event), Some(TrayCommand::Show)));
}

#[test]
fn other_tray_events_are_ignored() {
    let ignored = [
        TrayEvent::Click { button: MouseButton::Left, button_state: MouseButtonState::Down },
        TrayEvent::Click { button: MouseButton::Right, button_state: MouseButtonState::Up },
        TrayEvent::Click { button: MouseButton::Middle, button_state: MouseButtonState::Up },
        TrayEvent::DoubleClick { button: MouseButton::Left },
        TrayEvent::Enter,
        TrayEvent::Move,
        TrayEvent::Leave,
    ];
    for event in ignored.iter() {
        assert!(tray_event_command(event).is_none());
    }
}

#[test]
fn try_recv_returns_sent_commands_in_order() {
    let (sender, receiver) = std::sync::mpsc::channel();
    let tray = WindowsTray::from_parts((), receiver);
    assert!(tray.try_recv().is_none());
    sender.send(TrayCommand::Show).unwrap();
    sender.send(TrayCommand::Exit).unwrap();
    assert!(matches!(tray.try_recv(), Some(TrayCommand::Show)));
    assert!(matches!(tray.try_recv(), Some(TrayCommand::Exit)));
    assert!(tray.try_recv().is_none());
    drop(sender);
    assert!(tray.try_recv().is_none());
}

#[test]
fn poll_outcomes_become_commands() {
    assert!(matches!(command_from_poll(Ok(TrayCommand::Show)), Some(TrayCommand::Show)));
    assert!(matches!(command_from_poll(Ok(TrayCommand::Exit)), Some(TrayCommand::Exit)));
    assert!(command_from_poll(Err(TryRecvError::Empty)).is_none());
    assert!(command_from_poll(Err(TryRecvError::Disconnected)).is_none());
}
