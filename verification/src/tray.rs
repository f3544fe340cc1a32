//! Tray commands and the rules that turn tray events into them.
use std::sync::mpsc::{Receiver, TryRecvError};
use vstd::prelude::*;

verus! {

/// Menu identifier of the "open window" entry.
pub const MENU_SHOW: &'static str = "autossh-show";

/// Menu identifier of the "exit" entry.
pub const MENU_EXIT: &'static str = "autossh-exit";

/// A command that the tray forwards to the application thread.
#[derive(Clone, Copy, Debug)]
pub enum TrayCommand {
    Show,
    Exit,
}

/// The command that a menu entry with identifier `id` stands for.
pub open spec fn spec_menu_command(id: Seq<char>) -> Option<TrayCommand> {
    if id == MENU_SHOW@ {
        Some(TrayCommand::Show)
    } else if id == MENU_EXIT@ {
        Some(TrayCommand::Exit)
    } else {
        None
    }
}

/// Tray law: the two menu entries stand for their two commands, and any other
/// identifier is ignored.
pub proof fn lemma_menu_entries(other: Seq<char>)
    ensures
        spec_menu_command(MENU_SHOW@) == Some(TrayCommand::Show),
        spec_menu_command(MENU_EXIT@) == Some(TrayCommand::Exit),
        other != MENU_SHOW@ && other != MENU_EXIT@ ==> spec_menu_command(other) is None,
{
    reveal_strlit("autossh-show");
    reveal_strlit("autossh-exit");
    assert(MENU_SHOW@ != MENU_EXIT@) by {
        assert(MENU_SHOW@[8] != MENU_EXIT@[8]);
    }
}

/// Maps the identifier of a clicked menu entry to its command; any other
/// identifier is ignored.
pub fn menu_command(id: &str) -> (command: Option<TrayCommand>)
    ensures
        command == spec_menu_command(id@),
{
    let id = String::from_str(id);
    if id == String::from_str(MENU_SHOW) {
        Some(TrayCommand::Show)
    } else if id == String::from_str(MENU_EXIT) {
        Some(TrayCommand::Exit)
    } else {
        None
    }
}

/// Which mouse button a tray event reports.
#[derive(Clone, Copy, Debug)]
pub enum MouseButton {
    Left,
    Right,
    Middle,
}

/// Whether the reported button went down or came back up.
#[derive(Clone, Copy, Debug)]
pub enum MouseButtonState {
    Up,
    Down,
}

/// A mouse event on the notification-area icon, with the fields that the
/// tray reacts to.
#[derive(Clone, Copy, Debug)]
pub enum TrayEvent {
    Click { button: MouseButton, button_state: MouseButtonState },
    DoubleClick { button: MouseButton },
    Enter,
    Move,
    Leave,
}

/// The command that a tray icon event stands for: releasing the left button
/// over the icon opens the window. The tray's window class receives no
/// double-click messages, so the first left-button release is what counts.
pub open spec fn spec_tray_event_command(event: TrayEvent) -> Option<TrayCommand> {
    match event {
        TrayEvent::Click { button: MouseButton::Left, button_state: MouseButtonState::Up } => Some(
            TrayCommand::Show,
        ),
        _ => None,
    }
}

/// Tray law: the window opens only when the left button is released over the
/// icon; every other button or button state, a double click, and the
/// pointer entering, moving or leaving trigger nothing, and no tray event
/// exits the program.
pub proof fn lemma_only_left_release_shows(event: TrayEvent)
    ensures
        spec_tray_event_command(event) is Some <==> event == (TrayEvent::Click {
            button: MouseButton::Left,
            button_state: MouseButtonState::Up,
        }),
        spec_tray_event_command(event) matches Some(c) ==> c is Show,
{
}

/// Maps an event on the tray icon to the command it triggers, if any.
pub fn tray_event_command(event: &TrayEvent) -> (command: Option<TrayCommand>)
    ensures
        command == spec_tray_event_command(*event),
{
    match event {
        TrayEvent::Click { button: MouseButton::Left, button_state: MouseButtonState::Up } => Some(
            TrayCommand::Show,
        ),
        _ => None,
    }
}

#[verifier::external_type_specification]
#[verifier::external_body]
#[verifier::reject_recursive_types(T)]
pub struct ExReceiver<T>(Receiver<T>);

#[verifier::external_type_specification]
#[verifier::external_body]
pub struct ExTryRecvError(TryRecvError);

/// `std::sync::mpsc::Receiver::try_recv`: takes the oldest message that has
/// been sent and not yet received, without blocking. What comes back depends
/// on what other threads have sent by then, so nothing is stated of it; the
/// call itself never panics.
pub assume_specification<T>[ Receiver::<T>::try_recv ](rx: &Receiver<T>) -> Result<T, TryRecvError>;

/// The command that one non-blocking poll of the command channel yields: the
/// received command, or none when the channel was empty or disconnected.
pub open spec fn spec_command_from_poll(polled: Result<TrayCommand, TryRecvError>) -> Option<
    TrayCommand,
> {
    match polled {
        Ok(command) => Some(command),
        Err(_) => None,
    }
}

/// Turns the outcome of one poll of the command channel into the command
/// that the application thread handles next, if any.
pub fn command_from_poll(polled: Result<TrayCommand, TryRecvError>) -> (command: Option<TrayCommand>)
    ensures
        command == spec_command_from_poll(polled),
{
    match polled {
        Ok(command) => Some(command),
        Err(_) => None,
    }
}

/// The tray: the handle that keeps the notification-area icon alive, and the
/// receiving end of the channel into which the tray's event handlers send
/// commands.
pub struct WindowsTray<I> {
    icon: I,
    commands: Receiver<TrayCommand>,
}

impl<I> WindowsTray<I> {
    /// The handle that keeps the icon on screen.
    pub closed spec fn spec_icon(&self) -> I {
        self.icon
    }

    /// The receiving end of the command channel.
    pub closed spec fn spec_commands(&self) -> Receiver<TrayCommand> {
        self.commands
    }

    /// Puts together a tray from the live icon handle and the receiver that
    /// its event handlers send into. The icon disappears when the handle is
    /// dropped, so the tray owns it for as long as it lives.
    pub fn from_parts(icon: I, commands: Receiver<TrayCommand>) -> (tray: Self)
        ensures
            tray.spec_icon() == icon,
            tray.spec_commands() == commands,
    {
        WindowsTray { icon, commands }
    }

    /// Returns the next pending command without blocking, or `None` when no
    /// command is waiting (or every sender is gone). Which of these comes back
    /// depends on what the tray's event handlers have sent from other threads
    /// by then; `command_from_poll` states what each poll outcome yields.
    pub fn try_recv(&self) -> Option<TrayCommand> {
        command_from_poll(self.commands.try_recv())
    }
}

} // verus!
