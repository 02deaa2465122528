//! The decisions of the desktop front end: which cursor icon and dialog to
//! show, what a gamepad event means to the player, whether the cursor is
//! visible, and which text to show for a message id.
use vstd::prelude::*;
use crate::game_input::GamepadHandle;

verus! {

/// The cursors that a movie asks for.
#[derive(Clone, Copy, Debug, PartialEq, Eq, Structural)]
pub enum MouseCursor {
    Arrow,
    Hand,
    IBeam,
    Grab,
}

/// The cursor icons of the windowing system that the front end uses.
#[derive(Clone, Copy, Debug, PartialEq, Eq, Structural)]
pub enum CursorIcon {
    Arrow,
    Hand,
    Text,
    Grab,
}

/// The icon shown for a cursor: the text beam for `IBeam`, the icon of the
/// same name for the others.
pub fn cursor_icon(cursor: MouseCursor) -> (icon: CursorIcon)
    ensures
        icon == (match cursor {
            MouseCursor::Arrow => CursorIcon::Arrow,
            MouseCursor::Hand => CursorIcon::Hand,
            MouseCursor::IBeam => CursorIcon::Text,
            MouseCursor::Grab => CursorIcon::Grab,
        }),
{
    match cursor {
        MouseCursor::Arrow => CursorIcon::Arrow,
        MouseCursor::Hand => CursorIcon::Hand,
        MouseCursor::IBeam => CursorIcon::Text,
        MouseCursor::Grab => CursorIcon::Grab,
    }
}

/// What a gamepad library reports of a gamepad.
#[derive(Clone, Copy, Debug, PartialEq, Eq, Structural)]
pub enum GamepadEventKind {
    Connected,
    Disconnected,
    /// Any other event (buttons, axes, ...), which the front end ignores.
    Other,
}

/// A gamepad that came or went, as the player hears of it.
#[derive(Clone, Copy, Debug, PartialEq, Eq, Structural)]
pub struct GamepadChange {
    pub added: bool,
    pub handle: GamepadHandle,
}

/// The change that a gamepad event makes known to the player: a connection
/// adds the gamepad, a disconnection removes it, other events say nothing.
pub fn gamepad_change(kind: GamepadEventKind, handle: GamepadHandle) -> (r: Option<GamepadChange>)
    ensures
        r == (match kind {
            GamepadEventKind::Connected => Some(GamepadChange { added: true, handle }),
            GamepadEventKind::Disconnected => Some(GamepadChange { added: false, handle }),
            GamepadEventKind::Other => None,
        }),
{
    match kind {
        GamepadEventKind::Connected => Some(GamepadChange { added: true, handle }),
        GamepadEventKind::Disconnected => Some(GamepadChange { added: false, handle }),
        GamepadEventKind::Other => None,
    }
}

/// The changes that a run of gamepad events makes known, in order.
pub open spec fn gamepad_changes(events: Seq<(GamepadEventKind, GamepadHandle)>) -> Seq<
    GamepadChange,
>
    decreases events.len(),
{
    if events.len() == 0 {
        Seq::empty()
    } else {
        let rest = gamepad_changes(events.drop_last());
        match events.last().0 {
            GamepadEventKind::Connected => rest.push(
                GamepadChange { added: true, handle: events.last().1 },
            ),
            GamepadEventKind::Disconnected => rest.push(
                GamepadChange { added: false, handle: events.last().1 },
            ),
            GamepadEventKind::Other => rest,
        }
    }
}

/// The changes to send for the events polled from the gamepad library, in
/// the order they came.
pub fn poll_gamepad_events(events: &Vec<(GamepadEventKind, GamepadHandle)>) -> (r: Vec<
    GamepadChange,
>)
    ensures
        r@ == gamepad_changes(events@),
{
    let mut out: Vec<GamepadChange> = Vec::new();
    let mut i: usize = 0;
    while i < events.len()
        invariant
            i <= events@.len(),
            out@ == gamepad_changes(events@.subrange(0, i as int)),
        decreases events@.len() - i,
    {
        let (kind, handle) = events[i];
        assert(events@.subrange(0, i + 1).drop_last() == events@.subrange(0, i as int));
        if let Some(c) = gamepad_change(kind, handle) {
            out.push(c);
        }
        i = i + 1;
    }
    assert(events@.subrange(0, events@.len() as int) == events@);
    out
}

/// The state of the front end's user interface that the player can read.
#[derive(Clone, Copy, Debug, PartialEq, Eq, Structural)]
pub struct UiState {
    pub cursor_visible: bool,
    pub gamepads_available: bool,
}

impl UiState {
    /// A new interface: the cursor is shown; gamepads are supported when the
    /// gamepad library could be opened.
    pub fn new(gamepads_available: bool) -> (s: UiState)
        ensures
            s.cursor_visible,
            s.gamepads_available == gamepads_available,
    {
        UiState { cursor_visible: true, gamepads_available }
    }

    pub fn mouse_visible(&self) -> (r: bool)
        ensures
            r == self.cursor_visible,
    {
        self.cursor_visible
    }

    pub fn set_mouse_visible(&mut self, visible: bool)
        ensures
            *final(self) == (UiState { cursor_visible: visible, ..*old(self) }),
    {
        self.cursor_visible = visible;
    }

    pub fn supports_gamepads(&self) -> (r: bool)
        ensures
            r == self.gamepads_available,
    {
        self.gamepads_available
    }
}

/// How serious a dialog is.
#[derive(Clone, Copy, Debug, PartialEq, Eq, Structural)]
pub enum MessageLevel {
    Info,
    Warning,
}

/// A dialog with an OK button.
#[derive(Clone, Debug, PartialEq, Eq)]
pub struct MessageDialog {
    pub level: MessageLevel,
    pub title: String,
    pub description: String,
}

/// The text shown for content that may use unsupported ActionScript 3.
pub const UNSUPPORTED_CONTENT_MESSAGE: &'static str = "The Ruffle emulator may not yet fully support all of ActionScript 3 used by this content.\nSome parts of the content may not work as expected.\n\nSee the following link for more info:\nhttps://github.com/ruffle-rs/ruffle/wiki/Frequently-Asked-Questions-For-Users";

/// The text shown when the root movie cannot be opened or downloaded.
pub const DOWNLOAD_FAILED_MESSAGE: &'static str = "Ruffle failed to open or download this file.";

/// The warning about unsupported content.
pub fn unsupported_message_dialog() -> (d: MessageDialog)
    ensures
        d.level == MessageLevel::Warning,
        d.title@ == "Ruffle - Unsupported content"@,
        d.description@ == UNSUPPORTED_CONTENT_MESSAGE@,
{
    MessageDialog {
        level: MessageLevel::Warning,
        title: String::from_str("Ruffle - Unsupported content"),
        description: String::from_str(UNSUPPORTED_CONTENT_MESSAGE),
    }
}

/// The warning that the root movie could not be loaded.
pub fn download_failed_dialog() -> (d: MessageDialog)
    ensures
        d.level == MessageLevel::Warning,
        d.title@ == "Ruffle - Load failed"@,
        d.description@ == DOWNLOAD_FAILED_MESSAGE@,
{
    MessageDialog {
        level: MessageLevel::Warning,
        title: String::from_str("Ruffle - Load failed"),
        description: String::from_str(DOWNLOAD_FAILED_MESSAGE),
    }
}

/// A message from the movie.
pub fn message_dialog(message: &str) -> (d: MessageDialog)
    ensures
        d.level == MessageLevel::Info,
        d.title@ == "Ruffle"@,
        d.description@ == message@,
{
    MessageDialog {
        level: MessageLevel::Info,
        title: String::from_str("Ruffle"),
        description: String::from_str(message),
    }
}

/// The text of a message id: the translation found for the language, or
/// the id itself when there is none.
pub fn text(found: Option<String>, id: &str) -> (r: String)
    ensures
        found matches Some(t) ==> r@ == t@,
        found is None ==> r@ == id@,
{
    match found {
        Some(t) => t,
        None => String::from_str(id),
    }
}

/// A window event that the player's event loop reacts to; `P` is a
/// position in physical pixels and `S` a size, which the window system
/// computes.
#[derive(Clone, Copy, Debug, PartialEq, Eq)]
pub enum WindowEvent<P, S> {
    Resized(S),
    CursorMoved(P),
    LeftButton { pressed: bool },
    CursorLeft,
    CloseRequested,
    /// Any other event, which the loop ignores.
    Other,
}

/// What the event loop does for one window event.
#[derive(Clone, Copy, Debug, PartialEq, Eq)]
pub enum LoopAction<P, S> {
    /// Resize the player's and the renderer's viewport.
    Resize(S),
    MouseMove(P),
    MouseDown(P),
    MouseUp(P),
    MouseLeft,
    /// Leave the loop.
    Close,
    Nothing,
}

/// One step of the player's event loop: the last known mouse position
/// after `event`, and what to do. Button presses and releases happen at
/// the last position the cursor moved to.
pub fn window_event_step<P: Copy, S: Copy>(mouse_pos: P, event: WindowEvent<P, S>) -> (r: (
    P,
    LoopAction<P, S>,
))
    ensures
        r == (match event {
            WindowEvent::Resized(size) => (mouse_pos, LoopAction::Resize(size)),
            WindowEvent::CursorMoved(p) => (p, LoopAction::MouseMove(p)),
            WindowEvent::LeftButton { pressed } => (
                mouse_pos,
                if pressed {
                    LoopAction::MouseDown(mouse_pos)
                } else {
                    LoopAction::MouseUp(mouse_pos)
                },
            ),
            WindowEvent::CursorLeft => (mouse_pos, LoopAction::MouseLeft),
            WindowEvent::CloseRequested => (mouse_pos, LoopAction::Close),
            WindowEvent::Other => (mouse_pos, LoopAction::Nothing),
        }),
{
    match event {
        WindowEvent::Resized(size) => (mouse_pos, LoopAction::Resize(size)),
        WindowEvent::CursorMoved(p) => (p, LoopAction::MouseMove(p)),
        WindowEvent::LeftButton { pressed } => {
            if pressed {
                (mouse_pos, LoopAction::MouseDown(mouse_pos))
            } else {
                (mouse_pos, LoopAction::MouseUp(mouse_pos))
            }
        },
        WindowEvent::CursorLeft => (mouse_pos, LoopAction::MouseLeft),
        WindowEvent::CloseRequested => (mouse_pos, LoopAction::Close),
        WindowEvent::Other => (mouse_pos, LoopAction::Nothing),
    }
}

} // verus!
