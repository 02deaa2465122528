use ruffle::context_menu::{ContextMenuCallback, ContextMenuItem, ContextMenuState};
use ruffle::desktop::{
    cursor_icon, download_failed_dialog, gamepad_change, message_dialog, poll_gamepad_events,
    text, unsupported_message_dialog, window_event_step, CursorIcon, LoopAction, WindowEvent, GamepadChange, GamepadEventKind, MessageLevel,
    MouseCursor, UiState, DOWNLOAD_FAILED_MESSAGE, UNSUPPORTED_CONTENT_MESSAGE,
};
use ruffle::game_input::GamepadHandle;
use ruffle::value::ObjectId;
use ruffle::xml::{AnscIter, ChildIter, XmlNode, XmlTree};

#[test]
fn cursors_map_to_window_icons() {
    assert_eq!(cursor_icon(MouseCursor::Arrow), CursorIcon::Arrow);
    assert_eq!(cursor_icon(MouseCursor::Hand), CursorIcon::Hand);
    assert_eq!(cursor_icon(MouseCursor::IBeam), CursorIcon::Text);
    assert_eq!(cursor_icon(MouseCursor::Grab), CursorIcon::Grab);
}

#[test]
fn gamepad_events_become_changes_in_order() {
    assert_eq!(
        gamepad_change(GamepadEventKind::Connected, GamepadHandle(1)),
        Some(GamepadChange { added: true, handle: GamepadHandle(1) })
    );
    assert_eq!(gamepad_change(GamepadEventKind::Other, GamepadHandle(1)), None);
    let events = vec![
        (GamepadEventKind::Connected, GamepadHandle(0)),
        (GamepadEventKind::Other, GamepadHandle(0)),
        (GamepadEventKind::Connected, GamepadHandle(2)),
        (GamepadEventKind::Disconnected, GamepadHandle(0)),
    ];
    assert_eq!(
        poll_gamepad_events(&events),
        vec![
            GamepadChange { added: true, handle: GamepadHandle(0) },
            GamepadChange { added: true, handle: GamepadHandle(2) },
            GamepadChange { added: false, handle: GamepadHandle(0) },
        ]
    );
    assert!(poll_gamepad_events(&vec![]).is_empty());
}

#[test]
fn ui_state_cursor_and_gamepads() {
    let mut ui = UiState::new(false);
    assert!(ui.mouse_visible());
    assert!(!ui.supports_gamepads());
    ui.set_mouse_visible(false);
    assert!(!ui.mouse_visible());
    assert_eq!(ui, UiState { cursor_visible: false, gamepads_available: false });
}

#[test]
fn message_dialogs() {
    let u = unsupported_message_dialog();
    assert_eq!(u.level, MessageLevel::Warning);
    assert_eq!(u.title, "Ruffle - Unsupported content");
    assert_eq!(u.description, UNSUPPORTED_CONTENT_MESSAGE);
    let d = download_failed_dialog();
    assert_eq!(d.level, MessageLevel::Warning);
    assert_eq!(d.title, "Ruffle - Load failed");
    assert_eq!(d.description, DOWNLOAD_FAILED_MESSAGE);
    let m = message_dialog("hello");
    assert_eq!(m.level, MessageLevel::Info);
    assert_eq!(m.title, "Ruffle");
    assert_eq!(m.description, "hello");
}

#[test]
fn text_falls_back_on_the_id() {
    assert_eq!(text(Some("Bonjour".to_string()), "greeting"), "Bonjour");
    assert_eq!(text(None, "greeting"), "greeting");
}

fn item(caption: &str) -> ContextMenuItem {
    ContextMenuItem { enabled: true, separator_before: false, checked: false, caption: caption.to_string() }
}

#[test]
fn context_menu_items_keep_their_callbacks() {
    let mut menu = ContextMenuState::new();
    assert!(menu.info().is_empty());
    menu.push(item("Zoom In"), ContextMenuCallback::Zoom);
    menu.push(item("Play"), ContextMenuCallback::Play);
    menu.push(item("Custom"), ContextMenuCallback::Avm1 { item: ObjectId(4), callback: ObjectId(5) });
    assert_eq!(menu.info().len(), 3);
    assert_eq!(menu.info()[1].caption, "Play");
    assert_eq!(*menu.callback(0), ContextMenuCallback::Zoom);
    assert_eq!(*menu.callback(1), ContextMenuCallback::Play);
    assert_eq!(
        *menu.callback(2),
        ContextMenuCallback::Avm1 { item: ObjectId(4), callback: ObjectId(5) }
    );
}

#[test]
fn xml_children_iterate_from_both_ends() {
    let mut tree = XmlTree::new();
    let root = tree.add_root();
    let a = tree.append_child(root);
    let b = tree.append_child(root);
    let c = tree.append_child(root);
    assert_eq!(tree.children_len(root), 3);
    assert_eq!(tree.get_child_by_index(root, 1), Some(b));
    assert_eq!(tree.get_child_by_index(root, 3), None);
    let mut it = ChildIter::for_node(&tree, root);
    assert_eq!(it.next(&tree), Some(a));
    assert_eq!(it.next_back(&tree), Some(c));
    assert_eq!(it.next(&tree), Some(b));
    assert_eq!(it.next(&tree), None);
    assert_eq!(it.next_back(&tree), None);
    let mut back = ChildIter::for_node(&tree, root);
    assert_eq!(back.next_back(&tree), Some(c));
    assert_eq!(back.next_back(&tree), Some(b));
    assert_eq!(back.next_back(&tree), Some(a));
    assert_eq!(back.next_back(&tree), None);
    let mut leaf = ChildIter::for_node(&tree, a);
    assert_eq!(leaf.next(&tree), None);
}

#[test]
fn xml_ancestors_walk_up_to_the_root() {
    let mut tree = XmlTree::new();
    let root = tree.add_root();
    let a = tree.append_child(root);
    let b = tree.append_child(a);
    assert_eq!(tree.parent(b), Some(a));
    assert_eq!(tree.parent(root), None);
    assert_eq!(tree.parent(XmlNode(99)), None);
    let mut it = AnscIter::for_node(b);
    assert_eq!(it.next(&tree), Some(b));
    assert_eq!(it.next(&tree), Some(a));
    assert_eq!(it.next(&tree), Some(root));
    assert_eq!(it.next(&tree), None);
    assert_eq!(it.next(&tree), None);
}

#[test]
fn window_events_drive_the_player_loop() {
    let start = (0i32, 0i32);
    let (pos, a) = window_event_step::<(i32, i32), (u32, u32)>(start, WindowEvent::CursorMoved((5, 7)));
    assert_eq!((pos, a), ((5, 7), LoopAction::MouseMove((5, 7))));
    let (pos, a) = window_event_step::<_, (u32, u32)>(pos, WindowEvent::LeftButton { pressed: true });
    assert_eq!((pos, a), ((5, 7), LoopAction::MouseDown((5, 7))));
    let (_, a) = window_event_step::<_, (u32, u32)>(pos, WindowEvent::LeftButton { pressed: false });
    assert_eq!(a, LoopAction::MouseUp((5, 7)));
    let (_, a) = window_event_step(pos, WindowEvent::Resized((640u32, 480u32)));
    assert_eq!(a, LoopAction::Resize((640, 480)));
    let (_, a) = window_event_step::<_, (u32, u32)>(pos, WindowEvent::CursorLeft);
    assert_eq!(a, LoopAction::MouseLeft);
    let (_, a) = window_event_step::<_, (u32, u32)>(pos, WindowEvent::CloseRequested);
    assert_eq!(a, LoopAction::Close);
    let (p, a) = window_event_step::<_, (u32, u32)>(pos, WindowEvent::Other);
    assert_eq!((p, a), ((5, 7), LoopAction::Nothing));
}

#[test]
fn child_iterator_mixed_steps_yield_each_child_once() {
    let mut tree = XmlTree::new();
    let root = tree.add_root();
    let kids: Vec<XmlNode> = (0..5).map(|_| tree.append_child(root)).collect();
    for pattern in 0u32..64 {
        let mut it = ChildIter::for_node(&tree, root);
        let mut seen = Vec::new();
        for step in 0..6 {
            let front = pattern & (1 << step) != 0;
            let r = if front { it.next(&tree) } else { it.next_back(&tree) };
            if let Some(n) = r {
                seen.push(n);
            }
        }
        assert_eq!(seen.len(), 5);
        let mut sorted = seen.clone();
        sorted.sort_by_key(|n| n.0);
        assert_eq!(sorted, kids);
        assert_eq!(it.next(&tree), None);
        assert_eq!(it.next_back(&tree), None);
    }
}
