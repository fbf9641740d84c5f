use remindr::blocks::{insertion_index_after, position_of, remove_and_previous, ElementNode};
use remindr::nodes::{slash_menu_query, text_event_action, TextAction};
use remindr::dialog::ConfirmDialog;
use remindr::documents::{DocumentState, PersistenceState};
use remindr::drag::{DragController, MovingElement};
use remindr::folders::{check_parent_depth, DepthWalk, FolderError, MAX_FOLDER_DEPTH};
use remindr::menu::{matches_folded, Menu};
use remindr::nodes::{
    remove_slash_command, HeadingMetadata, NodeMenuItem, TextMetadata, TextualNodeDelegate,
    TextualNodeEvent,
};
use remindr::settings::{default_dark_theme, default_light_theme, ThemeMode, ThemeSettings, TitleBar};

#[test]
fn theme_mode_cycles() {
    assert_eq!(ThemeMode::Light.next(), ThemeMode::Dark);
    assert_eq!(ThemeMode::Dark.next(), ThemeMode::System);
    assert_eq!(ThemeMode::System.next(), ThemeMode::Light);
    assert_eq!(ThemeMode::default(), ThemeMode::System);
}

#[test]
fn theme_mode_icons_and_tooltips() {
    assert_eq!(ThemeMode::Light.icon_name(), "sun");
    assert_eq!(ThemeMode::Dark.icon_name(), "moon");
    assert_eq!(ThemeMode::System.icon_name(), "monitor");
    assert_eq!(ThemeMode::Light.tooltip(), "Light mode");
    assert_eq!(ThemeMode::System.tooltip(), "System mode");
}

#[test]
fn theme_settings_defaults_and_cycle() {
    let mut settings = ThemeSettings::default();
    assert_eq!(settings.light, "Default Light");
    assert_eq!(settings.dark, "Default Dark");
    assert_eq!(default_light_theme(), "Default Light");
    assert_eq!(default_dark_theme(), "Default Dark");
    let mut bar = TitleBar::new();
    bar.cycle_theme_mode(&mut settings);
    assert_eq!(settings.mode, ThemeMode::Light);
    bar.cycle_theme_mode(&mut settings);
    assert_eq!(settings.mode, ThemeMode::Dark);
}

fn dropped(from: usize, target: usize, position: MovingElement) -> Vec<char> {
    let mut blocks = vec!['a', 'b', 'c', 'd'];
    let mut drag = DragController::default();
    drag.start_drag(1);
    drag.drop_element_by_index(&mut blocks, from, target, position);
    assert!(!drag.is_dragging);
    assert!(drag.dragging_id.is_none());
    blocks
}

#[test]
fn drop_reorders_blocks() {
    assert_eq!(dropped(0, 2, MovingElement::After), vec!['b', 'a', 'c', 'd']);
    assert_eq!(dropped(0, 2, MovingElement::Before), vec!['b', 'c', 'a', 'd']);
    assert_eq!(dropped(3, 1, MovingElement::Before), vec!['a', 'b', 'd', 'c']);
    assert_eq!(dropped(3, 1, MovingElement::After), vec!['a', 'd', 'b', 'c']);
    assert_eq!(dropped(2, 3, MovingElement::Before), vec!['a', 'b', 'd', 'c']);
    assert_eq!(dropped(1, 9, MovingElement::Before), vec!['a', 'c', 'd', 'b']);
    assert_eq!(dropped(0, 0, MovingElement::After), vec!['a', 'b', 'c', 'd']);
}

#[test]
fn hover_zone_changes() {
    let mut drag = DragController::new();
    assert!(drag.update_hover(5, true, MovingElement::After));
    assert!(!drag.update_hover(5, true, MovingElement::After));
    assert!(drag.update_hover(5, true, MovingElement::Before));
    assert!(!drag.update_hover(6, false, MovingElement::Before));
    assert!(drag.update_hover(5, false, MovingElement::Before));
    assert!(drag.hovered_drop_zone.is_none());
    drag.start_drag(9);
    assert!(!drag.on_outside(false));
    assert!(drag.is_dragging);
    assert!(drag.on_outside(true));
    assert!(!drag.is_dragging);
}

fn loaded() -> DocumentState<u8> {
    let mut state = DocumentState::new();
    state.add_persisted_document(3, "three".to_string(), vec![]);
    state.add_persisted_document(5, "five".to_string(), vec![serde_json::Value::Null]);
    state.add_persisted_document(3, "again".to_string(), vec![]);
    state.add_persisted_document(0, "zero".to_string(), vec![]);
    state
}

#[test]
fn documents_load_once_and_are_found() {
    let mut state = loaded();
    assert_eq!(state.documents.len(), 3);
    assert_eq!(state.documents[0].title, "three");
    assert_eq!(state.get_current_document_index(), Some(2));
    state.add_document_and_focus(5);
    assert_eq!(state.current_opened_document, Some(5));
    assert_eq!(state.opened_document_ids, vec![5]);
    assert_eq!(state.get_current_document_index(), Some(1));
    state.add_document(42);
    assert_eq!(state.opened_document_ids, vec![5]);
}

#[test]
fn previous_document() {
    let state = loaded();
    let prev = state.get_previous_document(5).unwrap();
    assert_eq!(prev.uid, 3);
    assert_eq!(prev.title, "three");
    assert!(state.get_previous_document(3).is_none());
    assert!(state.get_previous_document(8).is_none());
    assert_eq!(state.previous_document_index(0), Some(1));
}

#[test]
fn remove_document_keeps_order() {
    let mut state = loaded();
    state.remove_document(5);
    let ids: Vec<i32> = state.documents.iter().map(|d| d.uid).collect();
    assert_eq!(ids, vec![3, 0]);
    state.remove_document(7);
    assert_eq!(state.documents.len(), 2);
}

#[test]
fn change_settles_after_delay() {
    let mut state = loaded();
    assert_eq!(state.mark_changed(100), None);
    state.current_opened_document = Some(5);
    assert_eq!(state.mark_changed(200), Some(5));
    assert_eq!(state.persistence, PersistenceState::Pending);
    state.mark_changed(300);
    assert!(!state.settle(200));
    assert_eq!(state.persistence, PersistenceState::Pending);
    assert!(!state.pending_notification);
    assert!(state.settle(300));
    assert_eq!(state.persistence, PersistenceState::Idle);
    assert!(state.pending_notification);
    let mut fresh = DocumentState::<u8>::default();
    assert!(!fresh.settle(0));
    assert_eq!(fresh.persistence, PersistenceState::Idle);
    assert!(fresh.pending_notification);
}

#[test]
fn confirm_dialog_builder() {
    let dialog: ConfirmDialog<fn() -> bool> = ConfirmDialog::new("Delete Document");
    assert_eq!(dialog.title, "Delete Document");
    assert_eq!(dialog.confirm_text, "Confirm");
    assert_eq!(dialog.cancel_text, "Cancel");
    assert!(!dialog.is_danger);
    assert!(dialog.message.is_none());
    fn close() -> bool {
        true
    }
    let dialog = dialog
        .message("This cannot be undone.")
        .confirm_text("Delete")
        .cancel_text("Keep")
        .danger()
        .on_confirm(close as fn() -> bool);
    assert_eq!(dialog.message.as_deref(), Some("This cannot be undone."));
    assert_eq!(dialog.confirm_text, "Delete");
    assert_eq!(dialog.cancel_text, "Keep");
    assert!(dialog.is_danger);
    assert!((dialog.on_confirm.unwrap())());
}

#[test]
fn menu_filters_without_case() {
    let mut menu = Menu::new();
    assert_eq!(menu.filter_elements().len(), 2);
    menu.search = Some("TEX".to_string());
    let shown: Vec<&String> = menu.filter_elements();
    assert_eq!(shown, vec![&"Text".to_string()]);
    menu.search = Some("block".to_string());
    assert_eq!(menu.filter_elements(), vec![&"Codeblock".to_string()]);
    menu.search = Some("zzz".to_string());
    assert!(menu.filter_elements().is_empty());
    menu.search = Some(String::new());
    assert_eq!(menu.filter_elements().len(), 2);
    assert!(matches_folded("ode", "codeblock"));
    assert!(!matches_folded("Ode", "codeblock"));
}

#[test]
fn slash_command_removed() {
    assert_eq!(remove_slash_command("hello /head"), "hello ");
    assert_eq!(remove_slash_command("a/b/c"), "a/b");
    assert_eq!(remove_slash_command("plain"), "plain");
    assert_eq!(remove_slash_command("/"), "");
}

#[derive(Default)]
struct Field {
    focused: bool,
    events: Vec<String>,
}

impl TextualNodeDelegate for Field {
    fn set_focused(&mut self, focused: bool) {
        self.focused = focused;
    }

    fn on_textual_event(&mut self, event: TextualNodeEvent) {
        let name = match event {
            TextualNodeEvent::Focus => "focus",
            TextualNodeEvent::Blur => "blur",
            _ => "other",
        };
        self.events.push(name.to_string());
    }
}

#[test]
fn focus_and_blur_reach_delegate() {
    let mut field = Field::default();
    field.handle_focus();
    assert!(field.focused);
    field.handle_blur();
    assert!(!field.focused);
    assert_eq!(field.events, vec!["focus".to_string(), "blur".to_string()]);
}

#[test]
fn node_metadata_defaults() {
    assert_eq!(HeadingMetadata::default().level, 1);
    assert_eq!(HeadingMetadata::default().content, "");
    assert_eq!(TextMetadata::default().content, "");
    let item = NodeMenuItem::new("delete", "Delete", "icons/trash.svg", 3u8);
    assert_eq!(item.id, "delete");
    assert_eq!(item.label, "Delete");
    assert_eq!(item.icon_path, "icons/trash.svg");
    assert_eq!(item.action, 3);
}

#[test]
fn folder_depth_limit() {
    assert_eq!(MAX_FOLDER_DEPTH, 3);
    assert!(check_parent_depth(1).is_ok());
    assert!(check_parent_depth(2).is_ok());
    assert_eq!(check_parent_depth(3), Err(FolderError::TooDeep));
    let mut walk = DepthWalk::start(10);
    assert!(walk.step(Some(4)));
    assert!(walk.step(Some(1)));
    assert!(!walk.step(None));
    assert_eq!(walk.depth, 3);
    assert_eq!(walk.current_id, 1);
}

#[test]
fn slash_menu_query_follows_last_slash() {
    assert_eq!(slash_menu_query("hello /"), Some(String::new()));
    assert_eq!(slash_menu_query("hello /hea"), Some("hea".to_string()));
    assert_eq!(slash_menu_query("a/b /c"), Some("c".to_string()));
    assert_eq!(slash_menu_query("path/ name"), None);
    assert_eq!(slash_menu_query("no command"), None);
}

#[test]
fn text_events_decide_actions() {
    assert_eq!(text_event_action(&TextualNodeEvent::SlashTyped, false, true), TextAction::OpenMenu);
    assert_eq!(text_event_action(&TextualNodeEvent::SlashTyped, true, true), TextAction::Nothing);
    assert_eq!(
        text_event_action(&TextualNodeEvent::Empty, false, true),
        TextAction::RemoveAndFocusPrevious
    );
    assert_eq!(text_event_action(&TextualNodeEvent::Empty, false, false), TextAction::Nothing);
    assert_eq!(text_event_action(&TextualNodeEvent::Enter, false, true), TextAction::InsertTextAfter);
    assert_eq!(text_event_action(&TextualNodeEvent::Enter, true, true), TextAction::Nothing);
    assert_eq!(
        text_event_action(&TextualNodeEvent::Change("x".to_string()), false, true),
        TextAction::MarkChanged
    );
    assert_eq!(text_event_action(&TextualNodeEvent::Backspace, false, true), TextAction::Nothing);
}

#[test]
fn block_positions() {
    let mut blocks = vec![
        ElementNode::with_id(10, 'a'),
        ElementNode::with_id(20, 'b'),
        ElementNode::with_id(30, 'c'),
    ];
    assert_eq!(position_of(&blocks, 20), Some(1));
    assert_eq!(position_of(&blocks, 99), None);
    assert_eq!(insertion_index_after(&blocks, 30), 3);
    assert_eq!(insertion_index_after(&blocks, 99), 0);
    assert_eq!(remove_and_previous(&mut blocks, 0), Some(0));
    assert_eq!(blocks.iter().map(|b| b.element).collect::<String>(), "bc");
    assert_eq!(remove_and_previous(&mut blocks, 1), Some(0));
    assert_eq!(remove_and_previous(&mut blocks, 0), None);
    assert!(blocks.is_empty());
}

#[test]
fn drop_by_identifier() {
    let mut blocks: Vec<ElementNode<char>> =
        "abcd".chars().enumerate().map(|(i, c)| ElementNode::with_id(i as u128 + 1, c)).collect();
    let mut drag = DragController::new();
    drag.start_drag(1);
    drag.on_drop(&mut blocks, 3, MovingElement::Before);
    assert_eq!(blocks.iter().map(|b| b.element).collect::<String>(), "bcad");
    assert!(!drag.is_dragging);
}
