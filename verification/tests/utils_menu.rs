use editor_core::gui::{BuildContext, WidgetKind};
use editor_core::handle::Handle;
use editor_core::menu::{create_menu_item, Panels, UtilsMenu};
use editor_core::message::{ButtonMessage, MenuItemMessage, MessageDirection, MessagePayload,
    UiMessage, UserInterface, WindowMessage};

fn setup() -> (BuildContext, UtilsMenu, Panels) {
    let mut ctx = BuildContext::new();
    let menu = UtilsMenu::new(&mut ctx);
    let panels = Panels { path_fixer: Handle::new(55, 9) };
    (ctx, menu, panels)
}

#[test]
fn new_builds_path_fixer_item_under_root_entry() {
    let (ctx, menu, _panels) = setup();
    assert_eq!(ctx.nodes.len(), 2);
    assert_eq!(ctx.nodes[0].kind, WidgetKind::MenuItem);
    assert_eq!(ctx.nodes[0].text, "Path Fixer");
    assert!(ctx.nodes[0].children.is_empty());
    assert_eq!(ctx.nodes[1].kind, WidgetKind::MenuItem);
    assert_eq!(ctx.nodes[1].text, "Utils");
    assert_eq!(ctx.nodes[1].children, vec![menu.open_path_fixer]);
    assert_eq!(menu.open_path_fixer, Handle::new(0, 1));
    assert_eq!(menu.menu, Handle::new(1, 1));
}

#[test]
fn create_menu_item_records_text_and_children() {
    let mut ctx = BuildContext::new();
    let child = ctx.add_node(editor_core::gui::WidgetNode {
        kind: WidgetKind::MenuItem,
        text: "Child".to_string(),
        children: Vec::new(),
    });
    let parent = create_menu_item("Parent", vec![child], &mut ctx);
    assert_eq!(parent, Handle::new(1, 1));
    assert_eq!(ctx.nodes[1].text, "Parent");
    assert_eq!(ctx.nodes[1].children, vec![child]);
}

#[test]
fn click_on_path_fixer_item_opens_modal() {
    let (_ctx, mut menu, panels) = setup();
    let mut ui = UserInterface::new();
    let click = MenuItemMessage::click(menu.open_path_fixer, MessageDirection::FromWidget);
    menu.handle_ui_message(&click, &panels, &mut ui);
    assert_eq!(
        ui.messages,
        vec![UiMessage {
            destination: panels.path_fixer,
            direction: MessageDirection::ToWidget,
            payload: MessagePayload::Window(WindowMessage::OpenModal { center: true }),
        }]
    );
}

#[test]
fn click_on_other_item_is_silent() {
    let (_ctx, mut menu, panels) = setup();
    let mut ui = UserInterface::new();
    let click = MenuItemMessage::click(menu.menu, MessageDirection::FromWidget);
    menu.handle_ui_message(&click, &panels, &mut ui);
    assert!(ui.messages.is_empty());
}

#[test]
fn button_click_payload_is_ignored_by_menu() {
    let (_ctx, mut menu, panels) = setup();
    let mut ui = UserInterface::new();
    let click = ButtonMessage::click(menu.open_path_fixer, MessageDirection::FromWidget);
    menu.handle_ui_message(&click, &panels, &mut ui);
    assert!(ui.messages.is_empty());
}
