use editor_core::gui::{make_dropdown_list_option, BuildContext, DeletableItem,
    DeletableItemBuilder, NodeHandleMapping, WidgetBuilder, WidgetKind};
use editor_core::handle::Handle;
use editor_core::message::{AssetItemMessage, ButtonMessage, DeletableItemMessage,
    MessageDirection, MessagePayload, UiMessage, UserInterface};

fn built_item() -> (BuildContext, DeletableItem<u32>) {
    let mut ctx = BuildContext::new();
    let content = ctx.add_node(editor_core::gui::WidgetNode {
        kind: WidgetKind::Text,
        text: "content".to_string(),
        children: Vec::new(),
    });
    let item = DeletableItemBuilder::<u32>::new(WidgetBuilder::new())
        .with_content(content)
        .with_data(77)
        .build(&mut ctx);
    (ctx, item)
}

#[test]
fn none_handle_is_none() {
    assert!(Handle::none().is_none());
    assert!(!Handle::new(0, 1).is_none());
}

#[test]
fn asset_item_select_stamps_destination_and_direction() {
    let dest = Handle::new(4, 2);
    let msg = AssetItemMessage::select(dest, MessageDirection::FromWidget, true);
    assert_eq!(
        msg,
        UiMessage {
            destination: dest,
            direction: MessageDirection::FromWidget,
            payload: MessagePayload::AssetItem(AssetItemMessage::Select(true)),
        }
    );
}

#[test]
fn dropdown_option_allocates_text_border_decorator() {
    let mut ctx = BuildContext::new();
    let r = make_dropdown_list_option(&mut ctx, "Shadows");
    assert_eq!(ctx.nodes.len(), 3);
    assert_eq!(ctx.nodes[0].kind, WidgetKind::Text);
    assert_eq!(ctx.nodes[0].text, "Shadows");
    assert!(ctx.nodes[0].children.is_empty());
    assert_eq!(ctx.nodes[1].kind, WidgetKind::Border);
    assert_eq!(ctx.nodes[1].children, vec![Handle::new(0, 1)]);
    assert_eq!(ctx.nodes[2].kind, WidgetKind::Decorator);
    assert_eq!(ctx.nodes[2].children, vec![Handle::new(1, 1)]);
    assert_eq!(r, Handle::new(2, 1));
}

#[test]
fn builder_assembles_item_with_fresh_distinct_handles() {
    let (ctx, item) = built_item();
    assert_eq!(ctx.nodes.len(), 8);
    assert_ne!(item.delete, item.widget.handle);
    assert_eq!(item.data, Some(77));
    // The delete button is a button node; the grid pairs content and action.
    let delete_index = item.delete.index as usize;
    assert_eq!(ctx.nodes[delete_index].kind, WidgetKind::Button);
    let grid = &ctx.nodes[delete_index + 1];
    assert_eq!(grid.kind, WidgetKind::Grid);
    assert_eq!(grid.children, vec![Handle::new(0, 1), item.delete]);
}

#[test]
fn click_on_delete_button_emits_delete_notification() {
    let (_ctx, mut item) = built_item();
    let mut ui = UserInterface::new();
    let click = ButtonMessage::click(item.delete, MessageDirection::FromWidget);
    item.handle_routed_message(&mut ui, &click);
    assert_eq!(
        ui.messages,
        vec![UiMessage {
            destination: item.widget.handle,
            direction: MessageDirection::FromWidget,
            payload: MessagePayload::DeletableItem(DeletableItemMessage::Delete),
        }]
    );
}

#[test]
fn click_elsewhere_is_silent() {
    let (_ctx, mut item) = built_item();
    let mut ui = UserInterface::new();
    let click = ButtonMessage::click(Handle::new(100, 1), MessageDirection::FromWidget);
    item.handle_routed_message(&mut ui, &click);
    assert!(ui.messages.is_empty());
}

#[test]
fn non_click_payload_to_delete_button_is_silent() {
    let (_ctx, mut item) = built_item();
    let mut ui = UserInterface::new();
    let select = AssetItemMessage::select(item.delete, MessageDirection::FromWidget, true);
    item.handle_routed_message(&mut ui, &select);
    assert!(ui.messages.is_empty());
}

#[test]
fn resolve_rewrites_delete_handle_and_redirects_clicks() {
    let (_ctx, mut item) = built_item();
    let old_delete = item.delete;
    let new_delete = Handle::new(40, 2);
    let mut mapping = NodeHandleMapping::new();
    mapping.insert(old_delete, new_delete);
    item.resolve(&mapping);
    assert_eq!(item.delete, new_delete);

    // A click addressed to the new handle triggers the notification...
    let mut ui = UserInterface::new();
    let click_new = ButtonMessage::click(new_delete, MessageDirection::FromWidget);
    item.handle_routed_message(&mut ui, &click_new);
    assert_eq!(ui.messages.len(), 1);

    // ...and the old handle no longer does.
    let mut ui_old = UserInterface::new();
    let click_old = ButtonMessage::click(old_delete, MessageDirection::FromWidget);
    item.handle_routed_message(&mut ui_old, &click_old);
    assert!(ui_old.messages.is_empty());
}

#[test]
fn resolve_without_entry_keeps_handle() {
    let (_ctx, mut item) = built_item();
    let old_delete = item.delete;
    let mapping = NodeHandleMapping::new();
    item.resolve(&mapping);
    assert_eq!(item.delete, old_delete);
}

#[test]
fn resolve_takes_first_matching_entry() {
    let mut mapping = NodeHandleMapping::new();
    mapping.insert(Handle::new(1, 1), Handle::new(10, 1));
    mapping.insert(Handle::new(1, 1), Handle::new(20, 1));
    let mut h = Handle::new(1, 1);
    mapping.resolve(&mut h);
    assert_eq!(h, Handle::new(10, 1));
}
