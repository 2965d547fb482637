//! The editor's utility menu: a root menu entry with one item that opens the
//! path-fixer panel as a modal window.

use vstd::prelude::*;
use crate::gui::{pool_handle, BuildContext, WidgetKind, WidgetNode};
use crate::handle::Handle;
use crate::message::{MenuItemMessage, MessageDirection, MessagePayload, UiMessage, UserInterface,
    WindowMessage};

verus! {

/// Allocate one menu item showing `text` with the given sub-items.
pub fn create_menu_item(text: &str, items: Vec<Handle>, ctx: &mut BuildContext) -> (r: Handle)
    requires
        old(ctx).nodes@.len() < u32::MAX,
    ensures
        final(ctx).nodes@.len() == old(ctx).nodes@.len() + 1,
        forall|i: int| 0 <= i < old(ctx).nodes@.len() ==> final(ctx).nodes@[i] == old(
            ctx,
        ).nodes@[i],
        final(ctx).nodes@[old(ctx).nodes@.len() as int].kind == WidgetKind::MenuItem,
        final(ctx).nodes@[old(ctx).nodes@.len() as int].text@ == text@,
        final(ctx).nodes@[old(ctx).nodes@.len() as int].children@ == items@,
        r == pool_handle(old(ctx).nodes@.len()),
{
    ctx.add_node(WidgetNode { kind: WidgetKind::MenuItem, text: text.to_owned(), children: items })
}

/// Allocate one top-level menu entry showing `text` with the given items.
pub fn create_root_menu_item(text: &str, items: Vec<Handle>, ctx: &mut BuildContext) -> (r: Handle)
    requires
        old(ctx).nodes@.len() < u32::MAX,
    ensures
        final(ctx).nodes@.len() == old(ctx).nodes@.len() + 1,
        forall|i: int| 0 <= i < old(ctx).nodes@.len() ==> final(ctx).nodes@[i] == old(
            ctx,
        ).nodes@[i],
        final(ctx).nodes@[old(ctx).nodes@.len() as int].kind == WidgetKind::MenuItem,
        final(ctx).nodes@[old(ctx).nodes@.len() as int].text@ == text@,
        final(ctx).nodes@[old(ctx).nodes@.len() as int].children@ == items@,
        r == pool_handle(old(ctx).nodes@.len()),
{
    ctx.add_node(WidgetNode { kind: WidgetKind::MenuItem, text: text.to_owned(), children: items })
}

/// The panels the menu can address.
#[derive(Clone, Copy, Debug, PartialEq, Eq, Structural)]
pub struct Panels {
    pub path_fixer: Handle,
}

/// The utility menu: its root entry's handle and the handle of the item that
/// opens the path fixer.
#[derive(Clone, Copy, Debug, PartialEq, Eq, Structural)]
pub struct UtilsMenu {
    pub menu: Handle,
    pub open_path_fixer: Handle,
}

/// The outward message the utility menu answers with: a request to open the
/// path-fixer panel as a centered modal, sent exactly when the incoming
/// message is a menu-item click addressed to the menu's own item.
pub open spec fn utils_menu_emits(menu: UtilsMenu, message: UiMessage, panels: Panels) -> Option<
    UiMessage> {
    if message.payload == MessagePayload::MenuItem(MenuItemMessage::Click) && message.destination
        == menu.open_path_fixer {
        Some(
            UiMessage {
                destination: panels.path_fixer,
                direction: MessageDirection::ToWidget,
                payload: MessagePayload::Window(WindowMessage::OpenModal { center: true }),
            },
        )
    } else {
        None
    }
}

impl UtilsMenu {
    /// Build the menu: one "Path Fixer" item under a root "Utils" entry.
    pub fn new(ctx: &mut BuildContext) -> (r: UtilsMenu)
        requires
            old(ctx).nodes@.len() + 2 <= u32::MAX,
        ensures
            final(ctx).nodes@.len() == old(ctx).nodes@.len() + 2,
            forall|i: int| 0 <= i < old(ctx).nodes@.len() ==> final(ctx).nodes@[i] == old(
                ctx,
            ).nodes@[i],
            final(ctx).nodes@[old(ctx).nodes@.len() as int].kind == WidgetKind::MenuItem,
            final(ctx).nodes@[old(ctx).nodes@.len() as int].text@ == "Path Fixer"@,
            final(ctx).nodes@[old(ctx).nodes@.len() as int].children@ == Seq::<Handle>::empty(),
            final(ctx).nodes@[old(ctx).nodes@.len() as int + 1].kind == WidgetKind::MenuItem,
            final(ctx).nodes@[old(ctx).nodes@.len() as int + 1].text@ == "Utils"@,
            final(ctx).nodes@[old(ctx).nodes@.len() as int + 1].children@ == seq![
                r.open_path_fixer,
            ],
            r.open_path_fixer == pool_handle(old(ctx).nodes@.len()),
            r.menu == pool_handle(old(ctx).nodes@.len() + 1),
    {
        let open_path_fixer = create_menu_item("Path Fixer", Vec::new(), ctx);
        let mut items: Vec<Handle> = Vec::new();
        items.push(open_path_fixer);
        let menu = create_root_menu_item("Utils", items, ctx);
        UtilsMenu { menu, open_path_fixer }
    }

    /// React to a bus message: a click on the menu's path-fixer item — and
    /// nothing else — asks for the path-fixer panel as a centered modal.
    pub fn handle_ui_message(
        &mut self,
        message: &UiMessage,
        panels: &Panels,
        ui: &mut UserInterface,
    )
        ensures
            *final(self) == *old(self),
            final(ui).messages@ == match utils_menu_emits(*old(self), *message, *panels) {
                Some(m) => old(ui).messages@.push(m),
                None => old(ui).messages@,
            },
    {
        if message.payload == MessagePayload::MenuItem(MenuItemMessage::Click) {
            if message.destination == self.open_path_fixer {
                ui.send_message(
                    WindowMessage::open_modal(panels.path_fixer, MessageDirection::ToWidget, true),
                );
            }
        }
    }
}

} // verus!
