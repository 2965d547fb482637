//! Composite controls: reusable widgets assembled out of primitive ones,
//! wired into the message bus.
//!
//! The widget pool is modelled by `BuildContext`: building a control
//! allocates nodes there and returns generation-checked handles. A composite
//! control stores handles to its children, never the children themselves,
//! and after the surrounding tree is rebuilt elsewhere its handles are
//! rewritten through a `NodeHandleMapping` (`resolve`). Base widget
//! bookkeeping (layout, input routing) belongs to the surrounding framework;
//! the controls here only project child events into their own notifications.

use vstd::prelude::*;
use crate::handle::Handle;
use crate::message::{ButtonMessage, DeletableItemMessage, MessageDirection, MessagePayload,
    UiMessage, UserInterface};

verus! {

/// What kind of primitive widget a pool node is.
#[derive(Clone, Copy, Debug, PartialEq, Eq, Structural)]
pub enum WidgetKind {
    Panel,
    Border,
    Decorator,
    Text,
    Button,
    Image,
    Grid,
    MenuItem,
}

/// One node of the widget pool: its kind, its displayed text (empty where
/// the kind has none) and the handles of its children.
#[derive(Debug)]
pub struct WidgetNode {
    pub kind: WidgetKind,
    pub text: String,
    pub children: Vec<Handle>,
}

/// The widget pool as builders see it: nodes are only ever appended, and the
/// handle of the node at position `i` is index `i` with generation 1.
#[derive(Debug)]
pub struct BuildContext {
    pub nodes: Vec<WidgetNode>,
}

/// The handle of the pool node at position `index`.
pub open spec fn pool_handle(index: nat) -> Handle {
    Handle { index: index as u32, generation: 1 }
}

impl BuildContext {
    pub fn new() -> (r: BuildContext)
        ensures
            r.nodes@ == Seq::<WidgetNode>::empty(),
    {
        BuildContext { nodes: Vec::new() }
    }

    /// Allocate one node and hand back its live handle.
    pub fn add_node(&mut self, node: WidgetNode) -> (r: Handle)
        requires
            old(self).nodes@.len() < u32::MAX,
        ensures
            final(self).nodes@ == old(self).nodes@.push(node),
            r == pool_handle(old(self).nodes@.len()),
    {
        let index: u32 = self.nodes.len() as u32;
        self.nodes.push(node);
        Handle { index, generation: 1 }
    }
}

/// A text line centered in a border, wrapped in a decorator: the standard
/// look of one dropdown-list option. Returns the decorator's handle.
pub fn make_dropdown_list_option(ctx: &mut BuildContext, name: &str) -> (r: Handle)
    requires
        old(ctx).nodes@.len() + 3 <= u32::MAX,
    ensures
        final(ctx).nodes@.len() == old(ctx).nodes@.len() + 3,
        forall|i: int| 0 <= i < old(ctx).nodes@.len() ==> final(ctx).nodes@[i] == old(
            ctx,
        ).nodes@[i],
        final(ctx).nodes@[old(ctx).nodes@.len() as int].kind == WidgetKind::Text,
        final(ctx).nodes@[old(ctx).nodes@.len() as int].text@ == name@,
        final(ctx).nodes@[old(ctx).nodes@.len() as int].children@ == Seq::<Handle>::empty(),
        final(ctx).nodes@[old(ctx).nodes@.len() as int + 1].kind == WidgetKind::Border,
        final(ctx).nodes@[old(ctx).nodes@.len() as int + 1].children@ == seq![
            pool_handle(old(ctx).nodes@.len()),
        ],
        final(ctx).nodes@[old(ctx).nodes@.len() as int + 2].kind == WidgetKind::Decorator,
        final(ctx).nodes@[old(ctx).nodes@.len() as int + 2].children@ == seq![
            pool_handle(old(ctx).nodes@.len() + 1),
        ],
        r == pool_handle(old(ctx).nodes@.len() + 2),
{
    let text = ctx.add_node(
        WidgetNode { kind: WidgetKind::Text, text: name.to_owned(), children: Vec::new() },
    );
    let mut border_children: Vec<Handle> = Vec::new();
    border_children.push(text);
    let border = ctx.add_node(
        WidgetNode { kind: WidgetKind::Border, text: String::new(), children: border_children },
    );
    let mut decorator_children: Vec<Handle> = Vec::new();
    decorator_children.push(border);
    ctx.add_node(
        WidgetNode {
            kind: WidgetKind::Decorator,
            text: String::new(),
            children: decorator_children,
        },
    )
}

/// An old-handle-to-new-handle table, applied to every stored child handle
/// after a subtree was cloned or deserialized elsewhere. A handle without an
/// entry passes through unchanged.
#[derive(Debug)]
pub struct NodeHandleMapping {
    pub pairs: Vec<(Handle, Handle)>,
}

/// The first entry for `h` wins; without one, `h` itself.
pub open spec fn mapped_in(pairs: Seq<(Handle, Handle)>, h: Handle) -> Handle
    decreases pairs.len(),
{
    if pairs.len() == 0 {
        h
    } else if pairs[0].0 == h {
        pairs[0].1
    } else {
        mapped_in(pairs.skip(1), h)
    }
}

impl NodeHandleMapping {
    pub fn new() -> (r: NodeHandleMapping)
        ensures
            r.pairs@ == Seq::<(Handle, Handle)>::empty(),
    {
        NodeHandleMapping { pairs: Vec::new() }
    }

    pub open spec fn mapped_spec(self, h: Handle) -> Handle {
        mapped_in(self.pairs@, h)
    }

    /// Record that the node once at `from` now lives at `to`.
    pub fn insert(&mut self, from: Handle, to: Handle)
        ensures
            final(self).pairs@ == old(self).pairs@.push((from, to)),
    {
        self.pairs.push((from, to));
    }

    /// Rewrite one stored handle through the table.
    pub fn resolve(&self, handle: &mut Handle)
        ensures
            *final(handle) == self.mapped_spec(*old(handle)),
    {
        let target: Handle = *handle;
        let mut i: usize = 0;
        assert(self.pairs@.skip(0) =~= self.pairs@);
        while i < self.pairs.len()
            invariant
                i <= self.pairs@.len(),
                mapped_in(self.pairs@, target) == mapped_in(self.pairs@.skip(i as int), target),
                *handle == target,
                target == *old(handle),
            decreases self.pairs@.len() - i,
        {
            let (from, to) = self.pairs[i];
            assert(self.pairs@.skip(i as int)[0] == self.pairs@[i as int]);
            if from == target {
                assert(mapped_in(self.pairs@.skip(i as int), target) == to);
                *handle = to;
                return;
            }
            assert(self.pairs@.skip(i as int).skip(1) =~= self.pairs@.skip(i as int + 1));
            i = i + 1;
        }
    }
}

/// A widget's own base state: in this core, the handle the pool knows it by.
#[derive(Clone, Copy, Debug, PartialEq, Eq, Structural)]
pub struct Widget {
    pub handle: Handle,
}

impl Widget {
    pub fn handle(&self) -> (r: Handle)
        ensures
            r == self.handle,
    {
        self.handle
    }
}

/// An item that shows some content next to a small button through which the
/// user asks for the item's deletion. The control owns the button's handle;
/// the optional `data` correlates the item with whatever it represents and
/// is never interpreted here.
#[derive(Debug)]
pub struct DeletableItem<D: Clone> {
    pub widget: Widget,
    pub delete: Handle,
    pub data: Option<D>,
}

/// The outward notification a deletable item answers a message with: its own
/// "delete me", emitted exactly when the message is a button click addressed
/// to the item's delete button, and then addressed from the item's own
/// handle in the `FromWidget` direction.
pub open spec fn deletable_emits<D: Clone>(item: DeletableItem<D>, message: UiMessage) -> Option<
    UiMessage> {
    if message.payload == MessagePayload::Button(ButtonMessage::Click) && message.destination
        == item.delete {
        Some(
            UiMessage {
                destination: item.widget.handle,
                direction: MessageDirection::FromWidget,
                payload: MessagePayload::DeletableItem(DeletableItemMessage::Delete),
            },
        )
    } else {
        None
    }
}

impl<D: Clone> DeletableItem<D> {
    /// React to a routed message: project a click on the owned delete button
    /// into this item's own deletion notice, and nothing else. A message
    /// addressed anywhere else — including a stale handle for a button this
    /// control no longer owns — is inert.
    pub fn handle_routed_message(&mut self, ui: &mut UserInterface, message: &UiMessage)
        ensures
            *final(self) == *old(self),
            final(ui).messages@ == match deletable_emits(*old(self), *message) {
                Some(m) => old(ui).messages@.push(m),
                None => old(ui).messages@,
            },
    {
        if message.payload == MessagePayload::Button(ButtonMessage::Click) {
            if message.destination == self.delete {
                ui.send_message(
                    DeletableItemMessage::delete(self.widget.handle(), MessageDirection::FromWidget),
                );
            }
        }
    }

    /// Rewrite the stored child handle after the subtree moved; content and
    /// data are untouched.
    pub fn resolve(&mut self, node_map: &NodeHandleMapping)
        ensures
            final(self).delete == node_map.mapped_spec(old(self).delete),
            final(self).widget == old(self).widget,
            final(self).data == old(self).data,
    {
        node_map.resolve(&mut self.delete);
    }
}

/// Message identity: whatever arrives, a deletable item only ever emits its
/// own notification — addressed to its own handle, in the `FromWidget`
/// direction, carrying the `Delete` payload.
pub proof fn lemma_emitted_identity<D: Clone>(item: DeletableItem<D>, message: UiMessage)
    ensures
        deletable_emits(item, message) matches Some(m) ==> {
            &&& m.destination == item.widget.handle
            &&& m.direction == MessageDirection::FromWidget
            &&& m.payload == MessagePayload::DeletableItem(DeletableItemMessage::Delete)
        },
{
}

/// Resolve correctness: once the delete-button handle is remapped, a click
/// addressed to the new handle triggers the item's outward notification and
/// a click addressed to the old handle no longer does.
pub proof fn lemma_resolve_redirects<D: Clone>(
    item: DeletableItem<D>,
    node_map: NodeHandleMapping,
    new_delete: Handle,
)
    requires
        node_map.mapped_spec(item.delete) == new_delete,
        new_delete != item.delete,
    ensures
        ({
            let resolved = DeletableItem { delete: new_delete, ..item };
            let click_new = UiMessage {
                destination: new_delete,
                direction: MessageDirection::FromWidget,
                payload: MessagePayload::Button(ButtonMessage::Click),
            };
            let click_old = UiMessage {
                destination: item.delete,
                direction: MessageDirection::FromWidget,
                payload: MessagePayload::Button(ButtonMessage::Click),
            };
            &&& deletable_emits(resolved, click_new) == Some(
                UiMessage {
                    destination: item.widget.handle,
                    direction: MessageDirection::FromWidget,
                    payload: MessagePayload::DeletableItem(DeletableItemMessage::Delete),
                },
            )
            &&& deletable_emits(resolved, click_old) is None
        }),
{
}

/// The base-widget configuration a builder starts from. Its layout knobs
/// (sizes, margins, alignment) belong to the rendering framework and carry
/// no observable state in this core.
#[derive(Clone, Copy, Debug, PartialEq, Eq, Structural)]
pub struct WidgetBuilder {}

impl WidgetBuilder {
    pub fn new() -> (r: WidgetBuilder)
        ensures
            r == (WidgetBuilder {  }),
    {
        WidgetBuilder {  }
    }
}

/// Write-once assembly of a deletable item: a widget-builder backbone, an
/// optional content handle, optional associated data, then one `build` that
/// allocates the subtree. Reuse after `build` is not supported: the builder
/// is consumed.
pub struct DeletableItemBuilder<D> {
    pub widget_builder: WidgetBuilder,
    pub content: Handle,
    pub data: Option<D>,
}

impl<D: Clone> DeletableItemBuilder<D> {
    pub fn new(widget_builder: WidgetBuilder) -> (r: DeletableItemBuilder<D>)
        ensures
            r.widget_builder == widget_builder,
            r.content == Handle::none_spec(),
            r.data is None,
    {
        DeletableItemBuilder { widget_builder, content: Handle::none(), data: None }
    }

    pub fn with_data(self, data: D) -> (r: DeletableItemBuilder<D>)
        ensures
            r.widget_builder == self.widget_builder,
            r.content == self.content,
            r.data == Some(data),
    {
        DeletableItemBuilder { widget_builder: self.widget_builder, content: self.content, data: Some(data) }
    }

    pub fn with_content(self, content: Handle) -> (r: DeletableItemBuilder<D>)
        ensures
            r.widget_builder == self.widget_builder,
            r.content == content,
            r.data == self.data,
    {
        DeletableItemBuilder { widget_builder: self.widget_builder, content, data: self.data }
    }

    /// The single side-effecting step: allocate the delete-button subtree
    /// (an icon inside a button inside the action button), arrange content
    /// and action in a two-column grid inside a decorated border, allocate
    /// the control's own node, and hand back the immutable control value
    /// with its freshly allocated handles. The builder is consumed.
    pub fn build(self, ctx: &mut BuildContext) -> (r: DeletableItem<D>)
        requires
            old(ctx).nodes@.len() + 7 <= u32::MAX,
        ensures
            final(ctx).nodes@.len() == old(ctx).nodes@.len() + 7,
            forall|i: int| 0 <= i < old(ctx).nodes@.len() ==> final(ctx).nodes@[i] == old(
                ctx,
            ).nodes@[i],
            final(ctx).nodes@[old(ctx).nodes@.len() as int].kind == WidgetKind::Image,
            final(ctx).nodes@[old(ctx).nodes@.len() as int + 1].kind == WidgetKind::Button,
            final(ctx).nodes@[old(ctx).nodes@.len() as int + 1].children@ == seq![
                pool_handle(old(ctx).nodes@.len()),
            ],
            final(ctx).nodes@[old(ctx).nodes@.len() as int + 2].kind == WidgetKind::Button,
            final(ctx).nodes@[old(ctx).nodes@.len() as int + 2].children@ == seq![
                pool_handle(old(ctx).nodes@.len() + 1),
            ],
            final(ctx).nodes@[old(ctx).nodes@.len() as int + 3].kind == WidgetKind::Grid,
            final(ctx).nodes@[old(ctx).nodes@.len() as int + 3].children@ == seq![
                self.content,
                pool_handle(old(ctx).nodes@.len() + 2),
            ],
            final(ctx).nodes@[old(ctx).nodes@.len() as int + 4].kind == WidgetKind::Border,
            final(ctx).nodes@[old(ctx).nodes@.len() as int + 4].children@ == seq![
                pool_handle(old(ctx).nodes@.len() + 3),
            ],
            final(ctx).nodes@[old(ctx).nodes@.len() as int + 5].kind == WidgetKind::Decorator,
            final(ctx).nodes@[old(ctx).nodes@.len() as int + 5].children@ == seq![
                pool_handle(old(ctx).nodes@.len() + 4),
            ],
            final(ctx).nodes@[old(ctx).nodes@.len() as int + 6].kind == WidgetKind::Panel,
            final(ctx).nodes@[old(ctx).nodes@.len() as int + 6].children@ == seq![
                pool_handle(old(ctx).nodes@.len() + 5),
            ],
            r.delete == pool_handle(old(ctx).nodes@.len() + 2),
            r.widget.handle == pool_handle(old(ctx).nodes@.len() + 6),
            r.delete != r.widget.handle,
            r.data == self.data,
    {
        let image = ctx.add_node(
            WidgetNode { kind: WidgetKind::Image, text: String::new(), children: Vec::new() },
        );
        let mut inner_children: Vec<Handle> = Vec::new();
        inner_children.push(image);
        let inner_button = ctx.add_node(
            WidgetNode { kind: WidgetKind::Button, text: String::new(), children: inner_children },
        );
        let mut delete_children: Vec<Handle> = Vec::new();
        delete_children.push(inner_button);
        let delete = ctx.add_node(
            WidgetNode { kind: WidgetKind::Button, text: String::new(), children: delete_children },
        );
        let mut grid_children: Vec<Handle> = Vec::new();
        grid_children.push(self.content);
        grid_children.push(delete);
        let grid = ctx.add_node(
            WidgetNode { kind: WidgetKind::Grid, text: String::new(), children: grid_children },
        );
        let mut border_children: Vec<Handle> = Vec::new();
        border_children.push(grid);
        let border = ctx.add_node(
            WidgetNode { kind: WidgetKind::Border, text: String::new(), children: border_children },
        );
        let mut decorator_children: Vec<Handle> = Vec::new();
        decorator_children.push(border);
        let decorator = ctx.add_node(
            WidgetNode {
                kind: WidgetKind::Decorator,
                text: String::new(),
                children: decorator_children,
            },
        );
        let mut panel_children: Vec<Handle> = Vec::new();
        panel_children.push(decorator);
        let own = ctx.add_node(
            WidgetNode { kind: WidgetKind::Panel, text: String::new(), children: panel_children },
        );
        DeletableItem { widget: Widget { handle: own }, delete, data: self.data }
    }
}

} // verus!
