//! Message protocol: typed, tagged payloads on a directionless bus.
//!
//! Each message is addressed to one widget instance and flows either toward
//! it (`ToWidget`, a command) or away from it (`FromWidget`, a notification).
//! Direction alone is not authoritative: handlers must also check that the
//! destination equals a handle they own. Each payload family offers a
//! constructor helper that stamps destination and direction.

use vstd::prelude::*;
use crate::handle::Handle;

verus! {

#[derive(Clone, Copy, Debug, PartialEq, Eq, Structural)]
pub enum MessageDirection {
    /// A command travelling toward the destination widget.
    ToWidget,
    /// A notification emitted by the destination widget itself.
    FromWidget,
}

/// Notifications of a button widget.
#[derive(Clone, Copy, Debug, PartialEq, Eq, Structural)]
pub enum ButtonMessage {
    Click,
}

/// Notifications of an asset browser item.
#[derive(Clone, Copy, Debug, PartialEq, Eq, Structural)]
pub enum AssetItemMessage {
    Select(bool),
}

/// Notifications of a deletable list item.
#[derive(Clone, Copy, Debug, PartialEq, Eq, Structural)]
pub enum DeletableItemMessage {
    /// The item asks its owner to remove it.
    Delete,
}

/// Notifications of a menu item widget.
#[derive(Clone, Copy, Debug, PartialEq, Eq, Structural)]
pub enum MenuItemMessage {
    Click,
}

/// Commands understood by a window widget.
#[derive(Clone, Copy, Debug, PartialEq, Eq, Structural)]
pub enum WindowMessage {
    /// Open the window as a modal; `center` asks to center it on screen.
    OpenModal { center: bool },
}

/// The closed union of payload families carried on the bus.
#[derive(Clone, Copy, Debug, PartialEq, Eq, Structural)]
pub enum MessagePayload {
    Button(ButtonMessage),
    AssetItem(AssetItemMessage),
    DeletableItem(DeletableItemMessage),
    MenuItem(MenuItemMessage),
    Window(WindowMessage),
}

/// One message on the bus: destination widget, direction, tagged payload.
#[derive(Clone, Copy, Debug, PartialEq, Eq, Structural)]
pub struct UiMessage {
    pub destination: Handle,
    pub direction: MessageDirection,
    pub payload: MessagePayload,
}

impl AssetItemMessage {
    /// Constructor helper: stamps destination and direction on a `Select`.
    pub fn select(destination: Handle, direction: MessageDirection, select: bool) -> (r: UiMessage)
        ensures
            r == (UiMessage {
                destination,
                direction,
                payload: MessagePayload::AssetItem(AssetItemMessage::Select(select)),
            }),
    {
        UiMessage {
            destination,
            direction,
            payload: MessagePayload::AssetItem(AssetItemMessage::Select(select)),
        }
    }
}

impl DeletableItemMessage {
    /// Constructor helper: stamps destination and direction on a `Delete`.
    pub fn delete(destination: Handle, direction: MessageDirection) -> (r: UiMessage)
        ensures
            r == (UiMessage {
                destination,
                direction,
                payload: MessagePayload::DeletableItem(DeletableItemMessage::Delete),
            }),
    {
        UiMessage {
            destination,
            direction,
            payload: MessagePayload::DeletableItem(DeletableItemMessage::Delete),
        }
    }
}

impl ButtonMessage {
    /// Constructor helper: stamps destination and direction on a `Click`.
    pub fn click(destination: Handle, direction: MessageDirection) -> (r: UiMessage)
        ensures
            r == (UiMessage {
                destination,
                direction,
                payload: MessagePayload::Button(ButtonMessage::Click),
            }),
    {
        UiMessage { destination, direction, payload: MessagePayload::Button(ButtonMessage::Click) }
    }
}

impl MenuItemMessage {
    /// Constructor helper: stamps destination and direction on a `Click`.
    pub fn click(destination: Handle, direction: MessageDirection) -> (r: UiMessage)
        ensures
            r == (UiMessage {
                destination,
                direction,
                payload: MessagePayload::MenuItem(MenuItemMessage::Click),
            }),
    {
        UiMessage {
            destination,
            direction,
            payload: MessagePayload::MenuItem(MenuItemMessage::Click),
        }
    }
}

impl WindowMessage {
    /// Constructor helper: stamps destination and direction on an `OpenModal`.
    pub fn open_modal(destination: Handle, direction: MessageDirection, center: bool) -> (r:
        UiMessage)
        ensures
            r == (UiMessage {
                destination,
                direction,
                payload: MessagePayload::Window(WindowMessage::OpenModal { center }),
            }),
    {
        UiMessage {
            destination,
            direction,
            payload: MessagePayload::Window(WindowMessage::OpenModal { center }),
        }
    }
}

/// The message bus as the controls see it: a sink that records every message
/// sent during the current update turn, in order. Delivery (including the
/// silent drop of messages addressed to `NONE`) is the surrounding
/// framework's concern, not this layer's.
pub struct UserInterface {
    pub messages: Vec<UiMessage>,
}

impl UserInterface {
    pub fn new() -> (r: UserInterface)
        ensures
            r.messages@ == Seq::<UiMessage>::empty(),
    {
        UserInterface { messages: Vec::new() }
    }

    /// Enqueue one message; nothing else changes.
    pub fn send_message(&mut self, message: UiMessage)
        ensures
            final(self).messages@ == old(self).messages@.push(message),
    {
        self.messages.push(message);
    }
}

} // verus!
