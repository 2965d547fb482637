//! Reversible mutation commands against the scene store.
//!
//! A command carries the target node's handle and one field value. Executing
//! it swaps that value with the node's current field, so the command comes
//! out holding the previous value; reverting performs the same swap again and
//! restores the prior state exactly. A command addressed to a node of the
//! wrong variant leaves both the command and the node untouched (a stale or
//! mismatched target is treated as absent, never as a fault).

use vstd::prelude::*;
use crate::handle::Handle;
use crate::scene::{Base, Camera, ColorGradingLut, Exposure, Node, RectValue, ScalarBits, SkyBox,
    Sprite, Texture};

verus! {

/// One reversible mutation: which field of which node, and the value to put
/// there (after execution: the value that was there).
#[derive(Clone, Copy, Debug, PartialEq, Eq, Structural)]
#[allow(inconsistent_fields)]
pub enum Command {
    SetExposure { handle: Handle, value: Exposure },
    SetZNear { handle: Handle, value: ScalarBits },
    SetZFar { handle: Handle, value: ScalarBits },
    SetFov { handle: Handle, value: ScalarBits },
    SetViewport { handle: Handle, value: RectValue },
    SetCameraPreview { handle: Handle, value: bool },
    SetSkyBox { handle: Handle, value: Option<SkyBox> },
    SetEnvironmentMap { handle: Handle, value: Option<Texture> },
    SetColorGradingLut { handle: Handle, value: Option<ColorGradingLut> },
    SetColorGradingEnabled { handle: Handle, value: bool },
    SetVisibility { handle: Handle, value: bool },
    SetDepthOffset { handle: Handle, value: ScalarBits },
    SetSpriteSize { handle: Handle, value: ScalarBits },
}

/// The swap a command performs on a node: returns the command as it stands
/// after execution (holding the displaced value) and the mutated node. On a
/// variant mismatch both are returned unchanged.
pub open spec fn command_swap(cmd: Command, node: Node) -> (Command, Node) {
    match (cmd, node) {
        (Command::SetExposure { handle, value }, Node::Camera(cam)) => (
            Command::SetExposure { handle, value: cam.exposure },
            Node::Camera(Camera { exposure: value, ..cam }),
        ),
        (Command::SetZNear { handle, value }, Node::Camera(cam)) => (
            Command::SetZNear { handle, value: cam.z_near },
            Node::Camera(Camera { z_near: value, ..cam }),
        ),
        (Command::SetZFar { handle, value }, Node::Camera(cam)) => (
            Command::SetZFar { handle, value: cam.z_far },
            Node::Camera(Camera { z_far: value, ..cam }),
        ),
        (Command::SetFov { handle, value }, Node::Camera(cam)) => (
            Command::SetFov { handle, value: cam.fov },
            Node::Camera(Camera { fov: value, ..cam }),
        ),
        (Command::SetViewport { handle, value }, Node::Camera(cam)) => (
            Command::SetViewport { handle, value: cam.viewport },
            Node::Camera(Camera { viewport: value, ..cam }),
        ),
        (Command::SetCameraPreview { handle, value }, Node::Camera(cam)) => (
            Command::SetCameraPreview { handle, value: cam.enabled },
            Node::Camera(Camera { enabled: value, ..cam }),
        ),
        (Command::SetSkyBox { handle, value }, Node::Camera(cam)) => (
            Command::SetSkyBox { handle, value: cam.sky_box },
            Node::Camera(Camera { sky_box: value, ..cam }),
        ),
        (Command::SetEnvironmentMap { handle, value }, Node::Camera(cam)) => (
            Command::SetEnvironmentMap { handle, value: cam.environment },
            Node::Camera(Camera { environment: value, ..cam }),
        ),
        (Command::SetColorGradingLut { handle, value }, Node::Camera(cam)) => (
            Command::SetColorGradingLut { handle, value: cam.color_grading_lut },
            Node::Camera(Camera { color_grading_lut: value, ..cam }),
        ),
        (Command::SetColorGradingEnabled { handle, value }, Node::Camera(cam)) => (
            Command::SetColorGradingEnabled { handle, value: cam.color_grading_enabled },
            Node::Camera(Camera { color_grading_enabled: value, ..cam }),
        ),
        (Command::SetVisibility { handle, value }, _) => (
            Command::SetVisibility { handle, value: node.base_spec().visibility },
            node.with_base_spec(Base { visibility: value, ..node.base_spec() }),
        ),
        (Command::SetDepthOffset { handle, value }, _) => (
            Command::SetDepthOffset { handle, value: node.base_spec().depth_offset },
            node.with_base_spec(Base { depth_offset: value, ..node.base_spec() }),
        ),
        (Command::SetSpriteSize { handle, value }, Node::Sprite(sprite)) => (
            Command::SetSpriteSize { handle, value: sprite.size },
            Node::Sprite(Sprite { size: value, ..sprite }),
        ),
        _ => (cmd, node),
    }
}

/// The handle a command is addressed to.
pub open spec fn command_handle(cmd: Command) -> Handle {
    match cmd {
        Command::SetExposure { handle, .. } => handle,
        Command::SetZNear { handle, .. } => handle,
        Command::SetZFar { handle, .. } => handle,
        Command::SetFov { handle, .. } => handle,
        Command::SetViewport { handle, .. } => handle,
        Command::SetCameraPreview { handle, .. } => handle,
        Command::SetSkyBox { handle, .. } => handle,
        Command::SetEnvironmentMap { handle, .. } => handle,
        Command::SetColorGradingLut { handle, .. } => handle,
        Command::SetColorGradingEnabled { handle, .. } => handle,
        Command::SetVisibility { handle, .. } => handle,
        Command::SetDepthOffset { handle, .. } => handle,
        Command::SetSpriteSize { handle, .. } => handle,
    }
}

/// The same command re-addressed to another handle.
pub open spec fn command_with_handle(cmd: Command, handle: Handle) -> Command {
    match cmd {
        Command::SetExposure { value, .. } => Command::SetExposure { handle, value },
        Command::SetZNear { value, .. } => Command::SetZNear { handle, value },
        Command::SetZFar { value, .. } => Command::SetZFar { handle, value },
        Command::SetFov { value, .. } => Command::SetFov { handle, value },
        Command::SetViewport { value, .. } => Command::SetViewport { handle, value },
        Command::SetCameraPreview { value, .. } => Command::SetCameraPreview { handle, value },
        Command::SetSkyBox { value, .. } => Command::SetSkyBox { handle, value },
        Command::SetEnvironmentMap { value, .. } => Command::SetEnvironmentMap { handle, value },
        Command::SetColorGradingLut { value, .. } => Command::SetColorGradingLut { handle, value },
        Command::SetColorGradingEnabled { value, .. } => Command::SetColorGradingEnabled {
            handle,
            value,
        },
        Command::SetVisibility { value, .. } => Command::SetVisibility { handle, value },
        Command::SetDepthOffset { value, .. } => Command::SetDepthOffset { handle, value },
        Command::SetSpriteSize { value, .. } => Command::SetSpriteSize { handle, value },
    }
}

impl Command {
    /// Apply the mutation: the addressed field takes the command's value and
    /// the command keeps the displaced value, ready for `revert`.
    pub fn execute(&mut self, node: &mut Node)
        ensures
            (*final(self), *final(node)) == command_swap(*old(self), *old(node)),
    {
        let cmd: Command = *self;
        let target: Node = *node;
        let swapped: (Command, Node) = swap_once(cmd, target);
        *self = swapped.0;
        *node = swapped.1;
    }

    /// Undo the mutation: the same swap again, restoring the prior state.
    pub fn revert(&mut self, node: &mut Node)
        ensures
            (*final(self), *final(node)) == command_swap(*old(self), *old(node)),
    {
        self.execute(node);
    }
}

fn swap_once(cmd: Command, node: Node) -> (r: (Command, Node))
    ensures
        r == command_swap(cmd, node),
{
    match (cmd, node) {
        (Command::SetExposure { handle, value }, Node::Camera(cam)) => (
            Command::SetExposure { handle, value: cam.exposure },
            Node::Camera(Camera { exposure: value, ..cam }),
        ),
        (Command::SetZNear { handle, value }, Node::Camera(cam)) => (
            Command::SetZNear { handle, value: cam.z_near },
            Node::Camera(Camera { z_near: value, ..cam }),
        ),
        (Command::SetZFar { handle, value }, Node::Camera(cam)) => (
            Command::SetZFar { handle, value: cam.z_far },
            Node::Camera(Camera { z_far: value, ..cam }),
        ),
        (Command::SetFov { handle, value }, Node::Camera(cam)) => (
            Command::SetFov { handle, value: cam.fov },
            Node::Camera(Camera { fov: value, ..cam }),
        ),
        (Command::SetViewport { handle, value }, Node::Camera(cam)) => (
            Command::SetViewport { handle, value: cam.viewport },
            Node::Camera(Camera { viewport: value, ..cam }),
        ),
        (Command::SetCameraPreview { handle, value }, Node::Camera(cam)) => (
            Command::SetCameraPreview { handle, value: cam.enabled },
            Node::Camera(Camera { enabled: value, ..cam }),
        ),
        (Command::SetSkyBox { handle, value }, Node::Camera(cam)) => (
            Command::SetSkyBox { handle, value: cam.sky_box },
            Node::Camera(Camera { sky_box: value, ..cam }),
        ),
        (Command::SetEnvironmentMap { handle, value }, Node::Camera(cam)) => (
            Command::SetEnvironmentMap { handle, value: cam.environment },
            Node::Camera(Camera { environment: value, ..cam }),
        ),
        (Command::SetColorGradingLut { handle, value }, Node::Camera(cam)) => (
            Command::SetColorGradingLut { handle, value: cam.color_grading_lut },
            Node::Camera(Camera { color_grading_lut: value, ..cam }),
        ),
        (Command::SetColorGradingEnabled { handle, value }, Node::Camera(cam)) => (
            Command::SetColorGradingEnabled { handle, value: cam.color_grading_enabled },
            Node::Camera(Camera { color_grading_enabled: value, ..cam }),
        ),
        (Command::SetVisibility { handle, value }, _) => {
            let base: Base = node.base();
            (
                Command::SetVisibility { handle, value: base.visibility },
                node.with_base(Base { visibility: value, ..base }),
            )
        },
        (Command::SetDepthOffset { handle, value }, _) => {
            let base: Base = node.base();
            (
                Command::SetDepthOffset { handle, value: base.depth_offset },
                node.with_base(Base { depth_offset: value, ..base }),
            )
        },
        (Command::SetSpriteSize { handle, value }, Node::Sprite(sprite)) => (
            Command::SetSpriteSize { handle, value: sprite.size },
            Node::Sprite(Sprite { size: value, ..sprite }),
        ),
        _ => (cmd, node),
    }
}

/// Round trip: executing a command and then reverting it restores both the
/// node (every field byte-for-byte, resource references reference-equal) and
/// the command, whatever the command and whatever the node.
pub proof fn lemma_command_round_trip(cmd: Command, node: Node)
    ensures
        ({
            let (spent, mutated) = command_swap(cmd, node);
            let (restored_cmd, restored_node) = command_swap(spent, mutated);
            restored_cmd == cmd && restored_node == node
        }),
{
}

} // verus!
